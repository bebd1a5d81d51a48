//! A verified bridge layer for driving a Java game client over JNI.
//!
//! The crate models the pieces of the bridge that are pure logic — the
//! symbol remap table with its tiny-style mapping format, the
//! virtual-machine locator's decision rules, the attachment ledger, and
//! the poll loop's motion policy — and verifies them with Verus. The
//! managed calls themselves go through a thin trusted layer over the
//! `jni` crate.

pub mod errors;
pub mod game;
pub mod jni_api;
pub mod locator;
pub mod motion;
pub mod remap;
pub mod tiny;
