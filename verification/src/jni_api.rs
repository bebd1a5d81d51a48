//! The trusted boundary to the `jni` crate.
//!
//! Everything the bridge asks of the managed runtime goes through the
//! small set of wrappers here. Each wrapper makes exactly one foreign
//! call; what a call returns reflects the live state of the managed
//! runtime, so apart from the null test no result is given a
//! specification. The wrappers expect the environment of the current JNI
//! stack frame, which is the only environment the bridge ever holds.
//! Names and signatures arrive as byte strings and are converted to the
//! `jni` crate's own string and signature types inside the boundary.

use vstd::prelude::*;
use jni::Env;
use jni::JValue;
use jni::objects::JObject;
use jni::refs::Reference;
use jni::signature::{FieldSignature, MethodSignature, RuntimeFieldSignature,
    RuntimeMethodSignature};
use jni::strings::JNIString;
use jni::sys::jdouble;

verus! {

#[verifier::external_type_specification]
#[verifier::external_body]
pub struct ExEnv<'local>(Env<'local>);

#[verifier::external_type_specification]
#[verifier::external_body]
pub struct ExJObjectRaw(jni::sys::_jobject);

#[verifier::external_type_specification]
#[verifier::external_body]
pub struct ExJObject<'local>(JObject<'local>);

#[verifier::external_type_specification]
#[verifier::external_body]
pub struct ExError(jni::errors::Error);

/// Whether a managed reference is the null reference: a property of the
/// reference value alone.
pub uninterp spec fn is_null_ref(o: &JObject) -> bool;

/// Relies on `Reference::is_null` (implemented by `JObject`): it tests
/// the wrapped raw reference against null, a function of the reference
/// value alone.
#[verifier::external_body]
pub(crate) fn ref_is_null(o: &JObject) -> (r: bool)
    ensures
        r == is_null_ref(o),
{
    Reference::is_null(o)
}

/// Relies on `Env::call_static_method` resolving the class, method and
/// signature by name and invoking the static method; the returned
/// reference reflects live managed state.
#[verifier::external_body]
pub(crate) fn jni_call_static_object<'l>(
    env: &mut Env<'l>,
    class: &[u8],
    name: &[u8],
    sig: &[u8],
) -> (r: Result<JObject<'l>, jni::errors::Error>) {
    let class = JNIString::new(String::from_utf8_lossy(class));
    let name = JNIString::new(String::from_utf8_lossy(name));
    let sig = RuntimeMethodSignature::from_str(String::from_utf8_lossy(sig).as_ref())?;
    env.call_static_method(&class, &name, MethodSignature::from(&sig), &[])?.l()
}

/// Relies on `Env::get_field` reading the named instance field; the
/// returned reference reflects live managed state.
#[verifier::external_body]
pub(crate) fn jni_get_field_object<'l>(
    env: &mut Env<'l>,
    obj: &JObject,
    name: &[u8],
    sig: &[u8],
) -> (r: Result<JObject<'l>, jni::errors::Error>) {
    let name = JNIString::new(String::from_utf8_lossy(name));
    let sig = RuntimeFieldSignature::from_str(String::from_utf8_lossy(sig).as_ref())?;
    env.get_field(obj, &name, FieldSignature::from(&sig))?.l()
}

/// Relies on `Env::call_method` invoking the named no-argument method;
/// the returned reference reflects live managed state.
#[verifier::external_body]
pub(crate) fn jni_call_object<'l>(
    env: &mut Env<'l>,
    obj: &JObject,
    name: &[u8],
    sig: &[u8],
) -> (r: Result<JObject<'l>, jni::errors::Error>) {
    let name = JNIString::new(String::from_utf8_lossy(name));
    let sig = RuntimeMethodSignature::from_str(String::from_utf8_lossy(sig).as_ref())?;
    env.call_method(obj, &name, MethodSignature::from(&sig), &[])?.l()
}

/// Relies on `Env::call_method` invoking the named one-reference-argument
/// method; the returned reference reflects live managed state.
#[verifier::external_body]
pub(crate) fn jni_call_object_arg<'l>(
    env: &mut Env<'l>,
    obj: &JObject,
    name: &[u8],
    sig: &[u8],
    arg: &JObject,
) -> (r: Result<JObject<'l>, jni::errors::Error>) {
    let name = JNIString::new(String::from_utf8_lossy(name));
    let sig = RuntimeMethodSignature::from_str(String::from_utf8_lossy(sig).as_ref())?;
    env.call_method(obj, &name, MethodSignature::from(&sig), &[JValue::Object(arg)])?.l()
}

/// Relies on `Env::call_method` invoking the named method on three
/// double arguments, given as their bit patterns; the returned reference
/// reflects live managed state.
#[verifier::external_body]
pub(crate) fn jni_call_object_ddd<'l>(
    env: &mut Env<'l>,
    obj: &JObject,
    name: &[u8],
    sig: &[u8],
    x: u64,
    y: u64,
    z: u64,
) -> (r: Result<JObject<'l>, jni::errors::Error>) {
    let name = JNIString::new(String::from_utf8_lossy(name));
    let sig = RuntimeMethodSignature::from_str(String::from_utf8_lossy(sig).as_ref())?;
    let args = [
        JValue::Double(jdouble::from_bits(x)),
        JValue::Double(jdouble::from_bits(y)),
        JValue::Double(jdouble::from_bits(z)),
    ];
    env.call_method(obj, &name, MethodSignature::from(&sig), &args)?.l()
}

/// Relies on `Env::call_method` invoking the named double-returning
/// method; the result, handed back as its bit pattern, reflects live
/// managed state.
#[verifier::external_body]
pub(crate) fn jni_call_double(
    env: &mut Env,
    obj: &JObject,
    name: &[u8],
    sig: &[u8],
) -> (r: Result<u64, jni::errors::Error>) {
    let name = JNIString::new(String::from_utf8_lossy(name));
    let sig = RuntimeMethodSignature::from_str(String::from_utf8_lossy(sig).as_ref())?;
    Ok(env.call_method(obj, &name, MethodSignature::from(&sig), &[])?.d()?.to_bits())
}

/// Relies on `Env::call_method` invoking the named boolean-returning
/// method; the result reflects live managed state.
#[verifier::external_body]
pub(crate) fn jni_call_bool(
    env: &mut Env,
    obj: &JObject,
    name: &[u8],
    sig: &[u8],
) -> (r: Result<bool, jni::errors::Error>) {
    let name = JNIString::new(String::from_utf8_lossy(name));
    let sig = RuntimeMethodSignature::from_str(String::from_utf8_lossy(sig).as_ref())?;
    env.call_method(obj, &name, MethodSignature::from(&sig), &[])?.z()
}

/// Relies on `Env::call_method` invoking the named void method on one
/// reference argument.
#[verifier::external_body]
pub(crate) fn jni_call_void_arg(
    env: &mut Env,
    obj: &JObject,
    name: &[u8],
    sig: &[u8],
    arg: &JObject,
) -> (r: Result<(), jni::errors::Error>) {
    let name = JNIString::new(String::from_utf8_lossy(name));
    let sig = RuntimeMethodSignature::from_str(String::from_utf8_lossy(sig).as_ref())?;
    env.call_method(obj, &name, MethodSignature::from(&sig), &[JValue::Object(arg)])?;
    Ok(())
}

/// Relies on `Env::new_object` invoking the named three-double
/// constructor, the arguments given as bit patterns; the returned
/// reference is the freshly allocated managed object.
#[verifier::external_body]
pub(crate) fn jni_new_object_ddd<'l>(
    env: &mut Env<'l>,
    class: &[u8],
    sig: &[u8],
    x: u64,
    y: u64,
    z: u64,
) -> (r: Result<JObject<'l>, jni::errors::Error>) {
    let class = JNIString::new(String::from_utf8_lossy(class));
    let sig = RuntimeMethodSignature::from_str(String::from_utf8_lossy(sig).as_ref())?;
    let args = [
        JValue::Double(jdouble::from_bits(x)),
        JValue::Double(jdouble::from_bits(y)),
        JValue::Double(jdouble::from_bits(z)),
    ];
    env.new_object(&class, MethodSignature::from(&sig), &args)
}

} // verus!
