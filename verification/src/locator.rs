//! Locating the running virtual machine, and the attachment ledger.
//!
//! The locator itself must ask the host platform for a module handle, an
//! exported symbol, and the enumeration call — outside work this library
//! cannot perform. What it can pin down is every decision along the way:
//! the caller reports each step's outcome as an event, and the step
//! function here says exactly which state follows, which error is owed,
//! and that a report of zero running instances never reaches the
//! attachment step.

use vstd::prelude::*;
use crate::errors::BridgeError;

verus! {

/// Where the locator stands. The steps run strictly in order: resolve the
/// runtime module, resolve the enumeration symbol, enumerate the created
/// virtual machines, attach the calling thread.
#[derive(Clone, Copy, Debug, PartialEq, Eq, Structural)]
pub enum LocateState {
    NeedModule,
    NeedSymbol,
    NeedEnumeration,
    NeedAttach,
    Done,
    Failed(BridgeError),
}

/// What the platform reported for the step the locator is waiting on.
#[derive(Clone, Copy, Debug, PartialEq, Eq, Structural)]
pub enum LocateEvent {
    /// Whether the runtime library was found among the loaded modules.
    ModuleResolved(bool),
    /// Whether the enumeration entry point was found in that library.
    SymbolResolved(bool),
    /// The enumeration call's return code and how many instances it
    /// reported.
    Enumerated { code: i32, count: i32 },
    /// Whether attaching the calling thread as a daemon succeeded.
    Attached(bool),
}

/// The locator's transition relation. An event that does not answer the
/// step the locator is waiting on leaves the state unchanged; terminal
/// states absorb everything.
pub open spec fn spec_locate_step(s: LocateState, e: LocateEvent) -> LocateState {
    match (s, e) {
        (LocateState::NeedModule, LocateEvent::ModuleResolved(found)) => if found {
            LocateState::NeedSymbol
        } else {
            LocateState::Failed(BridgeError::ModuleNotFound)
        },
        (LocateState::NeedSymbol, LocateEvent::SymbolResolved(found)) => if found {
            LocateState::NeedEnumeration
        } else {
            LocateState::Failed(BridgeError::SymbolNotFound)
        },
        (LocateState::NeedEnumeration, LocateEvent::Enumerated { code, count }) => if code == 0
            && count >= 1 {
            LocateState::NeedAttach
        } else {
            LocateState::Failed(BridgeError::NoVmInstances)
        },
        (LocateState::NeedAttach, LocateEvent::Attached(ok)) => if ok {
            LocateState::Done
        } else {
            LocateState::Failed(BridgeError::AttachFailed)
        },
        _ => s,
    }
}

/// Advances the locator by one reported outcome.
pub fn locate_step(s: LocateState, e: LocateEvent) -> (r: LocateState)
    ensures
        r == spec_locate_step(s, e),
{
    match (s, e) {
        (LocateState::NeedModule, LocateEvent::ModuleResolved(found)) => if found {
            LocateState::NeedSymbol
        } else {
            LocateState::Failed(BridgeError::ModuleNotFound)
        },
        (LocateState::NeedSymbol, LocateEvent::SymbolResolved(found)) => if found {
            LocateState::NeedEnumeration
        } else {
            LocateState::Failed(BridgeError::SymbolNotFound)
        },
        (LocateState::NeedEnumeration, LocateEvent::Enumerated { code, count }) => if code == 0
            && count >= 1 {
            LocateState::NeedAttach
        } else {
            LocateState::Failed(BridgeError::NoVmInstances)
        },
        (LocateState::NeedAttach, LocateEvent::Attached(ok)) => if ok {
            LocateState::Done
        } else {
            LocateState::Failed(BridgeError::AttachFailed)
        },
        _ => s,
    }
}

/// Judges the enumeration call alone: it succeeds exactly when it returns
/// the zero code and reports at least one instance, and every failure is
/// `NoVmInstances`, never anything that could pass for a crash.
pub fn evaluate_enumeration(code: i32, count: i32) -> (r: Result<(), BridgeError>)
    ensures
        r is Ok <==> (code == 0 && count >= 1),
        r matches Err(e) ==> e == BridgeError::NoVmInstances,
{
    if code == 0 && count >= 1 {
        Ok(())
    } else {
        Err(BridgeError::NoVmInstances)
    }
}

/// Zero reported instances fail with `NoVmInstances` and never reach the
/// attachment step, whatever the return code said.
pub proof fn lemma_no_instances_never_attaches(code: i32)
    ensures
        spec_locate_step(
            LocateState::NeedEnumeration,
            LocateEvent::Enumerated { code, count: 0 },
        ) == LocateState::Failed(BridgeError::NoVmInstances),
{
}

/// What attaching a thread does to the set of attached threads: nothing
/// at all when the thread is already attached.
pub open spec fn spec_attach(attached: Seq<u64>, tid: u64) -> Seq<u64> {
    if attached.contains(tid) {
        attached
    } else {
        attached.push(tid)
    }
}

/// The bridge's ledger of daemon-attached threads. Attachment is
/// idempotent per thread: re-attaching an attached thread is a no-op that
/// hands back the same thread-local environment, so the ledger records
/// each thread at most once.
pub struct AttachLedger {
    pub attached: Vec<u64>,
}

impl View for AttachLedger {
    type V = Seq<u64>;

    open spec fn view(&self) -> Seq<u64> {
        self.attached@
    }
}

impl AttachLedger {
    /// A ledger with no attached threads.
    pub fn new() -> (r: AttachLedger)
        ensures
            r@ == Seq::<u64>::empty(),
    {
        AttachLedger { attached: Vec::new() }
    }

    /// Whether a thread is already attached.
    pub fn is_attached(&self, tid: u64) -> (r: bool)
        ensures
            r == self@.contains(tid),
    {
        let mut i: usize = 0;
        while i < self.attached.len()
            invariant
                0 <= i <= self@.len(),
                forall|k: int| 0 <= k < i ==> self@[k] != tid,
            decreases self@.len() - i,
        {
            if self.attached[i] == tid {
                return true;
            }
            i = i + 1;
        }
        false
    }

    /// Records an attachment request for a thread. Returns whether the
    /// request performed a first-time attachment; an already-attached
    /// thread leaves the ledger exactly as it was.
    pub fn attach(&mut self, tid: u64) -> (fresh: bool)
        ensures
            final(self)@ == spec_attach(old(self)@, tid),
            fresh == !old(self)@.contains(tid),
            !fresh ==> final(self)@ == old(self)@,
    {
        if self.is_attached(tid) {
            false
        } else {
            self.attached.push(tid);
            true
        }
    }
}

/// Idempotence of attachment: asking twice for the same thread leaves
/// the ledger where one request left it — there is no duplicate
/// attachment side effect, and both requests see the same state.
pub proof fn lemma_attach_idempotent(attached: Seq<u64>, tid: u64)
    ensures
        spec_attach(spec_attach(attached, tid), tid) == spec_attach(attached, tid),
{
    if !attached.contains(tid) {
        assert(attached.push(tid)[attached.len() as int] == tid);
        assert(attached.push(tid).contains(tid));
    }
}

} // verus!
