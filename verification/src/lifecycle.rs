//! The window-thread lifecycle: the creation handshake, the process-wide
//! class registry, the creation outcome, and the message loop's decisions.
//!
//! The shell spawns the dedicated thread, makes the native calls and
//! blocks on the condition variable; what to do at each step is decided
//! here.

use vstd::prelude::*;
use crate::dispatch::NativeAction;
use crate::dispatch::NativeMsg;
use crate::dispatch::dispatch_spec;
use crate::error::Error;
use crate::error::InternalError;
use crate::probe::Win32;
use crate::userdata::UserDataModel;

verus! {

/// The one-shot slot through which the window thread hands the creation
/// result to the creating thread.
///
/// The slot is written exactly once, by the window thread; the creating
/// thread waits until it is populated and then consumes it. The waiting
/// itself (a mutex and condition variable around this value) is the
/// shell's, as is the signaling; the single-write discipline is enforced
/// here.
pub struct CreationHandshake<T> {
    slot: Option<T>,
}

impl<T> CreationHandshake<T> {
    /// Whether the slot has been populated.
    pub closed spec fn is_fulfilled(&self) -> bool {
        self.slot is Some
    }

    /// The value the slot was populated with.
    pub closed spec fn value(&self) -> T {
        self.slot->0
    }

    /// What an attempted write does: an empty slot takes the value, a
    /// populated slot refuses it and keeps what it holds.
    pub closed spec fn spec_try_fulfill(self, v: T) -> (CreationHandshake<T>, bool) {
        match self.slot {
            None => (CreationHandshake { slot: Some(v) }, true),
            Some(_) => (self, false),
        }
    }

    /// An empty handshake slot.
    pub fn new() -> (r: Self)
        ensures
            !r.is_fulfilled(),
    {
        Self { slot: None }
    }

    /// Populates the slot. Only the window thread calls this, and only
    /// once; a populated slot is never written again.
    pub fn fulfill(&mut self, v: T)
        requires
            !old(self).is_fulfilled(),
        ensures
            final(self).is_fulfilled(),
            final(self).value() == v,
    {
        self.slot = Some(v);
    }

    /// Attempts to populate the slot, refusing if it already holds a
    /// value: the refused value comes back to the caller, and the slot
    /// keeps what the first writer stored.
    pub fn try_fulfill(&mut self, v: T) -> (r: Result<(), T>)
        ensures
            (*final(self), r is Ok) == old(self).spec_try_fulfill(v),
            r matches Err(w) ==> w == v,
    {
        match self.slot {
            Some(_) => Err(v),
            None => {
                self.slot = Some(v);
                Ok(())
            },
        }
    }

    /// Consumes the slot's value, leaving it empty.
    pub fn take(&mut self) -> (r: Option<T>)
        ensures
            r is Some <==> old(self).is_fulfilled(),
            old(self).is_fulfilled() ==> r->0 == old(self).value(),
            !final(self).is_fulfilled(),
    {
        self.slot.take()
    }
}

/// Law (handshake single-write): whatever state the slot starts in, after
/// one write attempt it is populated, and a second attempt never writes:
/// it is refused and the slot keeps exactly what it held.
pub proof fn lemma_handshake_single_write<T>(h: CreationHandshake<T>, v1: T, v2: T)
    ensures
        ({
            let (h1, ok1) = h.spec_try_fulfill(v1);
            let (h2, ok2) = h1.spec_try_fulfill(v2);
            &&& ok1 == !h.is_fulfilled()
            &&& ok1 ==> h1.value() == v1
            &&& h1.is_fulfilled()
            &&& !ok2
            &&& h2 == h1
        }),
{
}

/// The process-wide record of which native window classes exist, guarded
/// by one lock in the shell. Class contents never vary, so a class is
/// registered at most once per name and then reused for the life of the
/// process.
pub struct ClassRegistry {
    names: Vec<Vec<char>>,
}

impl ClassRegistry {
    /// The class names registered so far, in registration order.
    pub closed spec fn registered(&self) -> Seq<Seq<char>> {
        self.names@.map_values(|n: Vec<char>| n@)
    }

    /// Whether a class of this name exists already.
    pub open spec fn is_registered(&self, name: Seq<char>) -> bool {
        self.registered().contains(name)
    }

    /// An empty registry: the state before any window exists.
    pub fn new() -> (r: Self)
        ensures
            r.registered() == Seq::<Seq<char>>::empty(),
    {
        let r = Self { names: Vec::new() };
        proof {
            assert(r.registered() =~= Seq::<Seq<char>>::empty());
        }
        r
    }

    /// Ensures a class of the given name exists, and reports whether this
    /// call was the one that created it. Registration happens at most
    /// once per name; every other caller finds the name present.
    pub fn ensure_registered(&mut self, name: &Vec<char>) -> (created: bool)
        ensures
            created == !old(self).is_registered(name@),
            final(self).is_registered(name@),
            created ==> final(self).registered() == old(self).registered().push(name@),
            !created ==> final(self).registered() == old(self).registered(),
    {
        let n: usize = self.names.len();
        let mut i: usize = 0;
        while i < n
            invariant
                n == self.names@.len(),
                i <= n,
                forall|j: int| 0 <= j < i ==> self.registered()[j] != name@,
            decreases n - i,
        {
            if chars_eq(&self.names[i], name) {
                proof {
                    assert(self.registered()[i as int] == name@);
                }
                return false;
            }
            i = i + 1;
        }
        proof {
            assert(!self.is_registered(name@));
        }
        let owned: Vec<char> = name.clone();
        proof {
            assert(owned@ =~= name@);
        }
        self.names.push(owned);
        proof {
            assert(self.registered() =~= old(self).registered().push(name@));
            assert(self.registered()[self.registered().len() - 1] == name@);
        }
        true
    }
}

/// Compares two character sequences for equality.
fn chars_eq(a: &Vec<char>, b: &Vec<char>) -> (r: bool)
    ensures
        r == (a@ == b@),
{
    if a.len() != b.len() {
        return false;
    }
    let mut i: usize = 0;
    while i < a.len()
        invariant
            a@.len() == b@.len(),
            i <= a@.len(),
            forall|j: int| 0 <= j < i ==> a@[j] == b@[j],
        decreases a@.len() - i,
    {
        if a[i] != b[i] {
            return false;
        }
        i = i + 1;
    }
    proof {
        assert(a@ =~= b@);
    }
    true
}

/// What the message loop does with one retrieval result.
#[derive(Copy, Clone, Debug, PartialEq, Eq, Structural)]
pub enum LoopStep {
    /// Retrieval failed outright: a programming or environment error,
    /// fatal to the window thread.
    Abort,
    /// The quit signal arrived and the cooperative destroy flag is set:
    /// the loop ends.
    Exit,
    /// The quit signal arrived from an unrelated source while the
    /// cooperative destroy flag is unset: ignored, the loop keeps
    /// retrieving.
    KeepWaiting,
    /// An ordinary message: hand it to the dispatcher.
    Dispatch,
}

/// The loop's rule for one retrieval result: a negative status is fatal,
/// the zero "no more messages" status ends the loop only once the
/// cooperative destroy flag has been observed set, and anything else is
/// dispatched.
pub open spec fn spec_message_loop_step(status: i32, destroy_flag: bool) -> LoopStep {
    if status == -1 {
        LoopStep::Abort
    } else if status == 0 {
        if destroy_flag {
            LoopStep::Exit
        } else {
            LoopStep::KeepWaiting
        }
    } else {
        LoopStep::Dispatch
    }
}

/// Decides what the message loop does with one retrieval result.
pub fn message_loop_step(status: i32, destroy_flag: bool) -> (s: LoopStep)
    ensures
        s == spec_message_loop_step(status, destroy_flag),
{
    if status == -1 {
        LoopStep::Abort
    } else if status == 0 {
        if destroy_flag {
            LoopStep::Exit
        } else {
            LoopStep::KeepWaiting
        }
    } else {
        LoopStep::Dispatch
    }
}

/// Settles what creation hands to the handshake: an error the re-entrant
/// callback already captured wins; otherwise a null window handle is
/// reported as an internal error carrying the platform's status code and
/// message; otherwise creation succeeded.
pub fn creation_outcome(
    window_created: bool,
    callback_error: Option<Error>,
    code: u32,
    message: String,
) -> (r: Result<(), Error>)
    ensures
        r is Ok <==> (window_created && callback_error is None),
        callback_error is Some ==> r == Result::<(), Error>::Err(callback_error->0),
        (!window_created && callback_error is None) ==> (r matches Err(e) && e matches
            Error::Internal(ie) && ie.code == code && ie.context@
            == "CreateWindowExW returned NULL."@ && ie.message@ == message@),
{
    match callback_error {
        Some(e) => Err(e),
        None => {
            if window_created {
                Ok(())
            } else {
                Err(
                    Error::from_internal(
                        InternalError::new("CreateWindowExW returned NULL.", code, message),
                    ),
                )
            }
        },
    }
}

/// Law (teardown completes): the authenticated destroy command sets the
/// cooperative flag and requests native destruction; the structural
/// destroy notification then posts the exit signal; and the loop's quit
/// decision under the set flag is to exit. Dropping a window therefore
/// cannot leave its thread's loop running.
pub proof fn lemma_teardown_terminates(ud: UserDataModel, caps: Win32)
    ensures
        ({
            let after = dispatch_spec(ud, caps, NativeMsg::CmdDestroy).state;
            &&& after.destroy_flag
            &&& dispatch_spec(ud, caps, NativeMsg::CmdDestroy).actions == seq![
                NativeAction::DestroyNative,
            ]
            &&& dispatch_spec(after, caps, NativeMsg::Destroy).actions == seq![
                NativeAction::PostQuit,
            ]
            &&& spec_message_loop_step(0, after.destroy_flag) == LoopStep::Exit
        }),
{
}

} // verus!
