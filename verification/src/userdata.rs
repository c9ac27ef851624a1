//! The window user-data block: the single point of mutable truth for one
//! window's cross-callback state.
//!
//! Every field except the event queue is owned by the window's own thread:
//! only the dispatcher mutates it, and the dispatcher runs on that thread.
//! The event queue is the one field with cross-thread contention; the
//! consumer side reaches it solely through [`WindowUserData::swap_events`],
//! which exchanges the whole queue in one step and touches nothing else.

use vstd::prelude::*;
use crate::event::CloseReason;
use crate::event::Event;
use crate::window::CursorLock;
use crate::window::WindowStyle;

verus! {

/// The mathematical model of a user-data block.
#[verifier::ext_equal]
pub ghost struct UserDataModel {
    pub close_reason: Option<CloseReason>,
    pub cursor_constrain_escaped: bool,
    pub cursor_lock: Option<CursorLock>,
    pub destroy_flag: bool,
    pub event_queue: Seq<Event>,
    pub focus_state: bool,
    pub window_style: WindowStyle,
}

/// The mutable state owned by a single window, reachable from the native
/// callback through the dispatcher.
pub struct WindowUserData {
    /// The pending close reason, set at most once per close cycle.
    pub close_reason: Option<CloseReason>,
    /// Whether the cursor was deliberately let out of a constraining lock
    /// while the user drags the title bar.
    pub cursor_constrain_escaped: bool,
    /// The current cursor lock mode, if any.
    pub cursor_lock: Option<CursorLock>,
    /// The cooperative destroy flag: set only by the authenticated destroy
    /// command, it distinguishes library-driven teardown from any other
    /// destruction trigger.
    pub destroy_flag: bool,
    /// Buffered events, in the order the native callback observed them.
    pub event_queue: Vec<Event>,
    /// The cached focus flag.
    pub focus_state: bool,
    /// The current window-style snapshot.
    pub window_style: WindowStyle,
}

impl View for WindowUserData {
    type V = UserDataModel;

    open spec fn view(&self) -> UserDataModel {
        UserDataModel {
            close_reason: self.close_reason,
            cursor_constrain_escaped: self.cursor_constrain_escaped,
            cursor_lock: self.cursor_lock,
            destroy_flag: self.destroy_flag,
            event_queue: self.event_queue@,
            focus_state: self.focus_state,
            window_style: self.window_style,
        }
    }
}

/// Holds when two states agree on every window-thread-owned field, so that
/// at most the event queue differs between them.
pub open spec fn only_queue_differs(pre: UserDataModel, post: UserDataModel) -> bool {
    post == (UserDataModel { event_queue: post.event_queue, ..pre })
}

/// What a swap does, as a value: the drained state paired with the events
/// handed to the consumer.
pub open spec fn swap_spec(ud: UserDataModel) -> (UserDataModel, Seq<Event>) {
    (UserDataModel { event_queue: Seq::empty(), ..ud }, ud.event_queue)
}

impl WindowUserData {
    /// Appends one event to the queue; the arrival order is kept.
    pub fn push_event(&mut self, event: Event)
        ensures
            final(self)@.event_queue == old(self)@.event_queue.push(event),
            only_queue_differs(old(self)@, final(self)@),
    {
        self.event_queue.push(event);
    }

    /// Exchanges the queue with the caller's buffer, leaving the queue
    /// empty: the only operation the consuming side of a window performs
    /// on the block, an O(1) handoff that copies no individual event.
    pub fn swap_events(&mut self, buffer: &mut Vec<Event>)
        ensures
            final(self)@ == swap_spec(old(self)@).0,
            final(buffer)@ == swap_spec(old(self)@).1,
    {
        core::mem::swap(&mut self.event_queue, buffer);
        self.event_queue.clear();
    }
}

impl Default for WindowUserData {
    /// The state a user-data block starts from, before the native window
    /// exists.
    fn default() -> (r: Self)
        ensures
            r@ == (UserDataModel {
                close_reason: None,
                cursor_constrain_escaped: false,
                cursor_lock: None,
                destroy_flag: false,
                event_queue: Seq::<Event>::empty(),
                focus_state: false,
                window_style: WindowStyle {
                    borderless: false,
                    resizable: false,
                    visible: false,
                    controls: None,
                    rtl_layout: false,
                    tool_window: false,
                },
            }),
    {
        Self {
            close_reason: None,
            cursor_constrain_escaped: false,
            cursor_lock: None,
            destroy_flag: false,
            event_queue: Vec::new(),
            focus_state: false,
            window_style: Default::default(),
        }
    }
}

/// Law: the consumer-side handoff leaves every window-thread-owned field
/// (style cache, close reason, destroy flag, focus, cursor state) exactly
/// as the window thread last wrote it.
pub proof fn lemma_swap_preserves_window_fields(ud: UserDataModel)
    ensures
        swap_spec(ud).0.close_reason == ud.close_reason,
        swap_spec(ud).0.cursor_constrain_escaped == ud.cursor_constrain_escaped,
        swap_spec(ud).0.cursor_lock == ud.cursor_lock,
        swap_spec(ud).0.destroy_flag == ud.destroy_flag,
        swap_spec(ud).0.focus_state == ud.focus_state,
        swap_spec(ud).0.window_style == ud.window_style,
        only_queue_differs(ud, swap_spec(ud).0),
{
}

/// Law: a swap yields the whole queue, and a second swap with no
/// intervening notification yields nothing.
pub proof fn lemma_swap_idempotent(ud: UserDataModel)
    ensures
        swap_spec(ud).1 == ud.event_queue,
        swap_spec(swap_spec(ud).0).1 == Seq::<Event>::empty(),
{
}

} // verus!
