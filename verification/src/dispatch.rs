//! The native callback dispatcher: the single decision point for every
//! notification concerning a window.
//!
//! The shell around this crate decodes each native notification or
//! library command into a [`NativeMsg`], calls [`dispatch`] on the
//! window's own thread, and then performs the returned [`NativeAction`]s
//! against the live window. All state transitions and every decision —
//! which events are buffered, when styles are reapplied, when teardown is
//! permitted — are made here, under contract; the shell only executes.

use vstd::prelude::*;
use crate::event::CloseReason;
use crate::event::Event;
use crate::probe::Win32;
use crate::probe::spec_needs_nonclient_patch;
use crate::userdata::UserDataModel;
use crate::userdata::WindowUserData;
use crate::window::CursorLock;
use crate::window::WindowControls;
use crate::window::WindowStyle;
use crate::window::lemma_controls_bits_roundtrip;

verus! {

/// The wire value of a controls setter that asks for no control menu.
pub const CONTROLS_NONE_WIRE: u32 = 0xFFFFFFFF;

/// A native notification or library command, decoded to plain values.
///
/// Values the handler can only learn from the platform at arrival time
/// (the builder snapshot at creation, whether the activation click landed
/// in the title bar) are sampled by the shell and carried in the message.
#[derive(Copy, Clone, Debug, PartialEq, Eq, Structural)]
pub enum NativeMsg {
    /// The no-op notification, used for pinging the loop.
    Null,
    /// The init notification, delivered while the native creation call is
    /// still on the stack; carries the builder's style snapshot.
    Create { style: WindowStyle, cursor_lock: Option<CursorLock> },
    /// The structural init notification, delivered before `Create`.
    NcCreate,
    /// The window is being destroyed after removal from the screen.
    Destroy,
    /// The structural teardown notification, after `Destroy`.
    NcDestroy,
    /// The window has been moved.
    Move,
    /// The window has been resized.
    Size,
    /// The window gained or lost focus. `minimized` reports the native
    /// minimized-state word; `titlebar_drag` whether the primary button is
    /// down in the title bar.
    Activate { focused: bool, minimized: bool, titlebar_drag: bool },
    /// The user asked to close the window.
    Close,
    /// The window is being shown or hidden; `from_show_call` is whether
    /// the notification came from the show-window calls rather than
    /// another source.
    ShowWindow { visible: bool, from_show_call: bool },
    /// The user selected a system-menu command; `close` is whether it was
    /// the close item.
    SysCommand { close: bool },
    /// The cursor moved over the window.
    MouseMove,
    /// The window left its native moving or sizing loop.
    ExitSizeMove,
    /// Library command: run a transmitted closure on the window thread.
    CmdExecute,
    /// Library command: the authenticated destroy, distinct from the
    /// public, rejectable close request.
    CmdDestroy,
    /// Library command: forward a transmitted title buffer to the native
    /// title setter.
    CmdSetText,
    /// Library command: update the window controls from their wire form.
    CmdSetControls { bits: u32 },
    /// Library command: set whether the window is resizable.
    CmdSetResizable { resizable: bool },
    /// Library command: set the cursor lock from its wire form.
    CmdSetCursorLock { code: u32 },
    /// Any notification this dispatcher takes no part in.
    Other,
}

/// A native step the shell must take after a dispatch, in order.
#[derive(Copy, Clone, Debug, PartialEq, Eq, Structural)]
pub enum NativeAction {
    /// Hand the notification to the platform's default handling.
    Default,
    /// Enable or disable the close item in the window's system menu.
    SetCloseButton { enabled: bool },
    /// Write the two native style words to the live window.
    ApplyStyle { style: u32, style_ex: u32 },
    /// Ping the native frame so changed decorations are redrawn.
    PingFrame,
    /// Post the thread-local exit signal that ends the dispatch loop.
    PostQuit,
    /// Ask the platform to destroy the native window.
    DestroyNative,
    /// Run the transmitted closure, synchronously, on this thread.
    RunCallback,
    /// Forward the transmitted title buffer to the native title setter,
    /// then release it.
    ForwardTitle,
    /// Store the user-data association in the native per-window slot.
    AssociateUserData,
    /// Install the non-client DPI scaling patch; failing to install it on
    /// a platform that requires it is fatal.
    ApplyDpiPatch,
    /// Re-evaluate the cursor lock for a mode; `newly_set` is whether the
    /// mode was just assigned rather than routinely re-checked.
    UpdateCursorLock { mode: Option<CursorLock>, newly_set: bool },
}

/// The wire form of a controls choice: the packed buttons, or the
/// all-ones sentinel for "no control menu".
pub open spec fn spec_controls_to_wire(controls: Option<WindowControls>) -> u32 {
    match controls {
        Some(c) => c.spec_to_bits(),
        None => CONTROLS_NONE_WIRE,
    }
}

/// The controls choice a wire word encodes.
pub open spec fn spec_controls_from_wire(bits: u32) -> Option<WindowControls> {
    if bits != CONTROLS_NONE_WIRE {
        Some(WindowControls::spec_from_bits(bits))
    } else {
        None
    }
}

/// Encodes a controls choice for a setter command.
pub fn controls_to_wire(controls: Option<WindowControls>) -> (r: u32)
    ensures
        r == spec_controls_to_wire(controls),
{
    match controls {
        Some(c) => c.to_bits(),
        None => CONTROLS_NONE_WIRE,
    }
}

/// Decodes the controls choice of a setter command.
pub fn controls_from_wire(bits: u32) -> (r: Option<WindowControls>)
    ensures
        r == spec_controls_from_wire(bits),
{
    if bits != CONTROLS_NONE_WIRE {
        Some(WindowControls::from_bits(bits))
    } else {
        None
    }
}

/// Law: the wire form of any controls choice decodes back to the same
/// choice.
pub proof fn lemma_controls_wire_roundtrip(controls: Option<WindowControls>)
    ensures
        spec_controls_from_wire(spec_controls_to_wire(controls)) == controls,
{
    match controls {
        Some(c) => {
            lemma_controls_bits_roundtrip(c);
        },
        None => {
        },
    }
}

/// The wire form of a cursor-lock choice: zero is the reserved sentinel
/// for "no lock".
pub open spec fn spec_cursor_lock_to_wire(mode: Option<CursorLock>) -> u32 {
    match mode {
        None => 0,
        Some(CursorLock::Constrain) => 1,
        Some(CursorLock::Center) => 2,
    }
}

/// The cursor-lock choice a wire word encodes.
pub open spec fn spec_cursor_lock_from_wire(code: u32) -> Option<CursorLock> {
    if code == 1 {
        Some(CursorLock::Constrain)
    } else if code == 2 {
        Some(CursorLock::Center)
    } else {
        None
    }
}

/// Encodes a cursor-lock choice for a setter command.
pub fn cursor_lock_to_wire(mode: Option<CursorLock>) -> (r: u32)
    ensures
        r == spec_cursor_lock_to_wire(mode),
        r <= 2,
{
    match mode {
        None => 0,
        Some(CursorLock::Constrain) => 1,
        Some(CursorLock::Center) => 2,
    }
}

/// Decodes the cursor-lock choice of a setter command. Only the wire
/// values the encoder produces are meaningful.
pub fn cursor_lock_from_wire(code: u32) -> (r: Option<CursorLock>)
    requires
        code <= 2,
    ensures
        r == spec_cursor_lock_from_wire(code),
{
    if code == 1 {
        Some(CursorLock::Constrain)
    } else if code == 2 {
        Some(CursorLock::Center)
    } else {
        None
    }
}

/// Law: the wire form of any cursor-lock choice decodes back to the same
/// choice.
pub proof fn lemma_cursor_lock_wire_roundtrip(mode: Option<CursorLock>)
    ensures
        spec_cursor_lock_from_wire(spec_cursor_lock_to_wire(mode)) == mode,
{
}

/// The reason recorded for the close cycle, drained on the close
/// notification; closes nothing recorded a reason for (an external
/// signal, say) report [`CloseReason::Unknown`].
pub open spec fn pending_close_reason(ud: UserDataModel) -> CloseReason {
    match ud.close_reason {
        Some(reason) => reason,
        None => CloseReason::Unknown,
    }
}

/// A dispatch outcome: the state the user-data block moves to, and the
/// native steps the shell takes, in order.
#[verifier::ext_equal]
pub ghost struct DispatchOutcome {
    pub state: UserDataModel,
    pub actions: Seq<NativeAction>,
}

/// The dispatcher's transition function: what one message does to the
/// window state, and what it asks of the platform.
pub open spec fn dispatch_spec(ud: UserDataModel, caps: Win32, msg: NativeMsg) -> DispatchOutcome {
    match msg {
        NativeMsg::Null => DispatchOutcome { state: ud, actions: Seq::empty() },
        NativeMsg::Create { style, cursor_lock } => DispatchOutcome {
            state: UserDataModel { window_style: style, cursor_lock, ..ud },
            actions: match style.controls {
                Some(c) => if !c.close {
                    seq![NativeAction::SetCloseButton { enabled: false }]
                } else {
                    Seq::empty()
                },
                None => Seq::empty(),
            },
        },
        NativeMsg::NcCreate => DispatchOutcome {
            state: ud,
            actions: if spec_needs_nonclient_patch(caps) {
                seq![
                    NativeAction::ApplyDpiPatch,
                    NativeAction::AssociateUserData,
                    NativeAction::Default,
                ]
            } else {
                seq![NativeAction::AssociateUserData, NativeAction::Default]
            },
        },
        NativeMsg::Destroy => DispatchOutcome {
            state: ud,
            actions: if ud.destroy_flag {
                seq![NativeAction::PostQuit]
            } else {
                Seq::empty()
            },
        },
        NativeMsg::NcDestroy => DispatchOutcome { state: ud, actions: seq![NativeAction::Default] },
        NativeMsg::Move => DispatchOutcome { state: ud, actions: Seq::empty() },
        NativeMsg::Size => DispatchOutcome { state: ud, actions: Seq::empty() },
        NativeMsg::Activate { focused, minimized, titlebar_drag } => {
            if focused && minimized {
                // The nonsense combination reported when a window is
                // simultaneously focused and minimized: the spurious
                // duplicate of an unfocus, suppressed entirely.
                DispatchOutcome { state: ud, actions: Seq::empty() }
            } else {
                let st = UserDataModel {
                    event_queue: ud.event_queue + seq![Event::Focus(focused)],
                    focus_state: focused,
                    ..ud
                };
                if focused && ud.cursor_lock is Some {
                    if titlebar_drag {
                        DispatchOutcome {
                            state: UserDataModel { cursor_constrain_escaped: true, ..st },
                            actions: Seq::empty(),
                        }
                    } else {
                        DispatchOutcome {
                            state: st,
                            actions: seq![
                                NativeAction::UpdateCursorLock {
                                    mode: ud.cursor_lock,
                                    newly_set: false,
                                },
                            ],
                        }
                    }
                } else {
                    DispatchOutcome {
                        state: st,
                        actions: seq![
                            NativeAction::UpdateCursorLock { mode: None, newly_set: true },
                        ],
                    }
                }
            }
        },
        NativeMsg::Close => DispatchOutcome {
            state: UserDataModel {
                close_reason: None,
                event_queue: ud.event_queue + seq![
                    Event::CloseRequest(pending_close_reason(ud)),
                ],
                ..ud
            },
            actions: Seq::empty(),
        },
        NativeMsg::ShowWindow { visible, from_show_call } => DispatchOutcome {
            state: if from_show_call {
                UserDataModel {
                    window_style: WindowStyle { visible, ..ud.window_style },
                    ..ud
                }
            } else {
                ud
            },
            actions: seq![NativeAction::Default],
        },
        NativeMsg::SysCommand { close } => DispatchOutcome {
            state: if close {
                UserDataModel { close_reason: Some(CloseReason::SystemMenu), ..ud }
            } else {
                ud
            },
            actions: seq![NativeAction::Default],
        },
        NativeMsg::MouseMove => DispatchOutcome {
            state: UserDataModel { cursor_constrain_escaped: false, ..ud },
            actions: match ud.cursor_lock {
                Some(CursorLock::Constrain) => if ud.cursor_constrain_escaped {
                    seq![
                        NativeAction::UpdateCursorLock {
                            mode: ud.cursor_lock,
                            newly_set: false,
                        },
                    ]
                } else {
                    Seq::empty()
                },
                Some(CursorLock::Center) => if ud.focus_state {
                    seq![
                        NativeAction::UpdateCursorLock {
                            mode: ud.cursor_lock,
                            newly_set: false,
                        },
                    ]
                } else {
                    Seq::empty()
                },
                None => Seq::empty(),
            },
        },
        NativeMsg::ExitSizeMove => DispatchOutcome {
            state: ud,
            actions: if ud.cursor_lock is Some {
                seq![
                    NativeAction::UpdateCursorLock { mode: ud.cursor_lock, newly_set: false },
                ]
            } else {
                Seq::empty()
            },
        },
        NativeMsg::CmdExecute => DispatchOutcome {
            state: ud,
            actions: seq![NativeAction::RunCallback],
        },
        NativeMsg::CmdDestroy => DispatchOutcome {
            state: UserDataModel { destroy_flag: true, ..ud },
            actions: seq![NativeAction::DestroyNative],
        },
        NativeMsg::CmdSetText => DispatchOutcome {
            state: ud,
            actions: seq![NativeAction::ForwardTitle],
        },
        NativeMsg::CmdSetControls { bits } => {
            let controls = spec_controls_from_wire(bits);
            if ud.window_style.controls != controls {
                let style = WindowStyle { controls, ..ud.window_style };
                DispatchOutcome {
                    state: UserDataModel { window_style: style, ..ud },
                    actions: (match controls {
                        Some(c) => seq![NativeAction::SetCloseButton { enabled: c.close }],
                        None => Seq::empty(),
                    }) + seq![
                        NativeAction::ApplyStyle {
                            style: style.spec_dword_style(),
                            style_ex: style.spec_dword_style_ex(),
                        },
                        NativeAction::PingFrame,
                    ],
                }
            } else {
                DispatchOutcome { state: ud, actions: Seq::empty() }
            }
        },
        NativeMsg::CmdSetResizable { resizable } => {
            if ud.window_style.resizable != resizable {
                let style = WindowStyle { resizable, ..ud.window_style };
                DispatchOutcome {
                    state: UserDataModel { window_style: style, ..ud },
                    actions: seq![
                        NativeAction::ApplyStyle {
                            style: style.spec_dword_style(),
                            style_ex: style.spec_dword_style_ex(),
                        },
                    ],
                }
            } else {
                DispatchOutcome { state: ud, actions: Seq::empty() }
            }
        },
        NativeMsg::CmdSetCursorLock { code } => {
            let mode = spec_cursor_lock_from_wire(code);
            DispatchOutcome {
                state: UserDataModel { cursor_lock: mode, ..ud },
                actions: seq![NativeAction::UpdateCursorLock { mode, newly_set: true }],
            }
        },
        NativeMsg::Other => DispatchOutcome { state: ud, actions: seq![NativeAction::Default] },
    }
}

/// Whether a message is handled by the plain-forwarding arm group: no
/// event is emitted and at most one cached flag changes.
spec fn is_plain_msg(msg: NativeMsg) -> bool {
    match msg {
        NativeMsg::Null => true,
        NativeMsg::NcCreate => true,
        NativeMsg::Destroy => true,
        NativeMsg::NcDestroy => true,
        NativeMsg::Move => true,
        NativeMsg::Size => true,
        NativeMsg::ShowWindow { .. } => true,
        NativeMsg::SysCommand { .. } => true,
        NativeMsg::CmdExecute => true,
        NativeMsg::CmdSetText => true,
        NativeMsg::Other => true,
        _ => false,
    }
}

/// Whether a message is handled by the event-emitting or cursor-handling
/// arm group.
spec fn is_input_msg(msg: NativeMsg) -> bool {
    match msg {
        NativeMsg::Create { .. } => true,
        NativeMsg::Activate { .. } => true,
        NativeMsg::Close => true,
        NativeMsg::MouseMove => true,
        NativeMsg::ExitSizeMove => true,
        _ => false,
    }
}

/// Translates one message into state mutation and native steps, exactly
/// as [`dispatch_spec`] lays down.
///
/// Must only be executed on the window's own thread: every field of the
/// user-data block other than the event queue is single-writer, and this
/// function is that writer.
pub fn dispatch(ud: &mut WindowUserData, caps: &Win32, msg: NativeMsg) -> (acts: Vec<
    NativeAction,
>)
    requires
        msg matches NativeMsg::CmdSetCursorLock { code } ==> code <= 2,
    ensures
        final(ud)@ == dispatch_spec(old(ud)@, *caps, msg).state,
        acts@ == dispatch_spec(old(ud)@, *caps, msg).actions,
{
    match msg {
        NativeMsg::Null | NativeMsg::NcCreate | NativeMsg::Destroy | NativeMsg::NcDestroy
            | NativeMsg::Move | NativeMsg::Size | NativeMsg::ShowWindow { .. }
            | NativeMsg::SysCommand { .. } | NativeMsg::CmdExecute | NativeMsg::CmdSetText
            | NativeMsg::Other => dispatch_plain(ud, caps, msg),
        NativeMsg::Create { .. } | NativeMsg::Activate { .. } | NativeMsg::Close
            | NativeMsg::MouseMove | NativeMsg::ExitSizeMove => dispatch_input(ud, caps, msg),
        NativeMsg::CmdDestroy | NativeMsg::CmdSetControls { .. }
            | NativeMsg::CmdSetResizable { .. } | NativeMsg::CmdSetCursorLock { .. } => {
            dispatch_command(ud, caps, msg)
        },
    }
}

fn dispatch_plain(ud: &mut WindowUserData, caps: &Win32, msg: NativeMsg) -> (acts: Vec<
    NativeAction,
>)
    requires
        is_plain_msg(msg),
    ensures
        final(ud)@ == dispatch_spec(old(ud)@, *caps, msg).state,
        acts@ == dispatch_spec(old(ud)@, *caps, msg).actions,
{
    let ghost ud0: UserDataModel = ud@;
    match msg {
        NativeMsg::Null => Vec::new(),
        NativeMsg::Move => Vec::new(),
        NativeMsg::Size => Vec::new(),
        NativeMsg::NcCreate => {
            let mut acts: Vec<NativeAction> = Vec::new();
            if caps.needs_nonclient_patch() {
                acts.push(NativeAction::ApplyDpiPatch);
            }
            acts.push(NativeAction::AssociateUserData);
            acts.push(NativeAction::Default);
            proof {
                assert(acts@ =~= dispatch_spec(ud0, *caps, msg).actions);
            }
            acts
        },
        NativeMsg::Destroy => {
            let mut acts: Vec<NativeAction> = Vec::new();
            if ud.destroy_flag {
                acts.push(NativeAction::PostQuit);
            }
            proof {
                assert(acts@ =~= dispatch_spec(ud0, *caps, msg).actions);
            }
            acts
        },
        NativeMsg::NcDestroy => {
            let mut acts: Vec<NativeAction> = Vec::new();
            acts.push(NativeAction::Default);
            proof {
                assert(acts@ =~= dispatch_spec(ud0, *caps, msg).actions);
            }
            acts
        },
        NativeMsg::ShowWindow { visible, from_show_call } => {
            if from_show_call {
                ud.window_style.visible = visible;
            }
            let mut acts: Vec<NativeAction> = Vec::new();
            acts.push(NativeAction::Default);
            proof {
                assert(acts@ =~= dispatch_spec(ud0, *caps, msg).actions);
            }
            acts
        },
        NativeMsg::SysCommand { close } => {
            if close {
                ud.close_reason = Some(CloseReason::SystemMenu);
            }
            let mut acts: Vec<NativeAction> = Vec::new();
            acts.push(NativeAction::Default);
            proof {
                assert(acts@ =~= dispatch_spec(ud0, *caps, msg).actions);
            }
            acts
        },
        NativeMsg::CmdExecute => {
            let mut acts: Vec<NativeAction> = Vec::new();
            acts.push(NativeAction::RunCallback);
            proof {
                assert(acts@ =~= dispatch_spec(ud0, *caps, msg).actions);
            }
            acts
        },
        NativeMsg::CmdSetText => {
            let mut acts: Vec<NativeAction> = Vec::new();
            acts.push(NativeAction::ForwardTitle);
            proof {
                assert(acts@ =~= dispatch_spec(ud0, *caps, msg).actions);
            }
            acts
        },
        NativeMsg::Other => {
            let mut acts: Vec<NativeAction> = Vec::new();
            acts.push(NativeAction::Default);
            proof {
                assert(acts@ =~= dispatch_spec(ud0, *caps, msg).actions);
            }
            acts
        },
        _ => {
            proof {
                assert(false);
            }
            Vec::new()
        },
    }
}

fn dispatch_input(ud: &mut WindowUserData, caps: &Win32, msg: NativeMsg) -> (acts: Vec<
    NativeAction,
>)
    requires
        is_input_msg(msg),
    ensures
        final(ud)@ == dispatch_spec(old(ud)@, *caps, msg).state,
        acts@ == dispatch_spec(old(ud)@, *caps, msg).actions,
{
    let ghost ud0: UserDataModel = ud@;
    match msg {
        NativeMsg::Create { style, cursor_lock } => {
            ud.window_style = style;
            ud.cursor_lock = cursor_lock;
            let mut acts: Vec<NativeAction> = Vec::new();
            match &style.controls {
                Some(c) => {
                    if !c.close {
                        acts.push(NativeAction::SetCloseButton { enabled: false });
                    }
                },
                None => {},
            }
            proof {
                assert(acts@ =~= dispatch_spec(ud0, *caps, msg).actions);
            }
            acts
        },
        NativeMsg::Activate { focused, minimized, titlebar_drag } => {
            let mut acts: Vec<NativeAction> = Vec::new();
            if focused && minimized {
                proof {
                    assert(acts@ =~= dispatch_spec(ud0, *caps, msg).actions);
                }
                acts
            } else {
                let had_lock: bool = ud.cursor_lock.is_some();
                let lock = ud.cursor_lock;
                ud.push_event(Event::Focus(focused));
                ud.focus_state = focused;
                if focused && had_lock {
                    if titlebar_drag {
                        ud.cursor_constrain_escaped = true;
                    } else {
                        acts.push(
                            NativeAction::UpdateCursorLock { mode: lock, newly_set: false },
                        );
                    }
                } else {
                    acts.push(NativeAction::UpdateCursorLock { mode: None, newly_set: true });
                }
                proof {
                    assert(ud0.event_queue.push(Event::Focus(focused)) =~= ud0.event_queue
                        + seq![Event::Focus(focused)]);
                    assert(ud@ =~= dispatch_spec(ud0, *caps, msg).state);
                    assert(acts@ =~= dispatch_spec(ud0, *caps, msg).actions);
                }
                acts
            }
        },
        NativeMsg::Close => {
            let reason: CloseReason = match ud.close_reason {
                Some(reason) => reason,
                None => CloseReason::Unknown,
            };
            ud.close_reason = None;
            ud.push_event(Event::CloseRequest(reason));
            proof {
                assert(ud0.event_queue.push(Event::CloseRequest(reason)) =~= ud0.event_queue
                    + seq![Event::CloseRequest(pending_close_reason(ud0))]);
                assert(ud@ =~= dispatch_spec(ud0, *caps, msg).state);
            }
            Vec::new()
        },
        NativeMsg::MouseMove => {
            let mut acts: Vec<NativeAction> = Vec::new();
            match ud.cursor_lock {
                Some(CursorLock::Constrain) => {
                    if ud.cursor_constrain_escaped {
                        acts.push(
                            NativeAction::UpdateCursorLock {
                                mode: ud.cursor_lock,
                                newly_set: false,
                            },
                        );
                    }
                },
                Some(CursorLock::Center) => {
                    if ud.focus_state {
                        acts.push(
                            NativeAction::UpdateCursorLock {
                                mode: ud.cursor_lock,
                                newly_set: false,
                            },
                        );
                    }
                },
                None => {},
            }
            ud.cursor_constrain_escaped = false;
            proof {
                assert(acts@ =~= dispatch_spec(ud0, *caps, msg).actions);
            }
            acts
        },
        NativeMsg::ExitSizeMove => {
            let mut acts: Vec<NativeAction> = Vec::new();
            if ud.cursor_lock.is_some() {
                acts.push(
                    NativeAction::UpdateCursorLock { mode: ud.cursor_lock, newly_set: false },
                );
            }
            proof {
                assert(acts@ =~= dispatch_spec(ud0, *caps, msg).actions);
            }
            acts
        },
        _ => {
            proof {
                assert(false);
            }
            Vec::new()
        },
    }
}

fn dispatch_command(ud: &mut WindowUserData, caps: &Win32, msg: NativeMsg) -> (acts: Vec<
    NativeAction,
>)
    requires
        msg matches NativeMsg::CmdSetCursorLock { code } ==> code <= 2,
        msg matches NativeMsg::CmdDestroy || msg matches NativeMsg::CmdSetControls { .. }
            || msg matches NativeMsg::CmdSetResizable { .. } || msg matches
            NativeMsg::CmdSetCursorLock { .. },
    ensures
        final(ud)@ == dispatch_spec(old(ud)@, *caps, msg).state,
        acts@ == dispatch_spec(old(ud)@, *caps, msg).actions,
{
    let ghost ud0: UserDataModel = ud@;
    match msg {
        NativeMsg::CmdDestroy => {
            ud.destroy_flag = true;
            let mut acts: Vec<NativeAction> = Vec::new();
            acts.push(NativeAction::DestroyNative);
            proof {
                assert(acts@ =~= dispatch_spec(ud0, *caps, msg).actions);
            }
            acts
        },
        NativeMsg::CmdSetControls { bits } => {
            let controls: Option<WindowControls> = controls_from_wire(bits);
            let mut acts: Vec<NativeAction> = Vec::new();
            if ud.window_style.controls != controls {
                ud.window_style.controls = controls;
                match &controls {
                    Some(c) => {
                        acts.push(NativeAction::SetCloseButton { enabled: c.close });
                    },
                    None => {},
                }
                let style_word: u32 = ud.window_style.dword_style();
                let style_ex_word: u32 = ud.window_style.dword_style_ex();
                acts.push(NativeAction::ApplyStyle { style: style_word, style_ex: style_ex_word });
                acts.push(NativeAction::PingFrame);
            }
            proof {
                assert(acts@ =~= dispatch_spec(ud0, *caps, msg).actions);
            }
            acts
        },
        NativeMsg::CmdSetResizable { resizable } => {
            let mut acts: Vec<NativeAction> = Vec::new();
            if ud.window_style.resizable != resizable {
                ud.window_style.resizable = resizable;
                let style_word: u32 = ud.window_style.dword_style();
                let style_ex_word: u32 = ud.window_style.dword_style_ex();
                acts.push(NativeAction::ApplyStyle { style: style_word, style_ex: style_ex_word });
            }
            proof {
                assert(acts@ =~= dispatch_spec(ud0, *caps, msg).actions);
            }
            acts
        },
        NativeMsg::CmdSetCursorLock { code } => {
            let mode: Option<CursorLock> = cursor_lock_from_wire(code);
            ud.cursor_lock = mode;
            let mut acts: Vec<NativeAction> = Vec::new();
            acts.push(NativeAction::UpdateCursorLock { mode, newly_set: true });
            proof {
                assert(acts@ =~= dispatch_spec(ud0, *caps, msg).actions);
            }
            acts
        },
        _ => {
            proof {
                assert(false);
            }
            Vec::new()
        },
    }
}

/// What the destroy hook decides when the platform is about to tear a
/// window down.
#[derive(Copy, Clone, Debug, PartialEq, Eq, Structural)]
pub enum HookDecision {
    /// Let the platform proceed with the teardown.
    Allow,
    /// Veto the teardown.
    Prevent,
    /// Not one of ours: hand the notification to the next hook.
    Forward,
}

/// The destroy hook's rule: for a teardown notification about one of this
/// library's windows, teardown proceeds exactly when the cooperative
/// destroy flag is set; everything else is forwarded.
pub open spec fn spec_destroy_hook_filter(
    is_destroy_notification: bool,
    is_marked_window: bool,
    destroy_flag: bool,
) -> HookDecision {
    if is_destroy_notification && is_marked_window {
        if destroy_flag {
            HookDecision::Allow
        } else {
            HookDecision::Prevent
        }
    } else {
        HookDecision::Forward
    }
}

/// Decides whether a native teardown may proceed. Nothing is forwarded
/// for this library's own windows: the hook decides for them.
pub fn destroy_hook_filter(
    is_destroy_notification: bool,
    is_marked_window: bool,
    destroy_flag: bool,
) -> (d: HookDecision)
    ensures
        d == spec_destroy_hook_filter(is_destroy_notification, is_marked_window, destroy_flag),
{
    if is_destroy_notification && is_marked_window {
        if destroy_flag {
            HookDecision::Allow
        } else {
            HookDecision::Prevent
        }
    } else {
        HookDecision::Forward
    }
}

/// The events one message appends to the queue.
pub open spec fn emitted_events(ud: UserDataModel, msg: NativeMsg) -> Seq<Event> {
    match msg {
        NativeMsg::Activate { focused, minimized, .. } => if focused && minimized {
            Seq::empty()
        } else {
            seq![Event::Focus(focused)]
        },
        NativeMsg::Close => seq![Event::CloseRequest(pending_close_reason(ud))],
        _ => Seq::empty(),
    }
}

/// Law: every dispatch leaves the queue's existing contents in place and
/// appends exactly its own events at the tail.
pub proof fn lemma_dispatch_appends(ud: UserDataModel, caps: Win32, msg: NativeMsg)
    ensures
        dispatch_spec(ud, caps, msg).state.event_queue == ud.event_queue + emitted_events(
            ud,
            msg,
        ),
{
    assert(ud.event_queue + Seq::<Event>::empty() =~= ud.event_queue);
}

/// The state after a whole sequence of messages has been dispatched.
pub open spec fn dispatch_seq(ud: UserDataModel, caps: Win32, msgs: Seq<NativeMsg>) -> UserDataModel
    decreases msgs.len(),
{
    if msgs.len() == 0 {
        ud
    } else {
        dispatch_seq(dispatch_spec(ud, caps, msgs[0]).state, caps, msgs.drop_first())
    }
}

/// The events a whole sequence of messages emits, in dispatch order.
pub open spec fn emitted_seq(ud: UserDataModel, caps: Win32, msgs: Seq<NativeMsg>) -> Seq<Event>
    decreases msgs.len(),
{
    if msgs.len() == 0 {
        Seq::empty()
    } else {
        emitted_events(ud, msgs[0]) + emitted_seq(
            dispatch_spec(ud, caps, msgs[0]).state,
            caps,
            msgs.drop_first(),
        )
    }
}

/// Law (event ordering): feeding any sequence of notifications to the
/// dispatcher appends exactly their events to the queue, in the order the
/// notifications arrived.
pub proof fn lemma_event_ordering(ud: UserDataModel, caps: Win32, msgs: Seq<NativeMsg>)
    ensures
        dispatch_seq(ud, caps, msgs).event_queue == ud.event_queue + emitted_seq(ud, caps, msgs),
    decreases msgs.len(),
{
    if msgs.len() == 0 {
        assert(ud.event_queue + Seq::<Event>::empty() =~= ud.event_queue);
    } else {
        lemma_dispatch_appends(ud, caps, msgs[0]);
        let mid = dispatch_spec(ud, caps, msgs[0]).state;
        lemma_event_ordering(mid, caps, msgs.drop_first());
        assert(ud.event_queue + emitted_seq(ud, caps, msgs) =~= (ud.event_queue + emitted_events(
            ud,
            msgs[0],
        )) + emitted_seq(mid, caps, msgs.drop_first()));
    }
}

/// Law (close is rejected until authenticated): a public close
/// notification buffers a `CloseRequest` event and never asks for native
/// destruction, whatever the flag state; the destroy hook vetoes native
/// teardown while the cooperative flag is unset; and the authenticated
/// destroy command always sets the flag and always asks for native
/// destruction.
pub proof fn lemma_close_requires_authentication(ud: UserDataModel, caps: Win32)
    ensures
        !dispatch_spec(ud, caps, NativeMsg::Close).actions.contains(NativeAction::DestroyNative),
        dispatch_spec(ud, caps, NativeMsg::Close).state.event_queue == ud.event_queue + seq![
            Event::CloseRequest(pending_close_reason(ud)),
        ],
        !ud.destroy_flag ==> spec_destroy_hook_filter(true, true, ud.destroy_flag)
            == HookDecision::Prevent,
        ud.destroy_flag ==> spec_destroy_hook_filter(true, true, ud.destroy_flag)
            == HookDecision::Allow,
        dispatch_spec(ud, caps, NativeMsg::CmdDestroy).actions.contains(
            NativeAction::DestroyNative,
        ),
        dispatch_spec(ud, caps, NativeMsg::CmdDestroy).state.destroy_flag,
{
    assert(dispatch_spec(ud, caps, NativeMsg::Close).actions.len() == 0);
    assert(dispatch_spec(ud, caps, NativeMsg::CmdDestroy).actions[0]
        == NativeAction::DestroyNative);
}

/// Law: after a controls command the cached style holds exactly the
/// decoded choice, whatever it held before — never a partial state.
pub proof fn lemma_set_controls_settles(ud: UserDataModel, caps: Win32, bits: u32)
    ensures
        dispatch_spec(ud, caps, NativeMsg::CmdSetControls { bits }).state.window_style.controls
            == spec_controls_from_wire(bits),
{
}

} // verus!
