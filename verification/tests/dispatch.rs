//! Dispatcher tests: event ordering, swap behavior, close authentication,
//! the setter commands, and the creation and teardown scenarios.

use ramen::dispatch::CONTROLS_NONE_WIRE;
use ramen::dispatch::HookDecision;
use ramen::dispatch::NativeAction;
use ramen::dispatch::NativeMsg;
use ramen::dispatch::controls_from_wire;
use ramen::dispatch::controls_to_wire;
use ramen::dispatch::cursor_lock_from_wire;
use ramen::dispatch::cursor_lock_to_wire;
use ramen::dispatch::destroy_hook_filter;
use ramen::dispatch::dispatch;
use ramen::event::CloseReason;
use ramen::event::Event;
use ramen::lifecycle::LoopStep;
use ramen::lifecycle::creation_outcome;
use ramen::lifecycle::message_loop_step;
use ramen::probe::Win32;
use ramen::userdata::WindowUserData;
use ramen::window::CursorLock;
use ramen::window::WindowBuilder;
use ramen::window::WindowControls;

fn caps() -> Win32 {
    Win32::from_versions(true, true, true, true)
}

/// A user-data block in the state a freshly created window has: defaults,
/// then the init notification carrying the builder's snapshot.
fn live_window(builder: &WindowBuilder) -> WindowUserData {
    let mut ud = WindowUserData::default();
    let _ = dispatch(&mut ud, &caps(), NativeMsg::NcCreate);
    let _ = dispatch(
        &mut ud,
        &caps(),
        NativeMsg::Create { style: builder.style, cursor_lock: builder.cursor_lock },
    );
    ud
}

#[test]
fn create_cool_window_close_via_system_menu() {
    let mut builder = WindowBuilder::new();
    builder.title("Cool Window").visible(true).resizable(true);
    let mut ud = live_window(&builder);
    // Creation succeeded: the handshake receives Ok.
    assert!(creation_outcome(true, None, 0, String::new()).is_ok());
    assert_eq!(ud.window_style, builder.style);

    // The event buffer starts empty.
    let mut buffer: Vec<Event> = Vec::new();
    ud.swap_events(&mut buffer);
    assert!(buffer.is_empty());

    // A close via the system menu records the reason, then the close
    // notification buffers exactly one CloseRequest carrying it.
    let _ = dispatch(&mut ud, &caps(), NativeMsg::SysCommand { close: true });
    let _ = dispatch(&mut ud, &caps(), NativeMsg::Close);
    ud.swap_events(&mut buffer);
    assert_eq!(buffer, vec![Event::CloseRequest(CloseReason::SystemMenu)]);
}

#[test]
fn event_ordering_matches_arrival() {
    let mut ud = live_window(&WindowBuilder::new());
    let notifications = [
        NativeMsg::Activate { focused: true, minimized: false, titlebar_drag: false },
        NativeMsg::SysCommand { close: true },
        NativeMsg::Close,
        NativeMsg::Activate { focused: false, minimized: false, titlebar_drag: false },
        NativeMsg::Close,
    ];
    for msg in notifications {
        let _ = dispatch(&mut ud, &caps(), msg);
    }
    let mut buffer: Vec<Event> = Vec::new();
    ud.swap_events(&mut buffer);
    assert_eq!(
        buffer,
        vec![
            Event::Focus(true),
            Event::CloseRequest(CloseReason::SystemMenu),
            Event::Focus(false),
            // The second close drained no recorded reason.
            Event::CloseRequest(CloseReason::Unknown),
        ]
    );
}

#[test]
fn swap_twice_yields_then_empties() {
    let mut ud = live_window(&WindowBuilder::new());
    let _ = dispatch(
        &mut ud,
        &caps(),
        NativeMsg::Activate { focused: true, minimized: false, titlebar_drag: false },
    );
    let mut buffer: Vec<Event> = Vec::new();
    ud.swap_events(&mut buffer);
    assert!(!buffer.is_empty());
    ud.swap_events(&mut buffer);
    assert!(buffer.is_empty());
}

#[test]
fn focus_minimize_duplicate_suppressed() {
    let mut ud = live_window(&WindowBuilder::new());
    // Unfocus by clicking the taskbar icon: the plain inactive report,
    // then the nonsense focused-and-minimized duplicate.
    let _ = dispatch(
        &mut ud,
        &caps(),
        NativeMsg::Activate { focused: false, minimized: false, titlebar_drag: false },
    );
    let _ = dispatch(
        &mut ud,
        &caps(),
        NativeMsg::Activate { focused: true, minimized: true, titlebar_drag: false },
    );
    let mut buffer: Vec<Event> = Vec::new();
    ud.swap_events(&mut buffer);
    assert_eq!(buffer, vec![Event::Focus(false)]);
    assert!(!ud.focus_state);
}

#[test]
fn close_rejected_until_authenticated() {
    let mut ud = live_window(&WindowBuilder::new());
    // While the cooperative flag is unset, the hook vetoes teardown...
    assert!(!ud.destroy_flag);
    assert_eq!(destroy_hook_filter(true, true, ud.destroy_flag), HookDecision::Prevent);
    // ...and a public close only buffers an event; no native destruction.
    let acts = dispatch(&mut ud, &caps(), NativeMsg::Close);
    assert!(!acts.contains(&NativeAction::DestroyNative));
    assert!(acts.is_empty());
    let mut buffer: Vec<Event> = Vec::new();
    ud.swap_events(&mut buffer);
    assert_eq!(buffer, vec![Event::CloseRequest(CloseReason::Unknown)]);
    // The authenticated command destroys regardless.
    let acts = dispatch(&mut ud, &caps(), NativeMsg::CmdDestroy);
    assert!(acts.contains(&NativeAction::DestroyNative));
    assert!(ud.destroy_flag);
    assert_eq!(destroy_hook_filter(true, true, ud.destroy_flag), HookDecision::Allow);
}

#[test]
fn hook_forwards_unrelated_windows() {
    assert_eq!(destroy_hook_filter(true, false, false), HookDecision::Forward);
    assert_eq!(destroy_hook_filter(false, true, true), HookDecision::Forward);
}

#[test]
fn drop_teardown_completes() {
    let mut ud = live_window(&WindowBuilder::new());
    // Dropping the handle posts the authenticated destroy...
    let acts = dispatch(&mut ud, &caps(), NativeMsg::CmdDestroy);
    assert_eq!(acts, vec![NativeAction::DestroyNative]);
    // ...the structural destroy then posts the exit signal...
    let acts = dispatch(&mut ud, &caps(), NativeMsg::Destroy);
    assert_eq!(acts, vec![NativeAction::PostQuit]);
    // ...and the loop's quit decision under the set flag is to exit, so
    // the join completes.
    assert_eq!(message_loop_step(0, ud.destroy_flag), LoopStep::Exit);
}

#[test]
fn premature_quit_is_ignored() {
    let ud = live_window(&WindowBuilder::new());
    assert_eq!(message_loop_step(0, ud.destroy_flag), LoopStep::KeepWaiting);
    assert_eq!(message_loop_step(-1, false), LoopStep::Abort);
    assert_eq!(message_loop_step(1, false), LoopStep::Dispatch);
}

#[test]
fn destroy_without_flag_posts_no_quit() {
    let mut ud = live_window(&WindowBuilder::new());
    let acts = dispatch(&mut ud, &caps(), NativeMsg::Destroy);
    assert!(acts.is_empty());
}

#[test]
fn set_controls_async_settles_on_last_value() {
    let mut ud = live_window(&WindowBuilder::new());
    // Two rapid asynchronous posts, drained in order on the window thread.
    let first = controls_to_wire(None);
    let second = controls_to_wire(Some(WindowControls::enabled()));
    let _ = dispatch(&mut ud, &caps(), NativeMsg::CmdSetControls { bits: first });
    assert_eq!(ud.window_style.controls, None);
    let _ = dispatch(&mut ud, &caps(), NativeMsg::CmdSetControls { bits: second });
    assert_eq!(ud.window_style.controls, Some(WindowControls::enabled()));
}

#[test]
fn set_controls_applies_styles_and_close_button() {
    let mut ud = live_window(&WindowBuilder::new());
    let bits = controls_to_wire(Some(WindowControls::new(true, true, false)));
    let acts = dispatch(&mut ud, &caps(), NativeMsg::CmdSetControls { bits });
    let expected_style = ud.window_style.dword_style();
    let expected_ex = ud.window_style.dword_style_ex();
    assert_eq!(
        acts,
        vec![
            NativeAction::SetCloseButton { enabled: false },
            NativeAction::ApplyStyle { style: expected_style, style_ex: expected_ex },
            NativeAction::PingFrame,
        ]
    );
}

#[test]
fn set_controls_unchanged_is_a_no_op() {
    let mut ud = live_window(&WindowBuilder::new());
    let bits = controls_to_wire(ud.window_style.controls);
    let acts = dispatch(&mut ud, &caps(), NativeMsg::CmdSetControls { bits });
    assert!(acts.is_empty());
}

#[test]
fn set_resizable_changes_and_no_ops() {
    let mut ud = live_window(&WindowBuilder::new());
    assert!(ud.window_style.resizable);
    let acts = dispatch(&mut ud, &caps(), NativeMsg::CmdSetResizable { resizable: false });
    assert_eq!(acts.len(), 1);
    assert!(!ud.window_style.resizable);
    let acts = dispatch(&mut ud, &caps(), NativeMsg::CmdSetResizable { resizable: false });
    assert!(acts.is_empty());
}

#[test]
fn set_cursor_lock_updates_mode() {
    let mut ud = live_window(&WindowBuilder::new());
    let code = cursor_lock_to_wire(Some(CursorLock::Constrain));
    let acts = dispatch(&mut ud, &caps(), NativeMsg::CmdSetCursorLock { code });
    assert!(matches!(ud.cursor_lock, Some(CursorLock::Constrain)));
    assert_eq!(
        acts,
        vec![NativeAction::UpdateCursorLock {
            mode: Some(CursorLock::Constrain),
            newly_set: true,
        }]
    );
}

#[test]
fn titlebar_drag_lets_cursor_escape_until_mouse_move() {
    let mut builder = WindowBuilder::new();
    builder.cursor_lock(Some(CursorLock::Constrain));
    let mut ud = live_window(&builder);
    // A click in the title bar while locking: the cursor escapes.
    let acts = dispatch(
        &mut ud,
        &caps(),
        NativeMsg::Activate { focused: true, minimized: false, titlebar_drag: true },
    );
    assert!(ud.cursor_constrain_escaped);
    assert!(acts.is_empty());
    // The lock is re-acquired when the mouse re-enters the window.
    let acts = dispatch(&mut ud, &caps(), NativeMsg::MouseMove);
    assert!(!ud.cursor_constrain_escaped);
    assert_eq!(
        acts,
        vec![NativeAction::UpdateCursorLock {
            mode: Some(CursorLock::Constrain),
            newly_set: false,
        }]
    );
}

#[test]
fn show_window_from_show_call_updates_cached_visibility() {
    let mut ud = live_window(&WindowBuilder::new());
    assert!(ud.window_style.visible);
    let _ = dispatch(
        &mut ud,
        &caps(),
        NativeMsg::ShowWindow { visible: false, from_show_call: true },
    );
    assert!(!ud.window_style.visible);
    // Notifications from other sources leave the cache alone.
    let _ = dispatch(
        &mut ud,
        &caps(),
        NativeMsg::ShowWindow { visible: true, from_show_call: false },
    );
    assert!(!ud.window_style.visible);
}

#[test]
fn controls_wire_roundtrip() {
    assert_eq!(controls_to_wire(None), CONTROLS_NONE_WIRE);
    for choice in [
        None,
        Some(WindowControls::enabled()),
        Some(WindowControls::no_maximize()),
        Some(WindowControls::new(false, false, false)),
    ] {
        assert_eq!(controls_from_wire(controls_to_wire(choice)), choice);
    }
}

#[test]
fn cursor_lock_wire_roundtrip() {
    assert_eq!(cursor_lock_to_wire(None), 0);
    assert_eq!(cursor_lock_to_wire(Some(CursorLock::Constrain)), 1);
    assert_eq!(cursor_lock_to_wire(Some(CursorLock::Center)), 2);
    for mode in [None, Some(CursorLock::Constrain), Some(CursorLock::Center)] {
        assert_eq!(cursor_lock_from_wire(cursor_lock_to_wire(mode)), mode);
    }
}

#[test]
fn create_without_close_button_disables_menu_item() {
    let mut builder = WindowBuilder::new();
    builder.controls(Some(WindowControls::new(true, true, false)));
    let mut ud = WindowUserData::default();
    let acts = dispatch(
        &mut ud,
        &caps(),
        NativeMsg::Create { style: builder.style, cursor_lock: builder.cursor_lock },
    );
    assert_eq!(acts, vec![NativeAction::SetCloseButton { enabled: false }]);
}

#[test]
fn nc_create_associates_user_data() {
    let mut ud = WindowUserData::default();
    // A capability set that requires the non-client patch.
    let caps = Win32::from_versions(true, true, true, false);
    let acts = dispatch(&mut ud, &caps, NativeMsg::NcCreate);
    assert_eq!(
        acts,
        vec![
            NativeAction::ApplyDpiPatch,
            NativeAction::AssociateUserData,
            NativeAction::Default,
        ]
    );
    // Without the patch requirement, only the association and default
    // handling remain.
    let caps = Win32::from_versions(true, true, true, true);
    let acts = dispatch(&mut ud, &caps, NativeMsg::NcCreate);
    assert_eq!(acts, vec![NativeAction::AssociateUserData, NativeAction::Default]);
}
