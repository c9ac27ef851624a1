//! Builder, controls, style-word and helper tests.

use ramen::monitor::Size;
use ramen::probe::DpiMode;
use ramen::probe::Win32;
use ramen::util::CursorPlan;
use ramen::util::MAKELANGID;
use ramen::util::POINT;
use ramen::util::RECT;
use ramen::util::close_button_menu_flags;
use ramen::util::cursor_lock_plan;
use ramen::util::point_in_rect;
use ramen::util::rect_center;
use ramen::util::rect_to_size2d;
use ramen::window::CursorLock;
use ramen::window::WindowBuilder;
use ramen::window::WindowBuilderExt;
use ramen::window::WindowControls;
use ramen::window::WindowStyle;

#[test]
fn it_works() {
    assert_eq!(2 + 2, 4);
}

#[test]
fn builder_defaults() {
    let builder = WindowBuilder::new();
    assert_eq!(builder.class_name, "ramen_window_class");
    assert_eq!(builder.title, "a nice window");
    assert!(builder.cursor_lock.is_none());
    assert_eq!(builder.inner_size, Size::Logical(800, 608));
    assert!(!builder.style.borderless);
    assert!(builder.style.resizable);
    assert!(builder.style.visible);
    assert!(!builder.style.rtl_layout);
    assert!(!builder.style.tool_window);
    assert_eq!(builder.style.controls, Some(WindowControls::no_maximize()));
}

#[test]
fn builder_setters_chain() {
    let mut builder = WindowBuilder::new();
    builder
        .title("Cool Window")
        .class_name("cool_class")
        .borderless(true)
        .resizable(false)
        .visible(false)
        .rtl_layout(true)
        .controls(Some(WindowControls::enabled()))
        .cursor_lock(Some(CursorLock::Center))
        .inner_size(Size::Physical(640, 480))
        .tool_window(true);
    assert_eq!(builder.title, "Cool Window");
    assert_eq!(builder.class_name, "cool_class");
    assert!(builder.style.borderless);
    assert!(!builder.style.resizable);
    assert!(!builder.style.visible);
    assert!(builder.style.rtl_layout);
    assert!(builder.style.tool_window);
    assert_eq!(builder.style.controls, Some(WindowControls::enabled()));
    assert!(matches!(builder.cursor_lock, Some(CursorLock::Center)));
    assert_eq!(builder.inner_size, Size::Physical(640, 480));
}

#[test]
fn controls_constructors() {
    assert_eq!(WindowControls::enabled(), WindowControls::new(true, true, true));
    assert_eq!(WindowControls::no_maximize(), WindowControls::new(true, false, true));
    assert_eq!(WindowControls::default(), WindowControls::enabled());
}

#[test]
fn controls_bits_exact() {
    assert_eq!(WindowControls::enabled().to_bits(), 0b111);
    assert_eq!(WindowControls::no_maximize().to_bits(), 0b101);
    assert_eq!(WindowControls::new(false, true, false).to_bits(), 0b010);
    assert_eq!(WindowControls::from_bits(0b101), WindowControls::no_maximize());
}

#[test]
fn controls_bits_roundtrip() {
    for minimize in [false, true] {
        for maximize in [false, true] {
            for close in [false, true] {
                let c = WindowControls::new(minimize, maximize, close);
                assert_eq!(WindowControls::from_bits(c.to_bits()), c);
            }
        }
    }
}

#[test]
fn default_style_words() {
    let style = WindowBuilder::new().style;
    // caption | border | thickframe | visible | minimizebox | sysmenu
    assert_eq!(style.dword_style(), 0x10CE0000);
    assert_eq!(style.dword_style_ex(), 0);
}

#[test]
fn borderless_style_words() {
    let mut builder = WindowBuilder::new();
    builder.borderless(true).resizable(false).visible(false).controls(None);
    // popup | thickframe only
    assert_eq!(builder.style.dword_style(), 0x80040000);
}

#[test]
fn extended_style_words() {
    let mut builder = WindowBuilder::new();
    builder.rtl_layout(true).tool_window(true);
    assert_eq!(builder.style.dword_style_ex(), 0x00400000 | 0x00000080);
}

#[test]
fn default_window_style_is_cleared() {
    let style = WindowStyle::default();
    assert!(!style.borderless);
    assert!(!style.resizable);
    assert!(!style.visible);
    assert!(style.controls.is_none());
    assert!(!style.rtl_layout);
    assert!(!style.tool_window);
}

#[test]
fn makelangid_neutral_default() {
    // LANG_NEUTRAL, SUBLANG_DEFAULT
    assert_eq!(MAKELANGID(0x00, 0x01), 0x400);
}

#[test]
fn rect_size_and_center() {
    let rect = RECT { left: 10, top: 20, right: 110, bottom: 220 };
    assert_eq!(rect_to_size2d(&rect), (100, 200));
    assert_eq!(rect_center(&rect), (60, 120));
}

#[test]
fn point_in_rect_edges() {
    let rect = RECT { left: 0, top: 0, right: 10, bottom: 10 };
    assert!(point_in_rect(&rect, &POINT { x: 0, y: 0 }));
    assert!(point_in_rect(&rect, &POINT { x: 9, y: 9 }));
    assert!(!point_in_rect(&rect, &POINT { x: 10, y: 5 }));
    assert!(!point_in_rect(&rect, &POINT { x: 5, y: 10 }));
    assert!(!point_in_rect(&rect, &POINT { x: -1, y: 5 }));
}

#[test]
fn close_button_flags() {
    // MF_BYCOMMAND | MF_ENABLED
    assert_eq!(close_button_menu_flags(true), 0x0);
    // MF_BYCOMMAND | MF_DISABLED | MF_GRAYED
    assert_eq!(close_button_menu_flags(false), 0x3);
}

#[test]
fn cursor_plan_cases() {
    assert_eq!(cursor_lock_plan(Some(CursorLock::Constrain), false), CursorPlan::ClipToClient);
    assert_eq!(cursor_lock_plan(Some(CursorLock::Center), true), CursorPlan::CenterInClient);
    assert_eq!(cursor_lock_plan(None, true), CursorPlan::Unclip);
    assert_eq!(cursor_lock_plan(None, false), CursorPlan::Leave);
}

#[test]
fn dpi_mode_selection() {
    assert_eq!(Win32::from_versions(false, false, false, false).dpi_mode, DpiMode::Unsupported);
    assert_eq!(Win32::from_versions(true, false, false, false).dpi_mode, DpiMode::System);
    assert_eq!(Win32::from_versions(true, true, false, false).dpi_mode, DpiMode::PerMonitorV1);
    assert_eq!(Win32::from_versions(true, true, true, true).dpi_mode, DpiMode::PerMonitorV2);
}

#[test]
fn dpi_adjust_paths() {
    // Per-monitor v1 without the anniversary build: legacy adjustment, no patch.
    let old_pmv1 = Win32::from_versions(true, true, false, false);
    assert!(!old_pmv1.dpi_aware_adjust());
    assert!(!old_pmv1.needs_nonclient_patch());
    // Per-monitor v1 with the anniversary build: aware adjustment via the patch.
    let new_pmv1 = Win32::from_versions(true, true, true, false);
    assert!(new_pmv1.dpi_aware_adjust());
    assert!(new_pmv1.needs_nonclient_patch());
    // Per-monitor v2: aware adjustment, no patch needed.
    let pmv2 = Win32::from_versions(true, true, true, true);
    assert!(pmv2.dpi_aware_adjust());
    assert!(!pmv2.needs_nonclient_patch());
}
