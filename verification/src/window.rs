//! [`WindowBuilder`] and related types: control buttons, style words and
//! the configuration snapshot consumed by window creation.

use vstd::prelude::*;
use crate::monitor::Size;

verus! {

// Native window style bits (`WS_*`).
pub const WS_BORDER: u32 = 0x00800000;
pub const WS_CAPTION: u32 = 0x00C00000;
pub const WS_MAXIMIZEBOX: u32 = 0x00010000;
pub const WS_MINIMIZEBOX: u32 = 0x00020000;
pub const WS_OVERLAPPED: u32 = 0x00000000;
pub const WS_POPUP: u32 = 0x80000000;
pub const WS_SYSMENU: u32 = 0x00080000;
pub const WS_THICKFRAME: u32 = 0x00040000;
pub const WS_VISIBLE: u32 = 0x10000000;

// Native extended window style bits (`WS_EX_*`).
pub const WS_EX_LAYOUTRTL: u32 = 0x00400000;
pub const WS_EX_TOOLWINDOW: u32 = 0x00000080;

/// The type of cursor lock to use for
/// [`cursor_lock`](WindowBuilder::cursor_lock) and the cursor-lock setter
/// commands.
#[derive(Copy, Clone, Debug, PartialEq, Eq, Structural)]
pub enum CursorLock {
    /// The cursor is constrained to the inner area of the window.
    Constrain,
    /// The cursor is snapped to the center of the window.
    /// Typical setting for games where you move the view around with the mouse.
    Center,
}

/// Represents the availability of the minimize, maximize, and close buttons
/// on a window.
#[derive(Copy, Clone, Debug, PartialEq, Eq, Structural)]
pub struct WindowControls {
    pub minimize: bool,
    pub maximize: bool,
    pub close: bool,
}

/// The bit a boolean contributes to a packed word.
pub open spec fn bool_bit(b: bool) -> u32 {
    if b {
        1
    } else {
        0
    }
}

impl WindowControls {
    /// The bit-packed form of a control set, as carried in a setter command.
    pub open spec fn spec_to_bits(self) -> u32 {
        (bool_bit(self.minimize) << 2u32) | (bool_bit(self.maximize) << 1u32) | bool_bit(
            self.close,
        )
    }

    /// The control set encoded by a bit-packed word.
    pub open spec fn spec_from_bits(x: u32) -> WindowControls {
        WindowControls {
            minimize: x & (1u32 << 2u32) != 0,
            maximize: x & (1u32 << 1u32) != 0,
            close: x & 1u32 != 0,
        }
    }

    /// Creates window controls from the provided values.
    pub fn new(minimize: bool, maximize: bool, close: bool) -> (r: Self)
        ensures
            r == (WindowControls { minimize, maximize, close }),
    {
        Self { minimize, maximize, close }
    }

    /// Creates window controls with all 3 buttons enabled.
    pub fn enabled() -> (r: Self)
        ensures
            r == (WindowControls { minimize: true, maximize: true, close: true }),
    {
        Self::new(true, true, true)
    }

    /// Creates window controls with the minimize & close buttons available.
    pub fn no_maximize() -> (r: Self)
        ensures
            r == (WindowControls { minimize: true, maximize: false, close: true }),
    {
        Self::new(true, false, true)
    }

    /// Packs the three buttons into the low bits of a word.
    pub fn to_bits(&self) -> (r: u32)
        ensures
            r == self.spec_to_bits(),
    {
        let m: u32 = if self.minimize {
            1
        } else {
            0
        };
        let x: u32 = if self.maximize {
            1
        } else {
            0
        };
        let c: u32 = if self.close {
            1
        } else {
            0
        };
        (m << 2u32) | (x << 1u32) | c
    }

    /// Reads a control set back out of a bit-packed word.
    pub fn from_bits(x: u32) -> (r: Self)
        ensures
            r == Self::spec_from_bits(x),
    {
        Self {
            minimize: x & (1u32 << 2u32) != 0,
            maximize: x & (1u32 << 1u32) != 0,
            close: x & 1u32 != 0,
        }
    }
}

impl Default for WindowControls {
    /// Default trait implementation, same as [`WindowControls::enabled`].
    fn default() -> (r: Self)
        ensures
            r == (WindowControls { minimize: true, maximize: true, close: true }),
    {
        Self::enabled()
    }
}

proof fn lemma_bits_extract(m: u32, x: u32, c: u32)
    by (bit_vector)
    requires
        m <= 1,
        x <= 1,
        c <= 1,
    ensures
        (((m << 2u32) | (x << 1u32) | c) & (1u32 << 2u32) != 0) == (m == 1),
        (((m << 2u32) | (x << 1u32) | c) & (1u32 << 1u32) != 0) == (x == 1),
        (((m << 2u32) | (x << 1u32) | c) & 1u32 != 0) == (c == 1),
        ((m << 2u32) | (x << 1u32) | c) <= 7,
{
}

/// Law: unpacking a packed control set yields the original control set.
pub proof fn lemma_controls_bits_roundtrip(c: WindowControls)
    ensures
        WindowControls::spec_from_bits(c.spec_to_bits()) == c,
        c.spec_to_bits() <= 7,
{
    lemma_bits_extract(bool_bit(c.minimize), bool_bit(c.maximize), bool_bit(c.close));
}

/// A snapshot of the flags that make up the native style words of a window.
#[derive(Copy, Clone, Debug, PartialEq, Eq, Structural)]
pub struct WindowStyle {
    pub borderless: bool,
    pub resizable: bool,
    pub visible: bool,
    pub controls: Option<WindowControls>,
    pub rtl_layout: bool,
    pub tool_window: bool,
}

impl WindowStyle {
    /// The native style word encoding this snapshot. It does not include the
    /// close button: that is a menu property, not a window style.
    pub open spec fn spec_dword_style(self) -> u32 {
        let base: u32 = if self.borderless {
            0u32 | (WS_POPUP | WS_THICKFRAME)
        } else {
            0u32 | (WS_OVERLAPPED | WS_BORDER | WS_CAPTION)
        };
        let with_frame: u32 = if self.resizable {
            base | WS_THICKFRAME
        } else {
            base
        };
        let with_visible: u32 = if self.visible {
            with_frame | WS_VISIBLE
        } else {
            with_frame
        };
        match self.controls {
            Some(controls) => {
                let with_min: u32 = if controls.minimize {
                    with_visible | WS_MINIMIZEBOX
                } else {
                    with_visible
                };
                let with_max: u32 = if controls.maximize {
                    with_min | WS_MAXIMIZEBOX
                } else {
                    with_min
                };
                with_max | WS_SYSMENU
            },
            None => with_visible,
        }
    }

    /// The native extended style word encoding this snapshot.
    pub open spec fn spec_dword_style_ex(self) -> u32 {
        let base: u32 = if self.rtl_layout {
            0u32 | WS_EX_LAYOUTRTL
        } else {
            0u32
        };
        if self.tool_window {
            base | WS_EX_TOOLWINDOW
        } else {
            base
        }
    }

    /// Gets this style as a bitfield. Note that it does not include the close
    /// button. The close button is a menu property, not a window style.
    pub fn dword_style(&self) -> (r: u32)
        ensures
            r == self.spec_dword_style(),
    {
        let base: u32 = if self.borderless {
            0u32 | (WS_POPUP | WS_THICKFRAME)
        } else {
            0u32 | (WS_OVERLAPPED | WS_BORDER | WS_CAPTION)
        };
        let with_frame: u32 = if self.resizable {
            base | WS_THICKFRAME
        } else {
            base
        };
        let with_visible: u32 = if self.visible {
            with_frame | WS_VISIBLE
        } else {
            with_frame
        };
        match self.controls {
            Some(controls) => {
                let with_min: u32 = if controls.minimize {
                    with_visible | WS_MINIMIZEBOX
                } else {
                    with_visible
                };
                let with_max: u32 = if controls.maximize {
                    with_min | WS_MAXIMIZEBOX
                } else {
                    with_min
                };
                with_max | WS_SYSMENU
            },
            None => with_visible,
        }
    }

    /// Gets the extended style as a bitfield.
    pub fn dword_style_ex(&self) -> (r: u32)
        ensures
            r == self.spec_dword_style_ex(),
    {
        let base: u32 = if self.rtl_layout {
            0u32 | WS_EX_LAYOUTRTL
        } else {
            0u32
        };
        if self.tool_window {
            base | WS_EX_TOOLWINDOW
        } else {
            base
        }
    }
}

impl Default for WindowStyle {
    /// A style with every flag cleared and no control menu.
    fn default() -> (r: Self)
        ensures
            r == (WindowStyle {
                borderless: false,
                resizable: false,
                visible: false,
                controls: None,
                rtl_layout: false,
                tool_window: false,
            }),
    {
        WindowStyle {
            borderless: false,
            resizable: false,
            visible: false,
            controls: None,
            rtl_layout: false,
            tool_window: false,
        }
    }
}

/// Builder for creating windows.
#[derive(Clone)]
pub struct WindowBuilder {
    pub class_name: String,
    pub cursor_lock: Option<CursorLock>,
    pub inner_size: Size,
    pub style: WindowStyle,
    pub title: String,
}

impl WindowBuilder {
    /// The configuration every builder starts from.
    pub fn new() -> (r: Self)
        ensures
            r.class_name@ == "ramen_window_class"@,
            r.cursor_lock is None,
            r.inner_size == Size::Logical(800, 608),
            r.style == (WindowStyle {
                borderless: false,
                controls: Some(
                    WindowControls { minimize: true, maximize: false, close: true },
                ),
                resizable: true,
                visible: true,
                rtl_layout: false,
                tool_window: false,
            }),
            r.title@ == "a nice window"@,
    {
        Self {
            class_name: "ramen_window_class".to_owned(),
            cursor_lock: None,
            inner_size: Size::Logical(800, 608),
            style: WindowStyle {
                borderless: false,
                controls: Some(WindowControls::no_maximize()),
                resizable: true,
                visible: true,
                rtl_layout: false,
                tool_window: false,
            },
            title: "a nice window".to_owned(),
        }
    }

    /// Sets whether the window is initially without a border.
    ///
    /// Defaults to `false`.
    pub fn borderless(&mut self, borderless: bool) -> (r: &mut Self)
        ensures
            *r == (WindowBuilder {
                style: (WindowStyle { borderless, ..old(self).style }),
                ..*old(self)
            }),
            *final(self) == *final(r),
    {
        self.style.borderless = borderless;
        self
    }

    /// Sets the platform-specific window class name.
    ///
    /// Defaults to `"ramen_window_class"`.
    pub fn class_name(&mut self, class_name: &str) -> (r: &mut Self)
        ensures
            (*r).class_name@ == class_name@,
            *r == (WindowBuilder { class_name: (*r).class_name, ..*old(self) }),
            *final(self) == *final(r),
    {
        self.class_name = class_name.to_owned();
        self
    }

    /// Sets the initial window controls.
    /// `None` indicates that no control menu is desired.
    ///
    /// Defaults to [`WindowControls::no_maximize`].
    pub fn controls(&mut self, controls: Option<WindowControls>) -> (r: &mut Self)
        ensures
            *r == (WindowBuilder {
                style: (WindowStyle { controls, ..old(self).style }),
                ..*old(self)
            }),
            *final(self) == *final(r),
    {
        self.style.controls = controls;
        self
    }

    /// Sets the initial cursor lock mode. See [`CursorLock`] for more info.
    pub fn cursor_lock(&mut self, mode: Option<CursorLock>) -> (r: &mut Self)
        ensures
            *r == (WindowBuilder { cursor_lock: mode, ..*old(self) }),
            *final(self) == *final(r),
    {
        self.cursor_lock = mode;
        self
    }

    /// Sets the initial inner size of the window.
    ///
    /// Defaults to `Size::Logical(800, 608)`.
    pub fn inner_size(&mut self, inner_size: Size) -> (r: &mut Self)
        ensures
            *r == (WindowBuilder { inner_size, ..*old(self) }),
            *final(self) == *final(r),
    {
        self.inner_size = inner_size;
        self
    }

    /// Sets whether the window is initially resizable.
    ///
    /// Defaults to `true`.
    pub fn resizable(&mut self, resizable: bool) -> (r: &mut Self)
        ensures
            *r == (WindowBuilder {
                style: (WindowStyle { resizable, ..old(self).style }),
                ..*old(self)
            }),
            *final(self) == *final(r),
    {
        self.style.resizable = resizable;
        self
    }

    /// Sets whether the window controls and titlebar have a right-to-left layout.
    ///
    /// Defaults to `false`.
    pub fn rtl_layout(&mut self, rtl_layout: bool) -> (r: &mut Self)
        ensures
            *r == (WindowBuilder {
                style: (WindowStyle { rtl_layout, ..old(self).style }),
                ..*old(self)
            }),
            *final(self) == *final(r),
    {
        self.style.rtl_layout = rtl_layout;
        self
    }

    /// Sets the initial window title.
    ///
    /// Defaults to `"a nice window"`.
    pub fn title(&mut self, title: &str) -> (r: &mut Self)
        ensures
            (*r).title@ == title@,
            *r == (WindowBuilder { title: (*r).title, ..*old(self) }),
            *final(self) == *final(r),
    {
        self.title = title.to_owned();
        self
    }

    /// Sets whether the window is initially visible.
    ///
    /// Defaults to `true`.
    pub fn visible(&mut self, visible: bool) -> (r: &mut Self)
        ensures
            *r == (WindowBuilder {
                style: (WindowStyle { visible, ..old(self).style }),
                ..*old(self)
            }),
            *final(self) == *final(r),
    {
        self.style.visible = visible;
        self
    }
}

impl Default for WindowBuilder {
    /// Identical to construction via [`WindowBuilder::new`].
    fn default() -> (r: Self)
        ensures
            r.class_name@ == "ramen_window_class"@,
            r.cursor_lock is None,
            r.inner_size == Size::Logical(800, 608),
            r.title@ == "a nice window"@,
    {
        Self::new()
    }
}

/// Extensions to the [`WindowBuilder`] API for platforms whose windows can
/// be flagged as floating tool windows.
pub trait WindowBuilderExt {
    /// Sets whether the window uses the native tool-window extended style:
    /// a floating toolbar with a shorter title bar that does not appear in
    /// the taskbar.
    fn tool_window(&mut self, tool_window: bool) -> &mut Self;
}

impl WindowBuilderExt for WindowBuilder {
    fn tool_window(&mut self, tool_window: bool) -> (r: &mut Self)
        ensures
            *r == (WindowBuilder {
                style: (WindowStyle { tool_window, ..old(self).style }),
                ..*old(self)
            }),
            *final(self) == *final(r),
    {
        self.style.tool_window = tool_window;
        self
    }
}

} // verus!
