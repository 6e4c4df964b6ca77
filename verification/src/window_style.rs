use vstd::prelude::*;

use crate::geometry::{extent_fits, fits_i32, trunc_div, Rect, WindowPlacement};

verus! {

/// Extended window style bit of a window that stays above all other windows.
pub const WS_EX_TOPMOST: i32 = 0x0000_0008;

/// Window style bits of a title bar (border and caption).
pub const WS_CAPTION: i32 = 0x00C0_0000;

/// Window style bit of a sizing border.
pub const WS_THICKFRAME: i32 = 0x0004_0000;

/// Extended window style bit of a double border.
pub const WS_EX_DLGMODALFRAME: i32 = 0x0000_0001;

/// Extended window style bit of a raised edge.
pub const WS_EX_WINDOWEDGE: i32 = 0x0000_0100;

/// Extended window style bit of a sunken edge.
pub const WS_EX_CLIENTEDGE: i32 = 0x0000_0200;

/// Extended window style bit of a three-dimensional border.
pub const WS_EX_STATICEDGE: i32 = 0x0002_0000;

/// The style bits that a full-screen window loses.
pub const FRAME_STYLE_BITS: i32 = WS_CAPTION | WS_THICKFRAME;

/// The extended style bits that a full-screen window loses.
pub const EDGE_EX_STYLE_BITS: i32 = WS_EX_DLGMODALFRAME | WS_EX_WINDOWEDGE | WS_EX_CLIENTEDGE
    | WS_EX_STATICEDGE;

/// Window state bit: the window is minimized.
pub const STATE_MINIMIZED: u32 = 0x01;

/// Window state bit: the window is maximized.
pub const STATE_MAXIMIZED: u32 = 0x02;

/// Window state bit: the window covers its monitor.
pub const STATE_FULL_SCREEN: u32 = 0x04;

/// Window state bit: the window is the foreground window.
pub const STATE_ACTIVE: u32 = 0x08;

/// Window attribute that sets the colour of the caption.
pub const DWMWA_CAPTION_COLOR: u32 = 35;

/// Window attribute that sets the colour of the caption's text.
pub const DWMWA_TEXT_COLOR: u32 = 36;

/// The style of the main window as the shell last saw it: whether it covers its
/// monitor, and the position, size and styles it had before it did.
#[derive(Clone, Copy, Debug)]
pub struct WindowStyle {
    pub full_screen: bool,
    pub pos: (i32, i32),
    pub size: (i32, i32),
    pub style: i32,
    pub ex_style: i32,
}

/// Where a window goes in the z-order.
#[derive(Clone, Copy, Debug, PartialEq, Eq, Structural)]
pub enum ZOrder {
    /// Above all windows that do not stay on top, for good.
    TopMost,
    /// Above all windows that do not stay on top, no longer staying there.
    NoTopMost,
}

/// A position, a size and a place in the z-order, to be given to a window.
#[derive(Clone, Copy, Debug, PartialEq, Eq, Structural)]
pub struct WindowPos {
    pub z_order: ZOrder,
    pub x: i32,
    pub y: i32,
    pub width: i32,
    pub height: i32,
}

/// What the system reports of a window when it is about to cover its monitor: its
/// rectangle, its styles and the rectangle of its monitor, if that can be read.
#[derive(Clone, Copy, Debug, PartialEq, Eq, Structural)]
pub struct WindowSnapshot {
    pub rect: Rect,
    pub style: i32,
    pub ex_style: i32,
    pub monitor: Option<Rect>,
}

/// What is to be done to the window when full screen is switched.
#[derive(Clone, Copy, Debug, PartialEq, Eq, Structural)]
pub enum FullScreenChange {
    /// The window already is as asked: nothing is done.
    Unchanged,
    /// The window gets back these styles, then this position.
    Restored { style: i32, ex_style: i32, pos: WindowPos },
    /// The monitor could not be read: the window is left as it is.
    MonitorUnavailable,
    /// The window gets these styles, then covers its monitor.
    Covered { style: i32, ex_style: i32, pos: WindowPos },
}

/// The extended style keeps the window above the others.
pub open spec fn has_topmost_flag(ex_style: i32) -> bool {
    ex_style & WS_EX_TOPMOST == WS_EX_TOPMOST
}

/// The z-order that keeps a window above others exactly when its extended style says so.
pub open spec fn z_order_of(ex_style: i32) -> ZOrder {
    if has_topmost_flag(ex_style) {
        ZOrder::TopMost
    } else {
        ZOrder::NoTopMost
    }
}

/// The state bits of a window, as sent to the web UI.
pub open spec fn window_state_bits(
    minimized: bool,
    maximized: bool,
    full_screen: bool,
    active: bool,
) -> int {
    (if minimized { 1int } else { 0int }) + (if maximized { 2int } else { 0int }) + (if full_screen {
        4int
    } else {
        0int
    }) + (if active { 8int } else { 0int })
}

/// A colour made of three components, as the system takes it.
pub open spec fn color_value(red: u32, green: u32, blue: u32) -> u32 {
    red | (green << 8u32) | (blue << 16u32)
}

/// The side from which the size of a centred window is computed: seven tenths of the
/// monitor's smaller side.
pub open spec fn centred_small_side(monitor_w: int, monitor_h: int) -> int {
    trunc_div(
        (if monitor_w <= monitor_h {
            monitor_w
        } else {
            monitor_h
        }) * 70,
        100,
    )
}

/// The larger of two integers.
pub open spec fn max_int(a: int, b: int) -> int {
    if a >= b {
        a
    } else {
        b
    }
}

/// Width of a centred window: sixteen ninths of the small side, at least the minimum.
pub open spec fn centred_width(monitor_w: int, monitor_h: int, min_width: int) -> int {
    max_int(trunc_div(centred_small_side(monitor_w, monitor_h) * 16, 9), min_width)
}

/// Height of a centred window: the small side, at least the minimum.
pub open spec fn centred_height(monitor_w: int, monitor_h: int, min_height: int) -> int {
    max_int(centred_small_side(monitor_w, monitor_h), min_height)
}

/// Every intermediate value of the centring fits in an `i32`.
pub open spec fn centring_fits(monitor_w: i32, monitor_h: i32, min_width: i32, min_height: i32) -> bool {
    let small = if monitor_w <= monitor_h {
        monitor_w as int
    } else {
        monitor_h as int
    };
    &&& fits_i32(small * 70)
    &&& fits_i32(centred_small_side(monitor_w as int, monitor_h as int) * 16)
    &&& fits_i32(monitor_w - centred_width(monitor_w as int, monitor_h as int, min_width as int))
    &&& fits_i32(monitor_h - centred_height(monitor_w as int, monitor_h as int, min_height as int))
}

/// How a window's style changes, and what is done to the window, when it is asked to
/// cover its monitor (`full_screen`) or to leave it. `window` is what the system
/// reports of the window and its monitor before it covers it.
pub open spec fn full_screen_step(s: WindowStyle, full_screen: bool, window: WindowSnapshot) -> (
    WindowStyle,
    FullScreenChange,
) {
    if s.full_screen == full_screen {
        (s, FullScreenChange::Unchanged)
    } else if !full_screen {
        (
            WindowStyle { full_screen: false, ..s },
            FullScreenChange::Restored {
                style: s.style,
                ex_style: s.ex_style,
                pos: WindowPos {
                    z_order: z_order_of(s.ex_style),
                    x: s.pos.0,
                    y: s.pos.1,
                    width: s.size.0,
                    height: s.size.1,
                },
            },
        )
    } else {
        let r = window.rect;
        let saved = WindowStyle {
            full_screen: s.full_screen,
            pos: (r.left, r.top),
            size: ((r.right - r.left) as i32, (r.bottom - r.top) as i32),
            style: window.style,
            ex_style: window.ex_style,
        };
        match window.monitor {
            None => (saved, FullScreenChange::MonitorUnavailable),
            Some(m) => (
                WindowStyle { full_screen: true, ..saved },
                FullScreenChange::Covered {
                    style: window.style & !FRAME_STYLE_BITS,
                    ex_style: window.ex_style & !EDGE_EX_STYLE_BITS,
                    pos: WindowPos {
                        z_order: ZOrder::NoTopMost,
                        x: m.left,
                        y: m.top,
                        width: (m.right - m.left) as i32,
                        height: (m.bottom - m.top) as i32,
                    },
                },
            ),
        }
    }
}

/// Whether switching to `full_screen` needs the window's and the monitor's extents in
/// an `i32`: only when the window is to cover its monitor.
pub open spec fn full_screen_fits(s: WindowStyle, full_screen: bool, window: WindowSnapshot) -> bool {
    (full_screen && !s.full_screen) ==> {
        &&& extent_fits(window.rect)
        &&& (window.monitor matches Some(m) ==> extent_fits(m))
    }
}

/// A colour made of three components, red in the lowest byte.
pub fn colorref(red: u32, green: u32, blue: u32) -> (r: u32)
    ensures
        r == color_value(red, green, blue),
{
    red | (green << 8u32) | (blue << 16u32)
}

/// The colour of the caption of the main window.
pub fn caption_color() -> (r: u32)
    ensures
        r == color_value(0x1e, 0x1e, 0x1e),
{
    colorref(0x1e, 0x1e, 0x1e)
}

/// The colour of the caption's text.
pub fn caption_text_color() -> (r: u32)
    ensures
        r == color_value(0xff, 0xff, 0xff),
{
    colorref(0xff, 0xff, 0xff)
}

/// Whether an extended window style keeps the window above all others.
pub fn is_topmost(ex_style: i32) -> (r: bool)
    ensures
        r == has_topmost_flag(ex_style),
{
    ex_style & WS_EX_TOPMOST == WS_EX_TOPMOST
}

impl Default for WindowStyle {
    /// A window that does not cover its monitor, at the origin, of no size, with no style.
    fn default() -> (r: Self)
        ensures
            !r.full_screen,
            r.pos == (0i32, 0i32),
            r.size == (0i32, 0i32),
            r.style == 0,
            r.ex_style == 0,
    {
        WindowStyle { full_screen: false, pos: (0, 0), size: (0, 0), style: 0, ex_style: 0 }
    }
}

impl WindowStyle {
    /// The state bits of the window, from what the system says of it: whether it is
    /// minimized, maximized and the foreground window; full screen comes from the
    /// style itself.
    pub fn get_window_state(self, minimized: bool, maximized: bool, active: bool) -> (r: u32)
        ensures
            r as int == window_state_bits(minimized, maximized, self.full_screen, active),
    {
        let mut state: u32 = 0;
        if minimized {
            state = state + STATE_MINIMIZED;
        }
        if maximized {
            state = state + STATE_MAXIMIZED;
        }
        if active {
            state = state + STATE_ACTIVE;
        }
        if self.full_screen {
            state = state + STATE_FULL_SCREEN;
        }
        state
    }

    /// What the web UI is told when the window's visibility changes: whether it is
    /// visible, its visibility as a number (1 when it covers its monitor, else 0), and
    /// whether it covers its monitor.
    pub fn visibility_change(&self, visible: bool) -> (r: (bool, u32, bool))
        ensures
            r == (visible, if self.full_screen {
                1u32
            } else {
                0u32
            }, self.full_screen),
    {
        (visible, if self.full_screen {
            1
        } else {
            0
        }, self.full_screen)
    }

    /// Where the window is to be shown, at the position and size it holds.
    pub fn window_pos(&self, z_order: ZOrder) -> (r: WindowPos)
        ensures
            r == (WindowPos {
                z_order,
                x: self.pos.0,
                y: self.pos.1,
                width: self.size.0,
                height: self.size.1,
            }),
    {
        WindowPos { z_order, x: self.pos.0, y: self.pos.1, width: self.size.0, height: self.size.1 }
    }

    /// Sizes the window to sixteen ninths by seven tenths of the smaller side of a
    /// monitor of the given size, no smaller than the given minimum, and centres it.
    pub fn center_window(&mut self, monitor_w: i32, monitor_h: i32, min_width: i32, min_height: i32)
        requires
            centring_fits(monitor_w, monitor_h, min_width, min_height),
        ensures
            final(self).size.0 == centred_width(monitor_w as int, monitor_h as int, min_width as int),
            final(self).size.1 == centred_height(monitor_w as int, monitor_h as int, min_height as int),
            final(self).pos.0 == trunc_div(monitor_w - final(self).size.0, 2),
            final(self).pos.1 == trunc_div(monitor_h - final(self).size.1, 2),
            final(self).full_screen == old(self).full_screen,
            final(self).style == old(self).style,
            final(self).ex_style == old(self).ex_style,
    {
        let smaller = if monitor_w <= monitor_h {
            monitor_w
        } else {
            monitor_h
        };
        let small_side = smaller * 70 / 100;
        let wide = small_side * 16 / 9;
        let width = if wide >= min_width {
            wide
        } else {
            min_width
        };
        let height = if small_side >= min_height {
            small_side
        } else {
            min_height
        };
        self.size = (width, height);
        self.pos = ((monitor_w - width) / 2, (monitor_h - height) / 2);
    }

    /// Takes the position and size of the normal position of a placement that is about
    /// to be given to the window.
    pub fn restore_window_placement(&mut self, placement: &WindowPlacement)
        requires
            extent_fits(placement.normal_position),
        ensures
            final(self).pos == (placement.normal_position.left, placement.normal_position.top),
            final(self).size.0 == placement.normal_position.right - placement.normal_position.left,
            final(self).size.1 == placement.normal_position.bottom - placement.normal_position.top,
            final(self).full_screen == old(self).full_screen,
            final(self).style == old(self).style,
            final(self).ex_style == old(self).ex_style,
    {
        let rect = placement.normal_position;
        self.pos = (rect.left, rect.top);
        self.size = (rect.right - rect.left, rect.bottom - rect.top);
    }

    /// Switches full screen on or off. On, the window's rectangle and styles are kept
    /// so that switching off gives them back, and the window loses its frame and covers
    /// its monitor; off, the kept styles and rectangle are given back and the window
    /// stays on top if its kept extended style says so.
    pub fn set_full_screen(&mut self, full_screen: bool, window: &WindowSnapshot) -> (r:
        FullScreenChange)
        requires
            full_screen_fits(*old(self), full_screen, *window),
        ensures
            (*final(self), r) == full_screen_step(*old(self), full_screen, *window),
    {
        if self.full_screen == full_screen {
            return FullScreenChange::Unchanged;
        }
        if !full_screen {
            let z_order = if is_topmost(self.ex_style) {
                ZOrder::TopMost
            } else {
                ZOrder::NoTopMost
            };
            let pos = self.window_pos(z_order);
            self.full_screen = false;
            FullScreenChange::Restored { style: self.style, ex_style: self.ex_style, pos }
        } else {
            let rect = window.rect;
            self.pos = (rect.left, rect.top);
            self.size = (rect.right - rect.left, rect.bottom - rect.top);
            self.style = window.style;
            self.ex_style = window.ex_style;
            match window.monitor {
                None => FullScreenChange::MonitorUnavailable,
                Some(monitor) => {
                    let change = FullScreenChange::Covered {
                        style: self.style & !FRAME_STYLE_BITS,
                        ex_style: self.ex_style & !EDGE_EX_STYLE_BITS,
                        pos: WindowPos {
                            z_order: ZOrder::NoTopMost,
                            x: monitor.left,
                            y: monitor.top,
                            width: monitor.right - monitor.left,
                            height: monitor.bottom - monitor.top,
                        },
                    };
                    self.full_screen = true;
                    change
                },
            }
        }
    }

    /// Where to put the window in the z-order to flip whether it stays on top, given
    /// the extended style that it has now. Once the window is placed there, the style
    /// it reports is kept with `keep_ex_style`.
    pub fn toggle_topmost(&self, current_ex_style: i32) -> (r: ZOrder)
        ensures
            r == toggled_z_order(current_ex_style),
    {
        if is_topmost(current_ex_style) {
            ZOrder::NoTopMost
        } else {
            ZOrder::TopMost
        }
    }

    /// Keeps the extended style that the window reports once its place in the z-order
    /// has been changed by `toggle_topmost`; nothing else of the style changes.
    pub fn keep_ex_style(&mut self, read_back: i32)
        ensures
            *final(self) == (WindowStyle { ex_style: read_back, ..*old(self) }),
    {
        self.ex_style = read_back;
    }

    /// The state of the tray's "always on top" item: enabled when the window does not
    /// cover its monitor, checked when the kept extended style stays on top.
    pub fn topmost_menu_state(&self) -> (r: (bool, bool))
        ensures
            r == (!self.full_screen, has_topmost_flag(self.ex_style)),
    {
        (!self.full_screen, is_topmost(self.ex_style))
    }
}

/// Asking for the full-screen state that the window already has changes nothing.
pub proof fn lemma_full_screen_same_state_unchanged(s: WindowStyle, window: WindowSnapshot)
    ensures
        full_screen_step(s, s.full_screen, window) == (s, FullScreenChange::Unchanged),
{
}

/// Covering the monitor and then leaving it gives the window back the rectangle and
/// the styles that it had before, and on top exactly when its style said so; the
/// window then no longer covers its monitor.
pub proof fn lemma_full_screen_round_trip(
    s: WindowStyle,
    window: WindowSnapshot,
    later: WindowSnapshot,
)
    requires
        !s.full_screen,
        window.monitor is Some,
        full_screen_fits(s, true, window),
    ensures
        ({
            let (covered, change) = full_screen_step(s, true, window);
            let (restored, back) = full_screen_step(covered, false, later);
            &&& covered.full_screen
            &&& change is Covered
            &&& !restored.full_screen
            &&& back == FullScreenChange::Restored {
                style: window.style,
                ex_style: window.ex_style,
                pos: WindowPos {
                    z_order: z_order_of(window.ex_style),
                    x: window.rect.left,
                    y: window.rect.top,
                    width: (window.rect.right - window.rect.left) as i32,
                    height: (window.rect.bottom - window.rect.top) as i32,
                },
            }
            &&& restored.pos == (window.rect.left, window.rect.top)
            &&& restored.size.0 == window.rect.right - window.rect.left
            &&& restored.size.1 == window.rect.bottom - window.rect.top
            &&& restored.style == window.style
            &&& restored.ex_style == window.ex_style
        }),
{
}

/// When the monitor cannot be read, the window is not marked as covering it, so that
/// the next request tries again.
pub proof fn lemma_monitor_unavailable_stays_windowed(s: WindowStyle, window: WindowSnapshot)
    requires
        !s.full_screen,
        window.monitor is None,
    ensures
        ({
            let (next, change) = full_screen_step(s, true, window);
            &&& change == FullScreenChange::MonitorUnavailable
            &&& !next.full_screen
        }),
{
}

/// A window that covers its monitor has neither caption nor sizing border nor any
/// of the edges, and keeps every other style bit it had.
pub proof fn lemma_covered_window_is_frameless(s: WindowStyle, window: WindowSnapshot)
    requires
        !s.full_screen,
        window.monitor is Some,
    ensures
        ({
            let (_, change) = full_screen_step(s, true, window);
            &&& change matches FullScreenChange::Covered { style, ex_style, .. }
            &&& style & FRAME_STYLE_BITS == 0
            &&& ex_style & EDGE_EX_STYLE_BITS == 0
            &&& style | (window.style & FRAME_STYLE_BITS) == window.style
            &&& ex_style | (window.ex_style & EDGE_EX_STYLE_BITS) == window.ex_style
        }),
{
    let a = window.style;
    let b = window.ex_style;
    let m = FRAME_STYLE_BITS;
    let n = EDGE_EX_STYLE_BITS;
    assert((a & !m) & m == 0 && (a & !m) | (a & m) == a) by (bit_vector);
    assert((b & !n) & n == 0 && (b & !n) | (b & n) == b) by (bit_vector);
}

/// Each state bit is set exactly when its condition holds, and no other bit is.
pub proof fn lemma_window_state_bits_decode(
    minimized: bool,
    maximized: bool,
    full_screen: bool,
    active: bool,
)
    ensures
        ({
            let bits = window_state_bits(minimized, maximized, full_screen, active) as u32;
            &&& 0 <= window_state_bits(minimized, maximized, full_screen, active) < 16
            &&& (bits & STATE_MINIMIZED != 0) == minimized
            &&& (bits & STATE_MAXIMIZED != 0) == maximized
            &&& (bits & STATE_FULL_SCREEN != 0) == full_screen
            &&& (bits & STATE_ACTIVE != 0) == active
        }),
{
    let bits = window_state_bits(minimized, maximized, full_screen, active) as u32;
    let a: u32 = if minimized { 1 } else { 0 };
    let b: u32 = if maximized { 1 } else { 0 };
    let c: u32 = if full_screen { 1 } else { 0 };
    let d: u32 = if active { 1 } else { 0 };
    assert(bits == a + 2 * b + 4 * c + 8 * d);
    assert(a <= 1 && b <= 1 && c <= 1 && d <= 1 ==> {
        let v: u32 = (a + 2 * b + 4 * c + 8 * d) as u32;
        &&& (v & 1 != 0) == (a == 1)
        &&& (v & 2 != 0) == (b == 1)
        &&& (v & 4 != 0) == (c == 1)
        &&& (v & 8 != 0) == (d == 1)
    }) by (bit_vector);
}

/// For components below 256 the colour is red plus 256 times green plus 65536 times
/// blue, and each component can be read back from its byte.
pub proof fn lemma_color_components(red: u32, green: u32, blue: u32)
    requires
        red < 256,
        green < 256,
        blue < 256,
    ensures
        color_value(red, green, blue) == red + 256 * green + 65536 * blue,
        color_value(red, green, blue) & 0xff == red,
        (color_value(red, green, blue) >> 8u32) & 0xff == green,
        (color_value(red, green, blue) >> 16u32) & 0xff == blue,
{
    assert(red < 256 && green < 256 && blue < 256 ==> {
        let c: u32 = red | (green << 8u32) | (blue << 16u32);
        &&& c == red + 256 * green + 65536 * blue
        &&& c & 0xff == red
        &&& (c >> 8u32) & 0xff == green
        &&& (c >> 16u32) & 0xff == blue
    }) by (bit_vector);
}

/// A centred window's left edge and its right edge are equally far from the
/// monitor's, to a pixel (the remainder of the halving goes to one side).
pub proof fn lemma_centred_window_is_centred(
    monitor_w: i32,
    monitor_h: i32,
    min_width: i32,
    min_height: i32,
)
    ensures
        ({
            let width = centred_width(monitor_w as int, monitor_h as int, min_width as int);
            let height = centred_height(monitor_w as int, monitor_h as int, min_height as int);
            let x = trunc_div(monitor_w - width, 2);
            let y = trunc_div(monitor_h - height, 2);
            &&& width >= min_width
            &&& height >= min_height
            &&& -1 <= (monitor_w - (x + width)) - x <= 1
            &&& -1 <= (monitor_h - (y + height)) - y <= 1
        }),
{
}

/// Once the window covers its monitor, the state and the visibility sent to the web
/// UI say so; once it has left it, they say it does not.
pub proof fn lemma_full_screen_is_reported(
    s: WindowStyle,
    full_screen: bool,
    window: WindowSnapshot,
    minimized: bool,
    maximized: bool,
    active: bool,
)
    requires
        full_screen ==> window.monitor is Some,
    ensures
        ({
            let (next, _) = full_screen_step(s, full_screen, window);
            &&& next.full_screen == full_screen
            &&& (window_state_bits(minimized, maximized, next.full_screen, active) as u32)
                & STATE_FULL_SCREEN != 0 <==> full_screen
        }),
{
    lemma_window_state_bits_decode(minimized, maximized, full_screen, active);
}

/// The z-order that `toggle_topmost` picks for a window with this extended style.
pub open spec fn toggled_z_order(current_ex_style: i32) -> ZOrder {
    if has_topmost_flag(current_ex_style) {
        ZOrder::NoTopMost
    } else {
        ZOrder::TopMost
    }
}

/// When the window took the place that `toggle_topmost` picked from the style it had
/// (`current`), so that the style it reports afterwards (`first`) stays on top exactly
/// when that place is on top, the kept style's "on top" flag is the opposite of the
/// one it had; a second toggle, from that style, gives the flag back. The rest of the
/// kept style does not change.
pub proof fn lemma_toggle_topmost_flips_kept_flag(
    s: WindowStyle,
    current: i32,
    first: i32,
    second: i32,
)
    requires
        has_topmost_flag(first) == (toggled_z_order(current) == ZOrder::TopMost),
        has_topmost_flag(second) == (toggled_z_order(first) == ZOrder::TopMost),
    ensures
        ({
            let once = WindowStyle { ex_style: first, ..s };
            let twice = WindowStyle { ex_style: second, ..once };
            &&& has_topmost_flag(once.ex_style) == !has_topmost_flag(current)
            &&& has_topmost_flag(twice.ex_style) == has_topmost_flag(current)
            &&& once.full_screen == s.full_screen && once.pos == s.pos && once.size == s.size
                && once.style == s.style
        }),
{
}

/// A window that covers its monitor takes exactly the monitor's rectangle and does
/// not stay on top; the rectangle it had before is the one it keeps to go back to.
pub proof fn lemma_covered_window_takes_monitor(s: WindowStyle, window: WindowSnapshot, m: Rect)
    requires
        !s.full_screen,
        window.monitor == Some(m),
        full_screen_fits(s, true, window),
    ensures
        ({
            let (next, change) = full_screen_step(s, true, window);
            &&& change matches FullScreenChange::Covered { pos, .. }
            &&& pos.z_order == ZOrder::NoTopMost
            &&& pos.x == m.left
            &&& pos.y == m.top
            &&& pos.x + pos.width == m.right
            &&& pos.y + pos.height == m.bottom
            &&& next.pos.0 == window.rect.left
            &&& next.pos.1 == window.rect.top
            &&& next.pos.0 + next.size.0 == window.rect.right
            &&& next.pos.1 + next.size.1 == window.rect.bottom
        }),
{
}

/// A window that leaves its monitor goes back to the position and size kept, with the
/// kept styles, on top exactly when the kept extended style has the "on top" bit.
pub proof fn lemma_restored_window_takes_kept_rectangle(s: WindowStyle, window: WindowSnapshot)
    requires
        s.full_screen,
    ensures
        ({
            let (next, change) = full_screen_step(s, false, window);
            &&& !next.full_screen
            &&& next.pos == s.pos && next.size == s.size && next.style == s.style
                && next.ex_style == s.ex_style
            &&& change matches FullScreenChange::Restored { style, ex_style, pos }
            &&& style == s.style && ex_style == s.ex_style
            &&& pos.x == s.pos.0 && pos.y == s.pos.1
            &&& pos.width == s.size.0 && pos.height == s.size.1
            &&& (pos.z_order == ZOrder::TopMost) == ((s.ex_style as u32) / 8 % 2 == 1)
        }),
{
    lemma_topmost_flag_is_bit_three(s.ex_style);
}

/// The "on top" flag is bit 3 of the extended style.
pub proof fn lemma_topmost_flag_is_bit_three(ex_style: i32)
    ensures
        has_topmost_flag(ex_style) == ((ex_style as u32) / 8 % 2 == 1),
{
    assert((ex_style & 8i32 == 8i32) == ((ex_style as u32) / 8 % 2 == 1)) by (bit_vector);
}

/// `toggle_topmost` puts on top exactly the window whose style does not have bit 3.
pub proof fn lemma_toggle_picks_the_other_place(current: i32)
    ensures
        (toggled_z_order(current) == ZOrder::TopMost) == ((current as u32) / 8 % 2 == 0),
{
    lemma_topmost_flag_is_bit_three(current);
}

/// The size of a centred window on a monitor of non-negative size: the small side is
/// the largest whole number within seven tenths of the monitor's smaller side; the
/// height is the small side, or the minimum height when that is larger; the width is
/// the largest whole number within sixteen ninths of the small side, or the minimum
/// width when that is larger.
pub proof fn lemma_centred_size(monitor_w: int, monitor_h: int, min_width: int, min_height: int)
    requires
        monitor_w >= 0,
        monitor_h >= 0,
    ensures
        ({
            let smaller = if monitor_w <= monitor_h {
                monitor_w
            } else {
                monitor_h
            };
            let small = centred_small_side(monitor_w, monitor_h);
            let width = centred_width(monitor_w, monitor_h, min_width);
            let height = centred_height(monitor_w, monitor_h, min_height);
            &&& small * 100 <= smaller * 70 < small * 100 + 100
            &&& height >= small && height >= min_height && (height == small || height == min_height)
            &&& width >= min_width
            &&& (width == min_width || (width * 9 <= small * 16 < width * 9 + 9))
        }),
{
    let smaller = if monitor_w <= monitor_h {
        monitor_w
    } else {
        monitor_h
    };
    let small = centred_small_side(monitor_w, monitor_h);
    assert(small == (smaller * 70) / 100);
    assert(small * 100 <= smaller * 70 < small * 100 + 100) by (nonlinear_arith)
        requires
            smaller >= 0,
            small == (smaller * 70) / 100,
    ;
    assert(small >= 0);
    let wide = trunc_div(small * 16, 9);
    assert(wide == (small * 16) / 9);
    assert(wide * 9 <= small * 16 < wide * 9 + 9) by (nonlinear_arith)
        requires
            small >= 0,
            wide == (small * 16) / 9,
    ;
}

} // verus!
