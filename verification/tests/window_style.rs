use stremio_shell_ng::constants::{WINDOW_MIN_HEIGHT, WINDOW_MIN_WIDTH};
use stremio_shell_ng::geometry::{Point, Rect, WindowPlacement};
use stremio_shell_ng::window_style::{
    caption_color, caption_text_color, colorref, is_topmost, FullScreenChange, WindowPos,
    WindowSnapshot, WindowStyle, ZOrder, EDGE_EX_STYLE_BITS, FRAME_STYLE_BITS, WS_CAPTION,
    WS_EX_TOPMOST, WS_THICKFRAME,
};

const STYLE: i32 = 0x16CF_0000;
const EX_STYLE: i32 = 0x0000_0308;

fn snapshot(monitor: Option<Rect>) -> WindowSnapshot {
    WindowSnapshot {
        rect: Rect { left: 100, top: 50, right: 1100, bottom: 650 },
        style: STYLE,
        ex_style: EX_STYLE,
        monitor,
    }
}

#[test]
fn window_state_bits() {
    let windowed = WindowStyle::default();
    assert_eq!(windowed.get_window_state(false, false, false), 0);
    assert_eq!(windowed.get_window_state(true, false, false), 1);
    assert_eq!(windowed.get_window_state(false, true, false), 2);
    assert_eq!(windowed.get_window_state(false, false, true), 8);
    assert_eq!(windowed.get_window_state(true, false, true), 9);
    let full = WindowStyle { full_screen: true, ..WindowStyle::default() };
    assert_eq!(full.get_window_state(false, false, false), 4);
    assert_eq!(full.get_window_state(true, true, true), 15);
}

#[test]
fn default_style_is_windowed_and_empty() {
    let s = WindowStyle::default();
    assert!(!s.full_screen);
    assert_eq!(s.pos, (0, 0));
    assert_eq!(s.size, (0, 0));
    assert_eq!(s.style, 0);
    assert_eq!(s.ex_style, 0);
}

#[test]
fn centres_on_a_large_monitor() {
    let mut s = WindowStyle::default();
    s.center_window(1920, 1080, WINDOW_MIN_WIDTH, WINDOW_MIN_HEIGHT);
    assert_eq!(s.size, (1344, 756));
    assert_eq!(s.pos, (288, 162));
    assert!(!s.full_screen);
}

#[test]
fn centring_keeps_the_minimum_size() {
    let mut s = WindowStyle::default();
    s.center_window(801, 600, WINDOW_MIN_WIDTH, WINDOW_MIN_HEIGHT);
    assert_eq!(s.size, (1000, 600));
    // (801 - 1000) / 2 truncates towards zero
    assert_eq!(s.pos, (-99, 0));
}

#[test]
fn centring_on_a_portrait_monitor() {
    let mut s = WindowStyle::default();
    s.center_window(1080, 1920, 100, 100);
    assert_eq!(s.size, (1344, 756));
    assert_eq!(s.pos, (-132, 582));
}

#[test]
fn restoring_a_placement_takes_its_normal_rectangle() {
    let mut s = WindowStyle { style: 7, ex_style: 9, ..WindowStyle::default() };
    let placement = WindowPlacement {
        flags: 0,
        show_cmd: 1,
        min_position: Point { x: 0, y: 0 },
        max_position: Point { x: 0, y: 0 },
        normal_position: Rect { left: -20, top: 30, right: 980, bottom: 630 },
    };
    s.restore_window_placement(&placement);
    assert_eq!(s.pos, (-20, 30));
    assert_eq!(s.size, (1000, 600));
    assert_eq!((s.style, s.ex_style, s.full_screen), (7, 9, false));
}

#[test]
fn same_full_screen_state_changes_nothing() {
    let mut s = WindowStyle { pos: (1, 2), size: (3, 4), style: 5, ex_style: 6, full_screen: false };
    assert_eq!(s.set_full_screen(false, &snapshot(None)), FullScreenChange::Unchanged);
    assert_eq!((s.pos, s.size, s.style, s.ex_style, s.full_screen), ((1, 2), (3, 4), 5, 6, false));
    s.full_screen = true;
    assert_eq!(s.set_full_screen(true, &snapshot(None)), FullScreenChange::Unchanged);
    assert!(s.full_screen);
}

#[test]
fn full_screen_covers_the_monitor_without_frame() {
    let mut s = WindowStyle::default();
    let monitor = Rect { left: -1920, top: 0, right: 0, bottom: 1080 };
    let change = s.set_full_screen(true, &snapshot(Some(monitor)));
    assert_eq!(
        change,
        FullScreenChange::Covered {
            style: STYLE & !(WS_CAPTION | WS_THICKFRAME),
            ex_style: 0x0000_0008,
            pos: WindowPos { z_order: ZOrder::NoTopMost, x: -1920, y: 0, width: 1920, height: 1080 },
        }
    );
    if let FullScreenChange::Covered { style, ex_style, .. } = change {
        assert_eq!(style & FRAME_STYLE_BITS, 0);
        assert_eq!(ex_style & EDGE_EX_STYLE_BITS, 0);
    }
    assert!(s.full_screen);
    assert_eq!(s.pos, (100, 50));
    assert_eq!(s.size, (1000, 600));
    assert_eq!(s.style, STYLE);
    assert_eq!(s.ex_style, EX_STYLE);
}

#[test]
fn leaving_full_screen_gives_back_the_window() {
    let mut s = WindowStyle::default();
    let monitor = Rect { left: 0, top: 0, right: 1920, bottom: 1080 };
    s.set_full_screen(true, &snapshot(Some(monitor)));
    let change = s.set_full_screen(false, &snapshot(None));
    assert_eq!(
        change,
        FullScreenChange::Restored {
            style: STYLE,
            ex_style: EX_STYLE,
            pos: WindowPos { z_order: ZOrder::TopMost, x: 100, y: 50, width: 1000, height: 600 },
        }
    );
    assert!(!s.full_screen);
}

#[test]
fn leaving_full_screen_of_a_normal_window_is_not_topmost() {
    let mut s = WindowStyle { full_screen: true, pos: (1, 2), size: (3, 4), style: 5, ex_style: 0x100 };
    let change = s.set_full_screen(false, &snapshot(None));
    assert_eq!(
        change,
        FullScreenChange::Restored {
            style: 5,
            ex_style: 0x100,
            pos: WindowPos { z_order: ZOrder::NoTopMost, x: 1, y: 2, width: 3, height: 4 },
        }
    );
}

#[test]
fn unreadable_monitor_keeps_the_window() {
    let mut s = WindowStyle::default();
    assert_eq!(s.set_full_screen(true, &snapshot(None)), FullScreenChange::MonitorUnavailable);
    assert!(!s.full_screen);
    assert_eq!(s.pos, (100, 50));
    assert_eq!(s.size, (1000, 600));
    assert_eq!(s.style, STYLE);
}

#[test]
fn topmost_flag() {
    assert!(is_topmost(WS_EX_TOPMOST));
    assert!(is_topmost(EX_STYLE));
    assert!(!is_topmost(0x0000_0300));
    assert!(is_topmost(-1));
}

#[test]
fn toggling_topmost_flips_the_z_order() {
    let s = WindowStyle::default();
    assert_eq!(s.toggle_topmost(0x0000_0100), ZOrder::TopMost);
    assert_eq!(s.toggle_topmost(0x0000_0108), ZOrder::NoTopMost);
}

#[test]
fn tray_topmost_item_follows_the_style() {
    let s = WindowStyle { ex_style: 8, ..WindowStyle::default() };
    assert_eq!(s.topmost_menu_state(), (true, true));
    let f = WindowStyle { full_screen: true, ex_style: 0, ..WindowStyle::default() };
    assert_eq!(f.topmost_menu_state(), (false, false));
}

#[test]
fn visibility_change_reports_full_screen() {
    let s = WindowStyle::default();
    assert_eq!(s.visibility_change(true), (true, 0, false));
    let f = WindowStyle { full_screen: true, ..WindowStyle::default() };
    assert_eq!(f.visibility_change(false), (false, 1, true));
}

#[test]
fn colours() {
    assert_eq!(colorref(0x1e, 0x1e, 0x1e), 0x001e_1e1e);
    assert_eq!(colorref(0x12, 0x34, 0x56), 0x0056_3412);
    assert_eq!(caption_color(), 0x001e_1e1e);
    assert_eq!(caption_text_color(), 0x00ff_ffff);
}

#[test]
fn window_pos_of_style() {
    let s = WindowStyle { pos: (7, 8), size: (9, 10), ..WindowStyle::default() };
    assert_eq!(
        s.window_pos(ZOrder::NoTopMost),
        WindowPos { z_order: ZOrder::NoTopMost, x: 7, y: 8, width: 9, height: 10 }
    );
}

#[test]
fn toggling_topmost_keeps_the_style_read_back() {
    let mut s = WindowStyle { full_screen: false, pos: (1, 2), size: (3, 4), style: 5, ex_style: 0x100 };
    let current = 0x0000_0100;
    assert_eq!(s.toggle_topmost(current), ZOrder::TopMost);
    s.keep_ex_style(0x0000_0108);
    assert_eq!((s.full_screen, s.pos, s.size, s.style, s.ex_style), (false, (1, 2), (3, 4), 5, 0x108));
    assert_eq!(s.topmost_menu_state(), (true, true));
    assert_eq!(s.toggle_topmost(s.ex_style), ZOrder::NoTopMost);
    s.keep_ex_style(0x0000_0100);
    assert_eq!(s.topmost_menu_state(), (true, false));
}
