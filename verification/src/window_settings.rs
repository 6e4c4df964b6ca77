use vstd::prelude::*;

use crate::geometry::{restorable, Point, Rect, WindowPlacement};

verus! {

/// Show command: the window is shown in its normal position.
pub const SW_SHOWNORMAL: u32 = 1;

/// Show command: the window is shown maximized.
pub const SW_SHOWMAXIMIZED: u32 = 3;

/// The placement of the main window that is kept between two runs of the shell.
#[derive(Clone, Copy, Debug, PartialEq, Eq, Structural)]
pub struct WindowSettings {
    pub show_cmd: u32,
    pub min_position: Point,
    pub max_position: Point,
    pub normal_position: Rect,
}

/// The show command that is kept: maximized stays maximized, anything else is shown
/// in the normal position.
pub open spec fn kept_show_cmd(show_cmd: u32) -> u32 {
    if show_cmd == SW_SHOWMAXIMIZED {
        SW_SHOWMAXIMIZED
    } else {
        SW_SHOWNORMAL
    }
}

/// The settings kept of a window: none for a minimized window, for one whose placement
/// could not be read, or for one whose normal position has no area.
pub open spec fn settings_of_window(minimized: bool, placement: Option<WindowPlacement>) -> Option<
    WindowSettings,
> {
    if minimized {
        None
    } else {
        match placement {
            None => None,
            Some(p) => if restorable(p.normal_position) {
                Some(
                    WindowSettings {
                        show_cmd: kept_show_cmd(p.show_cmd),
                        min_position: p.min_position,
                        max_position: p.max_position,
                        normal_position: p.normal_position,
                    },
                )
            } else {
                None
            },
        }
    }
}

/// The placement given back to the window from kept settings: shown as kept if the
/// normal position has an area, else shown in the normal position.
pub open spec fn placement_of_settings(s: WindowSettings) -> WindowPlacement {
    WindowPlacement {
        flags: 0,
        show_cmd: if restorable(s.normal_position) {
            s.show_cmd
        } else {
            SW_SHOWNORMAL
        },
        min_position: s.min_position,
        max_position: s.max_position,
        normal_position: s.normal_position,
    }
}

impl WindowSettings {
    /// The placement to give the window from these settings.
    pub fn to_window_placement(&self) -> (r: WindowPlacement)
        ensures
            r == placement_of_settings(*self),
    {
        let mut placement = WindowPlacement {
            flags: 0,
            show_cmd: self.show_cmd,
            min_position: self.min_position,
            max_position: self.max_position,
            normal_position: self.normal_position,
        };
        if !crate::geometry::is_restorable_size(&placement.normal_position) {
            placement.show_cmd = SW_SHOWNORMAL;
        }
        placement
    }

    /// The settings to keep of a window, from whether it is minimized and, when it is
    /// not, the placement that the system reports for it (`None` when it could not be
    /// read).
    pub fn from_window(minimized: bool, placement: Option<WindowPlacement>) -> (r: Option<Self>)
        ensures
            r == settings_of_window(minimized, placement),
    {
        if minimized {
            return None;
        }
        let placement = match placement {
            Some(p) => p,
            None => return None,
        };
        if !crate::geometry::is_restorable_size(&placement.normal_position) {
            return None;
        }
        Some(
            WindowSettings {
                show_cmd: if placement.show_cmd == SW_SHOWMAXIMIZED {
                    SW_SHOWMAXIMIZED
                } else {
                    SW_SHOWNORMAL
                },
                min_position: placement.min_position,
                max_position: placement.max_position,
                normal_position: placement.normal_position,
            },
        )
    }
}

/// Kept settings are shown either maximized or in the normal position, and always
/// have a normal position with an area.
pub proof fn lemma_kept_settings_are_restorable(minimized: bool, placement: Option<WindowPlacement>)
    ensures
        settings_of_window(minimized, placement) matches Some(s) ==> {
            &&& s.show_cmd == SW_SHOWMAXIMIZED || s.show_cmd == SW_SHOWNORMAL
            &&& restorable(s.normal_position)
        },
{
}

/// A window placed from the settings kept of it gets back its positions, and is
/// shown maximized exactly when it was maximized.
pub proof fn lemma_settings_round_trip(placement: WindowPlacement)
    requires
        restorable(placement.normal_position),
    ensures
        ({
            let kept = settings_of_window(false, Some(placement));
            &&& kept is Some
            &&& placement_of_settings(kept->0) == WindowPlacement {
                flags: 0,
                show_cmd: kept_show_cmd(placement.show_cmd),
                ..placement
            }
        }),
{
}

/// Giving back and keeping again changes nothing: the settings kept of a window placed
/// from kept settings are those settings.
pub proof fn lemma_settings_stable(s: WindowSettings)
    requires
        s.show_cmd == SW_SHOWMAXIMIZED || s.show_cmd == SW_SHOWNORMAL,
        restorable(s.normal_position),
    ensures
        settings_of_window(false, Some(placement_of_settings(s))) == Some(s),
{
}

/// A normal position without an area is never shown otherwise than normal.
pub proof fn lemma_empty_position_shown_normal(s: WindowSettings)
    requires
        !restorable(s.normal_position),
    ensures
        placement_of_settings(s).show_cmd == SW_SHOWNORMAL,
{
}

/// The settings kept of a window that is not minimized and whose normal position has
/// an area are its positions, shown maximized (3) exactly when it was maximized and
/// otherwise normal (1); a window whose normal position has no area, or that is
/// minimized, or whose placement could not be read, keeps nothing.
pub proof fn lemma_kept_show_command(minimized: bool, placement: Option<WindowPlacement>)
    ensures
        ({
            let kept = settings_of_window(minimized, placement);
            match placement {
                Some(p) => if !minimized && p.normal_position.right > p.normal_position.left
                    && p.normal_position.bottom > p.normal_position.top {
                    &&& kept matches Some(s)
                    &&& s.show_cmd == (if p.show_cmd == 3 {
                        3u32
                    } else {
                        1u32
                    })
                    &&& s.min_position == p.min_position
                    &&& s.max_position == p.max_position
                    &&& s.normal_position == p.normal_position
                } else {
                    kept is None
                },
                None => kept is None,
            }
        }),
{
}

/// A placement given from settings has no flags and the kept positions, and is shown
/// as kept when the normal position has an area, normal (1) otherwise.
pub proof fn lemma_placement_show_command(s: WindowSettings)
    ensures
        ({
            let p = placement_of_settings(s);
            &&& p.flags == 0
            &&& p.min_position == s.min_position
            &&& p.max_position == s.max_position
            &&& p.normal_position == s.normal_position
            &&& p.show_cmd == (if s.normal_position.right > s.normal_position.left
                && s.normal_position.bottom > s.normal_position.top {
                s.show_cmd
            } else {
                1u32
            })
        }),
{
}

} // verus!
