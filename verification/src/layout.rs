//! The fixed frame layout: a flexible-height region for the active screen,
//! a three-row strip below it (a reserved left strip of width 26 and the
//! playback gauge to its right), and a one-row command line at the bottom.

use vstd::prelude::*;

verus! {

/// A rectangular region of the terminal frame, in character cells.
#[derive(Clone, Copy, PartialEq, Eq, Structural, Debug)]
pub struct Rect {
    pub x: u16,
    pub y: u16,
    pub width: u16,
    pub height: u16,
}

/// The regions one frame is split into.
#[derive(Clone, Copy, PartialEq, Eq, Structural, Debug)]
pub struct FrameChunks {
    pub screen: Rect,
    pub reserved: Rect,
    pub gauge: Rect,
    pub command_line: Rect,
}

/// Height of the screen region: everything above the three-row playback
/// strip and the one-row command line. When the frame is too short for all
/// three regions, the screen keeps at least three rows if it can, and the
/// lower regions shrink from the bottom up.
pub open spec fn spec_screen_height(h: int) -> int {
    if h >= 7 {
        h - 4
    } else if h >= 3 {
        3
    } else {
        h
    }
}

/// Height of the playback strip: three rows when they fit below the screen
/// region, whatever is left otherwise.
pub open spec fn spec_gauge_height(h: int) -> int {
    if h - spec_screen_height(h) >= 3 {
        3
    } else {
        h - spec_screen_height(h)
    }
}

/// Height of the command line: one row when it fits, nothing otherwise.
pub open spec fn spec_command_line_height(h: int) -> int {
    if h - spec_screen_height(h) - spec_gauge_height(h) >= 1 {
        1
    } else {
        0
    }
}

/// Width of the reserved left strip of the playback row.
pub open spec fn spec_reserved_width(w: int) -> int {
    if w >= 26 {
        26
    } else {
        w
    }
}

/// The frame split into its four regions.
pub open spec fn spec_split_frame(area: Rect) -> FrameChunks {
    let screen_h = spec_screen_height(area.height as int);
    let gauge_h = spec_gauge_height(area.height as int);
    let cmd_h = spec_command_line_height(area.height as int);
    let left_w = spec_reserved_width(area.width as int);
    FrameChunks {
        screen: Rect { x: area.x, y: area.y, width: area.width, height: screen_h as u16 },
        reserved: Rect {
            x: area.x,
            y: (area.y + screen_h) as u16,
            width: left_w as u16,
            height: gauge_h as u16,
        },
        gauge: Rect {
            x: (area.x + left_w) as u16,
            y: (area.y + screen_h) as u16,
            width: (area.width - left_w) as u16,
            height: gauge_h as u16,
        },
        command_line: Rect {
            x: area.x,
            y: (area.y + screen_h + gauge_h) as u16,
            width: area.width,
            height: cmd_h as u16,
        },
    }
}

/// Splits one frame into the screen region, the reserved strip, the
/// playback gauge and the command line, exactly as `spec_split_frame`
/// states. The requirement only says the rectangle must lie within the
/// coordinate space.
pub fn split_frame(area: Rect) -> (c: FrameChunks)
    requires
        area.x + area.width <= u16::MAX,
        area.y + area.height <= u16::MAX,
    ensures
        c == spec_split_frame(area),
{
    let screen_h: u16 = if area.height >= 7 {
        area.height - 4
    } else if area.height >= 3 {
        3
    } else {
        area.height
    };
    let gauge_h: u16 = if area.height - screen_h >= 3 {
        3
    } else {
        area.height - screen_h
    };
    let cmd_h: u16 = if area.height - screen_h - gauge_h >= 1 {
        1
    } else {
        0
    };
    let left_w: u16 = if area.width >= 26 {
        26
    } else {
        area.width
    };
    FrameChunks {
        screen: Rect { x: area.x, y: area.y, width: area.width, height: screen_h },
        reserved: Rect { x: area.x, y: area.y + screen_h, width: left_w, height: gauge_h },
        gauge: Rect {
            x: area.x + left_w,
            y: area.y + screen_h,
            width: area.width - left_w,
            height: gauge_h,
        },
        command_line: Rect {
            x: area.x,
            y: area.y + screen_h + gauge_h,
            width: area.width,
            height: cmd_h,
        },
    }
}

} // verus!
