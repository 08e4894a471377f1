//! Where the parts of the game screen go on the terminal.

use vstd::prelude::*;

verus! {

/// The least size of the terminal for a game alone.
pub const MIN_WIDTH: u16 = 56;

pub const MIN_HEIGHT: u16 = 26;

/// The least size of the terminal for two boards side by side.
pub const VS_MIN_WIDTH: u16 = 106;

pub const VS_MIN_HEIGHT: u16 = 26;

/// The board in terminal cells: two columns per cell of the playfield.
pub const BOARD_CELL_W: u16 = 20;

pub const BOARD_CELL_H: u16 = 20;

/// The board with its border.
pub const BOARD_TOTAL_W: u16 = 22;

pub const BOARD_TOTAL_H: u16 = 22;

/// The width of the panels beside the board.
pub const PANEL_W: u16 = 12;

/// The width of a board with its two panels.
pub const SINGLE_W: u16 = 48;

/// The height of a board with the row of controls under it.
pub const SINGLE_H: u16 = 24;

/// The space between the two boards of a versus game.
pub const VERSUS_GAP: u16 = 4;

/// A rectangle of terminal cells.
#[derive(Debug, Clone, Copy, PartialEq, Eq, Structural)]
pub struct Area {
    pub x: u16,
    pub y: u16,
    pub width: u16,
    pub height: u16,
}

/// The rectangle at (`x`, `y`) of the given size, cut down so that it does
/// not reach beyond the greatest coordinate.
pub open spec fn area_at(x: int, y: int, width: int, height: int) -> Area {
    Area {
        x: x as u16,
        y: y as u16,
        width: (if width > u16::MAX - x {
            u16::MAX - x
        } else {
            width
        }) as u16,
        height: (if height > u16::MAX - y {
            u16::MAX - y
        } else {
            height
        }) as u16,
    }
}

/// Half of what `length` has beyond `needed`.
pub open spec fn margin(length: int, needed: int) -> int {
    if length > needed {
        (length - needed) / 2
    } else {
        0
    }
}

impl Area {
    /// The rectangle at (`x`, `y`) of the given size, cut down so that it
    /// does not reach beyond the greatest coordinate.
    pub fn new(x: u16, y: u16, width: u16, height: u16) -> (area: Area)
        ensures
            area == area_at(x as int, y as int, width as int, height as int),
    {
        let max_width = u16::MAX - x;
        let max_height = u16::MAX - y;
        let width = if width > max_width {
            max_width
        } else {
            width
        };
        let height = if height > max_height {
            max_height
        } else {
            height
        };
        Area { x, y, width, height }
    }
}

/// Where the parts of one board go.
#[derive(Debug, Clone, Copy, PartialEq, Eq, Structural)]
pub struct SingleLayout {
    pub hold: Area,
    pub board: Area,
    pub next: Area,
    pub left_sidebar: Area,
    pub right_sidebar: Area,
    pub garbage_bar: Area,
    pub action_text: Area,
    pub controls: Area,
}

/// Where the parts of two boards side by side go.
#[derive(Debug, Clone, Copy, PartialEq, Eq, Structural)]
pub struct VersusLayout {
    pub player: SingleLayout,
    pub ai: SingleLayout,
    pub center: Area,
}

impl SingleLayout {
    /// The column at which the layout begins: the board with its panels is
    /// centred in the area.
    pub open spec fn start_x(area: Area) -> int {
        area.x + margin(area.width as int, SINGLE_W as int)
    }

    /// The row at which the layout begins.
    pub open spec fn start_y(area: Area) -> int {
        area.y + margin(area.height as int, SINGLE_H as int)
    }

    /// Whether the layout for `area` lies within the coordinates of a terminal.
    pub open spec fn fits(area: Area) -> bool {
        Self::start_x(area) + SINGLE_W <= u16::MAX && Self::start_y(area) + SINGLE_H <= u16::MAX
    }

    /// The layout for `area`: the hold box and a sidebar to the left of the
    /// board, the preview and a sidebar to its right, the garbage bar along
    /// its left border, the action text over its middle and the controls
    /// under everything.
    pub open spec fn spec_new(area: Area) -> SingleLayout {
        let x = Self::start_x(area);
        let y = Self::start_y(area);
        SingleLayout {
            hold: area_at(x, y, 12, 5),
            left_sidebar: area_at(x, y + 6, 12, 16),
            board: area_at(x + 13, y, 22, 22),
            garbage_bar: area_at(x + 12, y + 1, 1, 20),
            next: area_at(x + 36, y, 12, 12),
            right_sidebar: area_at(x + 36, y + 12, 12, 10),
            action_text: area_at(x + 15, y + 11, 20, 4),
            controls: area_at(x, y + 22, 48, 2),
        }
    }

    /// The layout of one board, centred in `area`.
    pub fn new(area: Area) -> (layout: SingleLayout)
        requires
            Self::fits(area),
        ensures
            layout == Self::spec_new(area),
    {
        let total_w = PANEL_W + 1 + BOARD_TOTAL_W + 1 + PANEL_W;
        let total_h = BOARD_TOTAL_H + 2;

        let start_x = area.x + saturating_sub(area.width, total_w) / 2;
        let start_y = area.y + saturating_sub(area.height, total_h) / 2;

        let left_x = start_x;
        let board_x = left_x + PANEL_W + 1;
        let right_x = board_x + BOARD_TOTAL_W + 1;

        SingleLayout {
            hold: Area::new(left_x, start_y, PANEL_W, 5),
            left_sidebar: Area::new(
                left_x,
                start_y + 6,
                PANEL_W,
                saturating_sub(BOARD_TOTAL_H, 6),
            ),
            board: Area::new(board_x, start_y, BOARD_TOTAL_W, BOARD_TOTAL_H),
            garbage_bar: Area::new(saturating_sub(board_x, 1), start_y + 1, 1, BOARD_CELL_H),
            next: Area::new(right_x, start_y, PANEL_W, 12),
            right_sidebar: Area::new(
                right_x,
                start_y + 12,
                PANEL_W,
                saturating_sub(BOARD_TOTAL_H, 12),
            ),
            action_text: Area::new(board_x + 2, start_y + BOARD_TOTAL_H / 2, BOARD_CELL_W, 4),
            controls: Area::new(start_x, start_y + BOARD_TOTAL_H, total_w, 2),
        }
    }
}

impl VersusLayout {
    /// The column at which the layout begins: the two boards with the space
    /// between them are centred in the area.
    pub open spec fn start_x(area: Area) -> int {
        area.x + margin(area.width as int, 2 * SINGLE_W + VERSUS_GAP)
    }

    /// The row at which the layout begins.
    pub open spec fn start_y(area: Area) -> int {
        area.y + margin(area.height as int, SINGLE_H as int)
    }

    /// The part of the area that the player's board is laid out in.
    pub open spec fn player_area(area: Area) -> Area {
        area_at(Self::start_x(area), Self::start_y(area), SINGLE_W as int, area.height as int)
    }

    /// The part of the area that the opponent's board is laid out in.
    pub open spec fn ai_area(area: Area) -> Area {
        area_at(
            Self::start_x(area) + SINGLE_W + VERSUS_GAP,
            Self::start_y(area),
            SINGLE_W as int,
            area.height as int,
        )
    }

    /// Whether the layout for `area` lies within the coordinates of a terminal.
    pub open spec fn fits(area: Area) -> bool {
        &&& Self::start_x(area) + 2 * SINGLE_W + VERSUS_GAP <= u16::MAX
        &&& Self::start_y(area) + SINGLE_H <= u16::MAX
        &&& SingleLayout::fits(Self::player_area(area))
        &&& SingleLayout::fits(Self::ai_area(area))
    }

    /// The layout for `area`: the player's board to the left, the
    /// opponent's to the right, and a strip between them.
    pub open spec fn spec_new(area: Area) -> VersusLayout {
        VersusLayout {
            player: SingleLayout::spec_new(Self::player_area(area)),
            ai: SingleLayout::spec_new(Self::ai_area(area)),
            center: area_at(Self::start_x(area) + SINGLE_W, Self::start_y(area) + 9, 4, 5),
        }
    }

    /// The layout of two boards side by side, centred in `area`.
    pub fn new(area: Area) -> (layout: VersusLayout)
        requires
            Self::fits(area),
        ensures
            layout == Self::spec_new(area),
    {
        let single_w = PANEL_W + 1 + BOARD_TOTAL_W + 1 + PANEL_W;
        let gap = VERSUS_GAP;
        let total_w = single_w * 2 + gap;

        let start_x = area.x + saturating_sub(area.width, total_w) / 2;
        let start_y = area.y + saturating_sub(area.height, BOARD_TOTAL_H + 2) / 2;

        let player_area = Area::new(start_x, start_y, single_w, area.height);
        let ai_area = Area::new(start_x + single_w + gap, start_y, single_w, area.height);
        let center_area = Area::new(start_x + single_w, start_y + BOARD_TOTAL_H / 2 - 2, gap, 5);

        VersusLayout {
            player: SingleLayout::new(player_area),
            ai: SingleLayout::new(ai_area),
            center: center_area,
        }
    }
}

/// `a - b`, or zero where `b` is the greater.
fn saturating_sub(a: u16, b: u16) -> (d: u16)
    ensures
        d == if a > b {
            a - b
        } else {
            0
        },
{
    if a > b {
        a - b
    } else {
        0
    }
}

/// Whether the terminal is large enough for a game alone.
pub fn check_size_single(area: Area) -> (ok: bool)
    ensures
        ok == (area.width >= MIN_WIDTH && area.height >= MIN_HEIGHT),
{
    area.width >= MIN_WIDTH && area.height >= MIN_HEIGHT
}

/// Whether the terminal is large enough for two boards side by side.
pub fn check_size_versus(area: Area) -> (ok: bool)
    ensures
        ok == (area.width >= VS_MIN_WIDTH && area.height >= VS_MIN_HEIGHT),
{
    area.width >= VS_MIN_WIDTH && area.height >= VS_MIN_HEIGHT
}

/// Whether the layout of one board can be computed for `area`.
pub fn single_fits(area: Area) -> (ok: bool)
    ensures
        ok == SingleLayout::fits(area),
{
    let x = area.x as u32 + (saturating_sub(area.width, SINGLE_W) / 2) as u32;
    let y = area.y as u32 + (saturating_sub(area.height, SINGLE_H) / 2) as u32;
    x + SINGLE_W as u32 <= u16::MAX as u32 && y + SINGLE_H as u32 <= u16::MAX as u32
}

/// Whether the layout of two boards side by side can be computed for `area`.
pub fn versus_fits(area: Area) -> (ok: bool)
    ensures
        ok == VersusLayout::fits(area),
{
    let x = area.x as u32 + (saturating_sub(area.width, 2 * SINGLE_W + VERSUS_GAP) / 2) as u32;
    let y = area.y as u32 + (saturating_sub(area.height, SINGLE_H) / 2) as u32;
    if x + 100 > u16::MAX as u32 || y + SINGLE_H as u32 > u16::MAX as u32 {
        return false;
    }
    let player = Area::new(x as u16, y as u16, SINGLE_W, area.height);
    let ai = Area::new((x + 52) as u16, y as u16, SINGLE_W, area.height);
    single_fits(player) && single_fits(ai)
}

/// An area that lies within the coordinates of a terminal and is large enough has room for
/// either layout.
pub proof fn lemma_layouts_fit(area: Area)
    requires
        area.x + area.width <= u16::MAX,
        area.y + area.height <= u16::MAX,
    ensures
        area.width >= SINGLE_W && area.height >= SINGLE_H ==> SingleLayout::fits(area),
        area.width >= 2 * SINGLE_W + VERSUS_GAP && area.height >= SINGLE_H
            ==> VersusLayout::fits(area),
{
}

} // verus!
