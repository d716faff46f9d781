//! Layout arithmetic shared by the screens: whether a box fits the
//! terminal, where it stands, and how its border is drawn.

use vstd::prelude::*;
use crate::text::concat3;

verus! {

/// The screens of the program.
#[derive(Clone, Copy, Debug, PartialEq, Eq, Structural)]
pub enum Screen {
    Dashboard,
    QuickCommandManager,
    ServerWizard,
    QuickCommandWizard,
    Manual,
}

/// The size of the box a screen draws, columns then rows.
pub open spec fn box_size_spec(screen: Screen) -> (u16, u16) {
    match screen {
        Screen::Dashboard => (66, 18),
        Screen::QuickCommandManager => (60, 14),
        Screen::ServerWizard => (66, 20),
        Screen::QuickCommandWizard => (54, 10),
        Screen::Manual => (76, 20),
    }
}

/// The smallest terminal, columns then rows, in which a screen draws its
/// box: 76 by 18 for the dashboard and 60 by 14 for the quick-command
/// manager; the other screens want their box and a margin of one cell on
/// each side.
pub open spec fn min_size_spec(screen: Screen) -> (u16, u16) {
    match screen {
        Screen::Dashboard => (76, 18),
        Screen::QuickCommandManager => (60, 14),
        Screen::ServerWizard => (68, 22),
        Screen::QuickCommandWizard => (56, 12),
        Screen::Manual => (78, 22),
    }
}

/// The size of the box a screen draws.
pub fn box_size(screen: Screen) -> (r: (u16, u16))
    ensures
        r == box_size_spec(screen),
{
    match screen {
        Screen::Dashboard => (66, 18),
        Screen::QuickCommandManager => (60, 14),
        Screen::ServerWizard => (66, 20),
        Screen::QuickCommandWizard => (54, 10),
        Screen::Manual => (76, 20),
    }
}

/// Whether a terminal of `cols` by `rows` is large enough for `screen`;
/// when it is not, the screen shows only a request to enlarge it.
pub fn screen_fits(screen: Screen, cols: u16, rows: u16) -> (r: bool)
    ensures
        r == (cols >= min_size_spec(screen).0 && rows >= min_size_spec(screen).1),
        r ==> cols >= box_size_spec(screen).0 && rows >= box_size_spec(screen).1,
{
    let (min_cols, min_rows) = match screen {
        Screen::Dashboard => (76u16, 18u16),
        Screen::QuickCommandManager => (60u16, 14u16),
        Screen::ServerWizard => (68u16, 22u16),
        Screen::QuickCommandWizard => (56u16, 12u16),
        Screen::Manual => (78u16, 22u16),
    };
    cols >= min_cols && rows >= min_rows
}

/// The first column (or row) of a box of `size` centred in `total`; zero
/// when the box is larger.
pub fn centered_start(total: u16, size: u16) -> (r: u16)
    ensures
        r == (if total >= size {
            (total - size) / 2
        } else {
            0
        }),
{
    if total >= size {
        (total - size) / 2
    } else {
        0
    }
}

/// The column of a text `len` characters long centred in a box of
/// `width` that starts at column `start`.
pub fn centered_in(start: u16, width: u16, len: u16) -> (r: u16)
    requires
        len <= width,
        start + width <= u16::MAX,
    ensures
        r == start + (width - len) / 2,
{
    start + (width - len) / 2
}

/// The column of a text `len` characters long centred in a box of
/// `width` that starts at column `start`, flush left when the text is
/// wider than the box.
pub fn centered_in_or_left(start: u16, width: u16, len: u16) -> (r: u16)
    requires
        start + width <= u16::MAX,
    ensures
        r == start + (if width >= len {
            (width - len) / 2
        } else {
            0
        }),
{
    start + centered_start(width, len)
}

/// How a box with a title is drawn: the lengths of the top border left and
/// right of the title, the inner width, the row of the divider above the
/// help lines, and the bottom row.
pub struct BoxLayout {
    pub left_border: u16,
    pub right_border: u16,
    pub inner_width: u16,
    pub divider_row: u16,
    pub bottom_row: u16,
}

/// The layout of a box `width` by `height` whose top row is `start_y`, with
/// a title `title_len` characters long centred in its top border (any odd
/// cell going to the right). The divider row is four rows above the bottom
/// one, so the box must reach at least row 4: `start_y + height >= 5`.
pub fn box_layout(start_y: u16, width: u16, height: u16, title_len: u16) -> (b: BoxLayout)
    requires
        width >= title_len + 2,
        start_y + height >= 5,
        start_y + height <= u16::MAX,
    ensures
        b.inner_width == width - 2,
        b.left_border == (width - 2 - title_len) / 2,
        b.left_border + title_len + b.right_border == width - 2,
        b.divider_row == start_y + height - 5,
        b.bottom_row == start_y + height - 1,
{
    let inner = width - 2;
    let left = (inner - title_len) / 2;
    let right = inner - title_len - left;
    BoxLayout {
        left_border: left,
        right_border: right,
        inner_width: inner,
        divider_row: start_y + height - 5,
        bottom_row: start_y + height - 1,
    }
}

/// The error a screen ends with when the configuration cannot be read.
pub fn database_error_message(e: &str) -> (r: String)
    ensures
        r@ == "Database error: "@ + e@,
{
    let r = concat3("Database error: ", e, "");
    proof {
        assert(("Database error: "@ + e@ + ""@) =~= "Database error: "@ + e@) by {
            reveal_strlit("");
        }
    }
    r
}

} // verus!
