//! Boards of a channel, as the board service lists them in groups.

use vstd::prelude::*;

verus! {

/// Who may post on a board.
#[derive(Clone, Copy, Debug, PartialEq, Eq, Structural)]
pub enum BoardType {
    Notice,
    Star,
    Common,
    VlivePlus,
}

/// All boards of a channel, group by group.
pub type GroupedBoards = Vec<GroupedBoard>;

/// A titled group of boards.
#[derive(Clone, Debug)]
pub struct GroupedBoard {
    pub group_title: String,
    pub boards: Vec<Board>,
}

/// Description of one board. The posts on it are a separate document.
#[derive(Clone, Debug)]
pub struct Board {
    pub board_id: i64,
    pub title: String,
    pub board_type: BoardType,
    pub use_star_filter: bool,
    pub pay_required: bool,
    pub expose: bool,
    pub open_type: String,
    /// Milliseconds since the Unix epoch.
    pub last_updated_at: i64,
    pub channel_code: String,
}

} // verus!
