//! The documents that the platform's pages and services hand out.

pub mod board_posts;
pub mod channel;
pub mod grouped_board;
pub mod helpers;
pub mod recent_video;
pub mod video;
