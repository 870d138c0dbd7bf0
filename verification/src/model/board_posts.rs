//! Posts on a board.

use vstd::prelude::*;
use super::grouped_board::BoardType;

verus! {

/// One page of a board's posts.
#[derive(Clone, Debug)]
pub struct BoardPosts {
    pub paging: Paging,
    pub data: Vec<Post>,
}

/// A post on a board.
#[derive(Clone, Debug)]
pub struct Post {
    pub attachments: Attachments,
    pub url: String,
    pub title: String,
    /// Milliseconds since the Unix epoch.
    pub created_at: i64,
    pub available_actions: Vec<String>,
    pub comment_count: i64,
    pub written_in: String,
    pub emotion_count: i64,
    pub post_id: String,
    pub is_comment_enabled: bool,
    pub is_hidden_from_star: bool,
    pub post_version: String,
    pub thumbnail: Thumbnail,
    pub plain_body: String,
    pub content_type: String,
    /// The posts that this one shares, each as the JSON text it came in;
    /// `None` where the service sent `null`.
    pub shared_posts: Vec<Option<String>>,
    pub author: Author,
    pub channel: Channel,
    pub board: Board,
}

/// What is attached to a post.
#[derive(Clone, Debug)]
pub struct Attachments {
    pub video_count: i64,
    /// The attached photos, each with the key the service files it under.
    pub photo: Vec<(String, Photo)>,
    pub photo_count: i64,
}

/// A photo attached to a post.
#[derive(Clone, Debug)]
pub struct Photo {
    pub url: String,
    pub width: i64,
    /// Milliseconds since the Unix epoch.
    pub created_at: i64,
    pub height: i64,
    pub photo_id: String,
}

/// Who wrote a post.
#[derive(Clone, Debug)]
pub struct Author {
    pub member_id: String,
    pub channel_code: String,
    pub joined: bool,
    pub nickname: String,
    pub profile_image_url: String,
    pub official_profile_type: String,
}

/// The board that a post is on.
#[derive(Clone, Debug)]
pub struct Board {
    pub board_id: i64,
    pub title: String,
    pub board_type: BoardType,
    pub pay_required: bool,
}

/// The channel that a post belongs to.
#[derive(Clone, Debug)]
pub struct Channel {
    pub channel_code: String,
    pub channel_name: String,
}

/// The picture shown for a post in a list.
#[derive(Clone, Debug)]
pub struct Thumbnail {
    pub thumbnail_type: String,
    pub url: String,
}

/// How to ask for the next page.
#[derive(Clone, Debug)]
pub struct Paging {
    pub next_params: NextParams,
}

/// Parameters of the request for the next page.
#[derive(Clone, Debug)]
pub struct NextParams {
    pub limit: String,
    pub after: String,
}

} // verus!
