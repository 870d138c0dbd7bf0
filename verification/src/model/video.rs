//! The state that a video page embeds, and the media descriptors that the
//! streaming service and a live broadcast give.

use vstd::prelude::*;
use super::channel::Channel;
use super::channel::ChannelWrapper;
use super::channel::PartialChannel;
use super::helpers::Timestamp;

verus! {

/// Whether a video is a recording or a broadcast.
#[derive(Clone, Copy, Debug, PartialEq, Eq, Structural)]
pub enum VideoType {
    VOD,
    LIVE,
}

/// The cover image of a video.
#[derive(Clone, Debug)]
pub struct Cover {
    /// Kind of cover, such as `single`
    pub type_: String,
    /// Address of the cover image
    pub source: String,
}

/// Whether and how often a video was shared.
#[derive(Clone, Debug)]
pub struct Share {
    pub usable: bool,
    pub count: u32,
    pub only_inner_services: bool,
}

/// Who uploaded a video.
#[derive(Clone, Debug)]
pub struct User {
    pub id: String,
    pub name: String,
    pub url: String,
}

/// A service that belongs to a video, by name and address.
#[derive(Clone, Debug)]
pub struct ApiListItem {
    pub name: String,
    pub source: String,
}

/// What the streaming service says of a video as a whole.
#[derive(Clone, Debug)]
pub struct VideoMeta {
    pub master_video_id: String,
    pub content_id: String,
    pub service_id: u32,
    pub count: u32,
    pub interface_lang: String,
    pub url: String,
    pub home_url: String,
    pub subject: String,
    pub cover: Cover,
    pub share: Share,
    pub user: User,
    pub api_list: Vec<ApiListItem>,
}

/// How a progressive download is encoded.
#[derive(Clone, Debug)]
pub struct EncodingOption {
    /// Resolution name and dimension code, such as `144P_256_100_64`
    pub id: String,
    /// Resolution name, such as `144P`
    pub name: String,
    /// Encoding profile, usually `BASE` for low resolution videos or `HIGH`
    pub profile: String,
    /// Width of video resolution
    pub width: u32,
    /// Height of video resolution
    pub height: u32,
}

/// The bitrates of a progressive download.
#[derive(Clone, Copy, Debug, PartialEq, Eq, Structural)]
pub struct Bitrate {
    /// Video bitrate in bits per second
    pub video: u64,
    /// Audio bitrate in bits per second
    pub audio: u64,
}

/// One progressive download of a video.
#[derive(Clone, Debug)]
pub struct VideoItem {
    /// ID of video
    pub id: String,
    pub use_p2p: bool,
    /// Playing time in milliseconds
    pub duration: u64,
    pub preview_duration: Option<u32>,
    /// Size of video in bytes
    pub size: u64,
    /// Encoding codec name, such as `avc1`
    pub type_: String,
    /// Encoding options of video
    pub encoding_option: EncodingOption,
    /// Video and audio bitrate
    pub bitrate: Bitrate,
    pub p2p_meta_url: String,
    pub p2p_url: String,
    /// URL to the mp4 file. This expires after an unknown amount of time.
    pub source: String,
}

/// The progressive downloads of a video.
#[derive(Clone, Debug)]
pub struct Videos {
    pub type_: String,
    pub has_preview: String,
    pub list: Vec<VideoItem>,
}

/// A parameter that opens an adaptive stream.
#[derive(Clone, Debug)]
pub struct Key {
    pub type_: String,
    pub name: String,
    /// Key value of video, required to get video data.
    pub value: String,
}

/// One adaptive stream of a video.
#[derive(Clone, Debug)]
pub struct Stream {
    /// Type of stream, usually `HLS`
    pub type_: String,
    pub key: Option<Key>,
    /// m3u8 URL for streaming
    pub source: String,
}

/// One caption track.
#[derive(Clone, Debug)]
pub struct Caption {
    /// Language of caption, such as `en`
    pub language: String,
    /// Country of language, such as `US`
    pub country: String,
    /// Locale code
    pub locale: String,
    /// Label of caption used in the UI, such as `English`
    pub label: String,
    /// Full URL of .vtt caption file
    pub source: String,
}

/// The caption tracks of a video.
#[derive(Clone, Debug)]
pub struct Captions {
    /// Default caption language
    pub caption_lang: String,
    /// List of all available captions
    pub list: Vec<Caption>,
}

/// A still from a video.
#[derive(Clone, Debug)]
pub struct Thumbnail {
    /// Time during the video for this thumbnail in milliseconds
    pub time: u64,
    /// URL to the .jpg thumbnail file
    pub source: String,
}

/// The stills of a video.
#[derive(Clone, Debug)]
pub struct Thumbnails {
    /// List of available thumbnails
    pub list: Vec<Thumbnail>,
}

/// The media of a recorded video.
#[derive(Clone, Debug)]
pub struct Video {
    /// Video information
    pub meta: VideoMeta,
    /// .mp4 videos
    pub videos: Videos,
    /// .m3u8 streams
    pub streams: Option<Vec<Stream>>,
    /// .vtt captions
    pub captions: Option<Captions>,
    /// .jpg thumbnails
    pub thumbnails: Option<Thumbnails>,
}

impl Video {
    /// Number of adaptive streams, none where the list is absent.
    pub open spec fn stream_count(self) -> nat {
        match self.streams {
            Some(streams) => streams@.len(),
            None => 0,
        }
    }

    /// There is something to play: a progressive download or an adaptive
    /// stream.
    pub open spec fn has_media(self) -> bool {
        self.videos.list@.len() > 0 || self.stream_count() > 0
    }

    /// Computes `has_media`.
    pub fn is_playable(&self) -> (playable: bool)
        ensures
            playable == self.has_media(),
    {
        if self.videos.list.len() > 0 {
            return true;
        }
        match &self.streams {
            Some(streams) => streams.len() > 0,
            None => false,
        }
    }
}

/// One resolution of a broadcast and where it is served.
#[derive(Clone, Debug)]
pub struct LiveStreamResolution {
    pub name: String,
    pub width: Option<u64>,
    pub height: Option<u64>,
    pub cdn_url: String,
    pub quality: Option<String>,
    pub stream: Option<String>,
}

/// The media of a broadcast that is on air.
#[derive(Clone, Debug)]
pub struct LiveStreamInfo {
    pub use_key: bool,
    pub live_status: String,
    pub resolutions: Vec<LiveStreamResolution>,
}

/// The short-lived key that opens a recorded video's media. It is tied to
/// one video and must not be kept beyond the resolution that obtained it.
#[derive(Debug)]
pub struct VideoKey {
    pub inkey: String,
}

/// What a resolution yields: the media of a recording or of a broadcast.
/// The two shapes do not mix.
#[derive(Clone, Debug)]
pub enum StreamDescriptor {
    Vod(Video),
    Live(LiveStreamInfo),
}

/// The state embedded in a video page.
#[derive(Debug)]
pub struct VideoState {
    pub post_detail: Post,
    pub channel: ChannelWrapper,
}

impl VideoState {
    /// The channel that the video belongs to.
    pub fn channel(&self) -> (channel: &Channel)
        ensures
            *channel == self.channel.channel,
    {
        &self.channel.channel
    }

    /// The internal identifier of the recording, where the state has one.
    /// Its presence is the only thing that tells a recording from a
    /// broadcast.
    pub open spec fn vod_id(self) -> Option<String> {
        match self.post_detail.detail() {
            Some(detail) => detail.official_video.vod_id,
            None => None,
        }
    }

    /// The live status that the page carries for a broadcast on air: a JSON
    /// document, itself encoded as a string of the state.
    pub open spec fn live_stream_info(self) -> Option<String> {
        match self.post_detail.detail() {
            Some(detail) => detail.official_video.live_stream_info,
            None => None,
        }
    }
}

/// The post of a video. The site may report an error for a post, such as
/// that it requires a membership, and still supply its details inside the
/// error; both shapes give the details through `get_detail`.
#[derive(Debug)]
pub enum Post {
    Success { post: Option<PostDetail> },
    Error { error: Option<PostDetailError> },
}

impl Post {
    /// The details that the post carries, in either shape.
    pub open spec fn detail(self) -> Option<PostDetail> {
        match self {
            Post::Success { post } => post,
            Post::Error { error } => match error {
                Some(e) => Some(e.data),
                None => None,
            },
        }
    }

    /// The details of the post, from wherever the site put them.
    pub fn get_detail(&self) -> (detail: Option<&PostDetail>)
        ensures
            detail is Some <==> self.detail() is Some,
            detail matches Some(d) ==> *d == self.detail()->0,
    {
        match self {
            Post::Success { post } => post.as_ref(),
            Post::Error { error } => match error {
                Some(e) => Some(&e.data),
                None => None,
            },
        }
    }
}

/// The envelope that the site puts around the error of a post.
#[derive(Debug)]
pub struct PostDetailErrorWrapper {
    pub error: PostDetailError,
}

/// An error that the site reports for a post, with the details it still
/// supplies.
#[derive(Debug)]
pub struct PostDetailError {
    pub error_code: String,
    pub message: String,
    pub data: PostDetail,
}

/// The details of a post.
#[derive(Debug)]
pub struct PostDetail {
    pub post_id: String,
    pub title: String,
    pub author: Author,
    pub author_id: Option<String>,
    /// Milliseconds since the Unix epoch.
    pub created_at: i64,
    pub url: String,
    pub attachments: Option<Attachments>,
    pub available_actions: Vec<String>,
    pub board_id: Option<i64>,
    pub channel_code: Option<String>,
    pub channel: Option<PartialChannel>,
    pub content_type: Option<String>,
    pub comment_count: Option<i64>,
    pub emotion_count: Option<i64>,
    pub is_comment_enabled: Option<bool>,
    pub is_hidden_from_star: Option<bool>,
    pub is_viewer_bookmarked: Option<bool>,
    pub official_video: Box<OfficialVideo>,
    pub post_version: Option<String>,
}

/// Post details in a related video
#[derive(Debug)]
pub struct PartialPostDetail {
    pub post_id: String,
    pub channel: PartialChannel,
    pub board: BoardInfo,
}

/// The board that a related post is on.
#[derive(Debug)]
pub struct BoardInfo {
    pub board_id: i64,
    pub open_type: String,
    pub pay_required: bool,
}

/// How much is attached to a post.
#[derive(Debug)]
pub struct Attachments {
    pub video_count: i64,
    pub photo_count: i64,
}

/// Who wrote a post.
#[derive(Debug)]
pub struct Author {
    pub member_id: String,
    pub channel_code: String,
    pub joined: bool,
    pub nickname: String,
    pub profile_image_url: String,
    pub official_profile_type: String,
}

/// The video of a post.
#[derive(Debug)]
pub struct OfficialVideo {
    pub video_seq: i64,
    pub kind: VideoType,
    pub title: String,
    pub multinational_titles: Vec<MultinationalTitle>,
    pub play_count: i64,
    pub like_count: i64,
    pub comment_count: i64,
    pub thumb: String,
    pub expose_status: String,
    pub screen_orientation: Option<String>,
    pub will_start_at: Timestamp,
    pub on_air_start_at: Timestamp,
    pub will_end_at: Timestamp,
    pub created_at: Timestamp,
    pub live_thumb_yn: Option<bool>,
    pub upcoming_yn: Option<bool>,
    pub product_type: Option<String>,
    pub vr_content_type: Option<String>,
    pub badges: Vec<String>,
    pub light_sticks: Vec<LightStick>,
    pub has_moment: Option<bool>,
    pub schema_version: Option<String>,
    pub momentable: Option<bool>,
    pub post: Option<Post>,
    /// VOD ID, None if live video
    pub vod_id: Option<String>,
    pub play_time: Option<i64>,
    pub encoding_status: Option<String>,
    pub vod_secure_status: Option<String>,
    /// Status of the broadcast as a JSON document in a string, present
    /// while the broadcast is on air
    pub live_stream_info: Option<String>,
}

impl OfficialVideo {
    /// What a video says it is agrees with what it holds: a recording has
    /// an identifier of its recording, a broadcast has none.
    pub open spec fn wf(self) -> bool {
        self.vod_id is Some <==> self.kind == VideoType::VOD
    }

    /// Computes `wf`.
    pub fn is_consistent(&self) -> (consistent: bool)
        ensures
            consistent == self.wf(),
    {
        match (&self.vod_id, self.kind) {
            (Some(_), VideoType::VOD) => true,
            (None, VideoType::LIVE) => true,
            _ => false,
        }
    }
}

/// A light stick that viewers can wave at a video.
#[derive(Debug)]
pub struct LightStick {
    pub stick_seq: i64,
    pub product_id: String,
    pub title: String,
    pub effect_phrase: String,
    pub like_count: i64,
    pub image: String,
}

/// The title of a video in one language.
#[derive(Debug)]
pub struct MultinationalTitle {
    pub kind: String,
    pub seq: i64,
    pub locale: String,
    pub label: String,
    pub default_yn: Option<bool>,
}

} // verus!
