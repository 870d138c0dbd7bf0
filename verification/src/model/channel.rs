//! Channels and the lists of videos that the channel service returns.

use vstd::prelude::*;
use crate::endpoints::decimal;
use crate::endpoints::push_decimal;
use crate::text::str_eq;
use super::helpers::Timestamp;

verus! {

/// The envelope that a page's state puts around its channel.
#[derive(Clone, Debug)]
pub struct ChannelWrapper {
    pub channel: Channel,
}

/// A channel as a page's state describes it.
#[derive(Clone, Debug)]
pub struct Channel {
    pub channel_code: String,
    pub channel_name: String,
    /// Hex color code prefixed with #
    pub representative_color: Option<String>,
    /// Hex color code prefixed with #
    pub background_color: Option<String>,
    pub channel_profile_image: Option<String>,
    pub channel_cover_image: Option<String>,
    pub channel_description: Option<String>,
    pub sns_share_img: Option<String>,
    pub qr_code: Option<String>,
    pub open_at: Option<i64>,
    pub show_upcoming: Option<bool>,
    pub use_member_level: Option<bool>,
    pub member_count: Option<i64>,
    pub post_count_of_star: Option<i64>,
    pub video_count_of_star: Option<i64>,
    pub video_play_count_of_star: Option<i64>,
    pub video_like_count_of_star: Option<i64>,
    pub video_comment_count_of_star: Option<i64>,
}

impl Channel {
    /// The address of the channel's page.
    pub fn url(&self) -> (url: String)
        ensures
            url@ == "https://www.vlive.tv/channel/"@ + self.channel_code@,
    {
        let mut url = String::from_str("https://www.vlive.tv/channel/");
        url.append(self.channel_code.as_str());
        url
    }
}

/// Code and name of a channel, where no more is given.
#[derive(Clone, Debug)]
pub struct PartialChannel {
    pub channel_code: String,
    pub channel_name: String,
}

/// Type of channel, basic or CHANNEL+
#[derive(Clone, Copy, Debug, PartialEq, Eq, Structural)]
pub enum ChannelType {
    /// Regular channels
    BASIC,
    /// CHANNEL+ channels
    PREMIUM,
}

/// The channels that a search returned.
#[derive(Clone, Debug)]
pub struct ChannelList(pub Vec<ChannelListItem>);

/// One channel in a search result.
#[derive(Clone, Debug)]
pub struct ChannelListItem {
    /// Name of channel
    pub name: String,
    /// Address of the channel's icon
    pub icon: String,
    /// Type of channel
    pub channel_type: ChannelType,
    /// Channel code used in URLs
    pub code: Option<String>,
}

/// What the store service tells of a channel.
#[derive(Clone, Debug)]
pub struct ChannelBasicInfo {
    pub profile_img: String,
    pub name: String,
    pub latest_updated_at: i64,
    pub channel_code: String,
}

/// Information on a channel
#[derive(Clone, Debug)]
pub struct ChannelInfo {
    /// Channel ID, used in API queries.
    pub channel_seq: u32,
    /// Channel ID of basic channel if this is a CHANNEL+ channel.
    pub basic_channel_seq: u32,
    /// Channel code, used in URLs.
    pub channel_code: String,
    /// Type of channel.
    pub channel_plus_type: ChannelType,
    /// Name of channel.
    pub channel_name: String,
    /// Color of channel.
    pub representative_color: String,
    /// Channel profile image
    pub channel_profile_image: String,
    /// Channel background color
    pub background_color: String,
    /// Channel color image
    pub channel_cover_image: String,
    /// Number of followers
    pub fan_count: u32,
    /// Description of page, usually just "Welcome to {name} Channel!"
    pub comment: String,
    /// Usually empty
    pub prohibited_word_like: String,
    /// Usually empty
    pub prohibited_word_exact: String,
    /// Image used for sharing
    pub sns_share_img: String,
    /// Whether the channel shows a banner
    pub banner_show_yn: bool,
    /// QR code that gives a link to this channel
    pub qrcode: String,
    /// If there are upcoming videos
    pub upcoming_show_yn: bool,
}

impl ChannelInfo {
    /// The address of the channel's page.
    pub fn url(&self) -> (url: String)
        ensures
            url@ == "http://channels.vlive.tv/"@ + self.channel_code@,
    {
        let mut url = String::from_str("http://channels.vlive.tv/");
        url.append(self.channel_code.as_str());
        url
    }
}

/// Information on a video
#[derive(Clone, Debug)]
pub struct VideoListItem {
    /// The ID of the video, used in the URL.
    pub video_seq: u32,
    /// Type of video, either VOD or LIVE
    pub video_type: String,
    /// Title of the video.
    pub title: String,
    /// Number of plays this video has.
    pub play_count: u32,
    /// Number of likes or hearts this video has.
    pub like_count: u32,
    /// Number of comments this video has.
    pub comment_count: u32,
    /// The thumbnail URL for this video.
    pub thumbnail: String,
    pub pick_sort_order: u32,
    /// Screen orientation of this video, either `HORIZONTAL` or `VERTICAL`
    pub screen_orientation: String,
    /// Upload date of this video. The video may not have been visible at this point.
    pub will_start_at: Timestamp,
    /// End time of this video, usually sometime in 2099.
    pub will_end_at: Timestamp,
    pub created_at: Option<Timestamp>,
    pub upcoming_yn: String,
    /// If this is a "special" live video.
    pub special_live_yn: bool,
    /// If this video has a live thumbnail.
    pub live_thumb_yn: bool,
    /// VLIVE+ product ID if this is a VLIVE+ video, otherwise it's empty.
    pub product_id: String,
    /// VLIVE+ package ID if this is a VLIVE+ video, otherwise it's empty.
    pub package_product_id: String,
    /// `NONE` or `PAID`
    pub product_type: String,
    /// Duration of the video in seconds.
    pub play_time: u32,
    /// If this is a basic or CHANNEL+ video
    pub channel_plus_public_yn: bool,
    pub expose_status: String,
    /// Date when this video was available.
    pub on_air_start_at: Timestamp,
}

impl VideoListItem {
    /// Gets the URL to this video.
    pub fn url(&self) -> (url: String)
        ensures
            url@ == "http://www.vlive.tv/video/"@ + decimal(self.video_seq as nat),
    {
        let mut url = String::from_str("http://www.vlive.tv/video/");
        push_decimal(&mut url, self.video_seq as u64);
        url
    }

    /// Checks if this video is currently live.
    pub fn is_live(&self) -> (live: bool)
        ensures
            live == (self.video_type@ == "LIVE"@),
    {
        str_eq(self.video_type.as_str(), "LIVE")
    }
}

/// Upcoming videos for a channel
#[derive(Clone, Debug)]
pub struct ChannelUpcomingVideoList {
    /// Total count of upcoming videos.
    pub total_video_count: u32,
    /// Upcoming video list, this will be None when there are no upcoming videos.
    pub video_list: Option<Vec<VideoListItem>>,
}

/// A list of a channel's videos
#[derive(Clone, Debug)]
pub struct ChannelVideoList {
    /// Information about this channel
    pub channel_info: ChannelInfo,
    /// Total videos this channel has.
    pub total_video_count: u32,
    /// List of videos
    pub video_list: Vec<VideoListItem>,
}

/// Decoded channel code to channel seq
#[derive(Clone, Debug)]
pub struct DecodeChannelCode {
    pub channel_seq: u64,
    pub channel_code: String,
}

} // verus!
