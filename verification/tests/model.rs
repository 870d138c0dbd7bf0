use vlive::model::channel::Channel;
use vlive::model::channel::ChannelInfo;
use vlive::model::channel::ChannelType;
use vlive::model::channel::VideoListItem;
use vlive::model::helpers::Timestamp;

fn channel(code: &str) -> Channel {
    Channel {
        channel_code: code.to_string(),
        channel_name: "BTS".to_string(),
        representative_color: Some("#000000".to_string()),
        background_color: None,
        channel_profile_image: None,
        channel_cover_image: None,
        channel_description: None,
        sns_share_img: None,
        qr_code: None,
        open_at: None,
        show_upcoming: None,
        use_member_level: None,
        member_count: None,
        post_count_of_star: None,
        video_count_of_star: None,
        video_play_count_of_star: None,
        video_like_count_of_star: None,
        video_comment_count_of_star: None,
    }
}

fn info(code: &str) -> ChannelInfo {
    ChannelInfo {
        channel_seq: 364,
        basic_channel_seq: 13,
        channel_code: code.to_string(),
        channel_plus_type: ChannelType::PREMIUM,
        channel_name: "BTS+".to_string(),
        representative_color: String::new(),
        channel_profile_image: String::new(),
        background_color: String::new(),
        channel_cover_image: String::new(),
        fan_count: 1,
        comment: String::new(),
        prohibited_word_like: String::new(),
        prohibited_word_exact: String::new(),
        sns_share_img: String::new(),
        banner_show_yn: false,
        qrcode: String::new(),
        upcoming_show_yn: false,
    }
}

fn item(video_seq: u32, video_type: &str) -> VideoListItem {
    VideoListItem {
        video_seq,
        video_type: video_type.to_string(),
        title: "t".to_string(),
        play_count: 46169,
        like_count: 1387373,
        comment_count: 6179,
        thumbnail: String::new(),
        pick_sort_order: 0,
        screen_orientation: "HORIZONTAL".to_string(),
        will_start_at: Timestamp { millis: 1517485140000 },
        will_end_at: Timestamp { millis: 4102412399000 },
        created_at: None,
        upcoming_yn: "N".to_string(),
        special_live_yn: false,
        live_thumb_yn: false,
        product_id: String::new(),
        package_product_id: String::new(),
        product_type: "NONE".to_string(),
        play_time: 199,
        channel_plus_public_yn: false,
        expose_status: "EXPOSED".to_string(),
        on_air_start_at: Timestamp { millis: 1517485440000 },
    }
}

#[test]
fn channel_addresses() {
    assert_eq!(channel("FE619").url(), "https://www.vlive.tv/channel/FE619");
    assert_eq!(channel("").url(), "https://www.vlive.tv/channel/");
    assert_eq!(info("FE619").url(), "http://channels.vlive.tv/FE619");
}

#[test]
fn channels_test_video_item() {
    let last_video = item(57788, "VOD");
    assert_eq!(last_video.url(), "http://www.vlive.tv/video/57788");
    assert!(!last_video.is_live());
}

#[test]
fn live_item_is_live() {
    assert!(item(70738, "LIVE").is_live());
    assert!(!item(70738, "live").is_live());
    assert!(!item(70738, "").is_live());
    assert_eq!(item(0, "LIVE").url(), "http://www.vlive.tv/video/0");
    assert_eq!(item(u32::MAX, "LIVE").url(), "http://www.vlive.tv/video/4294967295");
}
