use vlive::model::channel::ChannelType;
use vlive::model::helpers::bool_from_str;
use vlive::model::helpers::option_timestamp_from_str;
use vlive::model::helpers::timestamp_from_str;
use vlive::model::helpers::FieldError;
use vlive::model::helpers::Timestamp;
use vlive::model::recent_video::channel_type_from_str;
use vlive::model::recent_video::find_attribute;
use vlive::model::recent_video::kind_from_str;
use vlive::model::recent_video::some_u64_from_str;
use vlive::model::recent_video::u64_from_duration_str;
use vlive::model::recent_video::u64_from_str;
use vlive::model::recent_video::RecentVideo;
use vlive::model::recent_video::VideoCard;
use vlive::model::video::VideoType;
use vlive::text::chars_of;
use vlive::text::occurs_at_index;
use vlive::text::parse_u64_text;
use vlive::text::read_u64;
use vlive::text::remove_char;
use vlive::text::remove_matches;
use vlive::text::str_eq;
use vlive::text::trim_end_matches;

#[test]
fn flags() {
    assert!(bool_from_str("Y"));
    assert!(!bool_from_str("N"));
    assert!(!bool_from_str("y"));
    assert!(!bool_from_str(""));
    assert!(!bool_from_str("YY"));
}

#[test]
fn wall_clock_times_are_korean() {
    assert_eq!(timestamp_from_str("2018-02-01 20:39:00"), Ok(Timestamp { millis: 1517485140000 }));
    assert_eq!(timestamp_from_str("2099-12-31 23:59:59"), Ok(Timestamp { millis: 4102412399000 }));
    assert_eq!(timestamp_from_str("1970-01-01 09:00:00"), Ok(Timestamp { millis: 0 }));
}

#[test]
fn bad_wall_clock_times_are_rejected() {
    assert_eq!(timestamp_from_str(""), Err(FieldError::InvalidTimestamp));
    assert_eq!(timestamp_from_str("yesterday"), Err(FieldError::InvalidTimestamp));
    assert_eq!(timestamp_from_str("2018-02-30 20:39:00"), Err(FieldError::InvalidTimestamp));
    assert_eq!(timestamp_from_str("2018-02-01 25:00:00"), Err(FieldError::InvalidTimestamp));
    assert_eq!(timestamp_from_str("2018-02-01"), Err(FieldError::InvalidTimestamp));
}

#[test]
fn optional_wall_clock_times() {
    assert_eq!(option_timestamp_from_str(None), Ok(None));
    assert_eq!(
        option_timestamp_from_str(Some("2018-02-01 20:39:00")),
        Ok(Some(Timestamp { millis: 1517485140000 }))
    );
    assert_eq!(option_timestamp_from_str(Some("soon")), Err(FieldError::InvalidTimestamp));
}

#[test]
fn numerals() {
    assert_eq!(parse_u64_text("0"), Some(0));
    assert_eq!(parse_u64_text("007"), Some(7));
    assert_eq!(parse_u64_text("+12"), Some(12));
    assert_eq!(parse_u64_text("18446744073709551615"), Some(u64::MAX));
    assert_eq!(parse_u64_text("18446744073709551616"), None);
    assert_eq!(parse_u64_text("99999999999999999999999"), None);
    assert_eq!(parse_u64_text(""), None);
    assert_eq!(parse_u64_text("+"), None);
    assert_eq!(parse_u64_text("-1"), None);
    assert_eq!(parse_u64_text("1 "), None);
    assert_eq!(parse_u64_text("١٢"), None);
    for s in ["0", "+5", "", "+", "12a", "++1", "４２"] {
        assert_eq!(parse_u64_text(s), s.parse::<u64>().ok());
    }
    let chars: Vec<char> = "ab+42cd".chars().collect();
    assert_eq!(read_u64(&chars, 2, 5), Some(42));
    assert_eq!(read_u64(&chars, 3, 5), Some(42));
    assert_eq!(read_u64(&chars, 3, 3), None);
    assert_eq!(read_u64(&chars, 1, 5), None);
}

#[test]
fn numbers_with_separators() {
    assert_eq!(u64_from_str("1,234,567"), Ok(1234567));
    assert_eq!(u64_from_str("42"), Ok(42));
    assert_eq!(u64_from_str(",,4,,2,,"), Ok(42));
    assert_eq!(u64_from_str(""), Err(FieldError::InvalidNumber));
    assert_eq!(u64_from_str(","), Err(FieldError::InvalidNumber));
    assert_eq!(u64_from_str("1.5"), Err(FieldError::InvalidNumber));
    assert_eq!(u64_from_str("1K"), Err(FieldError::InvalidNumber));
    assert_eq!(some_u64_from_str("180,808"), Ok(Some(180808)));
    assert_eq!(some_u64_from_str("many"), Err(FieldError::InvalidNumber));
}

#[test]
fn playing_times() {
    assert_eq!(u64_from_duration_str(None), Ok(None));
    assert_eq!(u64_from_duration_str(Some("45")), Ok(Some(45)));
    assert_eq!(u64_from_duration_str(Some("3:25")), Ok(Some(205)));
    assert_eq!(u64_from_duration_str(Some("1:02:03")), Ok(Some(3723)));
    assert_eq!(u64_from_duration_str(Some("1:00:00:00")), Ok(Some(86400)));
    assert_eq!(u64_from_duration_str(Some("1:1:00:00:00")), Ok(Some(172800)));
    assert_eq!(u64_from_duration_str(Some("0:90")), Ok(Some(90)));
    assert_eq!(u64_from_duration_str(Some("")), Err(FieldError::InvalidNumber));
    assert_eq!(u64_from_duration_str(Some("3:")), Err(FieldError::InvalidNumber));
    assert_eq!(u64_from_duration_str(Some(":25")), Err(FieldError::InvalidNumber));
    assert_eq!(u64_from_duration_str(Some("3:2x")), Err(FieldError::InvalidNumber));
    assert_eq!(u64_from_duration_str(Some("18446744073709551615")), Ok(Some(u64::MAX)));
    assert_eq!(u64_from_duration_str(Some("1:18446744073709551615")), Err(FieldError::InvalidNumber));
    assert_eq!(u64_from_duration_str(Some("18446744073709551615:00")), Err(FieldError::InvalidNumber));
}

#[test]
fn text_operations() {
    assert!(str_eq("LIVE", "LIVE"));
    assert!(!str_eq("LIVE", "LIVE "));
    assert!(!str_eq("LIVE", "live"));
    assert!(str_eq("", ""));
    assert!(str_eq("굿데이", "굿데이"));
    assert!(!str_eq("굿데이", "굿데일"));
    assert_eq!(chars_of("a굿b"), vec!['a', '굿', 'b']);
    assert_eq!(remove_char(&['1', ',', '2', ',', ','], ','), vec!['1', '2']);
    assert!(occurs_at_index(&['a', 'b', 'c'], &['b', 'c'], 1));
    assert!(!occurs_at_index(&['a', 'b', 'c'], &['b', 'c'], 2));
    assert!(!occurs_at_index(&['a', 'b', 'c'], &['c', 'd'], 2));
    assert_eq!(trim_end_matches("pic.jpg?type=f228_128_wp", "?type=f228_128_wp"), "pic.jpg");
    assert_eq!(trim_end_matches("pic.jpg", "?type=f228_128_wp"), "pic.jpg");
    assert_eq!(trim_end_matches("xababab", "ab"), "x");
    assert_eq!(trim_end_matches("abab", "ab"), "");
    assert_eq!(trim_end_matches("abc", ""), "abc");
    assert_eq!(trim_end_matches("굿데이데이", "데이"), "굿");
    assert_eq!(remove_matches("/channel/FE619", "/channel/"), "FE619");
    assert_eq!(remove_matches("a/channel/b/channel/", "/channel/"), "ab");
    assert_eq!(remove_matches("aaa", "aa"), "a");
    assert_eq!(remove_matches("abc", ""), "abc");
    assert_eq!(remove_matches("abc", "abcd"), "abc");
    assert_eq!(remove_matches("", "a"), "");
    for (s, p) in [("aXbXXc", "X"), ("ababa", "aba"), ("굿데이", "데"), ("xxxx", "xx")] {
        assert_eq!(remove_matches(s, p), s.replace(p, ""));
        assert_eq!(trim_end_matches(s, p), s.trim_end_matches(p));
    }
}

#[test]
fn variant_names() {
    assert_eq!(kind_from_str("VOD"), Ok(VideoType::VOD));
    assert_eq!(kind_from_str("LIVE"), Ok(VideoType::LIVE));
    assert_eq!(kind_from_str("vod"), Err(FieldError::UnknownVariant));
    assert_eq!(channel_type_from_str("BASIC"), Ok(ChannelType::BASIC));
    assert_eq!(channel_type_from_str("PREMIUM"), Ok(ChannelType::PREMIUM));
    assert_eq!(channel_type_from_str(""), Err(FieldError::UnknownVariant));
}

fn attr(name: &str, value: &str) -> (String, String) {
    (name.to_string(), value.to_string())
}

fn card() -> VideoCard {
    VideoCard {
        attrs: vec![
            attr("class", "thumb_area"),
            attr("href", "/video/232024"),
            attr("data-seq", "232,024"),
            attr("data-ga-type", "VOD"),
            attr("data-ga-name", "Good Day"),
            attr("data-ga-cseq", "13"),
            attr("data-ga-cname", "BTS"),
            attr("data-ga-ctype", "BASIC"),
        ],
        duration: Some("1:02:03".to_string()),
        image: Some("https://img.example/t.jpg?type=f228_128_wp".to_string()),
        posted_age: Some("2 hours ago".to_string()),
        channel_link: Some("/channel/FE619".to_string()),
        plays: Some("1,234".to_string()),
        likes: Some("5,678,901".to_string()),
    }
}

#[test]
fn attributes_are_looked_up_by_name() {
    let attrs = vec![attr("a", "1"), attr("b", "2"), attr("a", "3")];
    assert_eq!(find_attribute(&attrs, "a").map(|s| s.as_str()), Some("3"));
    assert_eq!(find_attribute(&attrs, "b").map(|s| s.as_str()), Some("2"));
    assert_eq!(find_attribute(&attrs, "c"), None);
}

#[test]
fn card_is_read() {
    let video = RecentVideo::from_card(&card()).unwrap();
    assert_eq!(video.title, "Good Day");
    assert_eq!(video.video_seq, 232024);
    assert_eq!(video.kind, VideoType::VOD);
    assert_eq!(video.channel_name, "BTS");
    assert_eq!(video.channel_seq, 13);
    assert_eq!(video.channel_code, "FE619");
    assert_eq!(video.channel_type, ChannelType::BASIC);
    assert_eq!(video.thumbnail_url.as_deref(), Some("https://img.example/t.jpg"));
    assert_eq!(video.duration_secs, Some(3723));
    assert_eq!(video.plays, Some(1234));
    assert_eq!(video.likes, Some(5678901));
}

#[test]
fn card_of_a_broadcast() {
    let mut live = card();
    live.attrs[3] = attr("data-ga-type", "LIVE");
    live.duration = None;
    live.image = None;
    live.plays = None;
    live.likes = None;
    let video = RecentVideo::from_card(&live).unwrap();
    assert_eq!(video.kind, VideoType::LIVE);
    assert_eq!(video.thumbnail_url, None);
    assert_eq!(video.duration_secs, None);
    assert_eq!(video.plays, None);
    assert_eq!(video.likes, None);
    assert_eq!(video.thumbnail_url(), "https://vlive-thumb.pstatic.net/live/232024/thumb?type=f1280_720");
}

#[test]
fn unreadable_cards_are_rejected() {
    let mut c = card();
    c.attrs.remove(4);
    assert_eq!(RecentVideo::from_card(&c).err(), Some(FieldError::Missing));
    let mut c = card();
    c.attrs[2] = attr("data-seq", "n/a");
    assert_eq!(RecentVideo::from_card(&c).err(), Some(FieldError::InvalidNumber));
    let mut c = card();
    c.attrs[3] = attr("data-ga-type", "CLIP");
    assert_eq!(RecentVideo::from_card(&c).err(), Some(FieldError::UnknownVariant));
    let mut c = card();
    c.attrs[7] = attr("data-ga-ctype", "PLUS");
    assert_eq!(RecentVideo::from_card(&c).err(), Some(FieldError::UnknownVariant));
    let mut c = card();
    c.channel_link = None;
    assert_eq!(RecentVideo::from_card(&c).err(), Some(FieldError::Missing));
    let mut c = card();
    c.duration = Some("long".to_string());
    assert_eq!(RecentVideo::from_card(&c).err(), Some(FieldError::InvalidNumber));
    let mut c = card();
    c.likes = Some("".to_string());
    assert_eq!(RecentVideo::from_card(&c).err(), Some(FieldError::InvalidNumber));
    // The first unreadable field decides.
    let mut c = card();
    c.attrs[3] = attr("data-ga-type", "CLIP");
    c.attrs.remove(4);
    assert_eq!(RecentVideo::from_card(&c).err(), Some(FieldError::Missing));
}

#[test]
fn cards_of_a_page() {
    let mut second = card();
    second.attrs[2] = attr("data-seq", "70738");
    let videos = RecentVideo::from_cards(&vec![card(), second.clone()]).unwrap();
    assert_eq!(videos.iter().map(|v| v.video_seq).collect::<Vec<_>>(), vec![232024, 70738]);
    assert_eq!(RecentVideo::from_cards(&Vec::new()).unwrap().len(), 0);
    let mut bad = card();
    bad.plays = Some("?".to_string());
    assert_eq!(
        RecentVideo::from_cards(&vec![card(), bad, second]).err(),
        Some(FieldError::InvalidNumber)
    );
}

#[test]
fn addresses_of_a_recent_video() {
    let video = RecentVideo::from_card(&card()).unwrap();
    assert_eq!(video.channel_url(), "https://www.vlive.tv/channel/FE619");
    assert_eq!(video.video_url(), "https://www.vlive.tv/video/232024");
    assert_eq!(video.thumbnail_url(), "https://img.example/t.jpg");
    assert_eq!(
        video.live_thumbnail_url(),
        "https://vlive-thumb.pstatic.net/live/232024/thumb?type=f1280_720"
    );
}

#[test]
fn test_get_recent_videos_detail() {
    let mut png = card();
    png.image = Some("https://img.example/t.png?type=f228_128_wp".to_string());
    let mut jpeg = card();
    jpeg.image = Some("https://img.example/t.jpeg".to_string());
    let videos = RecentVideo::from_cards(&vec![card(), png, jpeg]).expect("Get recent videos");
    assert!(!videos.is_empty());
    for video in videos {
        if let Some(url) = video.thumbnail_url {
            assert!(url.ends_with(".png") || url.ends_with(".jpg") || url.ends_with(".jpeg"));
        }
    }
}
