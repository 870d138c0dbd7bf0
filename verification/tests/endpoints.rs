use vlive::bridge;
use vlive::endpoints::board_posts_url;
use vlive::endpoints::board_url;
use vlive::endpoints::channel_url;
use vlive::endpoints::grouped_boards_url;
use vlive::endpoints::inkey_url;
use vlive::endpoints::push_decimal;
use vlive::endpoints::video_url;
use vlive::endpoints::vod_url;
use vlive::endpoints::APP_ID;

fn pairs(params: &[bridge::Param]) -> Vec<(String, String)> {
    params.iter().map(|p| (p.name.clone(), p.value.clone())).collect()
}

fn owned(pairs: &[(&str, &str)]) -> Vec<(String, String)> {
    pairs.iter().map(|(n, v)| (n.to_string(), v.to_string())).collect()
}

#[test]
fn decimal_numerals() {
    for n in [0u64, 7, 9, 10, 11, 99, 100, 232024, 1234567890, u64::MAX] {
        let mut out = String::from("n=");
        push_decimal(&mut out, n);
        assert_eq!(out, format!("n={}", n));
    }
}

#[test]
fn page_addresses() {
    assert_eq!(channel_url("FE619"), "https://www.vlive.tv/channel/FE619");
    assert_eq!(video_url(232024), "https://www.vlive.tv/video/232024");
    assert_eq!(video_url(0), "https://www.vlive.tv/video/0");
}

#[test]
fn service_addresses() {
    assert_eq!(APP_ID, "8c6cc7b45d2568fb668be6e05b6e5a3b");
    assert_eq!(
        inkey_url(232024),
        "https://www.vlive.tv/globalv-web/vam-web/video/v1.0/vod/232024/inkey?appId=8c6cc7b45d2568fb668be6e05b6e5a3b"
    );
    assert_eq!(
        vod_url("abc123", "xyz"),
        "https://apis.naver.com/rmcnmv/rmcnmv/vod/play/v2.0/abc123?key=xyz"
    );
    assert_eq!(
        grouped_boards_url("EDBF"),
        "https://www.vlive.tv/globalv-web/vam-web/board/v1.0/channel-EDBF/groupedBoards?appId=8c6cc7b45d2568fb668be6e05b6e5a3b&fields=boardId,title,boardType,openType,allowedViewers,includedCountries,excludedCountries,useStarFilter,payRequired,expose,channelCode,lastUpdatedAt"
    );
    assert_eq!(
        board_url(21),
        "https://www.vlive.tv/globalv-web/vam-web/board/v1.0/board-21?appId=8c6cc7b45d2568fb668be6e05b6e5a3b&fields=boardId,title,boardType,openType,allowedViewers,includedCountries,excludedCountries,useStarFilter,payRequired,expose,channelCode,lastUpdatedAt&gcc=US&locale=en_US"
    );
    assert_eq!(
        board_posts_url(21),
        "https://www.vlive.tv/globalv-web/vam-web/post/v1.0/board-21/posts?appId=8c6cc7b45d2568fb668be6e05b6e5a3b&fields=attachments,author,availableActions,board%7BboardId,title,boardType,payRequired,includedCountries,excludedCountries%7D,channel%7BchannelName,channelCode%7D,commentCount,contentType,createdAt,emotionCount,excludedCountries,includedCountries,isCommentEnabled,isHiddenFromStar,lastModifierMember,notice,officialVideo,plainBody,postId,postVersion,reservation,starReactions,targetMember,thumbnail,title,url,viewerEmotionId,writtenIn,sharedPosts,originPost&sortType=LATEST&gcc=US&locale=en_US"
    );
}

#[test]
fn key_request_carries_referer_and_user_agent() {
    let request = bridge::get_video_key(232024);
    assert_eq!(request.url, inkey_url(232024));
    assert!(request.query.is_empty());
    assert_eq!(
        pairs(&request.headers),
        owned(&[("Referer", "https://www.vlive.tv/video/232024"), ("User-Agent", "vlive-rs")])
    );
    assert!(!bridge::USER_AGENT.is_empty());
}

#[test]
fn page_and_media_requests_are_plain() {
    let page = bridge::get_video(70738);
    assert_eq!(page.url, "https://www.vlive.tv/video/70738");
    assert!(page.query.is_empty() && page.headers.is_empty());
    let media = bridge::get_video_data("abc123", "xyz");
    assert_eq!(media.url, "https://apis.naver.com/rmcnmv/rmcnmv/vod/play/v2.0/abc123?key=xyz");
    assert!(media.query.is_empty() && media.headers.is_empty());
    let channel = bridge::get_channel_info("FE619");
    assert_eq!(channel.url, "https://www.vlive.tv/channel/FE619");
    assert!(channel.query.is_empty() && channel.headers.is_empty());
    let all = bridge::get_channel_list();
    assert_eq!(all.url, "http://www.vlive.tv/search/auto/channels");
    assert!(all.query.is_empty() && all.headers.is_empty());
    let bare = bridge::plain("http://example.org/".to_string());
    assert_eq!(bare.url, "http://example.org/");
    assert!(bare.query.is_empty() && bare.headers.is_empty());
}

#[test]
fn listing_requests() {
    let search = bridge::search_channel("bts", 10);
    assert_eq!(search.url, "http://www.vlive.tv/search/auto/channels");
    assert_eq!(pairs(&search.query), owned(&[("query", "bts"), ("maxNumOfRows", "10")]));
    assert!(search.headers.is_empty());

    let decode = bridge::decode_channel_code("FE619");
    assert_eq!(decode.url, "http://api.vfan.vlive.tv/vproxy/channelplus/decodeChannelCode");
    assert_eq!(
        pairs(&decode.query),
        owned(&[("app_id", "8c6cc7b45d2568fb668be6e05b6e5a3b"), ("channelCode", "FE619")])
    );

    let videos = bridge::get_channel_video_list(364, 30, 1);
    assert_eq!(videos.url, "http://api.vfan.vlive.tv/vproxy/channelplus/getChannelVideoList");
    assert_eq!(
        pairs(&videos.query),
        owned(&[
            ("app_id", "8c6cc7b45d2568fb668be6e05b6e5a3b"),
            ("channelSeq", "364"),
            ("maxNumOfRows", "30"),
            ("pageNo", "1"),
        ])
    );

    let upcoming = bridge::get_upcoming_video_list(6, 30, 1);
    assert_eq!(upcoming.url, "http://api.vfan.vlive.tv/vproxy/channelplus/getUpcomingVideoList");
    assert_eq!(
        pairs(&upcoming.query),
        owned(&[
            ("app_id", "8c6cc7b45d2568fb668be6e05b6e5a3b"),
            ("channelSeq", "6"),
            ("maxNumOfRows", "30"),
            ("pageNo", "1"),
        ])
    );

    let recent = bridge::get_recent_videos(12, 1);
    assert_eq!(recent.url, "https://www.vlive.tv/home/video/more");
    assert_eq!(pairs(&recent.query), owned(&[("pageNo", "1"), ("pageSize", "12")]));
}

#[test]
fn board_requests_carry_the_referer() {
    let grouped = bridge::get_channel_grouped_boards("EDBF");
    assert_eq!(grouped.url, grouped_boards_url("EDBF"));
    assert_eq!(pairs(&grouped.headers), owned(&[("Referer", "https://www.vlive.tv/channel/EDBF")]));

    let board = bridge::get_channel_board("EDBF", 21);
    assert_eq!(board.url, board_url(21));
    assert_eq!(
        pairs(&board.headers),
        owned(&[("Referer", "https://www.vlive.tv/channel/EDBF/board/21")])
    );

    let posts = bridge::get_board_posts("EDBF", 21);
    assert_eq!(posts.url, board_posts_url(21));
    assert_eq!(
        pairs(&posts.headers),
        owned(&[("Referer", "https://www.vlive.tv/channel/EDBF/board/21")])
    );
}

#[test]
fn parameters() {
    let p = bridge::param("a", "b");
    assert_eq!((p.name.as_str(), p.value.as_str()), ("a", "b"));
    let n = bridge::number_param("n", 1200);
    assert_eq!((n.name.as_str(), n.value.as_str()), ("n", "1200"));
}
