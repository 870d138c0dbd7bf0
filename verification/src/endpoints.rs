//! Addresses of the platform's pages and services.

use vstd::prelude::*;

verus! {

/// The decimal digit that stands for `d`, for `d` below ten.
pub open spec fn digit_char(d: nat) -> char {
    if d == 0 {
        '0'
    } else if d == 1 {
        '1'
    } else if d == 2 {
        '2'
    } else if d == 3 {
        '3'
    } else if d == 4 {
        '4'
    } else if d == 5 {
        '5'
    } else if d == 6 {
        '6'
    } else if d == 7 {
        '7'
    } else if d == 8 {
        '8'
    } else {
        '9'
    }
}

/// The decimal numeral of `n`, without sign and without leading zeros.
pub open spec fn decimal(n: nat) -> Seq<char>
    decreases n,
{
    if n < 10 {
        seq![digit_char(n)]
    } else {
        decimal(n / 10).push(digit_char(n % 10))
    }
}

fn digit_text(d: u64) -> (r: &'static str)
    requires
        d < 10,
    ensures
        r@ == seq![digit_char(d as nat)],
{
    proof {
        reveal_strlit("0");
        reveal_strlit("1");
        reveal_strlit("2");
        reveal_strlit("3");
        reveal_strlit("4");
        reveal_strlit("5");
        reveal_strlit("6");
        reveal_strlit("7");
        reveal_strlit("8");
        reveal_strlit("9");
    }
    let r = if d == 0 {
        "0"
    } else if d == 1 {
        "1"
    } else if d == 2 {
        "2"
    } else if d == 3 {
        "3"
    } else if d == 4 {
        "4"
    } else if d == 5 {
        "5"
    } else if d == 6 {
        "6"
    } else if d == 7 {
        "7"
    } else if d == 8 {
        "8"
    } else {
        "9"
    };
    assert(r@ =~= seq![digit_char(d as nat)]);
    r
}

/// Appends the decimal numeral of `n` to `out`.
pub fn push_decimal(out: &mut String, n: u64)
    ensures
        final(out)@ == old(out)@ + decimal(n as nat),
    decreases n,
{
    if n >= 10 {
        push_decimal(out, n / 10);
    }
    out.append(digit_text(n % 10));
}

/// The identifier under which this client is known to the services.
pub const APP_ID: &'static str = "8c6cc7b45d2568fb668be6e05b6e5a3b";

/// The fields that the board service is asked for.
pub const BOARD_FIELDS: &'static str =
    "boardId,title,boardType,openType,allowedViewers,includedCountries,excludedCountries,useStarFilter,payRequired,expose,channelCode,lastUpdatedAt";

/// The fields that the post service is asked for.
pub const POST_FIELDS: &'static str =
    "attachments,author,availableActions,board%7BboardId,title,boardType,payRequired,includedCountries,excludedCountries%7D,channel%7BchannelName,channelCode%7D,commentCount,contentType,createdAt,emotionCount,excludedCountries,includedCountries,isCommentEnabled,isHiddenFromStar,lastModifierMember,notice,officialVideo,plainBody,postId,postVersion,reservation,starReactions,targetMember,thumbnail,title,url,viewerEmotionId,writtenIn,sharedPosts,originPost";

/// Text of `grouped_boards_url`.
pub open spec fn grouped_boards_url_text(channel_code: Seq<char>) -> Seq<char> {
    "https://www.vlive.tv/globalv-web/vam-web/board/v1.0/channel-"@ + channel_code
        + "/groupedBoards?appId="@ + APP_ID@ + "&fields="@ + BOARD_FIELDS@
}

/// Where the boards of the channel with code `channel_code` are listed.
pub fn grouped_boards_url(channel_code: &str) -> (url: String)
    ensures
        url@ == grouped_boards_url_text(channel_code@),
{
    let mut url = String::from_str("https://www.vlive.tv/globalv-web/vam-web/board/v1.0/channel-");
    url.append(channel_code);
    url.append("/groupedBoards?appId=");
    url.append(APP_ID);
    url.append("&fields=");
    url.append(BOARD_FIELDS);
    url
}

/// Text of `board_url`.
pub open spec fn board_url_text(board_id: u64) -> Seq<char> {
    "https://www.vlive.tv/globalv-web/vam-web/board/v1.0/board-"@ + decimal(board_id as nat)
        + "?appId="@ + APP_ID@ + "&fields="@ + BOARD_FIELDS@ + "&gcc=US&locale=en_US"@
}

/// Where the board with number `board_id` is described.
pub fn board_url(board_id: u64) -> (url: String)
    ensures
        url@ == board_url_text(board_id),
{
    let mut url = String::from_str("https://www.vlive.tv/globalv-web/vam-web/board/v1.0/board-");
    push_decimal(&mut url, board_id);
    url.append("?appId=");
    url.append(APP_ID);
    url.append("&fields=");
    url.append(BOARD_FIELDS);
    url.append("&gcc=US&locale=en_US");
    url
}

/// Text of `board_posts_url`.
pub open spec fn board_posts_url_text(board_id: u64) -> Seq<char> {
    "https://www.vlive.tv/globalv-web/vam-web/post/v1.0/board-"@ + decimal(board_id as nat)
        + "/posts?appId="@ + APP_ID@ + "&fields="@ + POST_FIELDS@
        + "&sortType=LATEST&gcc=US&locale=en_US"@
}

/// Where the posts of the board with number `board_id` are listed, latest
/// first.
pub fn board_posts_url(board_id: u64) -> (url: String)
    ensures
        url@ == board_posts_url_text(board_id),
{
    let mut url = String::from_str("https://www.vlive.tv/globalv-web/vam-web/post/v1.0/board-");
    push_decimal(&mut url, board_id);
    url.append("/posts?appId=");
    url.append(APP_ID);
    url.append("&fields=");
    url.append(POST_FIELDS);
    url.append("&sortType=LATEST&gcc=US&locale=en_US");
    url
}

/// Text of `channel_url`.
pub open spec fn channel_url_text(channel_code: Seq<char>) -> Seq<char> {
    "https://www.vlive.tv/channel/"@ + channel_code
}

/// The page of the channel with code `channel_code`.
pub fn channel_url(channel_code: &str) -> (url: String)
    ensures
        url@ == channel_url_text(channel_code@),
{
    let mut url = String::from_str("https://www.vlive.tv/channel/");
    url.append(channel_code);
    url
}

/// Text of `video_url`.
pub open spec fn video_url_text(video_seq: u64) -> Seq<char> {
    "https://www.vlive.tv/video/"@ + decimal(video_seq as nat)
}

/// The page of the video with number `video_seq`. It is also the referer
/// that the key service insists on.
pub fn video_url(video_seq: u64) -> (url: String)
    ensures
        url@ == video_url_text(video_seq),
{
    let mut url = String::from_str("https://www.vlive.tv/video/");
    push_decimal(&mut url, video_seq);
    url
}

/// Text of `inkey_url`.
pub open spec fn inkey_url_text(video_seq: u64) -> Seq<char> {
    "https://www.vlive.tv/globalv-web/vam-web/video/v1.0/vod/"@ + decimal(video_seq as nat)
        + "/inkey?appId="@ + APP_ID@
}

/// Where the access key of the video with number `video_seq` is handed out.
pub fn inkey_url(video_seq: u64) -> (url: String)
    ensures
        url@ == inkey_url_text(video_seq),
{
    let mut url = String::from_str("https://www.vlive.tv/globalv-web/vam-web/video/v1.0/vod/");
    push_decimal(&mut url, video_seq);
    url.append("/inkey?appId=");
    url.append(APP_ID);
    url
}

/// Text of `vod_url`.
pub open spec fn vod_url_text(video_id: Seq<char>, key: Seq<char>) -> Seq<char> {
    "https://apis.naver.com/rmcnmv/rmcnmv/vod/play/v2.0/"@ + video_id + "?key="@ + key
}

/// Where the streaming service describes the media of the recording
/// `video_id` to the holder of `key`.
pub fn vod_url(video_id: &str, key: &str) -> (url: String)
    ensures
        url@ == vod_url_text(video_id@, key@),
{
    let mut url = String::from_str("https://apis.naver.com/rmcnmv/rmcnmv/vod/play/v2.0/");
    url.append(video_id);
    url.append("?key=");
    url.append(key);
    url
}

} // verus!
