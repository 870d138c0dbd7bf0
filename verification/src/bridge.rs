//! The requests that the library hands to a transport.
//!
//! The library performs no input or output. Each function here describes
//! one GET request: its address, its query parameters and its headers. The
//! caller sends it with whatever HTTP client it has and brings the answer
//! back.

use vstd::prelude::*;
use crate::endpoints::APP_ID;
use crate::endpoints::board_posts_url;
use crate::endpoints::board_posts_url_text;
use crate::endpoints::board_url;
use crate::endpoints::board_url_text;
use crate::endpoints::channel_url;
use crate::endpoints::channel_url_text;
use crate::endpoints::decimal;
use crate::endpoints::grouped_boards_url;
use crate::endpoints::grouped_boards_url_text;
use crate::endpoints::inkey_url;
use crate::endpoints::inkey_url_text;
use crate::endpoints::push_decimal;
use crate::endpoints::video_url;
use crate::endpoints::video_url_text;
use crate::endpoints::vod_url;
use crate::endpoints::vod_url_text;

verus! {

/// A named value: a query parameter or a header.
#[derive(Clone, Debug)]
pub struct Param {
    pub name: String,
    pub value: String,
}

/// A GET request.
#[derive(Clone, Debug)]
pub struct Request {
    /// The address, with whatever query it already carries.
    pub url: String,
    /// Parameters for the transport to append to the query, in this order.
    pub query: Vec<Param>,
    /// Headers to send, in this order.
    pub headers: Vec<Param>,
}

/// The base address of the channel service.
pub const BASE_URL: &'static str = "http://api.vfan.vlive.tv/vproxy/channelplus/";

/// The name under which this client introduces itself. The key service
/// answers 500 to a request without a user agent.
pub const USER_AGENT: &'static str = "vlive-rs";

/// The user agent is not empty.
pub proof fn lemma_user_agent_is_not_empty()
    ensures
        USER_AGENT@.len() > 0,
{
    reveal_strlit("vlive-rs");
}

/// Names and values of a list of parameters.
pub open spec fn pairs(params: Seq<Param>) -> Seq<(Seq<char>, Seq<char>)> {
    Seq::new(params.len(), |i: int| (params[i].name@, params[i].value@))
}

impl View for Request {
    type V = (Seq<char>, Seq<(Seq<char>, Seq<char>)>, Seq<(Seq<char>, Seq<char>)>);

    /// The request as plain text: address, query parameters, headers.
    open spec fn view(&self) -> Self::V {
        (self.url@, pairs(self.query@), pairs(self.headers@))
    }
}

impl Request {
    /// The request carries a header `name` with value `value`.
    pub open spec fn has_header(self, name: Seq<char>, value: Seq<char>) -> bool {
        exists|i: int| 0 <= i < self.headers@.len() && (#[trigger] self.headers@[i]).name@ == name
            && self.headers@[i].value@ == value
    }
}

/// A request for `url` without parameters or headers.
pub fn plain(url: String) -> (request: Request)
    ensures
        request@ == (url@, Seq::<(Seq<char>, Seq<char>)>::empty(), Seq::<(Seq<char>, Seq<char>)>::empty()),
{
    let request = Request { url, query: Vec::new(), headers: Vec::new() };
    proof {
        assert(pairs(request.query@) =~= Seq::empty());
        assert(pairs(request.headers@) =~= Seq::empty());
    }
    request
}

/// A parameter `name` with the text `value`.
pub fn param(name: &str, value: &str) -> (p: Param)
    ensures
        p.name@ == name@,
        p.value@ == value@,
{
    Param { name: String::from_str(name), value: String::from_str(value) }
}

/// A parameter `name` with the number `value` in decimal.
pub fn number_param(name: &str, value: u64) -> (p: Param)
    ensures
        p.name@ == name@,
        p.value@ == decimal(value as nat),
{
    let mut text = String::new();
    push_decimal(&mut text, value);
    proof {
        assert(Seq::<char>::empty() + decimal(value as nat) =~= decimal(value as nat));
    }
    Param { name: String::from_str(name), value: text }
}

/// The request that searches for channels by name, asking for at most
/// `num_rows` of them.
pub fn search_channel(query: &str, num_rows: u64) -> (request: Request)
    ensures
        request@ == (
            "http://www.vlive.tv/search/auto/channels"@,
            seq![("query"@, query@), ("maxNumOfRows"@, decimal(num_rows as nat))],
            Seq::<(Seq<char>, Seq<char>)>::empty(),
        ),
{
    let mut params: Vec<Param> = Vec::new();
    params.push(param("query", query));
    params.push(number_param("maxNumOfRows", num_rows));
    let request = Request {
        url: String::from_str("http://www.vlive.tv/search/auto/channels"),
        query: params,
        headers: Vec::new(),
    };
    proof {
        assert(pairs(request.query@) =~= seq![
            ("query"@, query@),
            ("maxNumOfRows"@, decimal(num_rows as nat)),
        ]);
        assert(pairs(request.headers@) =~= Seq::empty());
    }
    request
}

/// The request that lists all channels.
pub fn get_channel_list() -> (request: Request)
    ensures
        request@ == (
            "http://www.vlive.tv/search/auto/channels"@,
            Seq::<(Seq<char>, Seq<char>)>::empty(),
            Seq::<(Seq<char>, Seq<char>)>::empty(),
        ),
{
    plain(String::from_str("http://www.vlive.tv/search/auto/channels"))
}

/// The request for the page of a channel, whose embedded state describes
/// the channel.
pub fn get_channel_info(channel_code: &str) -> (request: Request)
    ensures
        request@ == (
            channel_url_text(channel_code@),
            Seq::<(Seq<char>, Seq<char>)>::empty(),
            Seq::<(Seq<char>, Seq<char>)>::empty(),
        ),
{
    plain(channel_url(channel_code))
}

/// The request that turns a channel's code into its number.
pub fn decode_channel_code(channel_code: &str) -> (request: Request)
    ensures
        request@ == (
            BASE_URL@ + "decodeChannelCode"@,
            seq![("app_id"@, APP_ID@), ("channelCode"@, channel_code@)],
            Seq::<(Seq<char>, Seq<char>)>::empty(),
        ),
{
    let mut url = String::from_str(BASE_URL);
    url.append("decodeChannelCode");
    let mut params: Vec<Param> = Vec::new();
    params.push(param("app_id", APP_ID));
    params.push(param("channelCode", channel_code));
    let request = Request { url, query: params, headers: Vec::new() };
    proof {
        assert(pairs(request.query@) =~= seq![("app_id"@, APP_ID@), ("channelCode"@, channel_code@)]);
        assert(pairs(request.headers@) =~= Seq::empty());
    }
    request
}

/// Text of the referer that the board service expects for a channel.
pub open spec fn channel_referer(channel_code: Seq<char>) -> Seq<char> {
    "https://www.vlive.tv/channel/"@ + channel_code
}

/// Text of the referer that the board service expects for a board.
pub open spec fn board_referer(channel_code: Seq<char>, board_id: u64) -> Seq<char> {
    "https://www.vlive.tv/channel/"@ + channel_code + "/board/"@ + decimal(board_id as nat)
}

fn board_referer_header(channel_code: &str, board_id: u64) -> (p: Param)
    ensures
        p.name@ == "Referer"@,
        p.value@ == board_referer(channel_code@, board_id),
{
    let mut referer = String::from_str("https://www.vlive.tv/channel/");
    referer.append(channel_code);
    referer.append("/board/");
    push_decimal(&mut referer, board_id);
    Param { name: String::from_str("Referer"), value: referer }
}

/// The request for a channel's boards, grouped into categories.
pub fn get_channel_grouped_boards(channel_code: &str) -> (request: Request)
    ensures
        request@ == (
            grouped_boards_url_text(channel_code@),
            Seq::<(Seq<char>, Seq<char>)>::empty(),
            seq![("Referer"@, channel_referer(channel_code@))],
        ),
{
    let mut request = plain(grouped_boards_url(channel_code));
    let mut referer = String::from_str("https://www.vlive.tv/channel/");
    referer.append(channel_code);
    request.headers.push(Param { name: String::from_str("Referer"), value: referer });
    proof {
        assert(pairs(request.query@) =~= Seq::empty());
        assert(pairs(request.headers@) =~= seq![("Referer"@, channel_referer(channel_code@))]);
    }
    request
}

/// The request for the description of a board. The channel's code is
/// needed because the referer is the address of the board's page.
pub fn get_channel_board(channel_code: &str, board_id: u64) -> (request: Request)
    ensures
        request@ == (
            board_url_text(board_id),
            Seq::<(Seq<char>, Seq<char>)>::empty(),
            seq![("Referer"@, board_referer(channel_code@, board_id))],
        ),
{
    let mut request = plain(board_url(board_id));
    request.headers.push(board_referer_header(channel_code, board_id));
    proof {
        assert(pairs(request.query@) =~= Seq::empty());
        assert(pairs(request.headers@) =~= seq![("Referer"@, board_referer(channel_code@, board_id))]);
    }
    request
}

/// The request for the posts on a board.
pub fn get_board_posts(channel_code: &str, board_id: u64) -> (request: Request)
    ensures
        request@ == (
            board_posts_url_text(board_id),
            Seq::<(Seq<char>, Seq<char>)>::empty(),
            seq![("Referer"@, board_referer(channel_code@, board_id))],
        ),
{
    let mut request = plain(board_posts_url(board_id));
    request.headers.push(board_referer_header(channel_code, board_id));
    proof {
        assert(pairs(request.query@) =~= Seq::empty());
        assert(pairs(request.headers@) =~= seq![("Referer"@, board_referer(channel_code@, board_id))]);
    }
    request
}

/// The query of the two requests that list a channel's videos.
pub open spec fn video_list_query(channel_seq: u32, max_rows: u32, page_no: u32) -> Seq<(Seq<char>, Seq<char>)> {
    seq![
        ("app_id"@, APP_ID@),
        ("channelSeq"@, decimal(channel_seq as nat)),
        ("maxNumOfRows"@, decimal(max_rows as nat)),
        ("pageNo"@, decimal(page_no as nat)),
    ]
}

fn video_list_request(url: String, channel_seq: u32, max_rows: u32, page_no: u32) -> (request: Request)
    ensures
        request@ == (
            url@,
            video_list_query(channel_seq, max_rows, page_no),
            Seq::<(Seq<char>, Seq<char>)>::empty(),
        ),
{
    let mut params: Vec<Param> = Vec::new();
    params.push(param("app_id", APP_ID));
    params.push(number_param("channelSeq", channel_seq as u64));
    params.push(number_param("maxNumOfRows", max_rows as u64));
    params.push(number_param("pageNo", page_no as u64));
    let request = Request { url, query: params, headers: Vec::new() };
    proof {
        assert(pairs(request.query@) =~= video_list_query(channel_seq, max_rows, page_no));
        assert(pairs(request.headers@) =~= Seq::empty());
    }
    request
}

/// The request for page `page_no` of a channel's videos, `max_rows` to a
/// page.
pub fn get_channel_video_list(channel_seq: u32, max_rows: u32, page_no: u32) -> (request: Request)
    ensures
        request@ == (
            BASE_URL@ + "getChannelVideoList"@,
            video_list_query(channel_seq, max_rows, page_no),
            Seq::<(Seq<char>, Seq<char>)>::empty(),
        ),
{
    let mut url = String::from_str(BASE_URL);
    url.append("getChannelVideoList");
    video_list_request(url, channel_seq, max_rows, page_no)
}

/// The request for page `page_no` of a channel's announced videos.
pub fn get_upcoming_video_list(channel_seq: u32, max_rows: u32, page_no: u32) -> (request: Request)
    ensures
        request@ == (
            BASE_URL@ + "getUpcomingVideoList"@,
            video_list_query(channel_seq, max_rows, page_no),
            Seq::<(Seq<char>, Seq<char>)>::empty(),
        ),
{
    let mut url = String::from_str(BASE_URL);
    url.append("getUpcomingVideoList");
    video_list_request(url, channel_seq, max_rows, page_no)
}

/// The request for the newest videos of all channels, as the home page
/// lists them.
pub fn get_recent_videos(page_size: u64, page_no: u64) -> (request: Request)
    ensures
        request@ == (
            "https://www.vlive.tv/home/video/more"@,
            seq![("pageNo"@, decimal(page_no as nat)), ("pageSize"@, decimal(page_size as nat))],
            Seq::<(Seq<char>, Seq<char>)>::empty(),
        ),
{
    let mut params: Vec<Param> = Vec::new();
    params.push(number_param("pageNo", page_no));
    params.push(number_param("pageSize", page_size));
    let request = Request {
        url: String::from_str("https://www.vlive.tv/home/video/more"),
        query: params,
        headers: Vec::new(),
    };
    proof {
        assert(pairs(request.query@) =~= seq![
            ("pageNo"@, decimal(page_no as nat)),
            ("pageSize"@, decimal(page_size as nat)),
        ]);
        assert(pairs(request.headers@) =~= Seq::empty());
    }
    request
}

/// The request for the page of a video.
pub fn get_video(video_seq: u64) -> (request: Request)
    ensures
        request@ == (
            video_url_text(video_seq),
            Seq::<(Seq<char>, Seq<char>)>::empty(),
            Seq::<(Seq<char>, Seq<char>)>::empty(),
        ),
{
    plain(video_url(video_seq))
}

/// The headers without which the key service refuses: the referer, which
/// is the address of the video's page, and a user agent.
pub open spec fn key_headers(video_seq: u64) -> Seq<(Seq<char>, Seq<char>)> {
    seq![("Referer"@, video_url_text(video_seq)), ("User-Agent"@, USER_AGENT@)]
}

/// The request that exchanges the number of a video for its access key.
pub fn get_video_key(video_seq: u64) -> (request: Request)
    ensures
        request@ == (
            inkey_url_text(video_seq),
            Seq::<(Seq<char>, Seq<char>)>::empty(),
            key_headers(video_seq),
        ),
        request.has_header("Referer"@, video_url_text(video_seq)),
        request.has_header("User-Agent"@, USER_AGENT@),
{
    let mut headers: Vec<Param> = Vec::new();
    headers.push(Param { name: String::from_str("Referer"), value: video_url(video_seq) });
    headers.push(param("User-Agent", USER_AGENT));
    let request = Request { url: inkey_url(video_seq), query: Vec::new(), headers };
    proof {
        assert(pairs(request.query@) =~= Seq::empty());
        assert(pairs(request.headers@) =~= key_headers(video_seq));
        assert(request.headers@[0].name@ == "Referer"@);
        assert(request.headers@[1].name@ == "User-Agent"@);
    }
    request
}

/// The request for the media of the recording `video_id`, opened by `key`.
pub fn get_video_data(video_id: &str, key: &str) -> (request: Request)
    ensures
        request@ == (
            vod_url_text(video_id@, key@),
            Seq::<(Seq<char>, Seq<char>)>::empty(),
            Seq::<(Seq<char>, Seq<char>)>::empty(),
        ),
{
    plain(vod_url(video_id, key))
}

} // verus!
