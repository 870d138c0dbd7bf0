//! The newest videos of all channels, as the home page lists them.
//!
//! The home page is HTML. For each video it shows a card; what a card says
//! is text throughout. This module turns the text of a card into a typed
//! entry. Taking the cards out of the HTML is left to an HTML parser.

use vstd::prelude::*;
use crate::endpoints::decimal;
use crate::endpoints::push_decimal;
use crate::text::chars_of;
use crate::text::parse_u64;
use crate::text::read_u64;
use crate::text::remove_all;
use crate::text::remove_char;
use crate::text::remove_matches;
use crate::text::str_eq;
use crate::text::trim_end;
use crate::text::trim_end_matches;
use crate::text::without;
use super::channel::ChannelType;
use super::helpers::FieldError;
use super::video::VideoType;

verus! {

/// A video in the list of the newest ones.
#[derive(Clone, Debug)]
pub struct RecentVideo {
    pub title: String,
    pub video_seq: u64,
    pub kind: VideoType,
    pub channel_name: String,
    pub channel_seq: u64,
    pub channel_code: String,
    pub channel_type: ChannelType,
    /// May be None if live
    pub thumbnail_url: Option<String>,
    /// None if this is live
    pub duration_secs: Option<u64>,
    /// May be missing for some videos
    pub plays: Option<u64>,
    /// May be missing for some videos
    pub likes: Option<u64>,
}

/// A `RecentVideo` with its texts as sequences of characters.
pub struct RecentVideoView {
    pub title: Seq<char>,
    pub video_seq: u64,
    pub kind: VideoType,
    pub channel_name: Seq<char>,
    pub channel_seq: u64,
    pub channel_code: Seq<char>,
    pub channel_type: ChannelType,
    pub thumbnail_url: Option<Seq<char>>,
    pub duration_secs: Option<u64>,
    pub plays: Option<u64>,
    pub likes: Option<u64>,
}

impl View for RecentVideo {
    type V = RecentVideoView;

    open spec fn view(&self) -> RecentVideoView {
        RecentVideoView {
            title: self.title@,
            video_seq: self.video_seq,
            kind: self.kind,
            channel_name: self.channel_name@,
            channel_seq: self.channel_seq,
            channel_code: self.channel_code@,
            channel_type: self.channel_type,
            thumbnail_url: match self.thumbnail_url {
                Some(url) => Some(url@),
                None => None,
            },
            duration_secs: self.duration_secs,
            plays: self.plays,
            likes: self.likes,
        }
    }
}

/// What the card of one video says, as the page has it.
#[derive(Clone, Debug)]
pub struct VideoCard {
    /// The attributes of the card's thumbnail link, names and values, in
    /// the order of the document.
    pub attrs: Vec<(String, String)>,
    /// The playing time, such as `1:02:03`; a broadcast has none.
    pub duration: Option<String>,
    /// The address of the thumbnail image.
    pub image: Option<String>,
    /// How long ago the video was posted, in words.
    pub posted_age: Option<String>,
    /// The link to the channel, such as `/channel/FE619`.
    pub channel_link: Option<String>,
    /// The number of plays, with thousands separators.
    pub plays: Option<String>,
    /// The number of likes, with thousands separators.
    pub likes: Option<String>,
}

/// The number that `s` denotes once its thousands separators are taken
/// out.
pub open spec fn number_of(s: Seq<char>) -> Option<u64> {
    parse_u64(without(s, ','))
}

/// Reads a number with thousands separators, such as `1,234,567`.
pub fn u64_from_str(s: &str) -> (r: Result<u64, FieldError>)
    ensures
        match number_of(s@) {
            Some(n) => r == Ok::<u64, FieldError>(n),
            None => r == Err::<u64, FieldError>(FieldError::InvalidNumber),
        },
{
    let chars = chars_of(s);
    let digits = remove_char(chars.as_slice(), ',');
    proof {
        assert(digits@.subrange(0, digits@.len() as int) =~= digits@);
    }
    match read_u64(digits.as_slice(), 0, digits.len()) {
        Some(n) => Ok(n),
        None => Err(FieldError::InvalidNumber),
    }
}

/// Reads a number with thousands separators for a field that may be
/// absent: a text that is there must be a number.
pub fn some_u64_from_str(s: &str) -> (r: Result<Option<u64>, FieldError>)
    ensures
        match number_of(s@) {
            Some(n) => r == Ok::<Option<u64>, FieldError>(Some(n)),
            None => r == Err::<Option<u64>, FieldError>(FieldError::InvalidNumber),
        },
{
    match u64_from_str(s) {
        Ok(n) => Ok(Some(n)),
        Err(e) => Err(e),
    }
}

/// The seconds in one unit of the part of a playing time that stands
/// `index` places from the right: seconds, minutes, hours, and days from
/// there on.
pub open spec fn unit_seconds(index: nat) -> nat {
    if index == 0 {
        1
    } else if index == 1 {
        60
    } else if index == 2 {
        3600
    } else {
        86400
    }
}

/// The index of the last colon in `s`, or -1 if it has none.
pub open spec fn last_colon(s: Seq<char>) -> int
    decreases s.len(),
{
    if s.len() == 0 {
        -1
    } else if s.last() == ':' {
        s.len() - 1
    } else {
        last_colon(s.drop_last())
    }
}

/// The seconds that the playing time `s` amounts to, where its last part
/// stands `index` places from the right. Each part between colons must be
/// a numeral.
pub open spec fn duration_seconds(s: Seq<char>, index: nat) -> Option<nat>
    decreases s.len(),
{
    let k = last_colon(s);
    match parse_u64(s.subrange(k + 1, s.len() as int)) {
        None => None,
        Some(part) => if 0 <= k < s.len() {
            match duration_seconds(s.take(k), index + 1) {
                None => None,
                Some(rest) => Some((part * unit_seconds(index) + rest) as nat),
            }
        } else {
            Some((part * unit_seconds(index)) as nat)
        },
    }
}

/// The playing time `s` in seconds, if it is one and fits.
pub open spec fn duration_of(s: Seq<char>) -> Option<u64> {
    match duration_seconds(s, 0) {
        Some(total) => if total <= u64::MAX {
            Some(total as u64)
        } else {
            None
        },
        None => None,
    }
}

/// `total` and what is still to come.
pub open spec fn plus(total: nat, rest: Option<nat>) -> Option<nat> {
    match rest {
        Some(more) => Some(total + more),
        None => None,
    }
}

proof fn lemma_last_colon_bounds(s: Seq<char>)
    ensures
        -1 <= last_colon(s) < s.len(),
        last_colon(s) >= 0 ==> s[last_colon(s)] == ':',
    decreases s.len(),
{
    if s.len() > 0 && s.last() != ':' {
        lemma_last_colon_bounds(s.drop_last());
    }
}

fn unit_of(index: usize) -> (unit: u64)
    ensures
        unit == unit_seconds(index as nat),
{
    if index == 0 {
        1
    } else if index == 1 {
        60
    } else if index == 2 {
        3600
    } else {
        86400
    }
}

/// Reads a playing time such as `3:25` or `1:02:03`, if there is one.
pub fn u64_from_duration_str(s: Option<&str>) -> (r: Result<Option<u64>, FieldError>)
    ensures
        match s {
            None => r == Ok::<Option<u64>, FieldError>(None),
            Some(text) => match duration_of(text@) {
                Some(seconds) => r == Ok::<Option<u64>, FieldError>(Some(seconds)),
                None => r == Err::<Option<u64>, FieldError>(FieldError::InvalidNumber),
            },
        },
{
    let text = match s {
        None => {
            return Ok(None);
        },
        Some(text) => text,
    };
    let chars = chars_of(text);
    let n = chars.len();
    let mut end: usize = n;
    let mut index: usize = 0;
    let mut total: u64 = 0;
    proof {
        assert(chars@.take(n as int) =~= chars@);
    }
    loop
        invariant
            s == Some(text),
            n == chars@.len(),
            chars@ == text@,
            end <= n,
            index + end <= n,
            duration_seconds(text@, 0) == plus(
                total as nat,
                duration_seconds(chars@.take(end as int), index as nat),
            ),
        decreases end,
    {
        let ghost cur = chars@.take(end as int);
        let mut k: usize = end;
        while k > 0 && chars[k - 1] != ':'
            invariant
                k <= end <= n,
                n == chars@.len(),
                cur == chars@.take(end as int),
                last_colon(cur) == last_colon(chars@.take(k as int)),
            decreases k,
        {
            proof {
                assert(chars@.take(k as int).drop_last() =~= chars@.take(k - 1));
            }
            k = k - 1;
        }
        proof {
            lemma_last_colon_bounds(cur);
            assert(last_colon(cur) == k - 1);
            assert(cur.subrange(k as int, end as int) =~= chars@.subrange(k as int, end as int));
            if k > 0 {
                assert(cur.take(k - 1) =~= chars@.take(k - 1));
            }
        }
        let part = match read_u64(chars.as_slice(), k, end) {
            Some(part) => part,
            None => {
                return Err(FieldError::InvalidNumber);
            },
        };
        let unit = unit_of(index);
        let ghost amount = part as nat * unit_seconds(index as nat);
        proof {
            assert(amount == part * unit) by (nonlinear_arith)
                requires
                    amount == part as nat * unit_seconds(index as nat),
                    unit == unit_seconds(index as nat),
            ;
        }
        let sum = match part.checked_mul(unit) {
            Some(seconds) => total.checked_add(seconds),
            None => None,
        };
        match sum {
            Some(sum) => {
                total = sum;
            },
            None => {
                return Err(FieldError::InvalidNumber);
            },
        }
        if k == 0 {
            return Ok(Some(total));
        }
        end = k - 1;
        index = index + 1;
    }
}

/// The value of the last attribute called `name`.
pub open spec fn attribute(attrs: Seq<(String, String)>, name: Seq<char>) -> Option<Seq<char>>
    decreases attrs.len(),
{
    if attrs.len() == 0 {
        None
    } else if attrs.last().0@ == name {
        Some(attrs.last().1@)
    } else {
        attribute(attrs.drop_last(), name)
    }
}

/// Looks up the last attribute called `name`.
pub fn find_attribute<'a>(attrs: &'a Vec<(String, String)>, name: &str) -> (value: Option<&'a String>)
    ensures
        match value {
            Some(text) => attribute(attrs@, name@) == Some(text@),
            None => attribute(attrs@, name@) is None,
        },
{
    let mut i = attrs.len();
    proof {
        assert(attrs@.take(i as int) =~= attrs@);
    }
    while i > 0
        invariant
            i <= attrs@.len(),
            attribute(attrs@, name@) == attribute(attrs@.take(i as int), name@),
        decreases i,
    {
        proof {
            assert(attrs@.take(i as int).drop_last() =~= attrs@.take(i - 1));
        }
        if str_eq(attrs[i - 1].0.as_str(), name) {
            return Some(&attrs[i - 1].1);
        }
        i = i - 1;
    }
    None
}

/// The kind of video that `s` names.
pub open spec fn kind_of(s: Seq<char>) -> Option<VideoType> {
    if s == "VOD"@ {
        Some(VideoType::VOD)
    } else if s == "LIVE"@ {
        Some(VideoType::LIVE)
    } else {
        None
    }
}

/// The type of channel that `s` names.
pub open spec fn channel_type_of(s: Seq<char>) -> Option<ChannelType> {
    if s == "BASIC"@ {
        Some(ChannelType::BASIC)
    } else if s == "PREMIUM"@ {
        Some(ChannelType::PREMIUM)
    } else {
        None
    }
}

/// A field that must be there.
pub open spec fn required<T>(value: Option<T>) -> Result<T, FieldError> {
    match value {
        Some(v) => Ok(v),
        None => Err(FieldError::Missing),
    }
}

/// A field that, being there, must be what `read` can read.
pub open spec fn readable<T>(value: Option<T>, error: FieldError) -> Result<T, FieldError> {
    match value {
        Some(v) => Ok(v),
        None => Err(error),
    }
}

/// A required field of the thumbnail link that holds a number.
pub open spec fn number_attribute(attrs: Seq<(String, String)>, name: Seq<char>) -> Result<u64, FieldError> {
    match attribute(attrs, name) {
        Some(text) => readable(number_of(text), FieldError::InvalidNumber),
        None => Err(FieldError::Missing),
    }
}

/// A field that may be absent and holds a number when it is there.
pub open spec fn optional_number(text: Option<String>) -> Result<Option<u64>, FieldError> {
    match text {
        Some(t) => match number_of(t@) {
            Some(n) => Ok(Some(n)),
            None => Err(FieldError::InvalidNumber),
        },
        None => Ok(None),
    }
}

/// The playing time of a card.
pub open spec fn optional_duration(text: Option<String>) -> Result<Option<u64>, FieldError> {
    match text {
        Some(t) => match duration_of(t@) {
            Some(n) => Ok(Some(n)),
            None => Err(FieldError::InvalidNumber),
        },
        None => Ok(None),
    }
}

/// The suffix by which the page asks for a small thumbnail; the address
/// without it is that of the full image.
pub const THUMBNAIL_SIZE: &'static str = "?type=f228_128_wp";

/// What precedes the channel's code in the link to the channel.
pub const CHANNEL_PATH: &'static str = "/channel/";

/// The entry that a card describes. The fields are read in the order in
/// which `RecentVideo` declares them, and the first that is missing or
/// unreadable decides the error.
pub open spec fn read_card(card: VideoCard) -> Result<RecentVideoView, FieldError> {
    let attrs = card.attrs@;
    let title = required(attribute(attrs, "data-ga-name"@));
    let video_seq = number_attribute(attrs, "data-seq"@);
    let kind = match attribute(attrs, "data-ga-type"@) {
        Some(text) => readable(kind_of(text), FieldError::UnknownVariant),
        None => Err(FieldError::Missing),
    };
    let channel_name = required(attribute(attrs, "data-ga-cname"@));
    let channel_seq = number_attribute(attrs, "data-ga-cseq"@);
    let channel_code = match card.channel_link {
        Some(link) => Ok(remove_all(link@, CHANNEL_PATH@)),
        None => Err(FieldError::Missing),
    };
    let channel_type = match attribute(attrs, "data-ga-ctype"@) {
        Some(text) => readable(channel_type_of(text), FieldError::UnknownVariant),
        None => Err(FieldError::Missing),
    };
    let thumbnail_url = match card.image {
        Some(image) => Some(trim_end(image@, THUMBNAIL_SIZE@)),
        None => None,
    };
    let duration_secs = optional_duration(card.duration);
    let plays = optional_number(card.plays);
    let likes = optional_number(card.likes);
    if title is Err {
        Err(title->Err_0)
    } else if video_seq is Err {
        Err(video_seq->Err_0)
    } else if kind is Err {
        Err(kind->Err_0)
    } else if channel_name is Err {
        Err(channel_name->Err_0)
    } else if channel_seq is Err {
        Err(channel_seq->Err_0)
    } else if channel_code is Err {
        Err(channel_code->Err_0)
    } else if channel_type is Err {
        Err(channel_type->Err_0)
    } else if duration_secs is Err {
        Err(duration_secs->Err_0)
    } else if plays is Err {
        Err(plays->Err_0)
    } else if likes is Err {
        Err(likes->Err_0)
    } else {
        Ok(
            RecentVideoView {
                title: title->Ok_0,
                video_seq: video_seq->Ok_0,
                kind: kind->Ok_0,
                channel_name: channel_name->Ok_0,
                channel_seq: channel_seq->Ok_0,
                channel_code: channel_code->Ok_0,
                channel_type: channel_type->Ok_0,
                thumbnail_url,
                duration_secs: duration_secs->Ok_0,
                plays: plays->Ok_0,
                likes: likes->Ok_0,
            },
        )
    }
}

fn read_number_attribute(attrs: &Vec<(String, String)>, name: &str) -> (r: Result<u64, FieldError>)
    ensures
        r == number_attribute(attrs@, name@),
{
    match find_attribute(attrs, name) {
        Some(text) => u64_from_str(text.as_str()),
        None => Err(FieldError::Missing),
    }
}

fn read_text_attribute(attrs: &Vec<(String, String)>, name: &str) -> (r: Result<String, FieldError>)
    ensures
        match r {
            Ok(text) => required(attribute(attrs@, name@)) == Ok::<Seq<char>, FieldError>(text@),
            Err(e) => required(attribute(attrs@, name@)) == Err::<Seq<char>, FieldError>(e),
        },
{
    match find_attribute(attrs, name) {
        Some(text) => Ok(text.clone()),
        None => Err(FieldError::Missing),
    }
}

fn read_optional_number(text: &Option<String>) -> (r: Result<Option<u64>, FieldError>)
    ensures
        r == optional_number(*text),
{
    match text {
        Some(t) => some_u64_from_str(t.as_str()),
        None => Ok(None),
    }
}

/// Reads the name of a kind of video.
pub fn kind_from_str(s: &str) -> (r: Result<VideoType, FieldError>)
    ensures
        r == readable(kind_of(s@), FieldError::UnknownVariant),
{
    if str_eq(s, "VOD") {
        Ok(VideoType::VOD)
    } else if str_eq(s, "LIVE") {
        Ok(VideoType::LIVE)
    } else {
        Err(FieldError::UnknownVariant)
    }
}

/// Reads the name of a type of channel.
pub fn channel_type_from_str(s: &str) -> (r: Result<ChannelType, FieldError>)
    ensures
        r == readable(channel_type_of(s@), FieldError::UnknownVariant),
{
    if str_eq(s, "BASIC") {
        Ok(ChannelType::BASIC)
    } else if str_eq(s, "PREMIUM") {
        Ok(ChannelType::PREMIUM)
    } else {
        Err(FieldError::UnknownVariant)
    }
}

impl RecentVideo {
    /// Reads the entry that a card describes.
    pub fn from_card(card: &VideoCard) -> (r: Result<RecentVideo, FieldError>)
        ensures
            match r {
                Ok(video) => read_card(*card) == Ok::<RecentVideoView, FieldError>(video@),
                Err(e) => read_card(*card) == Err::<RecentVideoView, FieldError>(e),
            },
    {
        let title = match read_text_attribute(&card.attrs, "data-ga-name") {
            Ok(v) => v,
            Err(e) => {
                return Err(e);
            },
        };
        let video_seq = match read_number_attribute(&card.attrs, "data-seq") {
            Ok(v) => v,
            Err(e) => {
                return Err(e);
            },
        };
        let kind = match find_attribute(&card.attrs, "data-ga-type") {
            Some(text) => match kind_from_str(text.as_str()) {
                Ok(v) => v,
                Err(e) => {
                    return Err(e);
                },
            },
            None => {
                return Err(FieldError::Missing);
            },
        };
        let channel_name = match read_text_attribute(&card.attrs, "data-ga-cname") {
            Ok(v) => v,
            Err(e) => {
                return Err(e);
            },
        };
        let channel_seq = match read_number_attribute(&card.attrs, "data-ga-cseq") {
            Ok(v) => v,
            Err(e) => {
                return Err(e);
            },
        };
        let channel_code = match &card.channel_link {
            Some(link) => remove_matches(link.as_str(), CHANNEL_PATH),
            None => {
                return Err(FieldError::Missing);
            },
        };
        let channel_type = match find_attribute(&card.attrs, "data-ga-ctype") {
            Some(text) => match channel_type_from_str(text.as_str()) {
                Ok(v) => v,
                Err(e) => {
                    return Err(e);
                },
            },
            None => {
                return Err(FieldError::Missing);
            },
        };
        let thumbnail_url = match &card.image {
            Some(image) => Some(trim_end_matches(image.as_str(), THUMBNAIL_SIZE)),
            None => None,
        };
        let duration = match &card.duration {
            Some(text) => u64_from_duration_str(Some(text.as_str())),
            None => Ok(None),
        };
        let duration_secs = match duration {
            Ok(v) => v,
            Err(e) => {
                return Err(e);
            },
        };
        let plays = match read_optional_number(&card.plays) {
            Ok(v) => v,
            Err(e) => {
                return Err(e);
            },
        };
        let likes = match read_optional_number(&card.likes) {
            Ok(v) => v,
            Err(e) => {
                return Err(e);
            },
        };
        Ok(
            RecentVideo {
                title,
                video_seq,
                kind,
                channel_name,
                channel_seq,
                channel_code,
                channel_type,
                thumbnail_url,
                duration_secs,
                plays,
                likes,
            },
        )
    }

    /// Reads the entries of a page, card by card. The first card that
    /// cannot be read fails the page.
    pub fn from_cards(cards: &Vec<VideoCard>) -> (r: Result<Vec<RecentVideo>, FieldError>)
        ensures
            match r {
                Ok(videos) => videos@.len() == cards@.len() && forall|i: int|
                    0 <= i < cards@.len() ==> read_card(cards@[i]) == Ok::<RecentVideoView, FieldError>(
                        #[trigger] videos@[i]@,
                    ),
                Err(e) => exists|i: int|
                    0 <= i < cards@.len() && #[trigger] read_card(cards@[i]) == Err::<
                        RecentVideoView,
                        FieldError,
                    >(e) && forall|j: int| 0 <= j < i ==> (#[trigger] read_card(cards@[j])) is Ok,
            },
    {
        let mut videos: Vec<RecentVideo> = Vec::new();
        let mut i: usize = 0;
        while i < cards.len()
            invariant
                i <= cards@.len(),
                videos@.len() == i,
                forall|j: int|
                    0 <= j < i ==> read_card(cards@[j]) == Ok::<RecentVideoView, FieldError>(
                        #[trigger] videos@[j]@,
                    ),
            decreases cards@.len() - i,
        {
            match RecentVideo::from_card(&cards[i]) {
                Ok(video) => {
                    videos.push(video);
                },
                Err(e) => {
                    proof {
                        assert forall|j: int| 0 <= j < i implies (#[trigger] read_card(cards@[j])) is Ok by {
                            assert(read_card(cards@[j]) == Ok::<RecentVideoView, FieldError>(videos@[j]@));
                        }
                    }
                    return Err(e);
                },
            }
            i = i + 1;
        }
        Ok(videos)
    }

    /// The address of the page of the video's channel.
    pub fn channel_url(&self) -> (url: String)
        ensures
            url@ == "https://www.vlive.tv/channel/"@ + self.channel_code@,
    {
        let mut url = String::from_str("https://www.vlive.tv/channel/");
        url.append(self.channel_code.as_str());
        url
    }

    /// The address of the video's page.
    pub fn video_url(&self) -> (url: String)
        ensures
            url@ == "https://www.vlive.tv/video/"@ + decimal(self.video_seq as nat),
    {
        let mut url = String::from_str("https://www.vlive.tv/video/");
        push_decimal(&mut url, self.video_seq);
        url
    }

    /// Text of `live_thumbnail_url`.
    pub open spec fn live_thumbnail_url_text(self) -> Seq<char> {
        "https://vlive-thumb.pstatic.net/live/"@ + decimal(self.video_seq as nat)
            + "/thumb?type=f1280_720"@
    }

    /// Returns the static thumbnail if available, otherwise the live thumbnail
    pub fn thumbnail_url(&self) -> (url: String)
        ensures
            url@ == (match self.thumbnail_url {
                Some(still) => still@,
                None => self.live_thumbnail_url_text(),
            }),
    {
        match &self.thumbnail_url {
            Some(still) => still.clone(),
            None => self.live_thumbnail_url(),
        }
    }

    /// Returns a live updating thumbnail for live streams. This also works for
    /// VODs, which displays a frame near the end of the VOD.
    pub fn live_thumbnail_url(&self) -> (url: String)
        ensures
            url@ == self.live_thumbnail_url_text(),
    {
        let mut url = String::from_str("https://vlive-thumb.pstatic.net/live/");
        push_decimal(&mut url, self.video_seq);
        // The service sends the largest image for any size it is asked for.
        url.append("/thumb?type=f1280_720");
        url
    }
}

} // verus!
