//! The resolution of a video number into playable streams, as a state
//! machine.
//!
//! A resolution fetches the video's page, takes the embedded state out of
//! it and then forks once. For a recording it exchanges the video's number
//! for an access key and asks the streaming service for the media; for a
//! broadcast it reads the live status that the page already carries. The
//! machine decides; it neither sends requests nor decodes JSON. After every
//! step it names the one piece of outside work it needs next, and it is
//! stepped again with the outcome.

use vstd::prelude::*;
use vstd::string::StrSliceExecFns;
use vstd::utf8::encode_utf8;
use crate::bridge::get_video;
use crate::bridge::get_video_data;
use crate::bridge::get_video_key;
use crate::bridge::key_headers;
use crate::bridge::Request;
use crate::endpoints::inkey_url_text;
use crate::endpoints::video_url_text;
use crate::endpoints::vod_url_text;
use crate::error::Error;
use crate::error::KeyResolutionError;
use crate::error::Step;
use crate::error::StreamResolutionError;
use crate::extract::extracted;
use crate::extract::extract_state;
use crate::extract::ExtractionError;
use crate::extract::Format;
use crate::model::video::LiveStreamInfo;
use crate::model::video::StreamDescriptor;
use crate::model::video::Video;
use crate::model::video::VideoKey;
use crate::model::video::VideoState;
use crate::model::video::VideoType;

verus! {

/// The kinds of document that a resolution handles.
#[derive(Clone, Copy, Debug, PartialEq, Eq, Structural)]
pub enum Expect {
    /// The HTML of a video page, to be handed over as it came.
    Page,
    /// JSON text to be decoded into a `VideoState`.
    State,
    /// JSON text to be decoded into a `VideoKey`.
    Key,
    /// JSON text to be decoded into a `Video`.
    Metadata,
    /// JSON text to be decoded into a `LiveStreamInfo`.
    Live,
}

/// A document, decoded as the action that asked for it expected.
#[derive(Debug)]
pub enum Payload {
    Page(Vec<u8>),
    State(VideoState),
    Key(VideoKey),
    Metadata(Video),
    Live(LiveStreamInfo),
    /// The text did not decode into what was expected.
    Undecodable,
}

/// The outcome of the outside work that the last action asked for.
#[derive(Debug)]
pub enum Event {
    /// The request was answered with `status`; `payload` is the body,
    /// decoded as expected.
    Fetched { status: u16, payload: Payload },
    /// The text was put through the decoder.
    Decoded { payload: Payload },
    /// The request got no answer. A timeout counts as this.
    TransportFailed,
}

/// The outside work that the machine needs next.
#[derive(Debug)]
pub enum Action {
    /// Send `request`, decode the body of the answer as `expect`, and step
    /// with `Event::Fetched`, or with `Event::TransportFailed`.
    Fetch { request: Request, expect: Expect },
    /// Decode `text` as `expect` and step with `Event::Decoded`.
    Decode { text: Vec<u8>, expect: Expect },
    /// Nothing: the resolution has ended.
    Stop,
}

/// The two kinds of video.
#[derive(Clone, Copy, Debug, PartialEq, Eq, Structural)]
pub enum Branch {
    Vod,
    Live,
}

/// Where a resolution stands.
#[derive(Debug)]
pub enum State {
    /// The page of the video has been asked for.
    Fetching { video_seq: u64 },
    /// The state was found in the page, in format `stage`, and is being
    /// decoded.
    Extracting { video_seq: u64, stage: Format },
    /// The video is the recording `vod_id`; its access key has been asked
    /// for.
    ResolvingKey { video_seq: u64, vod_id: String },
    /// The media descriptor is on its way: from the streaming service for
    /// a recording, from the decoder for a broadcast.
    Assembling { branch: Branch },
    /// The resolution has succeeded.
    Done(StreamDescriptor),
    /// The resolution has failed.
    Failed(Error),
}

/// The fork: a state that holds the identifier of a recording belongs to
/// a recording, any other to a broadcast. Nothing else is consulted, not
/// even what kind the video says it is. A state without the post's details
/// belongs to neither.
pub open spec fn branch_of(video: VideoState) -> Option<Branch> {
    match video.post_detail.detail() {
        Some(detail) => if detail.official_video.vod_id is Some {
            Some(Branch::Vod)
        } else {
            Some(Branch::Live)
        },
        None => None,
    }
}

/// `status` is one of the success codes of HTTP.
pub open spec fn is_success(status: u16) -> bool {
    200 <= status <= 299
}

/// The machine has failed with `error` and asks for nothing more.
pub open spec fn stops_with(next: State, action: Action, error: Error) -> bool {
    next == State::Failed(error) && action is Stop
}

/// `action` asks for the access key of video `video_seq`, with the headers
/// that the key service insists on.
pub open spec fn is_key_fetch(action: Action, video_seq: u64) -> bool {
    action matches Action::Fetch { request, expect } && expect == Expect::Key && request@ == (
        inkey_url_text(video_seq),
        Seq::<(Seq<char>, Seq<char>)>::empty(),
        key_headers(video_seq),
    )
}

/// `action` asks for the media of the recording `vod_id`, opened by `key`.
pub open spec fn is_metadata_fetch(action: Action, vod_id: Seq<char>, key: Seq<char>) -> bool {
    action matches Action::Fetch { request, expect } && expect == Expect::Metadata && request@ == (
        vod_url_text(vod_id, key),
        Seq::<(Seq<char>, Seq<char>)>::empty(),
        Seq::<(Seq<char>, Seq<char>)>::empty(),
    )
}

/// `action` asks for the page of video `video_seq`.
pub open spec fn is_page_fetch(action: Action, video_seq: u64) -> bool {
    action matches Action::Fetch { request, expect } && expect == Expect::Page && request@ == (
        video_url_text(video_seq),
        Seq::<(Seq<char>, Seq<char>)>::empty(),
        Seq::<(Seq<char>, Seq<char>)>::empty(),
    )
}

/// `action` asks for `text` to be decoded as `expect`.
pub open spec fn is_decode(action: Action, text: Seq<u8>, expect: Expect) -> bool {
    action matches Action::Decode { text: t, expect: e } && e == expect && t@ == text
}

/// What follows the answer to the page request. A page that arrived with
/// a success status is searched for the state, which is then sent to the
/// decoder; anything else is a transport failure.
pub open spec fn after_page(video_seq: u64, event: Event, next: State, action: Action) -> bool {
    match event {
        Event::Fetched { status, payload: Payload::Page(body) } => if is_success(status) {
            match extracted(body@) {
                Ok((text, format)) => {
                    &&& next == State::Extracting { video_seq, stage: format }
                    &&& is_decode(action, text, Expect::State)
                },
                Err(error) => stops_with(next, action, Error::Extraction(error)),
            }
        } else {
            stops_with(next, action, Error::Transport { step: Step::PageFetch })
        },
        _ => stops_with(next, action, Error::Transport { step: Step::PageFetch }),
    }
}

/// What follows the decoding of the state: the fork. The presence of a
/// recording's identifier alone decides. With one, the access key is asked
/// for. Without one the video is a broadcast: its live status goes to the
/// decoder, and if the page carries none, the broadcast is not on air. A
/// state that did not decode, or that lacks the post's details, is
/// malformed.
pub open spec fn after_state(
    video_seq: u64,
    stage: Format,
    event: Event,
    next: State,
    action: Action,
) -> bool {
    let malformed = Error::Extraction(ExtractionError::MalformedState { stage });
    match event {
        Event::Decoded { payload: Payload::State(state) } => match state.post_detail.detail() {
            Some(detail) => match detail.official_video.vod_id {
                Some(vod_id) => {
                    &&& next == State::ResolvingKey { video_seq, vod_id }
                    &&& is_key_fetch(action, video_seq)
                },
                None => match detail.official_video.live_stream_info {
                    Some(status) => {
                        &&& next == State::Assembling { branch: Branch::Live }
                        &&& is_decode(action, encode_utf8(status@), Expect::Live)
                    },
                    None => stops_with(
                        next,
                        action,
                        Error::StreamResolution(StreamResolutionError::NotCurrentlyLive),
                    ),
                },
            },
            None => stops_with(next, action, malformed),
        },
        _ => stops_with(next, action, malformed),
    }
}

/// What follows the answer to the key request. A key that arrived with a
/// success status opens the request to the streaming service. An error
/// status, or a body that is no key, is a failure of key resolution and
/// not of the transport.
pub open spec fn after_key(video_seq: u64, vod_id: String, event: Event, next: State, action: Action) -> bool {
    match event {
        Event::TransportFailed => stops_with(
            next,
            action,
            Error::Transport { step: Step::KeyResolution },
        ),
        Event::Fetched { status, payload } => if is_success(status) {
            match payload {
                Payload::Key(key) => {
                    &&& next == State::Assembling { branch: Branch::Vod }
                    &&& is_metadata_fetch(action, vod_id@, key.inkey@)
                },
                _ => stops_with(next, action, Error::KeyResolution(KeyResolutionError::MalformedBody)),
            }
        } else {
            stops_with(next, action, Error::KeyResolution(KeyResolutionError::Rejected { status }))
        },
        Event::Decoded { .. } => stops_with(
            next,
            action,
            Error::KeyResolution(KeyResolutionError::MalformedBody),
        ),
    }
}

/// What follows the answer of the streaming service. A descriptor that
/// arrived with a success status and offers something to play ends the
/// resolution.
pub open spec fn after_metadata(event: Event, next: State, action: Action) -> bool {
    let malformed = Error::StreamResolution(StreamResolutionError::MetadataMalformed);
    match event {
        Event::TransportFailed => stops_with(
            next,
            action,
            Error::Transport { step: Step::StreamMetadata },
        ),
        Event::Fetched { status, payload: Payload::Metadata(video) } => if is_success(status)
            && video.has_media() {
            next == State::Done(StreamDescriptor::Vod(video)) && action is Stop
        } else {
            stops_with(next, action, malformed)
        },
        _ => stops_with(next, action, malformed),
    }
}

/// What follows the decoding of a broadcast's live status.
pub open spec fn after_live(event: Event, next: State, action: Action) -> bool {
    match event {
        Event::Decoded { payload: Payload::Live(info) } => {
            next == State::Done(StreamDescriptor::Live(info)) && action is Stop
        },
        _ => stops_with(
            next,
            action,
            Error::StreamResolution(StreamResolutionError::MetadataMalformed),
        ),
    }
}

/// The machine's transitions: in `state`, `event` leads to `next` and asks
/// for `action`. An ended resolution stays as it is.
pub open spec fn transition(state: State, event: Event, next: State, action: Action) -> bool {
    match state {
        State::Fetching { video_seq } => after_page(video_seq, event, next, action),
        State::Extracting { video_seq, stage } => after_state(video_seq, stage, event, next, action),
        State::ResolvingKey { video_seq, vod_id } => after_key(video_seq, vod_id, event, next, action),
        State::Assembling { branch: Branch::Vod } => after_metadata(event, next, action),
        State::Assembling { branch: Branch::Live } => after_live(event, next, action),
        State::Done(_) => next == state && action is Stop,
        State::Failed(_) => next == state && action is Stop,
    }
}

/// Checks a status against the success codes of HTTP.
pub fn status_ok(status: u16) -> (ok: bool)
    ensures
        ok == is_success(status),
{
    200 <= status && status <= 299
}

fn fail(error: Error) -> (r: (State, Action))
    ensures
        stops_with(r.0, r.1, error),
{
    (State::Failed(error), Action::Stop)
}

/// Begins the resolution of video `video_seq`: asks for its page.
pub fn start(video_seq: u64) -> (r: (State, Action))
    ensures
        r.0 == (State::Fetching { video_seq }),
        is_page_fetch(r.1, video_seq),
        r.0.wf(),
{
    (State::Fetching { video_seq }, Action::Fetch { request: get_video(video_seq), expect: Expect::Page })
}

fn page_fetched(video_seq: u64, event: Event) -> (r: (State, Action))
    ensures
        after_page(video_seq, event, r.0, r.1),
{
    match event {
        Event::Fetched { status, payload: Payload::Page(body) } => {
            if !status_ok(status) {
                return fail(Error::Transport { step: Step::PageFetch });
            }
            match extract_state(body.as_slice()) {
                Ok((text, stage)) => (
                    State::Extracting { video_seq, stage },
                    Action::Decode { text, expect: Expect::State },
                ),
                Err(error) => fail(Error::Extraction(error)),
            }
        },
        _ => fail(Error::Transport { step: Step::PageFetch }),
    }
}

fn state_decoded(video_seq: u64, stage: Format, event: Event) -> (r: (State, Action))
    ensures
        after_state(video_seq, stage, event, r.0, r.1),
{
    let malformed = Error::Extraction(ExtractionError::MalformedState { stage });
    match event {
        Event::Decoded { payload: Payload::State(state) } => match state.post_detail.get_detail() {
            Some(detail) => match &detail.official_video.vod_id {
                Some(id) => {
                    let vod_id = id.clone();
                    (
                        State::ResolvingKey { video_seq, vod_id },
                        Action::Fetch { request: get_video_key(video_seq), expect: Expect::Key },
                    )
                },
                None => match &detail.official_video.live_stream_info {
                    Some(status) => {
                        let text = status.as_str().as_bytes_vec();
                        (
                            State::Assembling { branch: Branch::Live },
                            Action::Decode { text, expect: Expect::Live },
                        )
                    },
                    None => fail(Error::StreamResolution(StreamResolutionError::NotCurrentlyLive)),
                },
            },
            None => fail(malformed),
        },
        _ => fail(malformed),
    }
}

fn key_fetched(video_seq: u64, vod_id: String, event: Event) -> (r: (State, Action))
    ensures
        after_key(video_seq, vod_id, event, r.0, r.1),
{
    match event {
        Event::TransportFailed => fail(Error::Transport { step: Step::KeyResolution }),
        Event::Fetched { status, payload } => {
            if !status_ok(status) {
                return fail(Error::KeyResolution(KeyResolutionError::Rejected { status }));
            }
            match payload {
                Payload::Key(key) => (
                    State::Assembling { branch: Branch::Vod },
                    Action::Fetch {
                        request: get_video_data(vod_id.as_str(), key.inkey.as_str()),
                        expect: Expect::Metadata,
                    },
                ),
                _ => fail(Error::KeyResolution(KeyResolutionError::MalformedBody)),
            }
        },
        Event::Decoded { .. } => fail(Error::KeyResolution(KeyResolutionError::MalformedBody)),
    }
}

fn metadata_fetched(event: Event) -> (r: (State, Action))
    ensures
        after_metadata(event, r.0, r.1),
{
    let malformed = Error::StreamResolution(StreamResolutionError::MetadataMalformed);
    match event {
        Event::TransportFailed => fail(Error::Transport { step: Step::StreamMetadata }),
        Event::Fetched { status, payload: Payload::Metadata(video) } => {
            if status_ok(status) && video.is_playable() {
                (State::Done(StreamDescriptor::Vod(video)), Action::Stop)
            } else {
                fail(malformed)
            }
        },
        _ => fail(malformed),
    }
}

fn live_decoded(event: Event) -> (r: (State, Action))
    ensures
        after_live(event, r.0, r.1),
{
    match event {
        Event::Decoded { payload: Payload::Live(info) } => (
            State::Done(StreamDescriptor::Live(info)),
            Action::Stop,
        ),
        _ => fail(Error::StreamResolution(StreamResolutionError::MetadataMalformed)),
    }
}

/// Takes the machine one step: from `state`, on `event`, to the next state
/// and the next piece of outside work.
pub fn step(state: State, event: Event) -> (r: (State, Action))
    ensures
        transition(state, event, r.0, r.1),
        state.wf() ==> r.0.wf(),
{
    match state {
        State::Fetching { video_seq } => page_fetched(video_seq, event),
        State::Extracting { video_seq, stage } => state_decoded(video_seq, stage, event),
        State::ResolvingKey { video_seq, vod_id } => key_fetched(video_seq, vod_id, event),
        State::Assembling { branch: Branch::Vod } => metadata_fetched(event),
        State::Assembling { branch: Branch::Live } => live_decoded(event),
        State::Done(descriptor) => (State::Done(descriptor), Action::Stop),
        State::Failed(error) => (State::Failed(error), Action::Stop),
    }
}

impl State {
    /// The resolution has ended, well or badly.
    pub open spec fn is_terminal(self) -> bool {
        self is Done || self is Failed
    }

    /// How far the resolution has come. The states are passed in this
    /// order and none is entered twice.
    pub open spec fn rank(self) -> nat {
        match self {
            State::Fetching { .. } => 0,
            State::Extracting { .. } => 1,
            State::ResolvingKey { .. } => 2,
            State::Assembling { .. } => 3,
            State::Done(_) => 4,
            State::Failed(_) => 4,
        }
    }

    /// A resolution that succeeded for a recording offers something to
    /// play.
    pub open spec fn wf(self) -> bool {
        self matches State::Done(StreamDescriptor::Vod(video)) ==> video.has_media()
    }

    /// Computes `is_terminal`.
    pub fn has_ended(&self) -> (ended: bool)
        ensures
            ended == self.is_terminal(),
    {
        match self {
            State::Done(_) => true,
            State::Failed(_) => true,
            _ => false,
        }
    }

    /// The result of a resolution that has ended; `None` while it is under
    /// way.
    pub fn into_result(self) -> (r: Option<core::result::Result<StreamDescriptor, Error>>)
        ensures
            match self {
                State::Done(descriptor) => r == Some(Ok::<StreamDescriptor, Error>(descriptor)),
                State::Failed(error) => r == Some(Err::<StreamDescriptor, Error>(error)),
                _ => r is None,
            },
    {
        match self {
            State::Done(descriptor) => Some(Ok(descriptor)),
            State::Failed(error) => Some(Err(error)),
            _ => None,
        }
    }
}

/// `action` asks the key service for an access key.
pub open spec fn asks_for_key(action: Action) -> bool {
    action matches Action::Fetch { expect, .. } && expect == Expect::Key
}

/// Event `i` leads from state `i` to state `i + 1` and to action `i + 1`.
pub open spec fn step_at(states: Seq<State>, events: Seq<Event>, actions: Seq<Action>, i: int) -> bool {
    transition(states[i], events[i], states[i + 1], actions[i + 1])
}

/// A resolution from its first state on: `states[0]` is the state after
/// `start`, `actions[0]` the page request, and every event leads from one
/// state to the next and to the next action.
pub open spec fn is_run(video_seq: u64, states: Seq<State>, events: Seq<Event>, actions: Seq<Action>) -> bool {
    &&& states.len() == events.len() + 1
    &&& actions.len() == states.len()
    &&& states[0] == State::Fetching { video_seq }
    &&& is_page_fetch(actions[0], video_seq)
    &&& forall|i: int| 0 <= i < events.len() ==> #[trigger] step_at(states, events, actions, i)
}

/// Every step of a resolution that has not ended leads to a later state:
/// no stage is repeated and none is gone back to. An ended resolution
/// stays where it is and asks for nothing.
pub proof fn lemma_step_advances(state: State, event: Event, next: State, action: Action)
    requires
        transition(state, event, next, action),
    ensures
        !state.is_terminal() ==> next.rank() > state.rank(),
        state.is_terminal() ==> next == state && action is Stop,
        next.is_terminal() <==> action is Stop,
{
}

/// For a video that is what it says it is, the fork follows its kind: a
/// recording goes one way, a broadcast the other.
pub proof fn lemma_branch_agrees_with_kind(video: VideoState)
    requires
        video.post_detail.detail() matches Some(detail) && detail.official_video.wf(),
    ensures
        branch_of(video) == Some(
            if video.post_detail.detail()->0.official_video.kind == VideoType::VOD {
                Branch::Vod
            } else {
                Branch::Live
            },
        ),
{
}

/// After the fork the machine is on the branch that `branch_of` names, or
/// it has failed because the broadcast is off air.
pub proof fn lemma_fork_follows_branch(
    video_seq: u64,
    stage: Format,
    video: VideoState,
    next: State,
    action: Action,
)
    requires
        transition(
            State::Extracting { video_seq, stage },
            Event::Decoded { payload: Payload::State(video) },
            next,
            action,
        ),
    ensures
        match branch_of(video) {
            Some(Branch::Vod) => next is ResolvingKey && is_key_fetch(action, video_seq),
            Some(Branch::Live) => !asks_for_key(action) && (next == (State::Assembling {
                branch: Branch::Live,
            }) || next == State::Failed(
                Error::StreamResolution(StreamResolutionError::NotCurrentlyLive),
            )),
            None => next == State::Failed(
                Error::Extraction(ExtractionError::MalformedState { stage }),
            ),
        },
{
}

/// The key service is asked only at the fork, and only for a video whose
/// state holds the identifier of a recording. For a video without one, no
/// step asks for a key.
pub proof fn lemma_key_only_for_recordings(state: State, event: Event, next: State, action: Action)
    requires
        transition(state, event, next, action),
        asks_for_key(action),
    ensures
        state is Extracting,
        event matches Event::Decoded { payload: Payload::State(video) } && video.vod_id() is Some,
        is_key_fetch(action, state->Extracting_video_seq),
        action->Fetch_request.has_header("Referer"@, video_url_text(state->Extracting_video_seq)),
        action->Fetch_request.has_header("User-Agent"@, crate::bridge::USER_AGENT@),
{
    let request = action->Fetch_request;
    let video_seq = state->Extracting_video_seq;
    assert(crate::bridge::pairs(request.headers@) == key_headers(video_seq));
    assert(crate::bridge::pairs(request.headers@)[0] == (request.headers@[0].name@, request.headers@[0].value@));
    assert(crate::bridge::pairs(request.headers@)[1] == (request.headers@[1].name@, request.headers@[1].value@));
    assert(request.headers@[0].name@ == "Referer"@);
    assert(request.headers@[1].name@ == "User-Agent"@);
}

/// A broadcast whose page carries no live status is not on air: the
/// resolution ends with `NotCurrentlyLive`, and never with a malformed
/// state.
pub proof fn lemma_off_air_is_not_live(
    video_seq: u64,
    stage: Format,
    video: VideoState,
    next: State,
    action: Action,
)
    requires
        video.post_detail.detail() is Some,
        video.vod_id() is None,
        video.live_stream_info() is None,
        transition(
            State::Extracting { video_seq, stage },
            Event::Decoded { payload: Payload::State(video) },
            next,
            action,
        ),
    ensures
        next == State::Failed(Error::StreamResolution(StreamResolutionError::NotCurrentlyLive)),
        action is Stop,
{
}

/// A key service that answers with an error status, as it does to a
/// request without referer, fails the key resolution; the failure is not
/// reported as one of the transport.
pub proof fn lemma_rejected_key_is_key_failure(
    video_seq: u64,
    vod_id: String,
    status: u16,
    payload: Payload,
    next: State,
    action: Action,
)
    requires
        !is_success(status),
        transition(
            State::ResolvingKey { video_seq, vod_id },
            Event::Fetched { status, payload },
            next,
            action,
        ),
    ensures
        next == State::Failed(Error::KeyResolution(KeyResolutionError::Rejected { status })),
        action is Stop,
{
}

/// The stages come in one order. After `i` events a resolution that is
/// still under way stands where that order puts it: fetching the page,
/// then extracting, then resolving the key or assembling a broadcast, then
/// assembling a recording. After four events it has ended.
pub proof fn lemma_run_is_linear(
    video_seq: u64,
    states: Seq<State>,
    events: Seq<Event>,
    actions: Seq<Action>,
    i: int,
)
    requires
        is_run(video_seq, states, events, actions),
        0 <= i < states.len(),
    ensures
        states[i].is_terminal() || match states[i] {
            State::Fetching { .. } => i == 0,
            State::Extracting { .. } => i == 1,
            State::ResolvingKey { .. } => i == 2,
            State::Assembling { branch: Branch::Live } => i == 2,
            State::Assembling { branch: Branch::Vod } => i == 3,
            _ => false,
        },
        i >= 4 ==> states[i].is_terminal() && actions[i] is Stop,
    decreases i,
{
    if i > 0 {
        lemma_run_is_linear(video_seq, states, events, actions, i - 1);
        assert(step_at(states, events, actions, i - 1));
        lemma_step_advances(states[i - 1], events[i - 1], states[i], actions[i]);
    }
}

/// A resolution sends at most three requests, each resting on the answer
/// to the one before: first for the page, then for the key, then for the
/// media. What it asks for in between is decoding.
pub proof fn lemma_run_requests(
    video_seq: u64,
    states: Seq<State>,
    events: Seq<Event>,
    actions: Seq<Action>,
    i: int,
)
    requires
        is_run(video_seq, states, events, actions),
        0 <= i < actions.len(),
        actions[i] is Fetch,
    ensures
        match actions[i]->Fetch_expect {
            Expect::Page => i == 0,
            Expect::Key => i == 2,
            Expect::Metadata => i == 3,
            _ => false,
        },
{
    if i > 0 {
        lemma_run_is_linear(video_seq, states, events, actions, i - 1);
        assert(step_at(states, events, actions, i - 1));
    }
}

/// Whenever a resolution ends well for a recording, its descriptor offers
/// a progressive download or an adaptive stream: never neither.
pub proof fn lemma_done_has_media(
    video_seq: u64,
    states: Seq<State>,
    events: Seq<Event>,
    actions: Seq<Action>,
    i: int,
)
    requires
        is_run(video_seq, states, events, actions),
        0 <= i < states.len(),
    ensures
        states[i] matches State::Done(StreamDescriptor::Vod(video)) ==> video.has_media(),
    decreases i,
{
    if i > 0 {
        lemma_done_has_media(video_seq, states, events, actions, i - 1);
        assert(step_at(states, events, actions, i - 1));
    }
}

/// In the resolution of a video whose state holds no identifier of a
/// recording, the key service is never asked.
pub proof fn lemma_live_run_never_asks_for_key(
    video_seq: u64,
    states: Seq<State>,
    events: Seq<Event>,
    actions: Seq<Action>,
    i: int,
)
    requires
        is_run(video_seq, states, events, actions),
        forall|j: int|
            0 <= j < events.len() ==> (#[trigger] events[j] matches Event::Decoded {
                payload: Payload::State(video),
            } ==> video.vod_id() is None),
        0 <= i < actions.len(),
    ensures
        !asks_for_key(actions[i]),
{
    if i > 0 && asks_for_key(actions[i]) {
        assert(step_at(states, events, actions, i - 1));
        lemma_key_only_for_recordings(states[i - 1], events[i - 1], states[i], actions[i]);
    }
}

} // verus!
