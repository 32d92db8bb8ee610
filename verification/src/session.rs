//! One run through the API: authenticate, choose the location, take in its state, and listen.
//!
//! A [`Session`] says what to do next as an [`Action`]. Whoever does it reports back with an
//! [`Event`], and [`Session::step`] tells how to go on.
use crate::clock::{monotonic_now, now_timestamp};
use crate::config::RuntimeConfig;
use crate::http::{
    grant, locations_request, settle, snapshot_request, token_request, token_url,
    websocket_request, ApiRequest, Endpoint, Exchange, Failure, Outcome,
};
use crate::json::string_attr;
use crate::location::{
    location_summaries, select_location, LocationListResponse, LocationSummary,
};
use crate::state::{ExporterState, JsonApiResource, SnapshotResponse, WebSocketCreatedResponse};
use crate::text::to_decimal;
use crate::token::{ActiveToken, TokenResponse};
use crate::valves::{valve_summaries, ValveSummary};
use std::time::Instant;
use vstd::prelude::*;

verus! {

use crate::config::ConfigView;
use crate::http::{
    granted, locations_request_of, settled, snapshot_request_of, token_request_of, token_url_of,
    websocket_request_of, ApiRequestView, ExchangeView, FailureView, OutcomeView,
};
use crate::json::text_at;
use crate::location::{listed, places, selection, LocationResourceView, LocationView};
use crate::state::{
    resource_keeps_consistency, resource_touches_one_device, snapshot_keeps_consistency,
    snapshot_leaves_counts, ResourceView, SnapshotView, StateView,
};
use crate::text::decimal;
use crate::token::{ActiveTokenView, TokenView};
use crate::valves::{all_valves, summaries, ValveSummaryView};

/// What a session is for.
#[derive(Clone, Copy, Debug, PartialEq, Eq, Structural)]
pub enum Mode {
    /// To keep the cache up to date.
    Sync,
    /// To see whether the exporter could run.
    Validate,
    /// To list the locations.
    Locations,
    /// To list the valves of a location.
    Valves,
}

/// What is asked of the API, for the location where one has been chosen.
#[derive(Debug)]
pub enum Stage {
    Locations,
    Snapshot(LocationSummary),
    WebSocket(LocationSummary),
    /// Another snapshot, while listening.
    Reconcile(LocationSummary),
}

/// What a [`Stage`] says.
pub ghost enum StageView {
    Locations,
    Snapshot(LocationView),
    WebSocket(LocationView),
    Reconcile(LocationView),
}

impl View for Stage {
    type V = StageView;

    open spec fn view(&self) -> StageView {
        match self {
            Stage::Locations => StageView::Locations,
            Stage::Snapshot(location) => StageView::Snapshot(location@),
            Stage::WebSocket(location) => StageView::WebSocket(location@),
            Stage::Reconcile(location) => StageView::Reconcile(location@),
        }
    }
}

/// Where a session stands. `retried` says that the token was renewed because the API did not
/// accept it at this stage.
#[derive(Debug)]
enum Phase {
    /// Waits for the first token.
    Authenticate,
    /// Waits for another token, to go on at the stage.
    Renew { stage: Stage, retried: bool },
    /// Waits for what was asked.
    Request { stage: Stage, retried: bool, token: ActiveToken },
    /// Waits for the websocket.
    Connect { url: String, location: LocationSummary, token: ActiveToken },
    /// Waits for what comes over the websocket, and for the next snapshot to be due.
    Listen { location: LocationSummary, token: ActiveToken },
    Ended,
}

/// What a [`Session`] says of where it stands.
pub ghost enum PhaseView {
    Authenticate,
    Renew { stage: StageView, retried: bool },
    Request { stage: StageView, retried: bool, token: ActiveTokenView },
    Connect { url: Seq<char>, location: LocationView, token: ActiveTokenView },
    Listen { location: LocationView, token: ActiveTokenView },
    Ended,
}

/// One run through the API.
#[derive(Debug)]
pub struct Session {
    mode: Mode,
    phase: Phase,
}

/// What a [`Session`] says.
pub ghost struct SessionView {
    pub mode: Mode,
    pub phase: PhaseView,
}

impl View for Session {
    type V = SessionView;

    closed spec fn view(&self) -> SessionView {
        SessionView {
            mode: self.mode,
            phase: match self.phase {
                Phase::Authenticate => PhaseView::Authenticate,
                Phase::Renew { stage, retried } => PhaseView::Renew { stage: stage@, retried },
                Phase::Request { stage, retried, token } => PhaseView::Request {
                    stage: stage@,
                    retried,
                    token: token@,
                },
                Phase::Connect { url, location, token } => PhaseView::Connect {
                    url: url@,
                    location: location@,
                    token: token@,
                },
                Phase::Listen { location, token } => PhaseView::Listen {
                    location: location@,
                    token: token@,
                },
                Phase::Ended => PhaseView::Ended,
            },
        }
    }
}

/// How a websocket was closed.
#[derive(Debug)]
pub struct CloseFrame {
    pub code: u16,
    pub reason: String,
}

/// What a [`CloseFrame`] says.
pub ghost struct CloseFrameView {
    pub code: u16,
    pub reason: Seq<char>,
}

impl View for CloseFrame {
    type V = CloseFrameView;

    open spec fn view(&self) -> CloseFrameView {
        CloseFrameView { code: self.code, reason: self.reason@ }
    }
}

/// What happened outside.
#[derive(Debug)]
pub enum Event {
    Token(Exchange<TokenResponse>),
    Locations(Exchange<LocationListResponse>),
    Snapshot(Exchange<SnapshotResponse>),
    WebSocket(Exchange<WebSocketCreatedResponse>),
    Connected,
    NotConnected { cause: String },
    /// The next snapshot is due.
    Tick,
    /// A text message came over the websocket, which is a resource or, for some cause, not.
    Message(Result<JsonApiResource, String>),
    /// A message came over the websocket that says nothing of the garden.
    OtherMessage,
    Closed(Option<CloseFrame>),
    StreamError { cause: String },
    StreamEnded,
}

/// What an [`Event`] says.
pub ghost enum EventView {
    Token(ExchangeView<TokenView>),
    Locations(ExchangeView<Seq<LocationResourceView>>),
    Snapshot(ExchangeView<SnapshotView>),
    WebSocket(ExchangeView<ResourceView>),
    Connected,
    NotConnected { cause: Seq<char> },
    Tick,
    Message(Result<ResourceView, Seq<char>>),
    OtherMessage,
    Closed(Option<CloseFrameView>),
    StreamError { cause: Seq<char> },
    StreamEnded,
}

impl View for Event {
    type V = EventView;

    open spec fn view(&self) -> EventView {
        match self {
            Event::Token(exchange) => EventView::Token(exchange@),
            Event::Locations(exchange) => EventView::Locations(exchange@),
            Event::Snapshot(exchange) => EventView::Snapshot(exchange@),
            Event::WebSocket(exchange) => EventView::WebSocket(exchange@),
            Event::Connected => EventView::Connected,
            Event::NotConnected { cause } => EventView::NotConnected { cause: cause@ },
            Event::Tick => EventView::Tick,
            Event::Message(message) => EventView::Message(
                match message {
                    Ok(resource) => Ok(resource@),
                    Err(cause) => Err(cause@),
                },
            ),
            Event::OtherMessage => EventView::OtherMessage,
            Event::Closed(frame) => EventView::Closed(
                match frame {
                    Some(frame) => Some(frame@),
                    None => None,
                },
            ),
            Event::StreamError { cause } => EventView::StreamError { cause: cause@ },
            Event::StreamEnded => EventView::StreamEnded,
        }
    }
}

/// What a session was for, once it is over.
#[derive(Debug)]
pub enum Report {
    /// The exporter could run on this location.
    Validated(LocationSummary),
    Locations(Vec<LocationSummary>),
    Valves(Vec<ValveSummary>),
}

/// What a [`Report`] says.
pub ghost enum ReportView {
    Validated(LocationView),
    Locations(Seq<LocationView>),
    Valves(Seq<ValveSummaryView>),
}

impl View for Report {
    type V = ReportView;

    open spec fn view(&self) -> ReportView {
        match self {
            Report::Validated(location) => ReportView::Validated(location@),
            Report::Locations(locations) => ReportView::Locations(places(locations@)),
            Report::Valves(valves) => ReportView::Valves(summaries(valves@)),
        }
    }
}

/// What has to be done next.
#[derive(Debug)]
pub enum Action {
    Send { endpoint: Endpoint, request: ApiRequest },
    Connect { url: String },
    /// Wait for the websocket, and for the next snapshot to be due.
    Listen,
    Finish(Report),
    Abort(Failure),
    /// The session is over.
    Rest,
}

/// What an [`Action`] says.
pub ghost enum ActionView {
    Send { endpoint: Endpoint, request: ApiRequestView },
    Connect { url: Seq<char> },
    Listen,
    Finish(ReportView),
    Abort(FailureView),
    Rest,
}

impl View for Action {
    type V = ActionView;

    open spec fn view(&self) -> ActionView {
        match self {
            Action::Send { endpoint, request } => ActionView::Send {
                endpoint: *endpoint,
                request: request@,
            },
            Action::Connect { url } => ActionView::Connect { url: url@ },
            Action::Listen => ActionView::Listen,
            Action::Finish(report) => ActionView::Finish(report@),
            Action::Abort(failure) => ActionView::Abort(failure@),
            Action::Rest => ActionView::Rest,
        }
    }
}

impl StageView {
    /// The part of the API that is asked.
    pub open spec fn endpoint(self) -> Endpoint {
        match self {
            StageView::Locations => Endpoint::Locations,
            StageView::WebSocket(_) => Endpoint::WebSocket,
            StageView::Snapshot(_) | StageView::Reconcile(_) => Endpoint::Snapshot,
        }
    }

    /// What is asked, in words.
    pub open spec fn words(self) -> Seq<char> {
        match self {
            StageView::Locations => "listing locations"@,
            StageView::WebSocket(_) => "websocket bootstrap"@,
            StageView::Snapshot(_) | StageView::Reconcile(_) => "snapshot"@,
        }
    }

    /// What is asked.
    pub open spec fn request(self, config: ConfigView, secret: Seq<char>) -> ApiRequestView {
        match self {
            StageView::Locations => locations_request_of(config.auth, secret),
            StageView::WebSocket(location) => websocket_request_of(
                config.auth,
                config.api_url,
                secret,
                location.id,
            ),
            StageView::Snapshot(location) | StageView::Reconcile(location) => snapshot_request_of(
                config.auth,
                config.api_url,
                secret,
                location.id,
            ),
        }
    }
}

impl Stage {
    fn endpoint(&self) -> (endpoint: Endpoint)
        ensures
            endpoint == self@.endpoint(),
    {
        match self {
            Stage::Locations => Endpoint::Locations,
            Stage::WebSocket(_) => Endpoint::WebSocket,
            Stage::Snapshot(_) | Stage::Reconcile(_) => Endpoint::Snapshot,
        }
    }

    fn words(&self) -> (words: &'static str)
        ensures
            words@ == self@.words(),
    {
        match self {
            Stage::Locations => "listing locations",
            Stage::WebSocket(_) => "websocket bootstrap",
            Stage::Snapshot(_) | Stage::Reconcile(_) => "snapshot",
        }
    }

    fn request(&self, config: &RuntimeConfig, access_token: &str) -> (request: ApiRequest)
        ensures
            request@ == self@.request(config@, access_token@),
    {
        match self {
            Stage::Locations => locations_request(&config.auth, access_token),
            Stage::WebSocket(location) => websocket_request(
                &config.auth,
                config.api_url.as_str(),
                access_token,
                location.id.as_str(),
            ),
            Stage::Snapshot(location) | Stage::Reconcile(location) => snapshot_request(
                &config.auth,
                config.api_url.as_str(),
                access_token,
                location.id.as_str(),
            ),
        }
    }
}

impl Mode {
    /// Whether the age of the token is looked at before this stage.
    pub open spec fn minds_age(self, stage: StageView) -> bool {
        match self {
            Mode::Sync => true,
            Mode::Validate => stage is WebSocket,
            Mode::Locations | Mode::Valves => false,
        }
    }

    /// Whether the exporter counts what the session does.
    pub open spec fn counts(self) -> bool {
        self == Mode::Sync || self == Mode::Validate
    }

    /// What is said of a request that was not authorized.
    pub open spec fn unauthorized_words(self) -> Seq<char> {
        match self {
            Mode::Sync => " still returned unauthorized after refreshing token"@,
            Mode::Validate => " unexpectedly returned unauthorized during startup validation"@,
            Mode::Locations | Mode::Valves => " unexpectedly returned unauthorized"@,
        }
    }

    fn checks_age(&self, stage: &Stage) -> (minds: bool)
        ensures
            minds == self.minds_age(stage@),
    {
        match self {
            Mode::Sync => true,
            Mode::Validate => match stage {
                Stage::WebSocket(_) => true,
                _ => false,
            },
            Mode::Locations | Mode::Valves => false,
        }
    }

    fn unauthorized(&self) -> (words: &'static str)
        ensures
            words@ == self.unauthorized_words(),
    {
        match self {
            Mode::Sync => " still returned unauthorized after refreshing token",
            Mode::Validate => " unexpectedly returned unauthorized during startup validation",
            Mode::Locations | Mode::Valves => " unexpectedly returned unauthorized",
        }
    }
}

impl SessionView {
    /// A session before anything was asked.
    pub open spec fn starting(mode: Mode) -> SessionView {
        SessionView { mode, phase: PhaseView::Authenticate }
    }

    /// What the session waits to be done.
    pub open spec fn pending(self, config: ConfigView) -> ActionView {
        match self.phase {
            PhaseView::Authenticate | PhaseView::Renew { .. } => ActionView::Send {
                endpoint: Endpoint::Token,
                request: token_request_of(config.auth),
            },
            PhaseView::Request { stage, token, .. } => ActionView::Send {
                endpoint: stage.endpoint(),
                request: stage.request(config, token.secret),
            },
            PhaseView::Connect { url, .. } => ActionView::Connect { url },
            PhaseView::Listen { .. } => ActionView::Listen,
            PhaseView::Ended => ActionView::Rest,
        }
    }
}

/// What a step comes to: the session and the cache afterwards, and what has to be done next.
pub ghost struct Turn {
    pub session: SessionView,
    pub state: StateView,
    pub action: ActionView,
}

/// The session goes on in a phase.
pub open spec fn going_on(
    mode: Mode,
    phase: PhaseView,
    config: ConfigView,
    state: StateView,
) -> Turn {
    let session = SessionView { mode, phase };
    Turn { session, state, action: session.pending(config) }
}

/// The session is over, and has come to what it was for.
pub open spec fn finished(mode: Mode, state: StateView, report: ReportView) -> Turn {
    Turn {
        session: SessionView { mode, phase: PhaseView::Ended },
        state,
        action: ActionView::Finish(report),
    }
}

/// The session is over, for a failure.
pub open spec fn aborted(mode: Mode, state: StateView, failure: FailureView) -> Turn {
    Turn {
        session: SessionView { mode, phase: PhaseView::Ended },
        state,
        action: ActionView::Abort(failure),
    }
}

/// The session goes on to a stage. A token that has reached its age is renewed before.
pub open spec fn entered(
    mode: Mode,
    stage: StageView,
    token: ActiveTokenView,
    config: ConfigView,
    state: StateView,
    age: nat,
) -> Turn {
    if mode.minds_age(stage) && age >= token.lifetime {
        going_on(mode, PhaseView::Renew { stage, retried: false }, config, state)
    } else {
        going_on(mode, PhaseView::Request { stage, retried: false, token }, config, state)
    }
}

/// The token was not accepted at a stage. While the cache is kept up to date it is renewed and
/// the stage tried again, but once only.
pub open spec fn refused(
    mode: Mode,
    stage: StageView,
    retried: bool,
    config: ConfigView,
    state: StateView,
) -> Turn {
    if mode == Mode::Sync && !retried {
        going_on(mode, PhaseView::Renew { stage, retried: true }, config, state)
    } else {
        aborted(mode, state, FailureView::plain(stage.words() + mode.unauthorized_words()))
    }
}

/// The cache after a token was obtained.
pub open spec fn noting_token(mode: Mode, state: StateView) -> StateView {
    if mode.counts() {
        state.after_token()
    } else {
        state
    }
}

/// The locations are known.
pub open spec fn located(
    mode: Mode,
    resources: Seq<LocationResourceView>,
    token: ActiveTokenView,
    config: ConfigView,
    state: StateView,
    age: nat,
) -> Turn {
    if mode == Mode::Locations {
        finished(mode, state, ReportView::Locations(listed(resources)))
    } else {
        match selection(listed(resources), config.location_id) {
            Ok(location) => entered(
                mode,
                StageView::Snapshot(location),
                token,
                config,
                state,
                age,
            ),
            Err(error) => aborted(mode, state, FailureView::plain(error.words())),
        }
    }
}

/// The full state of the location is known.
pub open spec fn bootstrapped(
    mode: Mode,
    location: LocationView,
    snapshot: SnapshotView,
    token: ActiveTokenView,
    config: ConfigView,
    state: StateView,
    age: nat,
    now: i64,
) -> Turn {
    let taken_in = state.after_snapshot(location, snapshot, config.flows, now);
    match mode {
        Mode::Sync => entered(
            mode,
            StageView::WebSocket(location),
            token,
            config,
            taken_in.after_refresh(),
            age,
        ),
        Mode::Validate => entered(
            mode,
            StageView::WebSocket(location),
            token,
            config,
            StateView { connected: false, ..taken_in },
            age,
        ),
        Mode::Locations | Mode::Valves => finished(
            mode,
            taken_in,
            ReportView::Valves(all_valves(location, taken_in)),
        ),
    }
}

/// The full state of the location is known once more.
pub open spec fn reconciled(
    mode: Mode,
    location: LocationView,
    snapshot: SnapshotView,
    token: ActiveTokenView,
    config: ConfigView,
    state: StateView,
    now: i64,
) -> Turn {
    going_on(
        mode,
        PhaseView::Listen { location, token },
        config,
        state.after_snapshot(location, snapshot, config.flows, now).after_refresh(),
    )
}

/// The address of the websocket is known.
pub open spec fn addressed(
    mode: Mode,
    url: Seq<char>,
    location: LocationView,
    token: ActiveTokenView,
    config: ConfigView,
    state: StateView,
) -> Turn {
    if mode == Mode::Sync {
        going_on(mode, PhaseView::Connect { url, location, token }, config, state)
    } else {
        finished(mode, state, ReportView::Validated(location))
    }
}

/// How the closing of a websocket is told.
pub open spec fn closing_words(frame: Option<CloseFrameView>) -> Seq<char> {
    "Gardena websocket closed: "@ + (match frame {
        Some(frame) => "code="@ + decimal(frame.code as nat) + " reason="@ + frame.reason,
        None => "no close frame"@,
    })
}

/// What a request for the address of a websocket came to. An answer without the address counts
/// as one to a token that was not accepted.
pub open spec fn address(outcome: OutcomeView<ResourceView>) -> OutcomeView<Seq<char>> {
    match outcome {
        OutcomeView::Granted(resource) => match text_at(resource.attributes, "url"@) {
            Some(url) => OutcomeView::Granted(url),
            None => OutcomeView::Unauthorized,
        },
        OutcomeView::Unauthorized => OutcomeView::Unauthorized,
        OutcomeView::Failed(failure) => OutcomeView::Failed(failure),
    }
}

/// An event while the session listens.
pub open spec fn heard(
    mode: Mode,
    location: LocationView,
    token: ActiveTokenView,
    config: ConfigView,
    state: StateView,
    event: EventView,
    clock: Instant,
    now: i64,
) -> Turn {
    let listening = PhaseView::Listen { location, token };
    match event {
        EventView::Tick => entered(
            mode,
            StageView::Reconcile(location),
            token,
            config,
            state,
            token.age(clock),
        ),
        EventView::Message(Ok(resource)) => going_on(
            mode,
            listening,
            config,
            state.after_event(resource, config.flows, now),
        ),
        EventView::Message(Err(cause)) => aborted(
            mode,
            state,
            FailureView {
                context: "failed to parse websocket JSON resource"@,
                cause: Some(cause),
            },
        ),
        EventView::Closed(frame) => aborted(
            mode,
            state,
            FailureView::plain(closing_words(frame)),
        ),
        EventView::StreamError { cause } => aborted(
            mode,
            state,
            FailureView::plain("Gardena websocket error: "@ + cause),
        ),
        EventView::StreamEnded => aborted(
            mode,
            state,
            FailureView::plain("Gardena websocket ended unexpectedly"@),
        ),
        _ => going_on(mode, listening, config, state),
    }
}

/// An answer to a request that was made with a token.
pub open spec fn answered(
    mode: Mode,
    stage: StageView,
    retried: bool,
    token: ActiveTokenView,
    config: ConfigView,
    state: StateView,
    event: EventView,
    clock: Instant,
    now: i64,
) -> Turn {
    let url = stage.request(config, token.secret).url;
    match (stage, event) {
        (StageView::Locations, EventView::Locations(exchange)) => match settled(
            Endpoint::Locations,
            url,
            exchange,
        ) {
            OutcomeView::Granted(resources) => located(
                mode,
                resources,
                token,
                config,
                state,
                token.age(clock),
            ),
            OutcomeView::Unauthorized => refused(mode, stage, retried, config, state),
            OutcomeView::Failed(failure) => aborted(mode, state, failure),
        },
        (StageView::Snapshot(location), EventView::Snapshot(exchange)) => match settled(
            Endpoint::Snapshot,
            url,
            exchange,
        ) {
            OutcomeView::Granted(snapshot) => bootstrapped(
                mode,
                location,
                snapshot,
                token,
                config,
                state,
                token.age(clock),
                now,
            ),
            OutcomeView::Unauthorized => refused(mode, stage, retried, config, state),
            OutcomeView::Failed(failure) => aborted(mode, state, failure),
        },
        (StageView::Reconcile(location), EventView::Snapshot(exchange)) => match settled(
            Endpoint::Snapshot,
            url,
            exchange,
        ) {
            OutcomeView::Granted(snapshot) => reconciled(
                mode,
                location,
                snapshot,
                token,
                config,
                state,
                now,
            ),
            OutcomeView::Unauthorized => refused(mode, stage, retried, config, state),
            OutcomeView::Failed(failure) => aborted(mode, state, failure),
        },
        (StageView::WebSocket(location), EventView::WebSocket(exchange)) => match address(
            settled(Endpoint::WebSocket, url, exchange),
        ) {
            OutcomeView::Granted(found) => addressed(mode, found, location, token, config, state),
            OutcomeView::Unauthorized => refused(mode, stage, retried, config, state),
            OutcomeView::Failed(failure) => aborted(mode, state, failure),
        },
        _ => going_on(mode, PhaseView::Request { stage, retried, token }, config, state),
    }
}

/// What a session comes to with an event at `now`, where `clock` is the same moment on the
/// monotonic clock, by which tokens age. An event that the session does not wait for changes
/// nothing.
pub open spec fn stepped(
    session: SessionView,
    config: ConfigView,
    state: StateView,
    event: EventView,
    clock: Instant,
    now: i64,
) -> Turn {
    let mode = session.mode;
    let url = token_url_of(config.auth.auth_url);
    match (session.phase, event) {
        (PhaseView::Authenticate, EventView::Token(exchange)) => match granted(
            Endpoint::Token,
            url,
            exchange,
        ) {
            Ok(response) => entered(
                mode,
                StageView::Locations,
                response.in_use(clock),
                config,
                noting_token(mode, state),
                0,
            ),
            Err(failure) => aborted(mode, state, failure),
        },
        (PhaseView::Renew { stage, retried }, EventView::Token(exchange)) => match granted(
            Endpoint::Token,
            url,
            exchange,
        ) {
            Ok(response) => going_on(
                mode,
                PhaseView::Request { stage, retried, token: response.in_use(clock) },
                config,
                noting_token(mode, state),
            ),
            Err(failure) => aborted(mode, state, failure),
        },
        (PhaseView::Request { stage, retried, token }, _) => answered(
            mode,
            stage,
            retried,
            token,
            config,
            state,
            event,
            clock,
            now,
        ),
        (PhaseView::Connect { location, token, .. }, EventView::Connected) => going_on(
            mode,
            PhaseView::Listen { location, token },
            config,
            state.after_connection(location),
        ),
        (PhaseView::Connect { .. }, EventView::NotConnected { cause }) => aborted(
            mode,
            state,
            FailureView {
                context: "failed to connect to Gardena websocket"@,
                cause: Some(cause),
            },
        ),
        (PhaseView::Listen { location, token }, _) => heard(
            mode,
            location,
            token,
            config,
            state,
            event,
            clock,
            now,
        ),
        _ => going_on(mode, session.phase, config, state),
    }
}

/// What the session and an action amount to, with the cache.
spec fn turn(pair: (Session, Action), state: StateView) -> Turn {
    Turn { session: pair.0@, state, action: pair.1@ }
}

fn go_on(mode: Mode, phase: Phase, config: &RuntimeConfig) -> (result: (Session, Action))
    ensures
        result.0 == (Session { mode, phase }),
        result.1@ == result.0@.pending(config@),
{
    let session = Session { mode, phase };
    let action = session.pending(config);
    (session, action)
}

fn finish(mode: Mode, report: Report) -> (result: (Session, Action))
    ensures
        forall|state: StateView| #[trigger]
            turn(result, state) == finished(mode, state, report@),
{
    (Session { mode, phase: Phase::Ended }, Action::Finish(report))
}

fn abort(mode: Mode, failure: Failure) -> (result: (Session, Action))
    ensures
        forall|state: StateView| #[trigger]
            turn(result, state) == aborted(mode, state, failure@),
{
    (Session { mode, phase: Phase::Ended }, Action::Abort(failure))
}

fn enter(
    mode: Mode,
    stage: Stage,
    token: ActiveToken,
    config: &RuntimeConfig,
    age_seconds: u64,
) -> (result: (Session, Action))
    ensures
        forall|state: StateView| #[trigger]
            turn(result, state) == entered(
                mode,
                stage@,
                token@,
                config@,
                state,
                age_seconds as nat,
            ),
{
    if mode.checks_age(&stage) && token.needs_refresh_at(age_seconds) {
        go_on(mode, Phase::Renew { stage, retried: false }, config)
    } else {
        go_on(mode, Phase::Request { stage, retried: false, token }, config)
    }
}

fn refuse(mode: Mode, stage: Stage, retried: bool, config: &RuntimeConfig) -> (result: (
    Session,
    Action,
))
    ensures
        forall|state: StateView| #[trigger]
            turn(result, state) == refused(mode, stage@, retried, config@, state),
{
    if mode == Mode::Sync && !retried {
        go_on(mode, Phase::Renew { stage, retried: true }, config)
    } else {
        abort(mode, Failure::plain(stage.words().to_owned().concat(mode.unauthorized())))
    }
}

fn note_token(mode: Mode, state: &mut ExporterState)
    ensures
        final(state)@ == noting_token(mode, old(state)@),
{
    if mode == Mode::Sync || mode == Mode::Validate {
        state.note_token();
    }
}

fn locate(
    mode: Mode,
    response: LocationListResponse,
    token: ActiveToken,
    config: &RuntimeConfig,
    age_seconds: u64,
) -> (result: (Session, Action))
    ensures
        forall|state: StateView| #[trigger]
            turn(result, state) == located(
                mode,
                response@,
                token@,
                config@,
                state,
                age_seconds as nat,
            ),
{
    let locations = location_summaries(&response);
    if mode == Mode::Locations {
        return finish(mode, Report::Locations(locations));
    }
    let configured = match &config.location_id {
        Some(id) => Some(id.as_str()),
        None => None,
    };
    match select_location(locations.as_slice(), configured) {
        Ok(location) => enter(mode, Stage::Snapshot(location), token, config, age_seconds),
        Err(error) => abort(mode, Failure::plain(error.message())),
    }
}

fn take_in(
    state: &mut ExporterState,
    location: &LocationSummary,
    snapshot: &SnapshotResponse,
    config: &RuntimeConfig,
    now: i64,
)
    ensures
        final(state)@ == old(state)@.after_snapshot(
            location@,
            snapshot@,
            config@.flows,
            now,
        ),
{
    state.apply_snapshot_at(
        location,
        snapshot,
        config.estimated_flow_liters_per_minute,
        &config.valve_estimated_flow_liters_per_minute,
        now,
    );
}

fn bootstrap(
    mode: Mode,
    location: LocationSummary,
    snapshot: SnapshotResponse,
    token: ActiveToken,
    config: &RuntimeConfig,
    state: &mut ExporterState,
    age_seconds: u64,
    now: i64,
) -> (result: (Session, Action))
    ensures
        turn(result, final(state)@) == bootstrapped(
            mode,
            location@,
            snapshot@,
            token@,
            config@,
            old(state)@,
            age_seconds as nat,
            now,
        ),
{
    take_in(state, &location, &snapshot, config, now);
    match mode {
        Mode::Sync => {
            state.note_refresh();
            enter(mode, Stage::WebSocket(location), token, config, age_seconds)
        },
        Mode::Validate => {
            state.connected = false;
            enter(mode, Stage::WebSocket(location), token, config, age_seconds)
        },
        Mode::Locations | Mode::Valves => {
            let valves = valve_summaries(&location, state);
            finish(mode, Report::Valves(valves))
        },
    }
}

fn reconcile(
    mode: Mode,
    location: LocationSummary,
    snapshot: SnapshotResponse,
    token: ActiveToken,
    config: &RuntimeConfig,
    state: &mut ExporterState,
    now: i64,
) -> (result: (Session, Action))
    ensures
        turn(result, final(state)@) == reconciled(
            mode,
            location@,
            snapshot@,
            token@,
            config@,
            old(state)@,
            now,
        ),
{
    take_in(state, &location, &snapshot, config, now);
    state.note_refresh();
    go_on(mode, Phase::Listen { location, token }, config)
}

/// Finds the address of a websocket in what a request for it came to.
fn find_address(outcome: Outcome<WebSocketCreatedResponse>) -> (result: Outcome<String>)
    ensures
        result@ == address(outcome@),
{
    match outcome {
        Outcome::Granted(response) => match string_attr(response.data.attributes.as_ref(), "url") {
            Some(url) => Outcome::Granted(url),
            None => Outcome::Unauthorized,
        },
        Outcome::Unauthorized => Outcome::Unauthorized,
        Outcome::Failed(failure) => Outcome::Failed(failure),
    }
}

fn connect(
    mode: Mode,
    url: String,
    location: LocationSummary,
    token: ActiveToken,
    config: &RuntimeConfig,
) -> (result: (Session, Action))
    ensures
        forall|state: StateView| #[trigger]
            turn(result, state) == addressed(mode, url@, location@, token@, config@, state),
{
    if mode == Mode::Sync {
        go_on(mode, Phase::Connect { url, location, token }, config)
    } else {
        finish(mode, Report::Validated(location))
    }
}

fn tell_closing(frame: Option<CloseFrame>) -> (words: String)
    ensures
        words@ == closing_words(
            match frame {
                Some(frame) => Some(frame@),
                None => None,
            },
        ),
{
    let detail = match frame {
        Some(frame) => "code=".to_owned().concat(to_decimal(frame.code as u64).as_str()).concat(
            " reason=",
        ).concat(frame.reason.as_str()),
        None => "no close frame".to_owned(),
    };
    "Gardena websocket closed: ".to_owned().concat(detail.as_str())
}

fn hear(
    mode: Mode,
    location: LocationSummary,
    token: ActiveToken,
    config: &RuntimeConfig,
    state: &mut ExporterState,
    event: Event,
    clock: &Instant,
    now: i64,
) -> (result: (Session, Action))
    ensures
        turn(result, final(state)@) == heard(
            mode,
            location@,
            token@,
            config@,
            old(state)@,
            event@,
            *clock,
            now,
        ),
{
    match event {
        Event::Tick => {
            let age_seconds: u64 = token.age_at(clock);
            enter(mode, Stage::Reconcile(location), token, config, age_seconds)
        },
        Event::Message(Ok(resource)) => {
            state.apply_event_at(
                &resource,
                config.estimated_flow_liters_per_minute,
                &config.valve_estimated_flow_liters_per_minute,
                now,
            );
            go_on(mode, Phase::Listen { location, token }, config)
        },
        Event::Message(Err(cause)) => abort(
            mode,
            Failure {
                context: "failed to parse websocket JSON resource".to_owned(),
                cause: Some(cause),
            },
        ),
        Event::Closed(frame) => abort(mode, Failure::plain(tell_closing(frame))),
        Event::StreamError { cause } => abort(
            mode,
            Failure::plain("Gardena websocket error: ".to_owned().concat(cause.as_str())),
        ),
        Event::StreamEnded => abort(
            mode,
            Failure::plain("Gardena websocket ended unexpectedly".to_owned()),
        ),
        _ => go_on(mode, Phase::Listen { location, token }, config),
    }
}

fn answer(
    mode: Mode,
    stage: Stage,
    retried: bool,
    token: ActiveToken,
    config: &RuntimeConfig,
    state: &mut ExporterState,
    event: Event,
    clock: &Instant,
    now: i64,
) -> (result: (Session, Action))
    ensures
        turn(result, final(state)@) == answered(
            mode,
            stage@,
            retried,
            token@,
            config@,
            old(state)@,
            event@,
            *clock,
            now,
        ),
{
    let url = stage.request(config, token.access_token()).url;
    let age_seconds: u64 = token.age_at(clock);
    match (stage, event) {
        (Stage::Locations, Event::Locations(exchange)) => match settle(
            Endpoint::Locations,
            url.as_str(),
            exchange,
        ) {
            Outcome::Granted(response) => locate(mode, response, token, config, age_seconds),
            Outcome::Unauthorized => refuse(mode, Stage::Locations, retried, config),
            Outcome::Failed(failure) => abort(mode, failure),
        },
        (Stage::Snapshot(location), Event::Snapshot(exchange)) => match settle(
            Endpoint::Snapshot,
            url.as_str(),
            exchange,
        ) {
            Outcome::Granted(snapshot) => bootstrap(
                mode,
                location,
                snapshot,
                token,
                config,
                state,
                age_seconds,
                now,
            ),
            Outcome::Unauthorized => refuse(mode, Stage::Snapshot(location), retried, config),
            Outcome::Failed(failure) => abort(mode, failure),
        },
        (Stage::Reconcile(location), Event::Snapshot(exchange)) => match settle(
            Endpoint::Snapshot,
            url.as_str(),
            exchange,
        ) {
            Outcome::Granted(snapshot) => reconcile(
                mode,
                location,
                snapshot,
                token,
                config,
                state,
                now,
            ),
            Outcome::Unauthorized => refuse(mode, Stage::Reconcile(location), retried, config),
            Outcome::Failed(failure) => abort(mode, failure),
        },
        (Stage::WebSocket(location), Event::WebSocket(exchange)) => match find_address(
            settle(Endpoint::WebSocket, url.as_str(), exchange),
        ) {
            Outcome::Granted(found) => connect(mode, found, location, token, config),
            Outcome::Unauthorized => refuse(mode, Stage::WebSocket(location), retried, config),
            Outcome::Failed(failure) => abort(mode, failure),
        },
        (stage, _) => go_on(mode, Phase::Request { stage, retried, token }, config),
    }
}

impl Session {
    /// A session before anything was asked.
    pub fn start(mode: Mode) -> (session: Session)
        ensures
            session@ == SessionView::starting(mode),
    {
        Session { mode, phase: Phase::Authenticate }
    }

    /// What the session waits to be done.
    pub fn pending(&self, config: &RuntimeConfig) -> (action: Action)
        ensures
            action@ == self@.pending(config@),
    {
        match &self.phase {
            Phase::Authenticate | Phase::Renew { .. } => Action::Send {
                endpoint: Endpoint::Token,
                request: token_request(&config.auth),
            },
            Phase::Request { stage, token, .. } => Action::Send {
                endpoint: stage.endpoint(),
                request: stage.request(config, token.access_token()),
            },
            Phase::Connect { url, .. } => Action::Connect { url: url.clone() },
            Phase::Listen { .. } => Action::Listen,
            Phase::Ended => Action::Rest,
        }
    }

    /// Takes in an event, and says what has to be done next.
    pub fn step(self, config: &RuntimeConfig, state: &mut ExporterState, event: Event) -> (result: (
        Session,
        Action,
    ))
        ensures
            exists|clock: Instant, now: i64|
                (Turn { session: result.0@, state: final(state)@, action: result.1@ })
                    == #[trigger] stepped(
                    self@,
                    config@,
                    old(state)@,
                    event@,
                    clock,
                    now,
                ),
    {
        let clock = monotonic_now();
        let now: i64 = now_timestamp();
        self.step_at(config, state, event, &clock, now)
    }

    /// Takes in an event at `now`, which is `clock` on the monotonic clock, and says what has
    /// to be done next.
    pub fn step_at(
        self,
        config: &RuntimeConfig,
        state: &mut ExporterState,
        event: Event,
        clock: &Instant,
        now: i64,
    ) -> (result: (Session, Action))
        ensures
            (Turn { session: result.0@, state: final(state)@, action: result.1@ }) == stepped(
                self@,
                config@,
                old(state)@,
                event@,
                *clock,
                now,
            ),
    {
        let Session { mode, phase } = self;
        let url = token_url(config.auth.auth_url.as_str());
        let result = match (phase, event) {
            (Phase::Authenticate, Event::Token(exchange)) => match grant(
                Endpoint::Token,
                url.as_str(),
                exchange,
            ) {
                Ok(response) => {
                    note_token(mode, state);
                    let token = ActiveToken::from_response_at(response, clock);
                    enter(mode, Stage::Locations, token, config, 0)
                },
                Err(failure) => abort(mode, failure),
            },
            (Phase::Renew { stage, retried }, Event::Token(exchange)) => match grant(
                Endpoint::Token,
                url.as_str(),
                exchange,
            ) {
                Ok(response) => {
                    note_token(mode, state);
                    let token = ActiveToken::from_response_at(response, clock);
                    go_on(mode, Phase::Request { stage, retried, token }, config)
                },
                Err(failure) => abort(mode, failure),
            },
            (Phase::Request { stage, retried, token }, event) => answer(
                mode,
                stage,
                retried,
                token,
                config,
                state,
                event,
                clock,
                now,
            ),
            (Phase::Connect { location, token, .. }, Event::Connected) => {
                state.note_connection(&location);
                go_on(mode, Phase::Listen { location, token }, config)
            },
            (Phase::Connect { .. }, Event::NotConnected { cause }) => abort(
                mode,
                Failure {
                    context: "failed to connect to Gardena websocket".to_owned(),
                    cause: Some(cause),
                },
            ),
            (Phase::Listen { location, token }, event) => hear(
                mode,
                location,
                token,
                config,
                state,
                event,
                clock,
                now,
            ),
            (phase, _) => go_on(mode, phase, config),
        };
        assert(turn(result, state@) == stepped(
            self@,
            config@,
            old(state)@,
            event@,
            *clock,
            now,
        ));
        result
    }
}

impl PhaseView {
    /// Whether an event is one that the phase waits for.
    pub open spec fn awaits(self, event: EventView) -> bool {
        match self {
            PhaseView::Authenticate | PhaseView::Renew { .. } => event is Token,
            PhaseView::Request { stage, .. } => match stage {
                StageView::Locations => event is Locations,
                StageView::Snapshot(_) | StageView::Reconcile(_) => event is Snapshot,
                StageView::WebSocket(_) => event is WebSocket,
            },
            PhaseView::Connect { .. } => event is Connected || event is NotConnected,
            PhaseView::Listen { .. } => event is Tick || event is Message || event is OtherMessage
                || event is Closed || event is StreamError || event is StreamEnded,
            PhaseView::Ended => false,
        }
    }

    /// How many answers it takes at most until the session listens or is over.
    pub open spec fn distance(self) -> nat {
        match self {
            PhaseView::Authenticate => 18,
            PhaseView::Renew { stage, retried } => stage.distance() + if retried {
                2nat
            } else {
                4nat
            },
            PhaseView::Request { stage, retried, .. } => stage.distance() + if retried {
                1nat
            } else {
                3nat
            },
            PhaseView::Connect { .. } => 1,
            PhaseView::Listen { .. } | PhaseView::Ended => 0,
        }
    }
}

impl StageView {
    /// How many answers it takes at most after this stage until the session listens or is over.
    pub open spec fn distance(self) -> nat {
        match self {
            StageView::Locations => 9,
            StageView::Snapshot(_) => 5,
            StageView::WebSocket(_) => 1,
            StageView::Reconcile(_) => 0,
        }
    }
}

/// An event that a session does not wait for changes neither it nor the cache.
pub proof fn stray_events_change_nothing(
    session: SessionView,
    config: ConfigView,
    state: StateView,
    event: EventView,
    clock: Instant,
    now: i64,
)
    requires
        !session.phase.awaits(event),
    ensures
        stepped(session, config, state, event, clock, now) == (Turn {
            session,
            state,
            action: session.pending(config),
        }),
{
}

/// Unless a session listens, every answer brings it closer to listening or to its end.
pub proof fn sessions_get_on(
    session: SessionView,
    config: ConfigView,
    state: StateView,
    event: EventView,
    clock: Instant,
    now: i64,
)
    requires
        session.phase.awaits(event),
        !(session.phase is Listen),
    ensures
        stepped(session, config, state, event, clock, now).session.phase.distance()
            < session.phase.distance(),
{
}

/// Every step keeps the cache consistent.
pub proof fn steps_keep_consistency(
    session: SessionView,
    config: ConfigView,
    state: StateView,
    event: EventView,
    clock: Instant,
    now: i64,
)
    requires
        state.consistent(),
    ensures
        stepped(session, config, state, event, clock, now).state.consistent(),
{
    assert forall|location: LocationView, snapshot: SnapshotView|
        (#[trigger] state.after_snapshot(location, snapshot, config.flows, now)).consistent() by {
        snapshot_keeps_consistency(state, location, snapshot, config.flows, now);
    }
    if let EventView::Message(Ok(resource)) = event {
        resource_keeps_consistency(state, resource, config.flows, now);
    }
}

/// A token that is not accepted at a stage is renewed once. If it is not accepted after that,
/// the session is over.
pub proof fn tokens_are_renewed_once(
    session: SessionView,
    config: ConfigView,
    state: StateView,
    event: EventView,
    clock: Instant,
    now: i64,
)
    ensures
        ({
            let after = stepped(session, config, state, event, clock, now);
            session.phase matches PhaseView::Request { stage, retried, .. } ==> (
            after.session.phase matches PhaseView::Renew { stage: next, retried: again } ==> (again
                ==> !retried && next == stage && session.mode == Mode::Sync))
        }),
{
}

/// While the cache is kept up to date, no stage is entered with a token that has reached its
/// age, unless it has just been renewed for that stage. A session does not start with a token
/// that has no time to live.
pub proof fn stale_tokens_are_not_used(
    session: SessionView,
    config: ConfigView,
    state: StateView,
    event: EventView,
    clock: Instant,
    now: i64,
)
    requires
        session.mode == Mode::Sync,
        session.phase.awaits(event),
        !(session.phase is Renew),
    ensures
        ({
            let after = stepped(session, config, state, event, clock, now).session;
            after.phase matches PhaseView::Request { token, .. } ==> if session.phase
                is Authenticate {
                0 < token.lifetime
            } else {
                token.age(clock) < token.lifetime
            }
        }),
{
}

impl SessionView {
    /// The moment from which the token that the session holds counts.
    pub open spec fn token_since(self) -> Option<Instant> {
        match self.phase {
            PhaseView::Request { token, .. }
            | PhaseView::Connect { token, .. }
            | PhaseView::Listen { token, .. } => Some(token.since),
            _ => None,
        }
    }
}

/// A token that a session carries on counts from the moment when it was obtained, whatever
/// happens; one that it obtains counts from then.
pub proof fn carried_tokens_keep_their_moment(
    session: SessionView,
    config: ConfigView,
    state: StateView,
    event: EventView,
    clock: Instant,
    now: i64,
)
    ensures
        ({
            let after = stepped(session, config, state, event, clock, now).session;
            let kept = session.token_since() is Some;
            after.token_since() is Some ==> after.token_since() == if kept {
                session.token_since()
            } else {
                Some(clock)
            }
        }),
{
}

/// A session that keeps the cache up to date never comes to an end but by a failure.
pub proof fn sync_does_not_finish(
    session: SessionView,
    config: ConfigView,
    state: StateView,
    event: EventView,
    clock: Instant,
    now: i64,
)
    requires
        session.mode == Mode::Sync,
    ensures
        !(stepped(session, config, state, event, clock, now).action is Finish),
{
}

/// A step keeps what the session is for, and never takes back a count, nor that the cache has
/// been in step with the API.
pub proof fn steps_take_nothing_back(
    session: SessionView,
    config: ConfigView,
    state: StateView,
    event: EventView,
    clock: Instant,
    now: i64,
)
    ensures
        ({
            let after = stepped(session, config, state, event, clock, now);
            &&& after.session.mode == session.mode
            &&& after.state.token_refreshes_total >= state.token_refreshes_total
            &&& after.state.snapshot_refreshes_total >= state.snapshot_refreshes_total
            &&& after.state.websocket_reconnects_total >= state.websocket_reconnects_total
            &&& state.last_successful_sync_timestamp is Some
                ==> after.state.last_successful_sync_timestamp is Some
        }),
{
    assert forall|location: LocationView, snapshot: SnapshotView| ({
        let after = #[trigger] state.after_snapshot(location, snapshot, config.flows, now);
        &&& after.token_refreshes_total == state.token_refreshes_total
        &&& after.snapshot_refreshes_total == state.snapshot_refreshes_total
        &&& after.websocket_reconnects_total == state.websocket_reconnects_total
    }) by {
        snapshot_leaves_counts(state, location, snapshot, config.flows, now);
    }
    if let EventView::Message(Ok(resource)) = event {
        resource_touches_one_device(state, resource, config.flows, now);
    }
}

/// A session that listens and takes in a resource has the cache in step with the API, and says
/// so.
pub proof fn messages_show_health(
    session: SessionView,
    config: ConfigView,
    state: StateView,
    resource: ResourceView,
    clock: Instant,
    now: i64,
)
    requires
        session.phase is Listen,
    ensures
        ({
            let after = stepped(
                session,
                config,
                state,
                EventView::Message(Ok(resource)),
                clock,
                now,
            );
            &&& after.session == session
            &&& after.action == ActionView::Listen
            &&& after.state.connected
            &&& after.state.last_error is None
            &&& after.state.last_event_timestamp == Some(now)
            &&& after.state.last_successful_sync_timestamp == Some(now)
            &&& after.state.devices == state.after_resource(resource, config.flows, now).devices
        }),
{
}

/// The address of a websocket is used at once.
pub proof fn addresses_are_used_at_once(
    session: SessionView,
    config: ConfigView,
    state: StateView,
    exchange: ExchangeView<ResourceView>,
    clock: Instant,
    now: i64,
)
    requires
        session.mode == Mode::Sync,
        session.phase matches PhaseView::Request { stage, .. } && stage is WebSocket,
    ensures
        ({
            let after = stepped(
                session,
                config,
                state,
                EventView::WebSocket(exchange),
                clock,
                now,
            );
            let url = session.phase->Request_stage.request(
                config,
                session.phase->Request_token.secret,
            ).url;
            address(settled(Endpoint::WebSocket, url, exchange)) matches OutcomeView::Granted(found)
                ==> after.action == (ActionView::Connect { url: found }) && after.state == state
        }),
{
}

/// A session that listens asks for another snapshot when it is due, with a new token where the
/// one it has has reached its age, and listens again once the snapshot has been taken in.
pub proof fn due_snapshots_are_taken_in(
    session: SessionView,
    config: ConfigView,
    state: StateView,
    snapshot: SnapshotView,
    body: Seq<char>,
    clock: Instant,
    then: i64,
    now: i64,
)
    requires
        session.mode == Mode::Sync,
        session.phase is Listen,
    ensures
        ({
            let asking = stepped(session, config, state, EventView::Tick, clock, then);
            let answer = EventView::Snapshot(
                ExchangeView::Replied { status: 200, body, decoded: Ok(snapshot) },
            );
            let location = session.phase->Listen_location;
            let token = session.phase->Listen_token;
            &&& asking.state == state
            &&& token.age(clock) >= token.lifetime ==> asking.session.phase == (PhaseView::Renew {
                stage: StageView::Reconcile(location),
                retried: false,
            })
            &&& token.age(clock) < token.lifetime ==> {
                let after = stepped(asking.session, config, state, answer, clock, now);
                &&& asking.action == (ActionView::Send {
                    endpoint: Endpoint::Snapshot,
                    request: snapshot_request_of(
                        config.auth,
                        config.api_url,
                        token.secret,
                        location.id,
                    ),
                })
                &&& after.session == session
                &&& after.state == state.after_snapshot(
                    location,
                    snapshot,
                    config.flows,
                    now,
                ).after_refresh()
            }
        }),
{
}

/// What a [`CloseFrame`] says of each of its parts is what the field holds.
pub proof fn close_frames_say_what_they_hold(frame: CloseFrame)
    ensures
        frame@.code == frame.code,
        frame@.reason == frame.reason@,
{
}

/// What an [`Event`] says is what happened, and with what it came.
pub proof fn events_say_what_they_hold(event: Event)
    ensures
        match event {
            Event::Token(exchange) => event@ == EventView::Token(exchange@),
            Event::Locations(exchange) => event@ == EventView::Locations(exchange@),
            Event::Snapshot(exchange) => event@ == EventView::Snapshot(exchange@),
            Event::WebSocket(exchange) => event@ == EventView::WebSocket(exchange@),
            Event::Connected => event@ == EventView::Connected,
            Event::NotConnected { cause } => event@ == (EventView::NotConnected { cause: cause@ }),
            Event::Tick => event@ == EventView::Tick,
            Event::Message(Ok(resource)) => event@ == EventView::Message(Ok(resource@)),
            Event::Message(Err(cause)) => event@ == EventView::Message(Err(cause@)),
            Event::OtherMessage => event@ == EventView::OtherMessage,
            Event::Closed(Some(frame)) => event@ == EventView::Closed(Some(frame@)),
            Event::Closed(None) => event@ == EventView::Closed(None),
            Event::StreamError { cause } => event@ == (EventView::StreamError { cause: cause@ }),
            Event::StreamEnded => event@ == EventView::StreamEnded,
        },
{
}

/// What an [`Action`] says is what has to be done, and a [`Report`] what the session was for.
pub proof fn actions_say_what_they_hold(action: Action, report: Report)
    ensures
        match action {
            Action::Send { endpoint, request } => action@ == (ActionView::Send {
                endpoint,
                request: request@,
            }),
            Action::Connect { url } => action@ == (ActionView::Connect { url: url@ }),
            Action::Listen => action@ == ActionView::Listen,
            Action::Finish(report) => action@ == ActionView::Finish(report@),
            Action::Abort(failure) => action@ == ActionView::Abort(failure@),
            Action::Rest => action@ == ActionView::Rest,
        },
        match report {
            Report::Validated(location) => report@ == ReportView::Validated(location@),
            Report::Locations(locations) => report@ == ReportView::Locations(places(locations@)),
            Report::Valves(valves) => report@ == ReportView::Valves(summaries(valves@)),
        },
{
}

}
