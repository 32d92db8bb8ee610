//! The course of a session: what each answer brings about, and what is asked next.
use crate::http::Endpoint;
use crate::session::Mode;
use std::time::Instant;
use vstd::prelude::*;

verus! {

use crate::config::ConfigView;
use crate::http::{
    granted, locations_request_of, settled, snapshot_request_of, token_request_of, token_url_of,
    websocket_request_of, ExchangeView, FailureView, OutcomeView,
};
use crate::intake::valve_reports_are_taken_in;
use crate::json::{related_id, text_at};
use crate::location::{listed, selection, LocationResourceView};
use crate::session::{
    stepped, ActionView, CloseFrameView, EventView, PhaseView, ReportView, SessionView, StageView,
    Turn,
};
use crate::state::{ResourceView, SnapshotView, StateView};
use crate::text::decimal;
use crate::token::TokenView;
use crate::valves::all_valves;

/// What a session asks depends on where it stands: for a token at first and whenever one has to
/// be renewed, for the locations, for the state of its location or for a websocket to it with the
/// token that it has; then it connects to the address that it was given, and listens.
pub proof fn each_phase_asks_its_own(session: SessionView, config: ConfigView)
    ensures
        ({
            let pending = session.pending(config);
            match session.phase {
                PhaseView::Authenticate | PhaseView::Renew { .. } => pending == (ActionView::Send {
                    endpoint: Endpoint::Token,
                    request: token_request_of(config.auth),
                }),
                PhaseView::Request { stage: StageView::Locations, token, .. } => pending == (
                ActionView::Send {
                    endpoint: Endpoint::Locations,
                    request: locations_request_of(config.auth, token.secret),
                }),
                PhaseView::Request { stage: StageView::Snapshot(location), token, .. } => pending
                    == (ActionView::Send {
                    endpoint: Endpoint::Snapshot,
                    request: snapshot_request_of(
                        config.auth,
                        config.api_url,
                        token.secret,
                        location.id,
                    ),
                }),
                PhaseView::Request { stage: StageView::Reconcile(location), token, .. } => pending
                    == (ActionView::Send {
                    endpoint: Endpoint::Snapshot,
                    request: snapshot_request_of(
                        config.auth,
                        config.api_url,
                        token.secret,
                        location.id,
                    ),
                }),
                PhaseView::Request { stage: StageView::WebSocket(location), token, .. } => pending
                    == (ActionView::Send {
                    endpoint: Endpoint::WebSocket,
                    request: websocket_request_of(
                        config.auth,
                        config.api_url,
                        token.secret,
                        location.id,
                    ),
                }),
                PhaseView::Connect { url, .. } => pending == (ActionView::Connect { url }),
                PhaseView::Listen { .. } => pending == ActionView::Listen,
                PhaseView::Ended => pending == ActionView::Rest,
            }
        }),
{
}

/// A session begins by asking for a token, whatever it is for.
pub proof fn sessions_begin_with_a_token(mode: Mode, config: ConfigView)
    ensures
        SessionView::starting(mode).mode == mode,
        SessionView::starting(mode).phase is Authenticate,
        SessionView::starting(mode).pending(config) == (ActionView::Send {
            endpoint: Endpoint::Token,
            request: token_request_of(config.auth),
        }),
{
}

/// A step that does not end the session leaves it waiting for what it asks.
pub proof fn steps_ask_what_is_awaited(
    session: SessionView,
    config: ConfigView,
    state: StateView,
    event: EventView,
    clock: Instant,
    now: i64,
)
    ensures
        ({
            let after = stepped(session, config, state, event, clock, now);
            &&& after.session.mode == session.mode
            &&& !(after.session.phase is Ended) ==> after.action == after.session.pending(config)
            &&& after.session.phase is Ended && !(session.phase is Ended) ==> after.action
                is Finish || after.action is Abort
        }),
{
}

/// The first token is used from the moment when it came, until a minute before it expires, which
/// it does after an hour where nothing is said. With it the locations are asked for. While the
/// cache is kept up to date, one that has no time left is renewed first. Keeping the cache up to
/// date and validating count the token, and leave no error; listing leaves the cache alone.
pub proof fn first_tokens_list_locations(
    session: SessionView,
    config: ConfigView,
    state: StateView,
    status: u16,
    body: Seq<char>,
    token: TokenView,
    clock: Instant,
    now: i64,
)
    requires
        session.phase is Authenticate,
        200 <= status < 300,
    ensures
        ({
            let after = stepped(
                session,
                config,
                state,
                EventView::Token(ExchangeView::Replied { status, body, decoded: Ok(token) }),
                clock,
                now,
            );
            let expires_in: int = match token.expires_in {
                Some(seconds) => seconds as int,
                None => 3600,
            };
            let counting = session.mode == Mode::Sync || session.mode == Mode::Validate;
            &&& session.mode == Mode::Sync && expires_in <= 60 ==> after.session.phase == (
            PhaseView::Renew { stage: StageView::Locations, retried: false })
            &&& !(session.mode == Mode::Sync && expires_in <= 60) ==> {
                &&& after.session.phase matches PhaseView::Request { stage, retried, token: used }
                &&& stage is Locations
                &&& !retried
                &&& used.secret == token.access_token
                &&& used.since == clock
                &&& used.lifetime == if expires_in > 60 {
                    expires_in - 60
                } else {
                    0
                }
            }
            &&& after.state == StateView {
                token_refreshes_total: after.state.token_refreshes_total,
                last_error: after.state.last_error,
                ..state
            }
            &&& counting && state.token_refreshes_total < u64::MAX
                ==> after.state.token_refreshes_total == state.token_refreshes_total + 1
            &&& counting ==> after.state.last_error is None
            &&& !counting ==> after.state == state
        }),
{
}

/// A renewed token is used, likewise, at the very stage for which it was renewed, and that stage
/// is told whether it had been tried before.
pub proof fn renewed_tokens_go_on_where_they_were_needed(
    session: SessionView,
    config: ConfigView,
    state: StateView,
    status: u16,
    body: Seq<char>,
    token: TokenView,
    clock: Instant,
    now: i64,
)
    requires
        session.phase is Renew,
        200 <= status < 300,
    ensures
        ({
            let after = stepped(
                session,
                config,
                state,
                EventView::Token(ExchangeView::Replied { status, body, decoded: Ok(token) }),
                clock,
                now,
            );
            let expires_in: int = match token.expires_in {
                Some(seconds) => seconds as int,
                None => 3600,
            };
            let counting = session.mode == Mode::Sync || session.mode == Mode::Validate;
            &&& after.session.phase matches PhaseView::Request { stage, retried, token: used }
            &&& stage == session.phase->Renew_stage
            &&& retried == session.phase->Renew_retried
            &&& used.secret == token.access_token
            &&& used.since == clock
            &&& used.lifetime == if expires_in > 60 {
                expires_in - 60
            } else {
                0
            }
            &&& after.state == StateView {
                token_refreshes_total: after.state.token_refreshes_total,
                last_error: after.state.last_error,
                ..state
            }
            &&& counting && state.token_refreshes_total < u64::MAX
                ==> after.state.token_refreshes_total == state.token_refreshes_total + 1
            &&& counting ==> after.state.last_error is None
            &&& !counting ==> after.state == state
        }),
{
}

/// A session that gets no token is over, says why, and leaves the cache alone.
pub proof fn sessions_end_without_a_token(
    session: SessionView,
    config: ConfigView,
    state: StateView,
    exchange: ExchangeView<TokenView>,
    clock: Instant,
    now: i64,
)
    requires
        session.phase is Authenticate || session.phase is Renew,
    ensures
        ({
            let after = stepped(session, config, state, EventView::Token(exchange), clock, now);
            granted(
                Endpoint::Token,
                token_url_of(config.auth.auth_url),
                exchange,
            ) matches Err(failure) ==> {
                &&& after.session.phase is Ended
                &&& after.action == ActionView::Abort(failure)
                &&& after.state == state
            }
        }),
{
}

/// Once the locations are known, a session that lists them reports all of them. Any other goes
/// on to the state of the one that is chosen, with a new token first where the cache is kept up
/// to date and the token has reached its age; without a choice it is over, in the words of the
/// choice. The cache is left alone.
pub proof fn known_locations_lead_to_a_snapshot(
    session: SessionView,
    config: ConfigView,
    state: StateView,
    status: u16,
    body: Seq<char>,
    resources: Seq<LocationResourceView>,
    clock: Instant,
    now: i64,
)
    requires
        session.phase matches PhaseView::Request { stage, .. } && stage is Locations,
        200 <= status < 300,
    ensures
        ({
            let after = stepped(
                session,
                config,
                state,
                EventView::Locations(
                    ExchangeView::Replied { status, body, decoded: Ok(resources) },
                ),
                clock,
                now,
            );
            let token = session.phase->Request_token;
            let stale = token.age(clock) >= token.lifetime;
            &&& after.state == state
            &&& session.mode == Mode::Locations ==> {
                &&& after.session.phase is Ended
                &&& after.action == ActionView::Finish(ReportView::Locations(listed(resources)))
            }
            &&& session.mode != Mode::Locations ==> match selection(
                listed(resources),
                config.location_id,
            ) {
                Ok(location) => after.session.phase == if session.mode == Mode::Sync && stale {
                    PhaseView::Renew { stage: StageView::Snapshot(location), retried: false }
                } else {
                    PhaseView::Request {
                        stage: StageView::Snapshot(location),
                        retried: false,
                        token,
                    }
                },
                Err(error) => {
                    &&& after.session.phase is Ended
                    &&& after.action == ActionView::Abort(
                        FailureView { context: error.words(), cause: None },
                    )
                },
            }
        }),
{
}

/// The first state of the location is taken in with the configured flow rates. While the cache is
/// kept up to date it is counted and leaves no error, and the websocket comes next. Validation
/// goes on to the websocket too, but is not connected. A session that lists valves reports those
/// of the state that it has taken in. Before the websocket a token that has reached its age is
/// renewed.
pub proof fn first_snapshots_are_taken_in(
    session: SessionView,
    config: ConfigView,
    state: StateView,
    status: u16,
    body: Seq<char>,
    snapshot: SnapshotView,
    clock: Instant,
    now: i64,
)
    requires
        session.phase matches PhaseView::Request { stage, .. } && stage is Snapshot,
        200 <= status < 300,
    ensures
        ({
            let after = stepped(
                session,
                config,
                state,
                EventView::Snapshot(ExchangeView::Replied { status, body, decoded: Ok(snapshot) }),
                clock,
                now,
            );
            let location = session.phase->Request_stage->Snapshot_0;
            let token = session.phase->Request_token;
            let taken_in = state.after_snapshot(location, snapshot, config.flows, now);
            &&& session.mode == Mode::Sync && taken_in.snapshot_refreshes_total < u64::MAX
                ==> after.state == (StateView {
                snapshot_refreshes_total: (taken_in.snapshot_refreshes_total + 1) as u64,
                last_error: None,
                ..taken_in
            })
            &&& session.mode == Mode::Sync ==> after.state.devices == taken_in.devices
                && after.state.valve_usage == taken_in.valve_usage
            &&& session.mode == Mode::Validate ==> after.state == (StateView {
                connected: false,
                ..taken_in
            })
            &&& session.mode == Mode::Sync || session.mode == Mode::Validate
                ==> after.session.phase == if token.age(clock) >= token.lifetime {
                PhaseView::Renew { stage: StageView::WebSocket(location), retried: false }
            } else {
                PhaseView::Request {
                    stage: StageView::WebSocket(location),
                    retried: false,
                    token,
                }
            }
            &&& session.mode == Mode::Valves || session.mode == Mode::Locations ==> {
                &&& after.session.phase is Ended
                &&& after.state == taken_in
                &&& after.action == ActionView::Finish(
                    ReportView::Valves(all_valves(location, taken_in)),
                )
            }
        }),
{
}

/// Another state of the location is taken in with the configured flow rates and counted, leaves
/// no error, and the session listens on with the token that it has.
pub proof fn further_snapshots_are_taken_in(
    session: SessionView,
    config: ConfigView,
    state: StateView,
    status: u16,
    body: Seq<char>,
    snapshot: SnapshotView,
    clock: Instant,
    now: i64,
)
    requires
        session.phase matches PhaseView::Request { stage, .. } && stage is Reconcile,
        200 <= status < 300,
    ensures
        ({
            let after = stepped(
                session,
                config,
                state,
                EventView::Snapshot(ExchangeView::Replied { status, body, decoded: Ok(snapshot) }),
                clock,
                now,
            );
            let location = session.phase->Request_stage->Reconcile_0;
            let token = session.phase->Request_token;
            let taken_in = state.after_snapshot(location, snapshot, config.flows, now);
            &&& after.session.phase == (PhaseView::Listen { location, token })
            &&& taken_in.snapshot_refreshes_total < u64::MAX ==> after.state == (StateView {
                snapshot_refreshes_total: (taken_in.snapshot_refreshes_total + 1) as u64,
                last_error: None,
                ..taken_in
            })
            &&& after.state.devices == taken_in.devices
            &&& after.state.valve_usage == taken_in.valve_usage
            &&& after.state.last_error is None
        }),
{
}

/// The address of a websocket is the text under `url`. While the cache is kept up to date the
/// session connects to it, for the same location and with the same token; otherwise it has
/// shown that the exporter could run on the location. The cache is left alone.
pub proof fn addresses_lead_to_the_websocket(
    session: SessionView,
    config: ConfigView,
    state: StateView,
    status: u16,
    body: Seq<char>,
    resource: ResourceView,
    url: Seq<char>,
    clock: Instant,
    now: i64,
)
    requires
        session.phase matches PhaseView::Request { stage, .. } && stage is WebSocket,
        200 <= status < 300,
        text_at(resource.attributes, "url"@) == Some(url),
    ensures
        ({
            let after = stepped(
                session,
                config,
                state,
                EventView::WebSocket(
                    ExchangeView::Replied { status, body, decoded: Ok(resource) },
                ),
                clock,
                now,
            );
            let location = session.phase->Request_stage->WebSocket_0;
            let token = session.phase->Request_token;
            &&& after.state == state
            &&& session.mode == Mode::Sync ==> after.session.phase == (PhaseView::Connect {
                url,
                location,
                token,
            })
            &&& session.mode != Mode::Sync ==> {
                &&& after.session.phase is Ended
                &&& after.action == ActionView::Finish(ReportView::Validated(location))
            }
        }),
{
}

/// An answer with the status 401, and one that gives a websocket no address, asks for a new token
/// and the same again while the cache is kept up to date, but once only. Then, and in any other
/// session, it is the end, in words that tell what was asked and by which session. The cache is
/// left alone.
pub proof fn refused_tokens_end_the_session(
    session: SessionView,
    config: ConfigView,
    state: StateView,
    event: EventView,
    clock: Instant,
    now: i64,
)
    requires
        session.phase matches PhaseView::Request { stage, .. } && match stage {
            StageView::Locations => event matches EventView::Locations(
                ExchangeView::Replied { status, .. },
            ) && status == 401,
            StageView::Snapshot(_) | StageView::Reconcile(_) => event matches EventView::Snapshot(
                ExchangeView::Replied { status, .. },
            ) && status == 401,
            StageView::WebSocket(_) => event matches EventView::WebSocket(
                ExchangeView::Replied { status, decoded, .. },
            ) && (status == 401 || (200 <= status < 300 && decoded is Ok && text_at(
                decoded->Ok_0.attributes,
                "url"@,
            ) is None)),
        },
    ensures
        ({
            let after = stepped(session, config, state, event, clock, now);
            let stage = session.phase->Request_stage;
            let retried = session.phase->Request_retried;
            let asked = match stage {
                StageView::Locations => "listing locations"@,
                StageView::Snapshot(_) | StageView::Reconcile(_) => "snapshot"@,
                StageView::WebSocket(_) => "websocket bootstrap"@,
            };
            let told = match session.mode {
                Mode::Sync => " still returned unauthorized after refreshing token"@,
                Mode::Validate => " unexpectedly returned unauthorized during startup validation"@,
                Mode::Locations | Mode::Valves => " unexpectedly returned unauthorized"@,
            };
            &&& after.state == state
            &&& session.mode == Mode::Sync && !retried ==> after.session.phase == (
            PhaseView::Renew { stage, retried: true })
            &&& session.mode != Mode::Sync || retried ==> {
                &&& after.session.phase is Ended
                &&& after.action == ActionView::Abort(
                    FailureView { context: asked + told, cause: None },
                )
            }
        }),
{
}

/// A request for the locations that fails ends the session, and so does one for the state of a
/// location or for a websocket, each in the words for what was asked. The cache is left alone.
pub proof fn failed_requests_end_the_session(
    session: SessionView,
    config: ConfigView,
    state: StateView,
    locations: ExchangeView<Seq<LocationResourceView>>,
    snapshot: ExchangeView<SnapshotView>,
    websocket: ExchangeView<ResourceView>,
    failure: FailureView,
    clock: Instant,
    now: i64,
)
    requires
        session.phase is Request,
    ensures
        ({
            let stage = session.phase->Request_stage;
            let token = session.phase->Request_token;
            let over = Turn {
                session: SessionView { mode: session.mode, phase: PhaseView::Ended },
                state,
                action: ActionView::Abort(failure),
            };
            &&& stage is Locations && settled(
                Endpoint::Locations,
                locations_request_of(config.auth, token.secret).url,
                locations,
            ) == OutcomeView::<Seq<LocationResourceView>>::Failed(failure) ==> stepped(
                session,
                config,
                state,
                EventView::Locations(locations),
                clock,
                now,
            ) == over
            &&& stage matches StageView::Snapshot(location) ==> (settled(
                Endpoint::Snapshot,
                snapshot_request_of(config.auth, config.api_url, token.secret, location.id).url,
                snapshot,
            ) == OutcomeView::<SnapshotView>::Failed(failure) ==> stepped(
                session,
                config,
                state,
                EventView::Snapshot(snapshot),
                clock,
                now,
            ) == over)
            &&& stage matches StageView::Reconcile(location) ==> (settled(
                Endpoint::Snapshot,
                snapshot_request_of(config.auth, config.api_url, token.secret, location.id).url,
                snapshot,
            ) == OutcomeView::<SnapshotView>::Failed(failure) ==> stepped(
                session,
                config,
                state,
                EventView::Snapshot(snapshot),
                clock,
                now,
            ) == over)
            &&& stage matches StageView::WebSocket(location) ==> (settled(
                Endpoint::WebSocket,
                websocket_request_of(config.auth, config.api_url, token.secret, location.id).url,
                websocket,
            ) == OutcomeView::<ResourceView>::Failed(failure) ==> stepped(
                session,
                config,
                state,
                EventView::WebSocket(websocket),
                clock,
                now,
            ) == over)
        }),
{
}

/// Once connected, the session listens for its location with the token that it has, and the cache
/// shows the location and the connection. If it could not connect, it is over and says why.
pub proof fn connections_lead_to_listening(
    session: SessionView,
    config: ConfigView,
    state: StateView,
    cause: Seq<char>,
    clock: Instant,
    now: i64,
)
    requires
        session.phase is Connect,
    ensures
        ({
            let location = session.phase->Connect_location;
            let token = session.phase->Connect_token;
            let connected = stepped(session, config, state, EventView::Connected, clock, now);
            let failed = stepped(
                session,
                config,
                state,
                EventView::NotConnected { cause },
                clock,
                now,
            );
            &&& connected.session.phase == (PhaseView::Listen { location, token })
            &&& connected.state == (StateView {
                location_id: Some(location.id),
                location_name: Some(location.name),
                connected: true,
                last_error: None,
                ..state
            })
            &&& failed.session.phase is Ended
            &&& failed.state == state
            &&& failed.action == ActionView::Abort(
                FailureView {
                    context: "failed to connect to Gardena websocket"@,
                    cause: Some(cause),
                },
            )
        }),
{
}

/// A resource that comes over the websocket is taken in with the configured flow rates, as any
/// other: the devices and the use of valves are those of the resource. It shows that the
/// connection is alive and the cache in step at that moment. A valve is metered at the rate that
/// is configured for it, or else at the one for all.
pub proof fn messages_are_taken_in(
    session: SessionView,
    config: ConfigView,
    state: StateView,
    resource: ResourceView,
    clock: Instant,
    now: i64,
)
    requires
        session.phase is Listen,
    ensures
        ({
            let after = stepped(
                session,
                config,
                state,
                EventView::Message(Ok(resource)),
                clock,
                now,
            );
            let taken_in = state.after_resource(resource, config.flows, now);
            &&& after.session == session
            &&& after.action == ActionView::Listen
            &&& after.state.valve_usage == taken_in.valve_usage
            &&& after.state.devices == taken_in.devices
            &&& after.state == (StateView {
                connected: true,
                last_event_timestamp: Some(now),
                last_successful_sync_timestamp: Some(now),
                last_error: None,
                ..taken_in
            })
            &&& resource.kind == "VALVE"@ && related_id(resource.relationships, "device"@) is Some
                ==> {
                let usage = after.state.valve_usage[resource.id];
                &&& after.state.valve_usage.contains_key(resource.id)
                &&& config.flows.by_valve.contains_key(resource.id)
                    ==> usage.estimated_flow_liters_per_minute == Some(
                    config.flows.by_valve[resource.id],
                )
                &&& !config.flows.by_valve.contains_key(resource.id)
                    ==> usage.estimated_flow_liters_per_minute == config.flows.default_rate
            }
        }),
{
    if resource.kind == "VALVE"@ && related_id(resource.relationships, "device"@) is Some {
        valve_reports_are_taken_in(state, resource, config.flows, now);
    }
}

/// When the next state of the location is due, a session that listens asks for it, with a new
/// token first where the one that it has has reached its age and the cache is kept up to date.
/// The cache is left alone.
pub proof fn due_snapshots_are_asked_for(
    session: SessionView,
    config: ConfigView,
    state: StateView,
    clock: Instant,
    now: i64,
)
    requires
        session.phase is Listen,
    ensures
        ({
            let after = stepped(session, config, state, EventView::Tick, clock, now);
            let location = session.phase->Listen_location;
            let token = session.phase->Listen_token;
            &&& after.state == state
            &&& after.session.phase == if session.mode == Mode::Sync && token.age(clock)
                >= token.lifetime {
                PhaseView::Renew { stage: StageView::Reconcile(location), retried: false }
            } else {
                PhaseView::Request {
                    stage: StageView::Reconcile(location),
                    retried: false,
                    token,
                }
            }
        }),
{
}

/// A message that is no resource, a closed websocket, an error and the end of the stream each end
/// a session that listens, in their own words; any other message changes nothing. The cache is
/// left alone.
pub proof fn lost_websockets_end_the_session(
    session: SessionView,
    config: ConfigView,
    state: StateView,
    cause: Seq<char>,
    frame: CloseFrameView,
    clock: Instant,
    now: i64,
)
    requires
        session.phase is Listen,
    ensures
        ({
            let over = |context: Seq<char>, cause: Option<Seq<char>>|
                Turn {
                    session: SessionView { mode: session.mode, phase: PhaseView::Ended },
                    state,
                    action: ActionView::Abort(FailureView { context, cause }),
                };
            &&& stepped(session, config, state, EventView::Message(Err(cause)), clock, now) == over(
                "failed to parse websocket JSON resource"@,
                Some(cause),
            )
            &&& stepped(session, config, state, EventView::Closed(Some(frame)), clock, now) == over(
                "Gardena websocket closed: "@ + ("code="@ + decimal(frame.code as nat)
                    + " reason="@ + frame.reason),
                None,
            )
            &&& stepped(session, config, state, EventView::Closed(None), clock, now) == over(
                "Gardena websocket closed: "@ + "no close frame"@,
                None,
            )
            &&& stepped(session, config, state, EventView::StreamError { cause }, clock, now)
                == over("Gardena websocket error: "@ + cause, None)
            &&& stepped(session, config, state, EventView::StreamEnded, clock, now) == over(
                "Gardena websocket ended unexpectedly"@,
                None,
            )
            &&& stepped(session, config, state, EventView::OtherMessage, clock, now) == (Turn {
                session,
                state,
                action: ActionView::Listen,
            })
        }),
{
}

/// A session that waits for one answer is not moved by another.
pub proof fn other_answers_are_not_taken(
    session: SessionView,
    config: ConfigView,
    state: StateView,
    event: EventView,
    clock: Instant,
    now: i64,
)
    requires
        match session.phase {
            PhaseView::Authenticate | PhaseView::Renew { .. } => !(event is Token),
            PhaseView::Request { stage: StageView::Locations, .. } => !(event is Locations),
            PhaseView::Request { stage: StageView::WebSocket(_), .. } => !(event is WebSocket),
            PhaseView::Request { .. } => !(event is Snapshot),
            PhaseView::Connect { .. } => !(event is Connected) && !(event is NotConnected),
            PhaseView::Listen { .. } => event is Token || event is Locations || event is Snapshot
                || event is WebSocket || event is Connected || event is NotConnected,
            PhaseView::Ended => true,
        },
    ensures
        stepped(session, config, state, event, clock, now).session == session,
        stepped(session, config, state, event, clock, now).state == state,
{
}

}
