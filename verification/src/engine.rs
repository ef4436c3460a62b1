//! The run as a state machine: login, sites listing, then a guest
//! authorization where a device was named.
//!
//! The engine never performs a request. It says what to do next, the caller
//! does it and reports what happened, and the engine moves one state on.

use vstd::prelude::*;
use crate::http::{
    has_header, header_value, success_status, HttpRequest, HttpRequestView, HttpResponse,
    HttpResponseView,
};
use crate::model::{
    guest_auth_defaults, Credentials, CredentialsView, Endpoint, EndpointView, GuestAuthRequest,
    ProtocolError, ProtocolErrorView, Session, Site, SiteView,
};
use crate::protocol::{
    authenticate, authorize_guest, guest_outcome, guest_request, guest_request_of,
    lemma_session_iff_success_and_cookie, login_outcome, login_request, login_request_of,
    sites_outcome, sites_request, sites_request_of, verify_session,
};

verus! {

/// The exit code of a run in which every stage succeeded.
pub const EXIT_SUCCESS: u8 = 0;

/// The exit code of a run that a failure stopped.
pub const EXIT_FAILURE: u8 = 1;

/// What a run is given: the controller, the account, the site whose command
/// endpoint takes the guest authorization, and the device to authorize, if
/// that stage is wanted.
#[derive(Debug, PartialEq, Eq)]
pub struct RunConfig {
    pub endpoint: Endpoint,
    pub credentials: Credentials,
    pub site: String,
    pub test_mac: Option<String>,
}

/// The mathematical value of a [`RunConfig`].
pub struct RunConfigView {
    pub endpoint: EndpointView,
    pub credentials: CredentialsView,
    pub site: Seq<char>,
    pub test_mac: Option<Seq<char>>,
}

impl View for RunConfig {
    type V = RunConfigView;

    open spec fn view(&self) -> RunConfigView {
        RunConfigView {
            endpoint: self.endpoint@,
            credentials: self.credentials@,
            site: self.site@,
            test_mac: self.test_mac.deep_view(),
        }
    }
}

/// The stages of a run, by the call that each makes.
#[derive(Debug, Clone, Copy, PartialEq, Eq, Structural)]
pub enum Stage {
    Login,
    Verification,
    GuestAuthorization,
}

/// Where a run stands.
#[derive(Debug, PartialEq, Eq)]
pub enum State {
    /// Nothing has been answered yet.
    Unauthenticated,
    /// The login succeeded.
    Authenticated { session: Session },
    /// The session listed the sites.
    Verified { session: Session, sites: Vec<Site> },
    /// The session authorized the guest device.
    GuestAuthorized { sites: Vec<Site> },
    /// Every stage that was asked for succeeded.
    Done { sites: Vec<Site>, guest_authorized: bool },
    /// A stage failed. Nothing follows.
    Failed { stage: Stage, error: ProtocolError },
}

/// The mathematical value of a [`State`].
pub enum StateView {
    Unauthenticated,
    Authenticated { session: Seq<char> },
    Verified { session: Seq<char>, sites: Seq<SiteView> },
    GuestAuthorized { sites: Seq<SiteView> },
    Done { sites: Seq<SiteView>, guest_authorized: bool },
    Failed { stage: Stage, error: ProtocolErrorView },
}

impl View for State {
    type V = StateView;

    open spec fn view(&self) -> StateView {
        match self {
            State::Unauthenticated => StateView::Unauthenticated,
            State::Authenticated { session } => StateView::Authenticated { session: session@ },
            State::Verified { session, sites } => StateView::Verified {
                session: session@,
                sites: sites.deep_view(),
            },
            State::GuestAuthorized { sites } => StateView::GuestAuthorized {
                sites: sites.deep_view(),
            },
            State::Done { sites, guest_authorized } => StateView::Done {
                sites: sites.deep_view(),
                guest_authorized: *guest_authorized,
            },
            State::Failed { stage, error } => StateView::Failed { stage: *stage, error: error@ },
        }
    }
}

/// What the caller reports back.
#[derive(Debug, PartialEq, Eq)]
pub enum Event {
    /// The request was answered.
    Response(HttpResponse),
    /// The request got no answer: the connection or TLS failed, or the time
    /// ran out. The message is the transport's own.
    TransportFailure { message: String },
    /// The caller has taken note that nothing is left to send.
    Finished,
}

/// The mathematical value of an [`Event`].
pub enum EventView {
    Response(HttpResponseView),
    TransportFailure { message: Seq<char> },
    Finished,
}

impl View for Event {
    type V = EventView;

    open spec fn view(&self) -> EventView {
        match self {
            Event::Response(response) => EventView::Response(response@),
            Event::TransportFailure { message } => EventView::TransportFailure {
                message: message@,
            },
            Event::Finished => EventView::Finished,
        }
    }
}

/// What the caller is to do next.
#[derive(Debug, PartialEq, Eq)]
pub enum Action {
    /// Send this request and report its [`Event::Response`], or the
    /// [`Event::TransportFailure`] that kept it from being answered.
    Send(HttpRequest),
    /// Nothing is left to send: report [`Event::Finished`].
    Finish,
    /// The run is over: leave with this exit code.
    Exit { code: u8 },
}

/// The mathematical value of an [`Action`].
pub enum ActionView {
    Send(HttpRequestView),
    Finish,
    Exit { code: u8 },
}

impl View for Action {
    type V = ActionView;

    open spec fn view(&self) -> ActionView {
        match self {
            Action::Send(request) => ActionView::Send(request@),
            Action::Finish => ActionView::Finish,
            Action::Exit { code } => ActionView::Exit { code: *code },
        }
    }
}

impl StateView {
    /// How far a run has come: the number of arrows behind it on the path
    /// from `Unauthenticated` to `Done` through every stage.
    pub open spec fn rank(self) -> nat {
        match self {
            StateView::Unauthenticated => 0,
            StateView::Authenticated { .. } => 1,
            StateView::Verified { .. } => 2,
            StateView::GuestAuthorized { .. } => 3,
            StateView::Done { .. } => 4,
            StateView::Failed { .. } => 5,
        }
    }

    /// Nothing follows this state.
    pub open spec fn terminal(self) -> bool {
        self is Done || self is Failed
    }

    /// The stage that this state is waiting on, where it waits on a request.
    pub open spec fn stage(self, config: RunConfigView) -> Option<Stage> {
        match self {
            StateView::Unauthenticated => Some(Stage::Login),
            StateView::Authenticated { .. } => Some(Stage::Verification),
            StateView::Verified { .. } => if config.test_mac is Some {
                Some(Stage::GuestAuthorization)
            } else {
                None
            },
            _ => None,
        }
    }
}

/// What a state asks of the caller.
pub open spec fn action_of(config: RunConfigView, state: StateView) -> ActionView {
    match state {
        StateView::Unauthenticated => ActionView::Send(
            login_request_of(config.endpoint, config.credentials),
        ),
        StateView::Authenticated { session } => ActionView::Send(
            sites_request_of(config.endpoint, session),
        ),
        StateView::Verified { session, sites } => match config.test_mac {
            Some(mac) => ActionView::Send(
                guest_request_of(config.endpoint, session, config.site, guest_auth_defaults(mac)),
            ),
            None => ActionView::Finish,
        },
        StateView::GuestAuthorized { .. } => ActionView::Finish,
        StateView::Done { .. } => ActionView::Exit { code: EXIT_SUCCESS },
        StateView::Failed { .. } => ActionView::Exit { code: EXIT_FAILURE },
    }
}

/// The state in which `stage` has failed for want of an answer.
pub open spec fn unanswered(stage: Stage, message: Seq<char>) -> StateView {
    StateView::Failed { stage, error: ProtocolErrorView::TransportError { message } }
}

/// The state that follows `state` on `event`.
///
/// A state that waits on a request moves on the answer to that request, or
/// on its failure. A state that has nothing left to send moves to `Done` once
/// the caller says so. Any other event leaves the state as it is, and so does
/// every event in `Done` and `Failed`.
pub open spec fn next_state(
    config: RunConfigView,
    state: StateView,
    event: EventView,
) -> StateView {
    match state {
        StateView::Unauthenticated => match event {
            EventView::Response(response) => match login_outcome(response) {
                Ok(session) => StateView::Authenticated { session },
                Err(error) => StateView::Failed { stage: Stage::Login, error },
            },
            EventView::TransportFailure { message } => unanswered(Stage::Login, message),
            EventView::Finished => state,
        },
        StateView::Authenticated { session } => match event {
            EventView::Response(response) => match sites_outcome(response) {
                Ok(sites) => StateView::Verified { session, sites },
                Err(error) => StateView::Failed { stage: Stage::Verification, error },
            },
            EventView::TransportFailure { message } => unanswered(Stage::Verification, message),
            EventView::Finished => state,
        },
        StateView::Verified { session, sites } => if config.test_mac is Some {
            match event {
                EventView::Response(response) => match guest_outcome(response) {
                    Ok(_) => StateView::GuestAuthorized { sites },
                    Err(error) => StateView::Failed { stage: Stage::GuestAuthorization, error },
                },
                EventView::TransportFailure { message } => unanswered(
                    Stage::GuestAuthorization,
                    message,
                ),
                EventView::Finished => state,
            }
        } else {
            match event {
                EventView::Finished => StateView::Done { sites, guest_authorized: false },
                _ => state,
            }
        },
        StateView::GuestAuthorized { sites } => match event {
            EventView::Finished => StateView::Done { sites, guest_authorized: true },
            _ => state,
        },
        StateView::Done { .. } => state,
        StateView::Failed { .. } => state,
    }
}

/// The exit code of a run that is over: that of success in `Done`, that of
/// failure in `Failed`. A run in any other state is not over.
pub open spec fn exit_code_of(state: StateView) -> Option<u8> {
    match state {
        StateView::Done { .. } => Some(EXIT_SUCCESS),
        StateView::Failed { .. } => Some(EXIT_FAILURE),
        _ => None,
    }
}

/// A run: its configuration, which never changes, and its state.
#[derive(Debug, PartialEq, Eq)]
pub struct Engine {
    config: RunConfig,
    state: State,
}

/// The mathematical value of an [`Engine`].
pub struct EngineView {
    pub config: RunConfigView,
    pub state: StateView,
}

impl View for Engine {
    type V = EngineView;

    closed spec fn view(&self) -> EngineView {
        EngineView { config: self.config@, state: self.state@ }
    }
}

fn transport_failure(stage: Stage, message: String) -> (r: State)
    ensures
        r@ == unanswered(stage, message@),
{
    State::Failed { stage, error: ProtocolError::TransportError { message } }
}

/// One arrow of the machine; see [`next_state`].
pub fn advance(config: &RunConfig, state: State, event: Event) -> (next: State)
    ensures
        next@ == next_state(config@, state@, event@),
{
    match state {
        State::Unauthenticated => match event {
            Event::Response(response) => match authenticate(&response) {
                Ok(session) => State::Authenticated { session },
                Err(error) => State::Failed { stage: Stage::Login, error },
            },
            Event::TransportFailure { message } => transport_failure(Stage::Login, message),
            Event::Finished => State::Unauthenticated,
        },
        State::Authenticated { session } => match event {
            Event::Response(response) => match verify_session(&response) {
                Ok(sites) => State::Verified { session, sites },
                Err(error) => State::Failed { stage: Stage::Verification, error },
            },
            Event::TransportFailure { message } => transport_failure(
                Stage::Verification,
                message,
            ),
            Event::Finished => State::Authenticated { session },
        },
        State::Verified { session, sites } => if config.test_mac.is_some() {
            match event {
                Event::Response(response) => match authorize_guest(&response) {
                    Ok(_) => State::GuestAuthorized { sites },
                    Err(error) => State::Failed { stage: Stage::GuestAuthorization, error },
                },
                Event::TransportFailure { message } => transport_failure(
                    Stage::GuestAuthorization,
                    message,
                ),
                Event::Finished => State::Verified { session, sites },
            }
        } else {
            match event {
                Event::Finished => State::Done { sites, guest_authorized: false },
                _ => State::Verified { session, sites },
            }
        },
        State::GuestAuthorized { sites } => match event {
            Event::Finished => State::Done { sites, guest_authorized: true },
            _ => State::GuestAuthorized { sites },
        },
        State::Done { sites, guest_authorized } => State::Done { sites, guest_authorized },
        State::Failed { stage, error } => State::Failed { stage, error },
    }
}

/// What `state` asks of the caller; see [`action_of`].
pub fn action_for(config: &RunConfig, state: &State) -> (r: Action)
    ensures
        r@ == action_of(config@, state@),
{
    match state {
        State::Unauthenticated => Action::Send(
            login_request(&config.endpoint, &config.credentials),
        ),
        State::Authenticated { session } => Action::Send(
            sites_request(&config.endpoint, session),
        ),
        State::Verified { session, sites } => match &config.test_mac {
            Some(mac) => {
                let request = GuestAuthRequest::new(mac.as_str());
                Action::Send(
                    guest_request(&config.endpoint, session, config.site.as_str(), &request),
                )
            },
            None => Action::Finish,
        },
        State::GuestAuthorized { .. } => Action::Finish,
        State::Done { .. } => Action::Exit { code: EXIT_SUCCESS },
        State::Failed { .. } => Action::Exit { code: EXIT_FAILURE },
    }
}

impl Engine {
    /// A run that has not started.
    pub fn new(config: RunConfig) -> (r: Engine)
        ensures
            r@ == (EngineView { config: config@, state: StateView::Unauthenticated }),
    {
        Engine { config, state: State::Unauthenticated }
    }

    pub fn config(&self) -> (r: &RunConfig)
        ensures
            r@ == self@.config,
    {
        &self.config
    }

    pub fn state(&self) -> (r: &State)
        ensures
            r@ == self@.state,
    {
        &self.state
    }

    /// What the caller is to do in the present state.
    pub fn action(&self) -> (r: Action)
        ensures
            r@ == action_of(self@.config, self@.state),
    {
        action_for(&self.config, &self.state)
    }

    /// Takes what the caller reports, moves one state on, and says what to
    /// do next.
    pub fn step(self, event: Event) -> (r: (Engine, Action))
        ensures
            r.0@.config == self@.config,
            r.0@.state == next_state(self@.config, self@.state, event@),
            r.1@ == action_of(self@.config, r.0@.state),
    {
        let Engine { config, state } = self;
        let next = advance(&config, state, event);
        let action = action_for(&config, &next);
        (Engine { config, state: next }, action)
    }

    /// The exit code of a run that is over, `None` while it is not.
    pub fn exit_code(&self) -> (r: Option<u8>)
        ensures
            r == exit_code_of(self@.state),
    {
        match &self.state {
            State::Done { .. } => Some(EXIT_SUCCESS),
            State::Failed { .. } => Some(EXIT_FAILURE),
            _ => None,
        }
    }
}

/// The state that a run reaches from `state` on a series of events.
pub open spec fn run(config: RunConfigView, state: StateView, events: Seq<EventView>) -> StateView
    decreases events.len(),
{
    if events.len() == 0 {
        state
    } else {
        run(config, next_state(config, state, events[0]), events.drop_first())
    }
}

/// No arrow leads back: a step leaves the state as it is, fails it, or takes
/// it one arrow on, from `Verified` straight to `Done` where no device was
/// named.
pub proof fn lemma_no_backward_transition(
    config: RunConfigView,
    state: StateView,
    event: EventView,
)
    ensures
        ({
            let next = next_state(config, state, event);
            ||| next == state
            ||| next is Failed && !state.terminal()
            ||| next.rank() == state.rank() + 1 && !(next is Failed)
            ||| state is Verified && next is Done && config.test_mac is None
        }),
{
}

/// `Done` and `Failed` are final: no event moves them, and they ask for
/// nothing but to leave.
pub proof fn lemma_terminal_states_stay(config: RunConfigView, state: StateView, event: EventView)
    requires
        state.terminal(),
    ensures
        next_state(config, state, event) == state,
        action_of(config, state) is Exit,
        action_of(config, state)->code == EXIT_SUCCESS <==> state is Done,
{
}

/// Once a run has failed it stays failed, whatever is reported to it, and it
/// sends nothing more.
pub proof fn lemma_failure_halts(config: RunConfigView, state: StateView, events: Seq<EventView>)
    requires
        state is Failed,
    ensures
        run(config, state, events) == state,
        action_of(config, run(config, state, events)) == (ActionView::Exit { code: EXIT_FAILURE }),
    decreases events.len(),
{
    if events.len() > 0 {
        lemma_failure_halts(config, state, events.drop_first());
    }
}

/// Each arrow needs the success of the stage before it: a state is entered
/// only from the state before it, on an answer that its stage accepts.
pub proof fn lemma_arrow_requires_success(
    config: RunConfigView,
    state: StateView,
    event: EventView,
)
    requires
        next_state(config, state, event) != state,
    ensures
        ({
            let next = next_state(config, state, event);
            &&& next is Authenticated ==> state is Unauthenticated && event is Response
                && login_outcome(event->Response_0) == Ok::<_, ProtocolErrorView>(
                next->Authenticated_session,
            )
            &&& next is Verified ==> state is Authenticated && event is Response && sites_outcome(
                event->Response_0,
            ) == Ok::<_, ProtocolErrorView>(next->Verified_sites)
            &&& next is GuestAuthorized ==> state is Verified && config.test_mac is Some
                && event is Response && guest_outcome(event->Response_0) is Ok
            &&& next is Done ==> event is Finished && (state is GuestAuthorized || state is Verified
                && config.test_mac is None)
            &&& !(next is Unauthenticated)
        }),
{
}

/// A failure names the stage whose request failed, and carries that
/// request's error.
pub proof fn lemma_failure_names_stage(config: RunConfigView, state: StateView, event: EventView)
    requires
        !(state is Failed),
        next_state(config, state, event) is Failed,
    ensures
        ({
            let next = next_state(config, state, event);
            &&& state.stage(config) == Some(next->Failed_stage)
            &&& match event {
                EventView::TransportFailure { message } => next->Failed_error == (
                ProtocolErrorView::TransportError { message }),
                EventView::Response(r) => match next->Failed_stage {
                    Stage::Login => login_outcome(r) == Err::<Seq<char>, _>(next->Failed_error),
                    Stage::Verification => sites_outcome(r) == Err::<Seq<SiteView>, _>(
                        next->Failed_error,
                    ),
                    Stage::GuestAuthorization => guest_outcome(r) == Err::<(), _>(
                        next->Failed_error,
                    ),
                },
                EventView::Finished => false,
            }
        }),
{
}

/// Without a device named there is no guest authorization: the only requests
/// are the login and the sites listing, no answer is read as that of a guest
/// authorization, and no failure is laid at that stage.
pub proof fn lemma_no_guest_call_without_mac(
    config: RunConfigView,
    state: StateView,
    event: EventView,
)
    requires
        config.test_mac is None,
    ensures
        action_of(config, state) is Send ==> {
            ||| state is Unauthenticated && action_of(config, state) == ActionView::Send(
                login_request_of(config.endpoint, config.credentials),
            )
            ||| state is Authenticated && action_of(config, state) == ActionView::Send(
                sites_request_of(config.endpoint, state->Authenticated_session),
            )
        },
        !(state is GuestAuthorized) ==> !(next_state(config, state, event) is GuestAuthorized),
        !(state is Failed) && next_state(config, state, event) is Failed ==> next_state(
            config,
            state,
            event,
        )->Failed_stage != Stage::GuestAuthorization,
{
}

/// With a device named, `Verified` asks for the guest authorization of that
/// device, under the session and with the fixed policy values.
pub proof fn lemma_guest_call_with_mac(config: RunConfigView, state: StateView)
    requires
        config.test_mac is Some,
        state is Verified,
    ensures
        action_of(config, state) == ActionView::Send(
            guest_request_of(
                config.endpoint,
                state->Verified_session,
                config.site,
                guest_auth_defaults(config.test_mac->0),
            ),
        ),
{
}

/// Whatever the configuration, the answer to the login decides the first
/// arrow: a session, and with it `Authenticated`, exactly for a success status
/// with a `Set-Cookie` header; the rejection or the missing session at the
/// login stage otherwise.
pub proof fn lemma_login_step(config: RunConfigView, response: HttpResponseView)
    ensures
        ({
            let next = next_state(
                config,
                StateView::Unauthenticated,
                EventView::Response(response),
            );
            &&& next is Authenticated <==> success_status(response.status) && has_header(
                response.headers,
                "set-cookie"@,
            )
            &&& next is Authenticated ==> Some(next->Authenticated_session) == header_value(
                response.headers,
                "set-cookie"@,
            )
            &&& !success_status(response.status) ==> next == (StateView::Failed {
                stage: Stage::Login,
                error: ProtocolErrorView::AuthRejected { status: response.status },
            })
            &&& success_status(response.status) && !has_header(response.headers, "set-cookie"@)
                ==> next == (StateView::Failed {
                stage: Stage::Login,
                error: ProtocolErrorView::MissingSession,
            })
        }),
{
    lemma_session_iff_success_and_cookie(response);
}

/// Whether a device is named changes nothing before the guest authorization:
/// the login and the sites listing end in the same state with and without
/// one. Without one the run asks for nothing after `Verified`, and ends with
/// the exit code of success.
pub proof fn lemma_guest_stage_is_optional(
    config: RunConfigView,
    login: EventView,
    listing: EventView,
)
    ensures
        ({
            let without = RunConfigView { test_mac: None, ..config };
            let reached = run(config, StateView::Unauthenticated, seq![login, listing]);
            let bare = run(without, StateView::Unauthenticated, seq![login, listing]);
            &&& reached == bare
            &&& bare is Verified ==> action_of(without, bare) is Finish && exit_code_of(
                next_state(without, bare, EventView::Finished),
            ) == Some(EXIT_SUCCESS)
        }),
{
    reveal_with_fuel(run, 3);
}

/// A run without a guest device, told from its two answers: it ends with the
/// exit code of success exactly when the login and the sites listing both
/// succeed, and fails at the first stage that does not, with that stage's
/// error.
pub proof fn lemma_run_without_mac(
    config: RunConfigView,
    login: HttpResponseView,
    listing: HttpResponseView,
)
    requires
        config.test_mac is None,
    ensures
        ({
            let end = run(
                config,
                StateView::Unauthenticated,
                seq![
                    EventView::Response(login),
                    EventView::Response(listing),
                    EventView::Finished,
                ],
            );
            &&& exit_code_of(end) == Some(EXIT_SUCCESS) <==> login_outcome(login) is Ok
                && sites_outcome(listing) is Ok
            &&& login_outcome(login) matches Err(error) ==> end == (StateView::Failed {
                stage: Stage::Login,
                error,
            })
            &&& login_outcome(login) is Ok ==> match sites_outcome(listing) {
                Ok(sites) => end == (StateView::Done { sites, guest_authorized: false }),
                Err(error) => end == (StateView::Failed { stage: Stage::Verification, error }),
            }
        }),
{
    reveal_with_fuel(run, 4);
}

/// A run with a guest device, told from its three answers: it ends with the
/// exit code of success exactly when the login, the sites listing and the
/// guest authorization all succeed, and fails at the first stage that does
/// not, with that stage's error.
pub proof fn lemma_run_with_mac(
    config: RunConfigView,
    login: HttpResponseView,
    listing: HttpResponseView,
    guest: HttpResponseView,
)
    requires
        config.test_mac is Some,
    ensures
        ({
            let end = run(
                config,
                StateView::Unauthenticated,
                seq![
                    EventView::Response(login),
                    EventView::Response(listing),
                    EventView::Response(guest),
                    EventView::Finished,
                ],
            );
            &&& exit_code_of(end) == Some(EXIT_SUCCESS) <==> login_outcome(login) is Ok
                && sites_outcome(listing) is Ok && guest_outcome(guest) is Ok
            &&& login_outcome(login) matches Err(error) ==> end == (StateView::Failed {
                stage: Stage::Login,
                error,
            })
            &&& login_outcome(login) is Ok ==> match sites_outcome(listing) {
                Ok(sites) => match guest_outcome(guest) {
                    Ok(_) => end == (StateView::Done { sites, guest_authorized: true }),
                    Err(error) => end == (StateView::Failed {
                        stage: Stage::GuestAuthorization,
                        error,
                    }),
                },
                Err(error) => end == (StateView::Failed { stage: Stage::Verification, error }),
            }
        }),
{
    reveal_with_fuel(run, 5);
}

} // verus!
