//! The flow as a state machine. The machine decides; its caller acts: it
//! posts the forms, shows the prompt, sleeps, and reports back what happened.

use crate::auth::requests::{
    AuthenticationRequest, DeviceCodeAuthenticationRequest, HttpRequest, RefreshRequest,
    API_SCOPE, AUTH_ENDPOINT, CLIENT_ID, DEVICE_CODE_ENDPOINT, DEVICE_CODE_GRANT, REFRESH_GRANT,
};
use crate::auth::responses::{
    is_success, verdict_model, AuthenticationResponse, ChallengeModel, ChallengePrompt,
    DeviceCodeChallenge, PromptModel, ResponseModel, TokenRecord,
};
use crate::auth::scheduler::{least, PollingScheduler, Schedule};
use crate::auth::taxonomy::{AuthorizationOutcome, Outcome};
use crate::error::{AuthenticationError, Failure, Rejection};
use crate::json::json_document;
use vstd::prelude::*;
use vstd::string::StringExecFns;

verus! {

/// The mathematical model of an [`HttpRequest`].
pub struct RequestModel {
    pub url: Seq<char>,
    pub body: Seq<u8>,
}

impl View for HttpRequest {
    type V = RequestModel;

    open spec fn view(&self) -> RequestModel {
        RequestModel { url: self.url@, body: self.body@ }
    }
}

/// Who asks, for what, and where: fixed when the flow is made.
#[derive(Clone, Debug, PartialEq, Eq)]
pub struct FlowConfig {
    pub client_id: String,
    pub scope: String,
    pub device_code_endpoint: String,
    pub token_endpoint: String,
}

/// The mathematical model of a [`FlowConfig`].
pub struct ConfigModel {
    pub client_id: Seq<char>,
    pub scope: Seq<char>,
    pub device_code_endpoint: Seq<char>,
    pub token_endpoint: Seq<char>,
}

impl View for FlowConfig {
    type V = ConfigModel;

    open spec fn view(&self) -> ConfigModel {
        ConfigModel {
            client_id: self.client_id@,
            scope: self.scope@,
            device_code_endpoint: self.device_code_endpoint@,
            token_endpoint: self.token_endpoint@,
        }
    }
}

impl ConfigModel {
    /// The configuration that a flow has unless it is given another.
    pub open spec fn standard() -> ConfigModel {
        ConfigModel {
            client_id: CLIENT_ID@,
            scope: API_SCOPE@,
            device_code_endpoint: DEVICE_CODE_ENDPOINT@,
            token_endpoint: AUTH_ENDPOINT@,
        }
    }

    /// The request for a device code.
    pub open spec fn device_code_request(self) -> RequestModel {
        RequestModel {
            url: self.device_code_endpoint,
            body: DeviceCodeAuthenticationRequest::body(self.client_id, self.scope),
        }
    }

    /// The poll for the token behind a device code.
    pub open spec fn poll_request(self, device_code: Seq<char>) -> RequestModel {
        RequestModel {
            url: self.token_endpoint,
            body: AuthenticationRequest::body(self.client_id, device_code, DEVICE_CODE_GRANT@),
        }
    }

    /// The request for a fresh token in exchange for a refresh token.
    pub open spec fn refresh_request(self, refresh_token: Seq<char>) -> RequestModel {
        RequestModel {
            url: self.token_endpoint,
            body: RefreshRequest::body(self.client_id, REFRESH_GRANT@, refresh_token),
        }
    }
}

impl Default for FlowConfig {
    fn default() -> (config: FlowConfig)
        ensures
            config@ == ConfigModel::standard(),
    {
        FlowConfig {
            client_id: String::from_str(CLIENT_ID),
            scope: String::from_str(API_SCOPE),
            device_code_endpoint: String::from_str(DEVICE_CODE_ENDPOINT),
            token_endpoint: String::from_str(AUTH_ENDPOINT),
        }
    }
}

impl FlowConfig {
    /// The request for a device code.
    pub fn device_code_request(&self) -> (request: HttpRequest)
        ensures
            request@ == self@.device_code_request(),
    {
        let form = DeviceCodeAuthenticationRequest {
            client_id: self.client_id.as_str(),
            scope: self.scope.as_str(),
        };
        HttpRequest { url: self.device_code_endpoint.clone(), body: form.encode() }
    }

    /// The poll for the token behind a device code.
    pub fn poll_request(&self, device_code: &str) -> (request: HttpRequest)
        ensures
            request@ == self@.poll_request(device_code@),
    {
        let form = AuthenticationRequest::new(self.client_id.as_str(), device_code);
        HttpRequest { url: self.token_endpoint.clone(), body: form.encode() }
    }

    /// The request for a fresh token in exchange for a refresh token.
    pub fn refresh_request(&self, refresh_token: &str) -> (request: HttpRequest)
        ensures
            request@ == self@.refresh_request(refresh_token@),
    {
        let form = RefreshRequest::new(self.client_id.as_str(), refresh_token);
        HttpRequest { url: self.token_endpoint.clone(), body: form.encode() }
    }
}

/// One authorization that the user has been asked for: the challenge, and
/// the schedule of its polls.
pub struct PollSession {
    pub challenge: DeviceCodeChallenge,
    pub scheduler: PollingScheduler,
}

/// The mathematical model of a [`PollSession`].
pub struct Session {
    pub challenge: ChallengeModel,
    pub schedule: Schedule,
}

impl View for PollSession {
    type V = Session;

    open spec fn view(&self) -> Session {
        Session { challenge: self.challenge@, schedule: self.scheduler@ }
    }
}

/// Where a flow stands. All states but the first two are final.
pub enum FlowState {
    /// No challenge has been issued yet.
    Init,
    /// A challenge is out; the flow polls until the user has acted on it.
    AwaitingUserAction(PollSession),
    /// The user signed in and the tokens were handed over.
    Authorized,
    /// The user refused.
    Declined,
    /// A request failed, or an answer could not be used.
    Failed,
    /// The challenge expired before the user acted.
    Expired,
    /// The caller gave the attempt up.
    Cancelled,
}

/// The mathematical model of a [`FlowState`].
pub enum State {
    Init,
    AwaitingUserAction(Session),
    Authorized,
    Declined,
    Failed,
    Expired,
    Cancelled,
}

impl View for FlowState {
    type V = State;

    open spec fn view(&self) -> State {
        match *self {
            FlowState::Init => State::Init,
            FlowState::AwaitingUserAction(session) => State::AwaitingUserAction(session@),
            FlowState::Authorized => State::Authorized,
            FlowState::Declined => State::Declined,
            FlowState::Failed => State::Failed,
            FlowState::Expired => State::Expired,
            FlowState::Cancelled => State::Cancelled,
        }
    }
}

impl State {
    /// Whether the flow has ended.
    pub open spec fn is_terminal(self) -> bool {
        !(self is Init) && !(self is AwaitingUserAction)
    }
}

impl FlowState {
    /// Whether the flow has ended.
    pub fn is_terminal(&self) -> (r: bool)
        ensures
            r == self@.is_terminal(),
    {
        match self {
            FlowState::Init => false,
            FlowState::AwaitingUserAction(_) => false,
            _ => true,
        }
    }
}

/// What the caller reports to the flow.
#[derive(Clone, PartialEq, Eq)]
pub enum FlowEvent {
    /// The caller wants to sign in.
    Start,
    /// The provider issued a challenge.
    Challenge(DeviceCodeChallenge),
    /// The provider's answer could not be used; holds the raw body.
    Malformed(String),
    /// The provider answered a poll.
    Polled(AuthorizationOutcome),
    /// A request did not get through; holds the cause.
    TransportFailed(String),
    /// The sleep that the flow asked for is over.
    Woke,
    /// The caller's clock: so many seconds have passed since the challenge
    /// arrived.
    Elapsed(u64),
    /// The caller gives the attempt up.
    Cancel,
}

impl FlowEvent {
    /// The event that an answer to the request for a device code amounts to,
    /// given whether it reports success, the challenge as far as it could be
    /// read, and the raw body.
    pub fn issued(succeeded: bool, challenge: Option<DeviceCodeChallenge>, raw: String) -> (event:
        FlowEvent)
        ensures
            event@ == FlowModel::issued(succeeded, challenge.deep_view(), raw@),
    {
        match challenge {
            Some(challenge) => if succeeded {
                FlowEvent::Challenge(challenge)
            } else {
                FlowEvent::Malformed(raw)
            },
            None => FlowEvent::Malformed(raw),
        }
    }
}

/// The mathematical model of a [`FlowEvent`].
pub enum Event {
    Start,
    Challenge(ChallengeModel),
    Malformed(Seq<char>),
    Polled(Outcome),
    TransportFailed(Seq<char>),
    Woke,
    Elapsed(u64),
    Cancel,
}

impl View for FlowEvent {
    type V = Event;

    open spec fn view(&self) -> Event {
        match *self {
            FlowEvent::Start => Event::Start,
            FlowEvent::Challenge(challenge) => Event::Challenge(challenge@),
            FlowEvent::Malformed(raw) => Event::Malformed(raw@),
            FlowEvent::Polled(outcome) => Event::Polled(outcome@),
            FlowEvent::TransportFailed(cause) => Event::TransportFailed(cause@),
            FlowEvent::Woke => Event::Woke,
            FlowEvent::Elapsed(seconds) => Event::Elapsed(seconds),
            FlowEvent::Cancel => Event::Cancel,
        }
    }
}

impl DeepView for FlowEvent {
    type V = Event;

    open spec fn deep_view(&self) -> Event {
        self@
    }
}

/// What the flow asks its caller to do next.
#[derive(PartialEq, Eq)]
pub enum FlowAction {
    /// Post the request for a device code, and report the answer.
    RequestDeviceCode(HttpRequest),
    /// Show the prompt to the user, then post the first poll, and report the
    /// answer.
    Prompt { prompt: ChallengePrompt, poll: HttpRequest },
    /// Post another poll, and report the answer.
    Poll(HttpRequest),
    /// Sleep for so many seconds, then report that the sleep is over.
    Sleep(u64),
    /// The flow has ended: hand this to whoever asked for the sign-in.
    Finish(Result<AuthenticationResponse, AuthenticationError>),
    /// Nothing to do: the event did not concern the flow as it stands.
    Idle,
}

/// The mathematical model of a [`FlowAction`].
pub enum Action {
    RequestDeviceCode(RequestModel),
    Prompt { prompt: PromptModel, poll: RequestModel },
    Poll(RequestModel),
    Sleep(u64),
    Finish(Result<TokenRecord, Failure>),
    Idle,
}

impl View for FlowAction {
    type V = Action;

    open spec fn view(&self) -> Action {
        match *self {
            FlowAction::RequestDeviceCode(request) => Action::RequestDeviceCode(request@),
            FlowAction::Prompt { prompt, poll } => Action::Prompt { prompt: prompt@, poll: poll@ },
            FlowAction::Poll(request) => Action::Poll(request@),
            FlowAction::Sleep(seconds) => Action::Sleep(seconds),
            FlowAction::Finish(result) => Action::Finish(verdict_model(result)),
            FlowAction::Idle => Action::Idle,
        }
    }
}

impl DeepView for FlowAction {
    type V = Action;

    open spec fn deep_view(&self) -> Action {
        self@
    }
}

impl Action {
    /// Whether the action posts a poll.
    pub open spec fn is_poll(self) -> bool {
        self is Prompt || self is Poll
    }
}

/// The mathematical model of a flow: its configuration and where it stands.
pub struct FlowModel {
    pub config: ConfigModel,
    pub state: State,
}

impl FlowModel {
    /// A flow that has not begun.
    pub open spec fn fresh(config: ConfigModel) -> FlowModel {
        FlowModel { config, state: State::Init }
    }

    /// The flow ends in `state`, and hands `result` to its caller.
    pub open spec fn finish(self, state: State, result: Result<TokenRecord, Failure>) -> (
        FlowModel,
        Action,
    ) {
        (FlowModel { state, ..self }, Action::Finish(result))
    }

    /// The flow ends because the polling window has closed.
    pub open spec fn expire(self) -> (FlowModel, Action) {
        self.finish(State::Expired, Err(Failure::AuthorizationFailed(Rejection::Expired)))
    }

    /// The flow ends because a request did not get through.
    pub open spec fn fail_transport(self, cause: Seq<char>) -> (FlowModel, Action) {
        self.finish(State::Failed, Err(Failure::NetworkError(cause)))
    }

    /// The flow ends because an answer could not be used.
    pub open spec fn fail_malformed(self, raw: Seq<char>) -> (FlowModel, Action) {
        self.finish(State::Failed, Err(Failure::UnexpectedResponse(raw)))
    }

    /// The flow ends because the caller gave it up.
    pub open spec fn cancel(self) -> (FlowModel, Action) {
        self.finish(State::Cancelled, Err(Failure::Cancelled))
    }

    /// A challenge arrives: its schedule is consulted for the first poll.
    pub open spec fn accept(self, challenge: ChallengeModel) -> (FlowModel, Action) {
        let schedule = Schedule::fresh(challenge.interval as nat, challenge.expires_in as nat);
        if schedule.is_open() {
            (
                FlowModel {
                    state: State::AwaitingUserAction(
                        Session { challenge, schedule: schedule.after_tick() },
                    ),
                    ..self
                },
                Action::Prompt {
                    prompt: challenge.prompt(),
                    poll: self.config.poll_request(challenge.device_code),
                },
            )
        } else {
            self.expire()
        }
    }

    /// A sleep is over: the schedule is consulted for the next poll.
    pub open spec fn wake(self, session: Session) -> (FlowModel, Action) {
        if session.schedule.is_open() {
            (
                FlowModel {
                    state: State::AwaitingUserAction(
                        Session { schedule: session.schedule.after_tick(), ..session },
                    ),
                    ..self
                },
                Action::Poll(self.config.poll_request(session.challenge.device_code)),
            )
        } else {
            self.expire()
        }
    }

    /// The caller has looked at the clock: the schedule takes note, and
    /// nothing is asked for.
    pub open spec fn note(self, session: Session, seconds: u64) -> (FlowModel, Action) {
        (
            FlowModel {
                state: State::AwaitingUserAction(
                    Session { schedule: session.schedule.observed(seconds as nat), ..session },
                ),
                ..self
            },
            Action::Idle,
        )
    }

    /// A poll was answered: a pending authorization asks for a sleep of one
    /// interval, anything else ends the flow.
    pub open spec fn settle(self, session: Session, outcome: Outcome) -> (FlowModel, Action) {
        match outcome {
            Outcome::Pending => (self, Action::Sleep(session.challenge.interval)),
            Outcome::Success(token) => self.finish(State::Authorized, Ok(token)),
            Outcome::Declined => self.finish(
                State::Declined,
                Err(Failure::AuthorizationFailed(Rejection::Declined)),
            ),
            Outcome::BadVerificationCode => self.finish(
                State::Failed,
                Err(Failure::AuthorizationFailed(Rejection::BadVerificationCode)),
            ),
            Outcome::Expired => self.expire(),
            Outcome::Unclassified(raw) => self.fail_malformed(raw),
        }
    }

    /// The event that the transport's report amounts to: while a challenge
    /// is out, the report answers a poll; otherwise it answers the request
    /// for a device code.
    pub open spec fn interpret(self, reply: Result<ResponseModel, Seq<char>>) -> Event {
        match reply {
            Err(cause) => Event::TransportFailed(cause),
            Ok(response) => if self.state is AwaitingUserAction {
                Event::Polled(Outcome::of_response(response.status, response.body))
            } else {
                Self::issued(
                    is_success(response.status),
                    ChallengeModel::decode(response.body),
                    response.body,
                )
            },
        }
    }

    /// The event that an answer to the request for a device code amounts to,
    /// given whether it reports success, the challenge as far as it could be
    /// read, and the raw body.
    pub open spec fn issued(succeeded: bool, challenge: Option<ChallengeModel>, raw: Seq<char>)
        -> Event {
        if succeeded && challenge is Some {
            Event::Challenge(challenge.unwrap())
        } else {
            Event::Malformed(raw)
        }
    }

    /// The flow after an event, and what it asks its caller to do.
    pub open spec fn step(self, event: Event) -> (FlowModel, Action) {
        match self.state {
            State::Init => match event {
                Event::Start => (self, Action::RequestDeviceCode(self.config.device_code_request())),
                Event::Challenge(challenge) => self.accept(challenge),
                Event::Malformed(raw) => self.fail_malformed(raw),
                Event::TransportFailed(cause) => self.fail_transport(cause),
                Event::Cancel => self.cancel(),
                Event::Polled(_) => (self, Action::Idle),
                Event::Woke => (self, Action::Idle),
                Event::Elapsed(_) => (self, Action::Idle),
            },
            State::AwaitingUserAction(session) => match event {
                Event::Polled(outcome) => self.settle(session, outcome),
                Event::Woke => self.wake(session),
                Event::Elapsed(seconds) => self.note(session, seconds),
                Event::Malformed(raw) => self.fail_malformed(raw),
                Event::TransportFailed(cause) => self.fail_transport(cause),
                Event::Cancel => self.cancel(),
                Event::Start => (self, Action::Idle),
                Event::Challenge(_) => (self, Action::Idle),
            },
            _ => (self, Action::Idle),
        }
    }
}

/// How many of the actions post a poll.
pub open spec fn polls(trace: Seq<Action>) -> nat
    decreases trace.len(),
{
    if trace.len() == 0 {
        0
    } else {
        polls(trace.drop_last()) + if trace.last().is_poll() {
            1nat
        } else {
            0nat
        }
    }
}

/// The sleeps that the actions ask for, in order, each by its seconds.
pub open spec fn naps(trace: Seq<Action>) -> Seq<u64>
    decreases trace.len(),
{
    if trace.len() == 0 {
        Seq::empty()
    } else {
        match trace.last() {
            Action::Sleep(seconds) => naps(trace.drop_last()).push(seconds),
            _ => naps(trace.drop_last()),
        }
    }
}

/// How many of the actions hand over the result of the flow.
pub open spec fn finishes(trace: Seq<Action>) -> nat
    decreases trace.len(),
{
    if trace.len() == 0 {
        0
    } else {
        finishes(trace.drop_last()) + if trace.last() is Finish {
            1nat
        } else {
            0nat
        }
    }
}

/// Whether none of the events brings a challenge.
pub open spec fn no_challenge(events: Seq<Event>) -> bool {
    forall|i: int| 0 <= i < events.len() ==> !(#[trigger] events[i] is Challenge)
}

/// Whether every action is `Idle`.
pub open spec fn all_idle(trace: Seq<Action>) -> bool {
    forall|i: int| 0 <= i < trace.len() ==> trace[i] == Action::Idle
}

/// `rounds` times: the answer to a poll is a pending authorization, and the
/// sleep that follows is reported over.
pub open spec fn pending_rounds(rounds: nat) -> Seq<Event>
    decreases rounds,
{
    if rounds == 0 {
        Seq::empty()
    } else {
        pending_rounds((rounds - 1) as nat) + seq![Event::Polled(Outcome::Pending), Event::Woke]
    }
}

/// `rounds` times: a sleep of `seconds`, then the poll `poll`.
pub open spec fn paced_polls(rounds: nat, seconds: u64, poll: RequestModel) -> Seq<Action>
    decreases rounds,
{
    if rounds == 0 {
        Seq::empty()
    } else {
        paced_polls((rounds - 1) as nat, seconds, poll) + seq![
            Action::Sleep(seconds),
            Action::Poll(poll),
        ]
    }
}

/// The polls and the sleeps of a single action.
pub proof fn lemma_single_action(action: Action)
    ensures
        polls(seq![action]) == if action.is_poll() {
            1nat
        } else {
            0nat
        },
        naps(seq![action]) == match action {
            Action::Sleep(seconds) => seq![seconds],
            _ => Seq::<u64>::empty(),
        },
{
    reveal_with_fuel(polls, 2);
    reveal_with_fuel(naps, 2);
    let trace = seq![action];
    assert(trace.drop_last() =~= Seq::<Action>::empty());
    match action {
        Action::Sleep(seconds) => {
            assert(naps(trace) =~= seq![seconds]);
        },
        _ => {},
    }
}

/// The polls of two traces in a row are those of the first and those of the
/// second.
pub proof fn lemma_polls_concat(a: Seq<Action>, b: Seq<Action>)
    ensures
        polls(a + b) == polls(a) + polls(b),
    decreases b.len(),
{
    if b.len() == 0 {
        assert(a + b =~= a);
    } else {
        assert((a + b).drop_last() =~= a + b.drop_last());
        lemma_polls_concat(a, b.drop_last());
    }
}

/// The sleeps of two traces in a row are those of the first, then those of
/// the second.
pub proof fn lemma_naps_concat(a: Seq<Action>, b: Seq<Action>)
    ensures
        naps(a + b) == naps(a) + naps(b),
    decreases b.len(),
{
    if b.len() == 0 {
        assert(a + b =~= a);
        assert(naps(a) + naps(b) =~= naps(a));
    } else {
        assert((a + b).drop_last() =~= a + b.drop_last());
        lemma_naps_concat(a, b.drop_last());
        assert(naps(a + b) =~= naps(a) + naps(b));
    }
}

/// `rounds` paced polls hold that many polls and that many sleeps, each of
/// the same length.
pub proof fn lemma_paced_polls(rounds: nat, seconds: u64, poll: RequestModel)
    ensures
        polls(paced_polls(rounds, seconds, poll)) == rounds,
        naps(paced_polls(rounds, seconds, poll)) == Seq::new(rounds, |i: int| seconds),
    decreases rounds,
{
    let trace = paced_polls(rounds, seconds, poll);
    if rounds == 0 {
        assert(naps(trace) =~= Seq::new(rounds, |i: int| seconds));
    } else {
        let before = paced_polls((rounds - 1) as nat, seconds, poll);
        let round = seq![Action::Sleep(seconds), Action::Poll(poll)];
        lemma_paced_polls((rounds - 1) as nat, seconds, poll);
        lemma_polls_concat(before, round);
        lemma_naps_concat(before, round);
        let sleep = seq![Action::Sleep(seconds)];
        let poll_again = seq![Action::Poll(poll)];
        assert(round =~= sleep + poll_again);
        lemma_single_action(Action::Sleep(seconds));
        lemma_single_action(Action::Poll(poll));
        lemma_polls_concat(sleep, poll_again);
        lemma_naps_concat(sleep, poll_again);
        assert(naps(round) =~= seq![seconds]);
        assert(naps(trace) =~= Seq::new(rounds, |i: int| seconds));
    }
}

impl FlowModel {
    /// The flow after a run of events, and what it asked its caller to do
    /// after each of them.
    pub open spec fn run(self, events: Seq<Event>) -> (FlowModel, Seq<Action>)
        decreases events.len(),
    {
        if events.len() == 0 {
            (self, Seq::empty())
        } else {
            let (mid, trace) = self.run(events.drop_last());
            let (post, action) = mid.step(events.last());
            (post, trace.push(action))
        }
    }

    /// A run of one event is one step.
    pub proof fn lemma_run_one(self, event: Event)
        ensures
            self.run(seq![event]) == (self.step(event).0, seq![self.step(event).1]),
    {
        let events = seq![event];
        assert(events.drop_last() =~= Seq::<Event>::empty());
        assert(self.run(events.drop_last()) == (self, Seq::<Action>::empty()));
        assert(Seq::<Action>::empty().push(self.step(event).1) =~= seq![self.step(event).1]);
    }

    /// A run of two runs of events in a row is the second run made where the
    /// first one ended.
    pub proof fn lemma_run_concat(self, first: Seq<Event>, second: Seq<Event>)
        ensures
            self.run(first + second).0 == self.run(first).0.run(second).0,
            self.run(first + second).1 == self.run(first).1 + self.run(first).0.run(second).1,
            self.run(first + second).1.len() == first.len() + second.len(),
        decreases second.len(),
    {
        self.lemma_run_len(first);
        if second.len() == 0 {
            assert(first + second =~= first);
            assert(self.run(first).1 + Seq::<Action>::empty() =~= self.run(first).1);
        } else {
            assert((first + second).drop_last() =~= first + second.drop_last());
            self.lemma_run_concat(first, second.drop_last());
            let mid = self.run(first).0;
            let (before, trace) = mid.run(second.drop_last());
            let (post, action) = before.step(second.last());
            assert(self.run(first + second).1 =~= self.run(first).1 + trace.push(action));
        }
    }

    /// A run asks for one action per event.
    pub proof fn lemma_run_len(self, events: Seq<Event>)
        ensures
            self.run(events).1.len() == events.len(),
        decreases events.len(),
    {
        if events.len() > 0 {
            self.lemma_run_len(events.drop_last());
        }
    }

    /// A flow that has ended stays as it is whatever is reported to it, and
    /// asks for nothing more: no request, no sleep.
    pub proof fn lemma_ended_stays(self, events: Seq<Event>)
        requires
            self.state.is_terminal(),
        ensures
            self.run(events).0 == self,
            all_idle(self.run(events).1),
            polls(self.run(events).1) == 0,
            naps(self.run(events).1) == Seq::<u64>::empty(),
        decreases events.len(),
    {
        if events.len() > 0 {
            self.lemma_ended_stays(events.drop_last());
            let trace = self.run(events).1;
            assert(trace.drop_last() =~= self.run(events.drop_last()).1);
        }
    }

    /// A flow that has not begun and is never brought a challenge asks for no
    /// poll and no sleep, whatever else is reported to it.
    pub proof fn lemma_no_poll_without_challenge(self, events: Seq<Event>)
        requires
            self.state is Init,
            no_challenge(events),
        ensures
            polls(self.run(events).1) == 0,
            naps(self.run(events).1) == Seq::<u64>::empty(),
            !(self.run(events).0.state is AwaitingUserAction),
        decreases events.len(),
    {
        if events.len() > 0 {
            assert(no_challenge(events.drop_last())) by {
                assert forall|i: int| 0 <= i < events.drop_last().len() implies !(
                #[trigger] events.drop_last()[i] is Challenge) by {
                    assert(events.drop_last()[i] == events[i]);
                }
            }
            self.lemma_no_poll_without_challenge(events.drop_last());
            let (mid, trace) = self.run(events.drop_last());
            assert(self.run(events).1.drop_last() =~= trace);
            assert(!(events[events.len() - 1] is Challenge));
        }
    }

    /// While a challenge is out, the polls that the flow asks for never take
    /// the schedule past the attempts that its window has room for.
    pub proof fn lemma_polls_within_window(self, session: Session, events: Seq<Event>)
        requires
            self.state == State::AwaitingUserAction(session),
            session.schedule.wf(),
        ensures
            session.schedule.attempts + polls(self.run(events).1)
                <= session.schedule.max_attempts(),
            self.run(events).0.state matches State::AwaitingUserAction(after) ==> {
                &&& after.schedule.wf()
                &&& after.schedule.interval == session.schedule.interval
                &&& after.schedule.expires_in == session.schedule.expires_in
                &&& after.schedule.attempts == session.schedule.attempts + polls(
                    self.run(events).1,
                )
            },
            !(self.run(events).0.state is Init),
        decreases events.len(),
    {
        session.schedule.lemma_attempts_bounded();
        if events.len() > 0 {
            self.lemma_polls_within_window(session, events.drop_last());
            let (mid, trace) = self.run(events.drop_last());
            let (post, action) = mid.step(events.last());
            assert(self.run(events).1.drop_last() =~= trace);
            match mid.state {
                State::AwaitingUserAction(now) => {
                    now.schedule.lemma_after_tick_wf();
                    now.schedule.after_tick().lemma_attempts_bounded();
                    if let Event::Elapsed(seconds) = events.last() {
                        now.schedule.lemma_observed_wf(seconds as nat);
                    }
                },
                _ => {},
            }
        }
    }

    /// From the challenge on, whatever is reported to the flow and in whatever
    /// order, it asks for at most `expires_in / interval` polls, rounded up.
    pub proof fn lemma_polls_bounded(self, challenge: ChallengeModel, events: Seq<Event>)
        requires
            self.state is Init,
            challenge.interval >= 1,
        ensures
            polls(self.run(seq![Event::Challenge(challenge)] + events).1) <= Schedule::fresh(
                challenge.interval as nat,
                challenge.expires_in as nat,
            ).max_attempts(),
    {
        let first = seq![Event::Challenge(challenge)];
        let schedule = Schedule::fresh(challenge.interval as nat, challenge.expires_in as nat);
        Schedule::lemma_fresh_wf(challenge.interval as nat, challenge.expires_in as nat);
        self.lemma_run_one(Event::Challenge(challenge));
        self.lemma_run_concat(first, events);
        let (mid, action) = self.step(Event::Challenge(challenge));
        lemma_polls_concat(seq![action], mid.run(events).1);
        lemma_single_action(action);
        schedule.lemma_after_tick_wf();
        schedule.lemma_attempts_bounded();
        if schedule.is_open() {
            let session = Session { challenge, schedule: schedule.after_tick() };
            mid.lemma_polls_within_window(session, events);
        } else {
            mid.lemma_ended_stays(events);
        }
    }

    /// While a challenge is out and its window has room, `rounds` pending
    /// answers, each followed by the end of the sleep, make the flow sleep
    /// one interval and poll again, `rounds` times.
    pub proof fn lemma_pending_rounds(self, session: Session, rounds: nat)
        requires
            self.state == State::AwaitingUserAction(session),
            session.schedule.interval == session.challenge.interval,
            session.schedule.wf(),
            rounds >= 1 ==> session.schedule.elapsed + (rounds - 1) * session.schedule.interval
                < session.schedule.expires_in,
        ensures
            self.run(pending_rounds(rounds)).0 == (FlowModel {
                state: State::AwaitingUserAction(
                    Session {
                        schedule: Schedule {
                            attempts: session.schedule.attempts + rounds,
                            elapsed: least(
                                session.schedule.elapsed + rounds * session.schedule.interval,
                                session.schedule.expires_in,
                            ),
                            ..session.schedule
                        },
                        ..session
                    },
                ),
                ..self
            }),
            self.run(pending_rounds(rounds)).1 == paced_polls(
                rounds,
                session.challenge.interval,
                self.config.poll_request(session.challenge.device_code),
            ),
        decreases rounds,
    {
        if rounds == 0 {
            assert(0 * session.schedule.interval == 0) by (nonlinear_arith);
        } else {
            let before = (rounds - 1) as nat;
            let i = session.schedule.interval as int;
            let t = session.schedule.elapsed as int;
            let e = session.schedule.expires_in as int;
            assert(before >= 1 ==> t + (before - 1) * i < e) by (nonlinear_arith)
                requires
                    t + (rounds - 1) * i < e,
                    before == rounds - 1,
                    i >= 1,
            ;
            assert(before * i + i == rounds * i) by (nonlinear_arith)
                requires
                    before == rounds - 1,
            ;
            assert(0 <= before * i) by (nonlinear_arith)
                requires
                    before >= 0,
                    i >= 1,
            ;
            self.lemma_pending_rounds(session, before);
            let round = seq![Event::Polled(Outcome::Pending), Event::Woke];
            self.lemma_run_concat(pending_rounds(before), round);
            let mid = self.run(pending_rounds(before)).0;
            assert(round.drop_last() =~= seq![Event::Polled(Outcome::Pending)]);
            mid.lemma_run_one(Event::Polled(Outcome::Pending));
            assert(mid.run(round).1 =~= seq![
                Action::Sleep(session.challenge.interval),
                Action::Poll(self.config.poll_request(session.challenge.device_code)),
            ]);
        }
    }

    /// A flow that has just received its challenge, whose next `rounds` polls
    /// are answered with a pending authorization and the one after that with
    /// tokens, shows the prompt and polls, sleeps one interval and polls
    /// again `rounds` times, and hands over the tokens of the last answer:
    /// `rounds + 1` polls and `rounds` sleeps of one interval each. The
    /// window must have room for all of them.
    pub proof fn lemma_pending_then_success(
        self,
        challenge: ChallengeModel,
        rounds: nat,
        token: TokenRecord,
    )
        requires
            self.state is Init,
            challenge.interval >= 1,
            rounds * challenge.interval < challenge.expires_in,
        ensures
            ({
                let events = seq![Event::Challenge(challenge)] + pending_rounds(rounds) + seq![
                    Event::Polled(Outcome::Success(token)),
                ];
                let poll = self.config.poll_request(challenge.device_code);
                let (post, trace) = self.run(events);
                &&& post.state == State::Authorized
                &&& trace == seq![Action::Prompt { prompt: challenge.prompt(), poll }]
                    + paced_polls(rounds, challenge.interval, poll) + seq![
                    Action::Finish(Ok(token)),
                ]
                &&& polls(trace) == rounds + 1
                &&& naps(trace) == Seq::new(rounds, |i: int| challenge.interval)
            }),
    {
        let first = seq![Event::Challenge(challenge)];
        let last = seq![Event::Polled(Outcome::Success(token))];
        let poll = self.config.poll_request(challenge.device_code);
        let schedule = Schedule::fresh(challenge.interval as nat, challenge.expires_in as nat);
        let i = challenge.interval as int;
        let e = challenge.expires_in as int;
        assert(0 <= rounds * i) by (nonlinear_arith)
            requires
                rounds >= 0,
                i >= 1,
        ;
        assert(rounds >= 1 ==> i + (rounds - 1) * i == rounds * i && i <= rounds * i)
            by (nonlinear_arith)
            requires
                i >= 1,
        ;
        let session = Session { challenge, schedule: schedule.after_tick() };
        Schedule::lemma_fresh_wf(challenge.interval as nat, challenge.expires_in as nat);
        schedule.lemma_after_tick_wf();
        self.lemma_run_one(Event::Challenge(challenge));
        let begun = self.run(first).0;
        begun.lemma_pending_rounds(session, rounds);
        let polled = begun.run(pending_rounds(rounds)).0;
        polled.lemma_run_one(Event::Polled(Outcome::Success(token)));
        self.lemma_run_concat(first, pending_rounds(rounds));
        self.lemma_run_concat(first + pending_rounds(rounds), last);
        let prompt = seq![Action::Prompt { prompt: challenge.prompt(), poll }];
        let paced = paced_polls(rounds, challenge.interval, poll);
        let finish = seq![Action::Finish(Ok::<TokenRecord, Failure>(token))];
        lemma_paced_polls(rounds, challenge.interval, poll);
        lemma_polls_concat(prompt, paced);
        lemma_polls_concat(prompt + paced, finish);
        lemma_naps_concat(prompt, paced);
        lemma_naps_concat(prompt + paced, finish);
        lemma_single_action(prompt[0]);
        lemma_single_action(finish[0]);
        assert(prompt =~= seq![prompt[0]]);
        assert(finish =~= seq![finish[0]]);
        assert(naps(prompt + paced + finish) =~= Seq::new(rounds, |i: int| challenge.interval));
    }

    /// While a challenge is out, an answer to a poll that is anything but a
    /// pending authorization ends the flow at once: the flow hands over what
    /// the answer amounts to, and whatever is reported afterwards, it asks for
    /// no further request and no sleep.
    pub proof fn lemma_final_answer_ends_flow(
        self,
        session: Session,
        outcome: Outcome,
        later: Seq<Event>,
    )
        requires
            self.state == State::AwaitingUserAction(session),
            !outcome.is_recoverable(),
        ensures
            ({
                let (post, trace) = self.run(seq![Event::Polled(outcome)] + later);
                &&& post.state.is_terminal()
                &&& post == self.step(Event::Polled(outcome)).0
                &&& trace[0] == Action::Finish(outcome.verdict().unwrap())
                &&& all_idle(trace.subrange(1, trace.len() as int))
                &&& polls(trace) == 0
                &&& naps(trace) == Seq::<u64>::empty()
            }),
    {
        self.lemma_ends_flow(Event::Polled(outcome), later);
    }

    /// A flow that has not ended and is told that its caller gives up ends
    /// at once as cancelled: whatever is reported afterwards, it asks for no
    /// further request and no sleep.
    pub proof fn lemma_cancel_ends_flow(self, later: Seq<Event>)
        requires
            !self.state.is_terminal(),
        ensures
            ({
                let (post, trace) = self.run(seq![Event::Cancel] + later);
                &&& post.state == State::Cancelled
                &&& trace[0] == Action::Finish(Err(Failure::Cancelled))
                &&& all_idle(trace.subrange(1, trace.len() as int))
                &&& polls(trace) == 0
                &&& naps(trace) == Seq::<u64>::empty()
            }),
    {
        self.lemma_ends_flow(Event::Cancel, later);
    }

    /// While a challenge is out, an answer that reports no success and whose
    /// body is no JSON document ends the flow at once as failed, with the
    /// body as it came: whatever is reported afterwards, the flow asks for no
    /// further request and no sleep.
    pub proof fn lemma_unreadable_answer_fails_once(
        self,
        session: Session,
        response: ResponseModel,
        later: Seq<Event>,
    )
        requires
            self.state == State::AwaitingUserAction(session),
            !is_success(response.status),
            json_document(response.body) is None,
        ensures
            ({
                let (post, trace) = self.run(seq![self.interpret(Ok(response))] + later);
                &&& post.state == State::Failed
                &&& trace[0] == Action::Finish(Err(Failure::UnexpectedResponse(response.body)))
                &&& all_idle(trace.subrange(1, trace.len() as int))
                &&& polls(trace) == 0
                &&& naps(trace) == Seq::<u64>::empty()
            }),
    {
        Outcome::lemma_invalid_json_unclassified(response.status, response.body);
        self.lemma_ends_flow(self.interpret(Ok(response)), later);
    }

    /// Whatever is reported to a flow, it hands over a result at most once:
    /// never after it has ended, and exactly when it ends.
    pub proof fn lemma_ends_at_most_once(self, events: Seq<Event>)
        ensures
            finishes(self.run(events).1) <= 1,
            self.state.is_terminal() ==> finishes(self.run(events).1) == 0,
            !self.state.is_terminal() ==> (finishes(self.run(events).1) == 1
                <==> self.run(events).0.state.is_terminal()),
        decreases events.len(),
    {
        if events.len() > 0 {
            self.lemma_ends_at_most_once(events.drop_last());
            let (mid, trace) = self.run(events.drop_last());
            assert(self.run(events).1.drop_last() =~= trace);
            if self.state.is_terminal() {
                self.lemma_ended_stays(events.drop_last());
            }
        }
    }

    /// An event that ends the flow is followed by idle actions only.
    proof fn lemma_ends_flow(self, event: Event, later: Seq<Event>)
        requires
            self.step(event).0.state.is_terminal(),
            self.step(event).1 is Finish,
        ensures
            ({
                let (post, trace) = self.run(seq![event] + later);
                &&& post == self.step(event).0
                &&& trace[0] == self.step(event).1
                &&& all_idle(trace.subrange(1, trace.len() as int))
                &&& polls(trace) == 0
                &&& naps(trace) == Seq::<u64>::empty()
            }),
    {
        let first = seq![event];
        let (mid, action) = self.step(event);
        self.lemma_run_one(event);
        self.lemma_run_concat(first, later);
        mid.lemma_ended_stays(later);
        let head = seq![action];
        let tail = mid.run(later).1;
        lemma_polls_concat(head, tail);
        lemma_naps_concat(head, tail);
        lemma_single_action(action);
        assert((head + tail).subrange(1, (head + tail).len() as int) =~= tail);
        assert(naps(head + tail) =~= Seq::<u64>::empty());
    }
}

} // verus!
