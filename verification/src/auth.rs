//! The device-code flow: its messages, its schedule and its state machine.
//!
//! A sign-in takes two steps: the provider issues a device code and the user
//! enters the code that goes with it on the provider's site; meanwhile the
//! client polls for the tokens, at the pace and for as long as the provider
//! said.

pub mod flow;
pub mod requests;
pub mod responses;
pub mod scheduler;
pub mod taxonomy;

use crate::auth::flow::{
    Action, ConfigModel, Event, FlowAction, FlowConfig, FlowEvent, FlowModel, FlowState,
    PollSession, State,
};
use crate::auth::requests::HttpRequest;
use crate::auth::responses::{
    reply_model, verdict_model, AuthenticationResponse, DeviceCodeChallenge, HttpResponse,
};
use crate::auth::scheduler::{PollingScheduler, Tick};
use crate::auth::taxonomy::AuthorizationOutcome;
use crate::error::{AuthenticationError, Failure, Rejection};
use vstd::prelude::*;

verus! {

/// One sign-in attempt with a device code.
pub struct DeviceCodeAuthentication {
    config: FlowConfig,
    state: FlowState,
}

impl View for DeviceCodeAuthentication {
    type V = FlowModel;

    closed spec fn view(&self) -> FlowModel {
        FlowModel { config: self.config@, state: self.state@ }
    }
}

impl Default for DeviceCodeAuthentication {
    fn default() -> (flow: DeviceCodeAuthentication)
        ensures
            flow@ == FlowModel::fresh(ConfigModel::standard()),
    {
        DeviceCodeAuthentication { config: FlowConfig::default(), state: FlowState::Init }
    }
}

fn finish(state: FlowState, result: Result<AuthenticationResponse, AuthenticationError>) -> (r: (
    FlowState,
    FlowAction,
))
    ensures
        r.0@ == state@,
        r.1@ == Action::Finish(verdict_model(result)),
{
    (state, FlowAction::Finish(result))
}

fn expire() -> (r: (FlowState, FlowAction))
    ensures
        r.0@ == State::Expired,
        r.1@ == Action::Finish(Err(Failure::AuthorizationFailed(Rejection::Expired))),
{
    finish(
        FlowState::Expired,
        Err(AuthenticationError::AuthorizationFailed(Rejection::Expired)),
    )
}

fn accept(config: &FlowConfig, challenge: DeviceCodeChallenge) -> (r: (FlowState, FlowAction))
    ensures
        (FlowModel { config: config@, state: r.0@ }, r.1@) == FlowModel::fresh(config@).accept(
            challenge@,
        ),
{
    let mut scheduler = PollingScheduler::for_challenge(&challenge);
    match scheduler.next_tick() {
        Tick::Proceed => {
            let prompt = challenge.prompt();
            let poll = config.poll_request(challenge.device_code());
            (
                FlowState::AwaitingUserAction(PollSession { challenge, scheduler }),
                FlowAction::Prompt { prompt, poll },
            )
        },
        Tick::Deadline => expire(),
    }
}

fn wake(config: &FlowConfig, session: PollSession) -> (r: (FlowState, FlowAction))
    ensures
        (FlowModel { config: config@, state: r.0@ }, r.1@) == FlowModel::fresh(config@).wake(
            session@,
        ),
{
    let mut session = session;
    match session.scheduler.next_tick() {
        Tick::Proceed => {
            let poll = config.poll_request(session.challenge.device_code());
            (FlowState::AwaitingUserAction(session), FlowAction::Poll(poll))
        },
        Tick::Deadline => expire(),
    }
}

fn note(config: &FlowConfig, session: PollSession, seconds: u64) -> (r: (FlowState, FlowAction))
    ensures
        (FlowModel { config: config@, state: r.0@ }, r.1@) == FlowModel::fresh(config@).note(
            session@,
            seconds,
        ),
{
    let mut session = session;
    session.scheduler.observe(seconds);
    (FlowState::AwaitingUserAction(session), FlowAction::Idle)
}

fn settle(config: &FlowConfig, session: PollSession, outcome: AuthorizationOutcome) -> (r: (
    FlowState,
    FlowAction,
))
    ensures
        (FlowModel { config: config@, state: r.0@ }, r.1@) == (FlowModel {
            config: config@,
            state: State::AwaitingUserAction(session@),
        }).settle(session@, outcome@),
{
    match outcome {
        AuthorizationOutcome::Pending => {
            let seconds = session.challenge.interval();
            (FlowState::AwaitingUserAction(session), FlowAction::Sleep(seconds))
        },
        AuthorizationOutcome::Success(token) => finish(FlowState::Authorized, Ok(token)),
        AuthorizationOutcome::Declined => finish(
            FlowState::Declined,
            Err(AuthenticationError::AuthorizationFailed(Rejection::Declined)),
        ),
        AuthorizationOutcome::BadVerificationCode => finish(
            FlowState::Failed,
            Err(AuthenticationError::AuthorizationFailed(Rejection::BadVerificationCode)),
        ),
        AuthorizationOutcome::Expired => expire(),
        AuthorizationOutcome::Unclassified(raw) => finish(
            FlowState::Failed,
            Err(AuthenticationError::UnexpectedResponse(raw)),
        ),
    }
}

impl DeviceCodeAuthentication {
    /// A flow that has not begun, with the standard configuration.
    pub fn new() -> (flow: DeviceCodeAuthentication)
        ensures
            flow@ == FlowModel::fresh(ConfigModel::standard()),
    {
        Self::default()
    }

    /// A flow that has not begun, with the given configuration.
    pub fn with_config(config: FlowConfig) -> (flow: DeviceCodeAuthentication)
        ensures
            flow@ == FlowModel::fresh(config@),
    {
        DeviceCodeAuthentication { config, state: FlowState::Init }
    }

    /// The configuration that the flow was made with.
    pub fn config(&self) -> (config: &FlowConfig)
        ensures
            config@ == self@.config,
    {
        &self.config
    }

    /// Where the flow stands.
    pub fn state(&self) -> (state: &FlowState)
        ensures
            state@ == self@.state,
    {
        &self.state
    }

    /// Whether the flow has ended.
    pub fn is_finished(&self) -> (r: bool)
        ensures
            r == self@.state.is_terminal(),
    {
        self.state.is_terminal()
    }

    /// The request for a fresh token in exchange for a refresh token.
    pub fn refresh_request(&self, refresh_token: &str) -> (request: HttpRequest)
        ensures
            request@ == self@.config.refresh_request(refresh_token@),
    {
        self.config.refresh_request(refresh_token)
    }

    /// The event that the transport's report amounts to: while a challenge
    /// is out, the report answers a poll; otherwise it answers the request
    /// for a device code.
    pub fn interpret(&self, reply: Result<HttpResponse, String>) -> (event: FlowEvent)
        ensures
            event@ == self@.interpret(reply_model(reply)),
    {
        match reply {
            Err(cause) => FlowEvent::TransportFailed(cause),
            Ok(response) => match self.state {
                FlowState::AwaitingUserAction(_) => FlowEvent::Polled(
                    AuthorizationOutcome::from_response(response),
                ),
                _ => {
                    let succeeded = response.succeeded();
                    let challenge = DeviceCodeChallenge::decode(response.body.as_str());
                    FlowEvent::issued(succeeded, challenge, response.body)
                },
            },
        }
    }

    /// Takes the transport's report as the event that it amounts to.
    pub fn on_reply(&mut self, reply: Result<HttpResponse, String>) -> (action: FlowAction)
        ensures
            (final(self)@, action@) == old(self)@.step(old(self)@.interpret(reply_model(reply))),
    {
        let event = self.interpret(reply);
        self.step(event)
    }

    /// Takes an event, moves to the next state, and says what the caller is to
    /// do next.
    pub fn step(&mut self, event: FlowEvent) -> (action: FlowAction)
        ensures
            (final(self)@, action@) == old(self)@.step(event@),
    {
        let mut state = FlowState::Init;
        core::mem::swap(&mut self.state, &mut state);
        let (next, action) = match state {
            FlowState::Init => match event {
                FlowEvent::Start => (
                    FlowState::Init,
                    FlowAction::RequestDeviceCode(self.config.device_code_request()),
                ),
                FlowEvent::Challenge(challenge) => accept(&self.config, challenge),
                FlowEvent::Malformed(raw) => finish(
                    FlowState::Failed,
                    Err(AuthenticationError::UnexpectedResponse(raw)),
                ),
                FlowEvent::TransportFailed(cause) => finish(
                    FlowState::Failed,
                    Err(AuthenticationError::NetworkError(cause)),
                ),
                FlowEvent::Cancel => finish(
                    FlowState::Cancelled,
                    Err(AuthenticationError::Cancelled),
                ),
                FlowEvent::Polled(_) => (FlowState::Init, FlowAction::Idle),
                FlowEvent::Woke => (FlowState::Init, FlowAction::Idle),
                FlowEvent::Elapsed(_) => (FlowState::Init, FlowAction::Idle),
            },
            FlowState::AwaitingUserAction(session) => match event {
                FlowEvent::Polled(outcome) => settle(&self.config, session, outcome),
                FlowEvent::Woke => wake(&self.config, session),
                FlowEvent::Elapsed(seconds) => note(&self.config, session, seconds),
                FlowEvent::Malformed(raw) => finish(
                    FlowState::Failed,
                    Err(AuthenticationError::UnexpectedResponse(raw)),
                ),
                FlowEvent::TransportFailed(cause) => finish(
                    FlowState::Failed,
                    Err(AuthenticationError::NetworkError(cause)),
                ),
                FlowEvent::Cancel => finish(
                    FlowState::Cancelled,
                    Err(AuthenticationError::Cancelled),
                ),
                FlowEvent::Start => (FlowState::AwaitingUserAction(session), FlowAction::Idle),
                FlowEvent::Challenge(_) => (
                    FlowState::AwaitingUserAction(session),
                    FlowAction::Idle,
                ),
            },
            ended => (ended, FlowAction::Idle),
        };
        self.state = next;
        action
    }

    /// Takes a run of events one after another, as they were recorded or
    /// made up, and returns what the flow asked for after each of them.
    pub fn replay(&mut self, events: Vec<FlowEvent>) -> (actions: Vec<FlowAction>)
        ensures
            (final(self)@, actions.deep_view()) == old(self)@.run(events.deep_view()),
    {
        let ghost start = self@;
        let ghost all = events.deep_view();
        let mut actions: Vec<FlowAction> = Vec::new();
        proof {
            assert(all.take(0) =~= Seq::<Event>::empty());
            assert(actions.deep_view() =~= Seq::<Action>::empty());
        }
        for event in it: events
            invariant
                all == events.deep_view(),
                (self@, actions.deep_view()) == start.run(all.take(it.index() as int)),
        {
            let ghost before = actions.deep_view();
            let ghost at = it.index() as int;
            let action = self.step(event);
            actions.push(action);
            proof {
                assert(all.take(at + 1).drop_last() =~= all.take(at));
                assert(all.take(at + 1).last() == event@);
                assert(actions.deep_view() =~= before.push(action@));
            }
        }
        proof {
            assert(all.take(all.len() as int) =~= all);
        }
        actions
    }
}

} // verus!
