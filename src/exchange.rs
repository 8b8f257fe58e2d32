//! The life of one request: the inbound body, one call to the provider, and
//! the reply. Each step takes what happened and says what to do next; the
//! caller does it.
use vstd::prelude::*;
use vstd::string::*;
use crate::json::{content_member_of, first_choice_text_of};
use crate::classify::{
    analysis_json, interpret_provider_body, level_of_choice, level_of_text, report_of_choice,
    AnalysisResponse,
};
use crate::prompt::{
    authorization_of, authorization_value, build_prompt, completion_payload, payload_of,
    prompt_of, COMPLETIONS_URL,
};
use crate::request::MessageRequest;

verus! {

/// What the service needs to serve requests: the provider's credential.
pub struct Config {
    pub api_key: String,
}

/// Why the service cannot serve requests.
#[derive(PartialEq, Eq, Structural, Debug, Clone, Copy)]
pub enum ConfigError {
    /// No credential for the provider was given.
    MissingApiKey,
}

impl Config {
    /// Builds the configuration from the credential, if one was found. Any
    /// credential that is present is taken, the empty one too.
    pub fn new(api_key: Option<String>) -> (r: Result<Config, ConfigError>)
        ensures
            r is Ok <==> api_key is Some,
            r matches Ok(c) ==> api_key == Some(c.api_key),
            r matches Err(e) ==> e == ConfigError::MissingApiKey,
    {
        match api_key {
            Some(k) => Ok(Config { api_key: k }),
            None => Err(ConfigError::MissingApiKey),
        }
    }
}

/// Where an exchange stands.
#[derive(PartialEq, Eq, Structural, Debug, Clone, Copy)]
pub enum Phase {
    AwaitingMessage,
    AwaitingProvider,
    Finished,
}

/// What happened, as the caller reports it.
pub enum Event {
    /// The inbound request's body arrived.
    Message(Vec<u8>),
    /// The call to the provider failed in transport: no connection, a timeout.
    ProviderFailed,
    /// The provider answered with this status and body.
    ProviderAnswered { status: u16, body: Vec<u8> },
}

/// A call to the completion provider: a POST of a JSON payload.
pub struct OutboundRequest {
    pub url: String,
    pub authorization: String,
    pub payload: String,
}

/// The reply to the caller.
pub enum Reply {
    /// A classification, with a success status.
    Analysis(AnalysisResponse),
    /// The inbound body was refused.
    ClientError,
    /// The provider could not be used.
    ServerError,
}

/// What the caller is to do next.
pub enum Action {
    /// Make this call to the provider, then report how it went.
    Send(OutboundRequest),
    /// Send this reply; the exchange is over.
    Respond(Reply),
    /// Nothing: the event does not belong to this phase.
    Ignore,
}

/// A success status of HTTP.
pub open spec fn is_success_status(status: u16) -> bool {
    200 <= status && status < 300
}

/// The phase that follows an event. Events that do not belong to a phase
/// leave it as it is.
pub open spec fn next_phase(phase: Phase, event: Event) -> Phase {
    match phase {
        Phase::AwaitingMessage => match event {
            Event::Message(body) => if content_member_of(body@) is Some {
                Phase::AwaitingProvider
            } else {
                Phase::Finished
            },
            _ => phase,
        },
        Phase::AwaitingProvider => match event {
            Event::Message(_) => phase,
            _ => Phase::Finished,
        },
        Phase::Finished => phase,
    }
}

/// Whether an event in a phase leads to a call to the provider.
pub open spec fn sends_on(phase: Phase, event: Event) -> bool {
    &&& phase == Phase::AwaitingMessage
    &&& (event matches Event::Message(body) && content_member_of(body@) is Some)
}

/// Whether `action` is what the exchange does on `event` in `phase`.
pub open spec fn action_fits(api_key: Seq<char>, phase: Phase, event: Event, action: Action) -> bool {
    match phase {
        Phase::AwaitingMessage => match event {
            Event::Message(body) => match content_member_of(body@) {
                Some(content) => action matches Action::Send(req) && {
                    &&& req.url@ == COMPLETIONS_URL@
                    &&& req.authorization@ == authorization_of(api_key)
                    &&& req.payload@ == payload_of(prompt_of(content))
                },
                None => action matches Action::Respond(Reply::ClientError),
            },
            _ => action is Ignore,
        },
        Phase::AwaitingProvider => match event {
            Event::Message(_) => action is Ignore,
            Event::ProviderFailed => action matches Action::Respond(Reply::ServerError),
            Event::ProviderAnswered { status, body } => if is_success_status(status) {
                action matches Action::Respond(Reply::Analysis(a)) && {
                    &&& a.threat_level == level_of_choice(first_choice_text_of(body@))
                    &&& a.analysis_report@ == report_of_choice(first_choice_text_of(body@))
                }
            } else {
                action matches Action::Respond(Reply::ServerError)
            },
        },
        Phase::Finished => action is Ignore,
    }
}

/// The HTTP status of a reply.
pub open spec fn reply_status(reply: Reply) -> u16 {
    match reply {
        Reply::Analysis(_) => 200,
        Reply::ClientError => 400,
        Reply::ServerError => 500,
    }
}

/// The body of a reply: the analysis as JSON, or nothing.
pub open spec fn reply_body(reply: Reply) -> Seq<char> {
    match reply {
        Reply::Analysis(a) => analysis_json(a.threat_level, a.analysis_report@),
        _ => Seq::empty(),
    }
}

impl Reply {
    /// The HTTP status of this reply.
    pub fn status(&self) -> (r: u16)
        ensures
            r == reply_status(*self),
    {
        match self {
            Reply::Analysis(_) => 200,
            Reply::ClientError => 400,
            Reply::ServerError => 500,
        }
    }

    /// The body of this reply.
    pub fn body(&self) -> (r: String)
        ensures
            r@ == reply_body(*self),
    {
        match self {
            Reply::Analysis(a) => a.to_json(),
            _ => String::new(),
        }
    }
}

/// One request's exchange with the provider.
pub struct Exchange {
    pub phase: Phase,
    pub api_key: String,
}

impl Exchange {
    /// A new exchange, waiting for the inbound body.
    pub fn new(config: &Config) -> (r: Exchange)
        ensures
            r.phase == Phase::AwaitingMessage,
            r.api_key@ == config.api_key@,
    {
        Exchange { phase: Phase::AwaitingMessage, api_key: config.api_key.clone() }
    }

    /// Takes one event and says what to do.
    pub fn step(&mut self, event: Event) -> (action: Action)
        ensures
            final(self).phase == next_phase(old(self).phase, event),
            final(self).api_key == old(self).api_key,
            action_fits(old(self).api_key@, old(self).phase, event, action),
    {
        match self.phase {
            Phase::AwaitingMessage => match event {
                Event::Message(body) => match MessageRequest::parse(body.as_slice()) {
                    Ok(message) => {
                        self.phase = Phase::AwaitingProvider;
                        let prompt = build_prompt(message.content.as_str());
                        Action::Send(
                            OutboundRequest {
                                url: COMPLETIONS_URL.to_owned(),
                                authorization: authorization_value(self.api_key.as_str()),
                                payload: completion_payload(prompt.as_str()),
                            },
                        )
                    },
                    Err(_) => {
                        self.phase = Phase::Finished;
                        Action::Respond(Reply::ClientError)
                    },
                },
                _ => Action::Ignore,
            },
            Phase::AwaitingProvider => match event {
                Event::Message(_) => Action::Ignore,
                Event::ProviderFailed => {
                    self.phase = Phase::Finished;
                    Action::Respond(Reply::ServerError)
                },
                Event::ProviderAnswered { status, body } => {
                    self.phase = Phase::Finished;
                    if 200 <= status && status < 300 {
                        Action::Respond(Reply::Analysis(interpret_provider_body(body.as_slice())))
                    } else {
                        Action::Respond(Reply::ServerError)
                    }
                },
            },
            Phase::Finished => Action::Ignore,
        }
    }
}

/// The phase after a sequence of events.
pub open spec fn phase_after(phase: Phase, events: Seq<Event>) -> Phase
    decreases events.len(),
{
    if events.len() == 0 {
        phase
    } else {
        phase_after(next_phase(phase, events[0]), events.drop_first())
    }
}

/// How many calls to the provider a sequence of events leads to.
pub open spec fn sends_during(phase: Phase, events: Seq<Event>) -> nat
    decreases events.len(),
{
    if events.len() == 0 {
        0
    } else {
        (if sends_on(phase, events[0]) {
            1nat
        } else {
            0nat
        }) + sends_during(next_phase(phase, events[0]), events.drop_first())
    }
}

/// Only an exchange that awaits its message calls the provider, and it does
/// so only on a message that it accepts, after which it awaits the provider.
pub proof fn lemma_only_accepted_message_sends(
    api_key: Seq<char>,
    phase: Phase,
    event: Event,
    action: Action,
)
    requires
        action_fits(api_key, phase, event, action),
    ensures
        action is Send <==> sends_on(phase, event),
        action is Send ==> next_phase(phase, event) == Phase::AwaitingProvider,
{
}

/// An exchange that no longer awaits its message never calls the provider
/// again, whatever happens next.
pub proof fn lemma_no_send_after_message(phase: Phase, events: Seq<Event>)
    requires
        phase != Phase::AwaitingMessage,
    ensures
        sends_during(phase, events) == 0,
    decreases events.len(),
{
    if events.len() > 0 {
        lemma_no_send_after_message(next_phase(phase, events[0]), events.drop_first());
    }
}

/// An exchange calls the provider at most once: there is no retry.
pub proof fn lemma_single_outbound_call(events: Seq<Event>)
    ensures
        sends_during(Phase::AwaitingMessage, events) <= 1,
    decreases events.len(),
{
    if events.len() > 0 {
        let next = next_phase(Phase::AwaitingMessage, events[0]);
        if next == Phase::AwaitingMessage {
            lemma_single_outbound_call(events.drop_first());
        } else {
            lemma_no_send_after_message(next, events.drop_first());
        }
    }
}

/// A transport failure of the provider call ends the exchange with a server
/// error, and no further call to the provider follows, whatever happens next.
pub proof fn lemma_transport_failure_ends_exchange(
    api_key: Seq<char>,
    action: Action,
    later: Seq<Event>,
)
    requires
        action_fits(api_key, Phase::AwaitingProvider, Event::ProviderFailed, action),
    ensures
        action matches Action::Respond(reply) && reply_status(reply) == 500 && reply_body(reply)
            == Seq::<char>::empty(),
        next_phase(Phase::AwaitingProvider, Event::ProviderFailed) == Phase::Finished,
        sends_during(Phase::Finished, later) == 0,
        phase_after(Phase::Finished, later) == Phase::Finished,
    decreases later.len(),
{
    lemma_no_send_after_message(Phase::Finished, later);
    if later.len() > 0 {
        lemma_transport_failure_ends_exchange(api_key, action, later.drop_first());
    }
}

/// A body with no string under `content` is refused with a client error, and
/// the provider is not called.
pub proof fn lemma_malformed_message_refused(api_key: Seq<char>, body: Vec<u8>, action: Action)
    requires
        content_member_of(body@) is None,
        action_fits(api_key, Phase::AwaitingMessage, Event::Message(body), action),
    ensures
        action matches Action::Respond(reply) && reply_status(reply) == 400,
        !sends_on(Phase::AwaitingMessage, Event::Message(body)),
        next_phase(Phase::AwaitingMessage, Event::Message(body)) == Phase::Finished,
{
}

/// Whatever the provider does, the reply to the caller is either a success
/// whose body is the JSON of an analysis with a threat level of 1, 3 or 5, or
/// a server error with an empty body.
pub proof fn lemma_provider_outcome_well_formed(api_key: Seq<char>, event: Event, action: Action)
    requires
        !(event is Message),
        action_fits(api_key, Phase::AwaitingProvider, event, action),
    ensures
        action matches Action::Respond(reply) && ({
            ||| reply_status(reply) == 500 && reply_body(reply) == Seq::<char>::empty()
            ||| reply matches Reply::Analysis(a) && {
                &&& reply_status(reply) == 200
                &&& a.threat_level == 1 || a.threat_level == 3 || a.threat_level == 5
                &&& reply_body(reply) == analysis_json(a.threat_level, a.analysis_report@)
            }
        }),
{
    if let Event::ProviderAnswered { status, body } = event {
        if is_success_status(status) {
            let choice = first_choice_text_of(body@);
            match choice {
                Some(Some(t)) => {
                    assert(level_of_text(t) == 1 || level_of_text(t) == 3 || level_of_text(t)
                        == 5);
                },
                _ => {},
            }
        }
    }
}

} // verus!
