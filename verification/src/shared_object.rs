use vstd::prelude::*;

use crate::emailer::{
    no_delivery_message, Credentials, Delivery, Emailer, Mail, MailAction, MailFailure,
    MailMessage, Person,
};
use crate::error::{failure, EmailError, EmailResult, ErrorKind, Failure};
use crate::get_profile::{Profile, ProfileParam};
use crate::interface::{invalid_header_message, is_header_text, HttpRequest, HttpResponse};
use crate::value::{content, same_text, Json, JsonValue};

verus! {

/// What a remote call returns: a value, or the error in its place.
pub type RpcResult = Result<JsonValue, EmailError>;

/// What the host is to do next for a call.
pub enum Action {
    /// Perform this HTTP request.
    Fetch(HttpRequest),
    /// Open a session with the mail server and authenticate.
    Connect { server: String, port: u16, implicit_tls: bool, credentials: Credentials },
    /// Transmit the message over the session.
    Transmit(MailMessage),
    /// Release what the call holds and return this to the caller.
    Reply(RpcResult),
}

/// What the host reports back after an action.
pub enum Event {
    /// The outcome of a [`Action::Fetch`].
    Response(EmailResult<HttpResponse>),
    /// The outcome of a [`Action::Connect`] or a [`Action::Transmit`]:
    /// done, or why it failed.
    Mail(Result<(), MailFailure>),
}

/// Where a call stands.
pub enum Call {
    /// The profile was asked for and the response is awaited.
    Resolving,
    /// A message is being delivered.
    Sending(Delivery),
    /// The call has replied.
    Done,
}

/// The message for a call without its parameter.
pub open spec fn no_parameter_message() -> Seq<char> {
    "No parameter"@
}

/// The message for a call of a method that is none of the service's.
pub open spec fn unsupported_message(method: Seq<char>) -> Seq<char> {
    "Unsupported method: "@ + method
}

/// The message for an event that the call was not waiting for.
pub open spec fn unexpected_event_message() -> Seq<char> {
    "Unexpected event"@
}

/// The value that reports a resolved sender: a mapping with the two keys
/// `sender_name` and `sender_email`.
pub open spec fn profile_json(sender: Person) -> Json {
    Json::Object(
        seq![
            ("sender_name"@, Json::String(sender.0)),
            ("sender_email"@, Json::String(sender.1)),
        ],
    )
}

/// The value that reports a sent message.
pub open spec fn success_json() -> Json {
    Json::String("success"@)
}

/// The content of a reply.
pub open spec fn reply_content(reply: RpcResult) -> Result<Json, Failure> {
    match reply {
        Ok(value) => Ok(value@),
        Err(error) => Err(error@),
    }
}

/// The reply to a profile request, from what the response resolved to.
pub open spec fn profile_reply(resolution: Result<Person, Failure>) -> Result<Json, Failure> {
    match resolution {
        Ok(sender) => Ok(profile_json(sender)),
        Err(failure) => Err(failure),
    }
}

impl Action {
    /// Whether the action is a reply with this content.
    pub open spec fn replies(self, content: Result<Json, Failure>) -> bool {
        self matches Action::Reply(reply) && reply_content(reply) == content
    }

    /// Whether the action is a reply with an error of this kind and detail.
    pub open spec fn fails(self, kind: ErrorKind, detail: Seq<char>) -> bool {
        self.replies(Err(failure(kind, detail)))
    }

    /// Whether the action asks the mail transport to open a session for
    /// `mail`: to its server and port, without implicit TLS, with XOAUTH2
    /// credentials made of the sender's address and the token.
    pub open spec fn connects_for(self, mail: Mail) -> bool {
        &&& self matches Action::Connect { server, port, implicit_tls, credentials }
        &&& server@ == mail.smtp_server
        &&& port == mail.smtp_port
        &&& !implicit_tls
        &&& credentials.authenticate(mail)
    }
}

/// Builds [`profile_json`].
pub fn profile_value(name: String, email: String) -> (value: JsonValue)
    ensures
        value@ == profile_json((name@, email@)),
{
    let mut entries: Vec<(String, JsonValue)> = Vec::new();
    entries.push((String::from_str("sender_name"), JsonValue::String(name)));
    entries.push((String::from_str("sender_email"), JsonValue::String(email)));
    let value = JsonValue::Object(entries);
    proof {
        reveal_with_fuel(content, 2);
        assert(entries@[0].1@ == Json::String(name@));
        assert(entries@[1].1@ == Json::String(email@));
        assert(value@->Object_0 =~= profile_json((name@, email@))->Object_0);
    }
    value
}

/// What crosses the boundary for a reply: the value, or the detail of the
/// error as a string value.
pub fn encode_reply(reply: RpcResult) -> (encoded: Result<JsonValue, JsonValue>)
    ensures
        match reply {
            Ok(value) => encoded matches Ok(v) && v@ == value@,
            Err(error) => encoded matches Err(v) && v@ == Json::String(error@.detail),
        },
{
    match reply {
        Ok(value) => Ok(value),
        Err(error) => Err(JsonValue::String(error.to_string())),
    }
}

impl Call {
    /// Whether `state` and `action` are the first step of a profile request
    /// with this parameter: a parameter that does not decode, or whose
    /// token no header can carry, is answered at once with the error;
    /// otherwise the one request for the profile goes out.
    pub open spec fn is_profile_start(parameter: Json, state: Call, action: Action) -> bool {
        match ProfileParam::decoded(parameter) {
            Err(message) => state is Done && action.fails(ErrorKind::InvalidParameter, message),
            Ok((token, endpoint)) => if is_header_text(token) {
                &&& state is Resolving
                &&& action matches Action::Fetch(request)
                &&& Profile::is_request_for(request, token, endpoint)
            } else {
                state is Done && action.fails(ErrorKind::Http, invalid_header_message())
            },
        }
    }

    /// Whether `state` and `action` are the first step of a request to send
    /// mail with this parameter: a parameter that does not decode is
    /// answered at once with the error; otherwise the message is built and
    /// waits while the session is opened.
    pub open spec fn is_mail_start(parameter: Json, state: Call, action: Action) -> bool {
        match Emailer::decoded(parameter) {
            Err(message) => state is Done && action.fails(ErrorKind::InvalidParameter, message),
            Ok(mail) => {
                &&& state matches Call::Sending(Delivery::Connecting(message))
                &&& message.carries(mail)
                &&& action.connects_for(mail)
            },
        }
    }

    /// Whether `state` and `action` are the first step of a call:
    /// `getProfile` and `sendMail` need their parameter and start as above;
    /// any other method is answered at once as unsupported.
    pub open spec fn is_start(
        method: Seq<char>,
        parameter: Option<JsonValue>,
        state: Call,
        action: Action,
    ) -> bool {
        if method == "getProfile"@ || method == "sendMail"@ {
            match parameter {
                None => state is Done && action.fails(
                    ErrorKind::InvalidParameter,
                    no_parameter_message(),
                ),
                Some(value) => if method == "getProfile"@ {
                    Self::is_profile_start(value@, state, action)
                } else {
                    Self::is_mail_start(value@, state, action)
                },
            }
        } else {
            state is Done && action.fails(ErrorKind::UnsupportedMethod, unsupported_message(method))
        }
    }

    /// Whether `state` and `action` follow from `self` on `event`:
    /// - the response to the profile request is resolved and answered;
    /// - the outcome of a mail action moves the delivery on: an open
    ///   session has the message transmitted, a transmitted message is
    ///   answered with success; a session that could not be opened is
    ///   answered with a transport error where the server could not be
    ///   reached and with a mail error where it refused the sender; a
    ///   transmission that failed is answered with a mail error, whatever
    ///   its cause; each error carries the detail of the failure;
    /// - an event that the call was not waiting for ends it with an error.
    /// No step ever asks for a second request, and after a reply the call
    /// is done.
    pub open spec fn is_step(self, event: Event, state: Call, action: Action) -> bool {
        match (self, event) {
            (Call::Resolving, Event::Response(outcome)) => state is Done && action.replies(
                profile_reply(Profile::resolution(outcome)),
            ),
            (Call::Sending(delivery), Event::Mail(outcome)) => match (delivery, outcome) {
                (Delivery::Connecting(message), Ok(_)) => state == Call::Sending(
                    Delivery::Transmitting,
                ) && action == Action::Transmit(message),
                (Delivery::Connecting(_), Err(cause)) => state is Done && action.replies(
                    Err(cause@),
                ),
                (Delivery::Transmitting, Ok(_)) => state is Done && action.replies(
                    Ok(success_json()),
                ),
                (Delivery::Transmitting, Err(cause)) => state is Done && action.fails(
                    ErrorKind::MailSend,
                    cause@.detail,
                ),
                (Delivery::Finished, _) => state is Done && action.fails(
                    ErrorKind::MailSend,
                    no_delivery_message(),
                ),
            },
            _ => state is Done && action.fails(ErrorKind::IpcClient, unexpected_event_message()),
        }
    }

    /// The reply that ends a call with an error for its parameter.
    fn reject(message: String) -> (step: (Call, Action))
        ensures
            step.0 is Done,
            step.1.fails(ErrorKind::InvalidParameter, message@),
    {
        (Call::Done, Action::Reply(Err(EmailError::InvalidParameter(message))))
    }

    /// Starts a profile request.
    fn start_profile(parameter: &JsonValue) -> (step: (Call, Action))
        ensures
            Self::is_profile_start(parameter@, step.0, step.1),
    {
        match ProfileParam::from_value(parameter) {
            Err(message) => Self::reject(message),
            Ok(param) => match Profile::request(&param) {
                Ok(request) => (Call::Resolving, Action::Fetch(request)),
                Err(error) => (Call::Done, Action::Reply(Err(error))),
            },
        }
    }

    /// Starts a request to send mail.
    fn start_mail(parameter: &JsonValue) -> (step: (Call, Action))
        ensures
            Self::is_mail_start(parameter@, step.0, step.1),
    {
        match Emailer::from_value(parameter) {
            Err(message) => Self::reject(message),
            Ok(emailer) => {
                let (delivery, action) = emailer.send_email();
                Self::follow(delivery, action)
            },
        }
    }

    /// Puts a step of a delivery into the terms of the call.
    fn follow(delivery: Delivery, action: MailAction) -> (step: (Call, Action))
        ensures
            match action {
                MailAction::Connect { server, port, implicit_tls, credentials } => step.1
                    == (Action::Connect { server, port, implicit_tls, credentials }),
                MailAction::Transmit(message) => step.1 == Action::Transmit(message),
                MailAction::Finish(Ok(_)) => step.1.replies(Ok(success_json())),
                MailAction::Finish(Err(error)) => step.1.replies(Err(error@)),
            },
            match delivery {
                Delivery::Finished => step.0 is Done,
                _ => step.0 == Call::Sending(delivery),
            },
    {
        let state = match delivery {
            Delivery::Finished => Call::Done,
            _ => Call::Sending(delivery),
        };
        let next = match action {
            MailAction::Connect { server, port, implicit_tls, credentials } => Action::Connect {
                server,
                port,
                implicit_tls,
                credentials,
            },
            MailAction::Transmit(message) => Action::Transmit(message),
            MailAction::Finish(Ok(_)) => Action::Reply(
                Ok(JsonValue::String(String::from_str("success"))),
            ),
            MailAction::Finish(Err(error)) => Action::Reply(Err(error)),
        };
        (state, next)
    }

    /// Takes a call and says what the host is to do first.
    pub fn start(method: &str, parameter: Option<JsonValue>) -> (step: (Call, Action))
        ensures
            Self::is_start(method@, parameter, step.0, step.1),
    {
        let profile = same_text(method, "getProfile");
        let mail = same_text(method, "sendMail");
        if !profile && !mail {
            let message = String::from_str("Unsupported method: ").concat(method);
            return (Call::Done, Action::Reply(Err(EmailError::UnsupportedMethod(message))));
        }
        match parameter {
            None => Self::reject(String::from_str("No parameter")),
            Some(value) => if profile {
                Self::start_profile(&value)
            } else {
                Self::start_mail(&value)
            },
        }
    }

    /// Takes what the host reports of the last action and says what it is
    /// to do next.
    pub fn step(self, event: Event) -> (step: (Call, Action))
        ensures
            self.is_step(event, step.0, step.1),
    {
        match (self, event) {
            (Call::Resolving, Event::Response(outcome)) => {
                let reply = match Profile::from_response(outcome) {
                    Ok(pair) => Ok(profile_value(pair.0.0, pair.1.0)),
                    Err(error) => Err(error),
                };
                (Call::Done, Action::Reply(reply))
            },
            (Call::Sending(delivery), Event::Mail(outcome)) => {
                let (next, action) = delivery.advance(outcome);
                Self::follow(next, action)
            },
            _ => (
                Call::Done,
                Action::Reply(Err(EmailError::IpcClient(String::from_str("Unexpected event")))),
            ),
        }
    }
}

/// The two method names are two names.
proof fn lemma_methods_differ()
    ensures
        "sendMail"@ != "getProfile"@,
{
    reveal_strlit("sendMail");
    reveal_strlit("getProfile");
    assert("sendMail"@[0] != "getProfile"@[0]);
}

/// A call of `getProfile` or `sendMail` without a parameter is answered at
/// once with `No parameter`: no transport is asked for anything, and the
/// call is done.
pub proof fn lemma_missing_parameter_is_rejected(method: Seq<char>, state: Call, action: Action)
    requires
        method == "getProfile"@ || method == "sendMail"@,
        Call::is_start(method, None, state, action),
    ensures
        state is Done,
        action.fails(ErrorKind::InvalidParameter, no_parameter_message()),
{
}

/// A call of any other method is answered at once as unsupported.
pub proof fn lemma_unknown_method_is_rejected(
    method: Seq<char>,
    parameter: Option<JsonValue>,
    state: Call,
    action: Action,
)
    requires
        method != "getProfile"@,
        method != "sendMail"@,
        Call::is_start(method, parameter, state, action),
    ensures
        state is Done,
        action.fails(ErrorKind::UnsupportedMethod, unsupported_message(method)),
{
}

/// Only the first step of a call asks for an HTTP request or for a mail
/// session: whatever the host reports, no later step asks for another. So
/// a transport that failed is not asked again, and a mail server that
/// refused is not tried again.
pub proof fn lemma_no_second_request(before: Call, event: Event, state: Call, action: Action)
    requires
        before.is_step(event, state, action),
    ensures
        !(action is Fetch),
        !(action is Connect),
{
}

/// A call that is done stays done and opens nothing: every further event
/// is answered with an error.
pub proof fn lemma_done_is_final(event: Event, state: Call, action: Action)
    requires
        Call::Done.is_step(event, state, action),
    ensures
        state is Done,
        action is Reply,
{
}

/// The failure of the transport is the reply of the profile request, as
/// it is, and ends the call.
pub proof fn lemma_transport_failure_is_replied(error: EmailError, state: Call, action: Action)
    requires
        Call::Resolving.is_step(Event::Response(Err(error)), state, action),
    ensures
        state is Done,
        action.replies(Err(error@)),
{
}

/// A request to send mail whose parameter decodes, against a mail server
/// that accepts the sender and the message: the session is opened for the
/// mail, then its message is transmitted, then the call replies `success`.
/// This holds of a mail with both bodies, with one, and with none.
pub proof fn lemma_accepted_mail_succeeds(
    parameter: JsonValue,
    mail: Mail,
    first: (Call, Action),
    second: (Call, Action),
    third: (Call, Action),
)
    requires
        Emailer::decoded(parameter@) == Ok::<Mail, Seq<char>>(mail),
        Call::is_start("sendMail"@, Some(parameter), first.0, first.1),
        first.0.is_step(Event::Mail(Ok(())), second.0, second.1),
        second.0.is_step(Event::Mail(Ok(())), third.0, third.1),
    ensures
        first.1.connects_for(mail),
        second.1 matches Action::Transmit(message) && message.carries(mail),
        third.0 is Done,
        third.1.replies(Ok(success_json())),
{
    lemma_methods_differ();
}

/// A request to send mail against a mail server that cannot be reached:
/// the call replies the detail of the failure as a transport error, and no
/// message is transmitted, whatever the host reports afterwards.
pub proof fn lemma_unreachable_server_is_a_transport_error(
    parameter: JsonValue,
    mail: Mail,
    detail: String,
    first: (Call, Action),
    second: (Call, Action),
    event: Event,
    third: (Call, Action),
)
    requires
        Emailer::decoded(parameter@) == Ok::<Mail, Seq<char>>(mail),
        Call::is_start("sendMail"@, Some(parameter), first.0, first.1),
        first.0.is_step(Event::Mail(Err(MailFailure::Unreachable(detail))), second.0, second.1),
        second.0.is_step(event, third.0, third.1),
    ensures
        first.1.connects_for(mail),
        second.0 is Done,
        second.1.fails(ErrorKind::Curl, detail@),
        third.0 is Done,
        third.1 is Reply,
{
    lemma_methods_differ();
}

/// A failure while the message is transmitted ends the call with a mail
/// error that carries the detail of the failure, whether the server was
/// lost or refused the message; the failure is not taken for success, and
/// the transmission is not tried again.
pub proof fn lemma_failed_transmission_is_a_mail_error(
    cause: MailFailure,
    second: (Call, Action),
    event: Event,
    third: (Call, Action),
)
    requires
        Call::Sending(Delivery::Transmitting).is_step(Event::Mail(Err(cause)), second.0, second.1),
        second.0.is_step(event, third.0, third.1),
    ensures
        second.0 is Done,
        cause matches MailFailure::Unreachable(detail) ==> second.1.fails(
            ErrorKind::MailSend,
            detail@,
        ),
        cause matches MailFailure::Refused(detail) ==> second.1.fails(ErrorKind::MailSend, detail@),
        third.0 is Done,
        third.1 is Reply,
{
}

/// A request to send mail against a mail server that rejects the sender:
/// the call replies the server's detail as a mail error, and the message is
/// never transmitted, whatever the host reports afterwards.
pub proof fn lemma_rejected_sender_is_not_served(
    parameter: JsonValue,
    mail: Mail,
    detail: String,
    first: (Call, Action),
    second: (Call, Action),
    event: Event,
    third: (Call, Action),
)
    requires
        Emailer::decoded(parameter@) == Ok::<Mail, Seq<char>>(mail),
        Call::is_start("sendMail"@, Some(parameter), first.0, first.1),
        first.0.is_step(Event::Mail(Err(MailFailure::Refused(detail))), second.0, second.1),
        second.0.is_step(event, third.0, third.1),
    ensures
        first.1.connects_for(mail),
        second.0 is Done,
        second.1.fails(ErrorKind::MailSend, detail@),
        third.0 is Done,
        third.1 is Reply,
{
    lemma_methods_differ();
}

} // verus!
