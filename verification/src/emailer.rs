use vstd::prelude::*;

use crate::error::{failure, EmailError, EmailResult, ErrorKind, Failure};
use crate::get_profile::{RecipientEmail, RecipientName, SenderEmail, SenderName};
use crate::token::AccessToken;
use crate::value::{invalid_field, invalid_field_message, Json, JsonValue};

verus! {

/// Who sends a message.
#[derive(Debug, Clone, PartialEq, Eq)]
pub struct Sender {
    pub name: SenderName,
    pub email: SenderEmail,
}

/// One of those who receive a message.
#[derive(Debug, Clone, PartialEq, Eq)]
pub struct Recipient {
    pub name: RecipientName,
    pub email: RecipientEmail,
}

/// The host name of the mail server.
#[derive(Debug, Clone, PartialEq, Eq)]
pub struct SmtpHostName(pub String);

/// The port of the mail server.
#[derive(Debug, Clone, PartialEq, Eq)]
pub struct SmtpPort(pub u16);

/// One request to send a message: where to, from whom, to whom, what, and
/// the token that authenticates the sender.
pub struct Emailer {
    pub smtp_server: SmtpHostName,
    pub smtp_port: SmtpPort,
    pub sender: Sender,
    pub recipients: Vec<Recipient>,
    pub subject: String,
    pub html_body: Option<String>,
    pub text_body: Option<String>,
    pub access_token: AccessToken,
}

/// A display name and an address.
pub type Person = (Seq<char>, Seq<char>);

/// The content of an [`Emailer`].
pub struct Mail {
    pub smtp_server: Seq<char>,
    pub smtp_port: u16,
    pub sender: Person,
    pub recipients: Seq<Person>,
    pub subject: Seq<char>,
    pub html_body: Option<Seq<char>>,
    pub text_body: Option<Seq<char>>,
    pub access_token: Seq<char>,
}

/// The text of an optional string.
pub open spec fn text_of(text: Option<String>) -> Option<Seq<char>> {
    match text {
        Some(s) => Some(s@),
        None => None,
    }
}

impl View for Sender {
    type V = Person;

    open spec fn view(&self) -> Person {
        (self.name@, self.email@)
    }
}

impl View for Recipient {
    type V = Person;

    open spec fn view(&self) -> Person {
        (self.name@, self.email@)
    }
}

impl View for SmtpHostName {
    type V = Seq<char>;

    open spec fn view(&self) -> Seq<char> {
        self.0@
    }
}

impl View for Emailer {
    type V = Mail;

    open spec fn view(&self) -> Mail {
        Mail {
            smtp_server: self.smtp_server@,
            smtp_port: self.smtp_port.0,
            sender: self.sender@,
            recipients: self.recipients@.map_values(|r: Recipient| r@),
            subject: self.subject@,
            html_body: text_of(self.html_body),
            text_body: text_of(self.text_body),
            access_token: self.access_token@,
        }
    }
}

impl SmtpHostName {
    pub fn as_str(&self) -> (text: &str)
        ensures
            text@ == self@,
    {
        self.0.as_str()
    }
}

/// A mailbox in a message: a display name and an address.
#[derive(Debug, Clone, PartialEq, Eq)]
pub struct Mailbox {
    pub name: String,
    pub email: String,
}

impl View for Mailbox {
    type V = Person;

    open spec fn view(&self) -> Person {
        (self.name@, self.email@)
    }
}

/// The message as the mail transport takes it.
#[derive(Debug, Clone, PartialEq, Eq)]
pub struct MailMessage {
    pub from: Mailbox,
    pub to: Vec<Mailbox>,
    pub subject: String,
    pub html_body: Option<String>,
    pub text_body: Option<String>,
}

/// How the sender proves who it is to the mail server. There is no `Debug`:
/// the secret is not for logs.
#[derive(PartialEq, Eq)]
pub enum Credentials {
    /// The XOAUTH2 mechanism: the sender's address and its access token.
    XOAuth2 { username: String, secret: String },
}

impl MailMessage {
    /// Whether the message is the one that `mail` asks for: from the
    /// sender, to the recipients in their order, with the subject and with
    /// each body that is there.
    pub open spec fn carries(&self, mail: Mail) -> bool {
        &&& self.from@ == mail.sender
        &&& self.to@.map_values(|m: Mailbox| m@) == mail.recipients
        &&& self.subject@ == mail.subject
        &&& text_of(self.html_body) == mail.html_body
        &&& text_of(self.text_body) == mail.text_body
    }
}

impl Credentials {
    /// Whether these are the credentials of `mail`: its sender's address and
    /// its token, for XOAUTH2.
    pub open spec fn authenticate(&self, mail: Mail) -> bool {
        self matches Credentials::XOAuth2 { username, secret } && username@ == mail.sender.1
            && secret@ == mail.access_token
    }
}

/// A copy of an optional text.
fn copy_text(text: &Option<String>) -> (copy: Option<String>)
    ensures
        text_of(copy) == text_of(*text),
{
    match text {
        Some(s) => Some(s.clone()),
        None => None,
    }
}

impl Emailer {
    /// Builds the message.
    pub fn message(&self) -> (message: MailMessage)
        ensures
            message.carries(self@),
    {
        let mut to: Vec<Mailbox> = Vec::new();
        let mut i: usize = 0;
        while i < self.recipients.len()
            invariant
                i <= self.recipients.len(),
                to@.len() == i,
                forall|j: int| 0 <= j < i ==> (#[trigger] to@[j])@ == self.recipients@[j]@,
            decreases self.recipients.len() - i,
        {
            let recipient = &self.recipients[i];
            to.push(Mailbox { name: recipient.name.to_string(), email: recipient.email.to_string() });
            i += 1;
        }
        assert(to@.map_values(|m: Mailbox| m@) =~= self.recipients@.map_values(|r: Recipient| r@));
        MailMessage {
            from: Mailbox { name: self.sender.name.to_string(), email: self.sender.email.to_string() },
            to,
            subject: self.subject.clone(),
            html_body: copy_text(&self.html_body),
            text_body: copy_text(&self.text_body),
        }
    }

    /// Derives the credentials.
    pub fn credentials(&self) -> (credentials: Credentials)
        ensures
            credentials.authenticate(self@),
    {
        Credentials::XOAuth2 {
            username: self.sender.email.to_string(),
            secret: self.access_token.secret().clone(),
        }
    }
}

/// The name and address that a value gives for a person: its fields
/// `name` and `email`, both strings.
pub open spec fn person_of(item: Json) -> Result<Person, Seq<char>> {
    match item.required_text("name"@) {
        Err(message) => Err(message),
        Ok(name) => match item.required_text("email"@) {
            Err(message) => Err(message),
            Ok(email) => Ok((name, email)),
        },
    }
}

/// The persons that a list gives, in its order, or the message for the
/// first item that gives none.
pub open spec fn people_of(items: Seq<Json>) -> Result<Seq<Person>, Seq<char>>
    decreases items.len(),
{
    if items.len() == 0 {
        Ok(Seq::empty())
    } else {
        match people_of(items.drop_last()) {
            Err(message) => Err(message),
            Ok(people) => match person_of(items.last()) {
                Err(message) => Err(message),
                Ok(person) => Ok(people.push(person)),
            },
        }
    }
}

/// The message for a request that names no mail server.
pub open spec fn no_server_message() -> Seq<char> {
    "smtp_server must not be empty"@
}

/// The message for a request that names nobody to send to.
pub open spec fn no_recipients_message() -> Seq<char> {
    "recipients must not be empty"@
}

/// Reads the name and address of a person.
fn read_person(item: &JsonValue) -> (read: Result<(String, String), String>)
    ensures
        match read {
            Ok(pair) => person_of(item@) == Ok::<Person, Seq<char>>((pair.0@, pair.1@)),
            Err(message) => person_of(item@) == Err::<Person, Seq<char>>(message@),
        },
{
    let name = item.required_text("name")?;
    let email = item.required_text("email")?;
    Ok((name, email))
}

/// Reads the recipients out of a list.
fn read_recipients(items: &Vec<JsonValue>) -> (read: Result<Vec<Recipient>, String>)
    ensures
        match read {
            Ok(recipients) => people_of(items@.map_values(|v: JsonValue| v@)) == Ok::<
                Seq<Person>,
                Seq<char>,
            >(recipients@.map_values(|r: Recipient| r@)),
            Err(message) => people_of(items@.map_values(|v: JsonValue| v@)) == Err::<
                Seq<Person>,
                Seq<char>,
            >(message@),
        },
{
    let ghost model = items@.map_values(|v: JsonValue| v@);
    let mut recipients: Vec<Recipient> = Vec::new();
    let mut i: usize = 0;
    assert(model.subrange(0, 0) =~= Seq::<Json>::empty());
    assert(recipients@.map_values(|r: Recipient| r@) =~= Seq::<Person>::empty());
    while i < items.len()
        invariant
            i <= items.len(),
            model == items@.map_values(|v: JsonValue| v@),
            people_of(model.subrange(0, i as int)) == Ok::<Seq<Person>, Seq<char>>(
                recipients@.map_values(|r: Recipient| r@),
            ),
        decreases items.len() - i,
    {
        let ghost before = model.subrange(0, i as int);
        let ghost after = model.subrange(0, i as int + 1);
        assert(after.drop_last() =~= before);
        assert(after.last() == items@[i as int]@);
        match read_person(&items[i]) {
            Err(message) => {
                proof {
                    lemma_people_fail(model, i as int + 1);
                }
                return Err(message);
            },
            Ok(pair) => {
                let ghost old_people = recipients@.map_values(|r: Recipient| r@);
                recipients.push(
                    Recipient { name: RecipientName(pair.0), email: RecipientEmail(pair.1) },
                );
                assert(recipients@.map_values(|r: Recipient| r@) =~= old_people.push(
                    (pair.0@, pair.1@),
                ));
            },
        }
        i += 1;
    }
    assert(model.subrange(0, items.len() as int) =~= model);
    Ok(recipients)
}

/// Once a front part of a list fails, the whole list fails in the same way.
proof fn lemma_people_fail(items: Seq<Json>, upto: int)
    requires
        0 <= upto <= items.len(),
        people_of(items.subrange(0, upto)) is Err,
    ensures
        people_of(items) == people_of(items.subrange(0, upto)),
    decreases items.len(),
{
    if upto == items.len() {
        assert(items.subrange(0, upto) =~= items);
    } else {
        let front = items.drop_last();
        assert(front.subrange(0, upto) =~= items.subrange(0, upto));
        lemma_people_fail(front, upto);
    }
}

impl Emailer {
    /// What a parameter decodes to: the mail that it asks for, or the
    /// message for the first field, in the order of [`Emailer`]'s fields,
    /// that is missing or unfit.
    pub open spec fn decoded(parameter: Json) -> Result<Mail, Seq<char>> {
        match Self::decoded_server(parameter) {
            Err(message) => Err(message),
            Ok(server) => match Self::decoded_sender(parameter) {
                Err(message) => Err(message),
                Ok(sender) => match Self::decoded_recipients(parameter) {
                    Err(message) => Err(message),
                    Ok(recipients) => match Self::decoded_content(parameter) {
                        Err(message) => Err(message),
                        Ok(content) => Ok(
                            Mail {
                                smtp_server: server.0,
                                smtp_port: server.1,
                                sender,
                                recipients,
                                subject: content.0,
                                html_body: content.1,
                                text_body: content.2,
                                access_token: content.3,
                            },
                        ),
                    },
                },
            },
        }
    }

    /// The mail server that a parameter names: its `smtp_server`, a string
    /// that is not empty, and its `smtp_port`, a number from 0 to 65535.
    pub open spec fn decoded_server(parameter: Json) -> Result<(Seq<char>, u16), Seq<char>> {
        match parameter.required_text("smtp_server"@) {
            Err(message) => Err(message),
            Ok(server) => if server.len() == 0 {
                Err(no_server_message())
            } else {
                match parameter.required("smtp_port"@) {
                    Err(message) => Err(message),
                    Ok(port) => match port.as_u16() {
                        None => Err(invalid_field("smtp_port"@)),
                        Some(number) => Ok((server, number)),
                    },
                }
            },
        }
    }

    /// The sender that a parameter names: the person of its `sender`.
    pub open spec fn decoded_sender(parameter: Json) -> Result<Person, Seq<char>> {
        match parameter.required("sender"@) {
            Err(message) => Err(message),
            Ok(from) => person_of(from),
        }
    }

    /// The recipients that a parameter names: the persons of its list
    /// `recipients`, which holds at least one.
    pub open spec fn decoded_recipients(parameter: Json) -> Result<Seq<Person>, Seq<char>> {
        match parameter.required("recipients"@) {
            Err(message) => Err(message),
            Ok(Json::List(items)) => match people_of(items) {
                Err(message) => Err(message),
                Ok(people) => if people.len() == 0 {
                    Err(no_recipients_message())
                } else {
                    Ok(people)
                },
            },
            Ok(_) => Err(invalid_field("recipients"@)),
        }
    }

    /// The subject, the two bodies and the token of a parameter. A body may
    /// be missing or null.
    pub open spec fn decoded_content(parameter: Json) -> Result<
        (Seq<char>, Option<Seq<char>>, Option<Seq<char>>, Seq<char>),
        Seq<char>,
    > {
        match parameter.required_text("subject"@) {
            Err(message) => Err(message),
            Ok(subject) => match parameter.optional_text("html_body"@) {
                Err(message) => Err(message),
                Ok(html_body) => match parameter.optional_text("text_body"@) {
                    Err(message) => Err(message),
                    Ok(text_body) => match parameter.required_text("access_token"@) {
                        Err(message) => Err(message),
                        Ok(access_token) => Ok((subject, html_body, text_body, access_token)),
                    },
                },
            },
        }
    }

    /// Decodes the parameter of a request to send a message.
    pub fn from_value(parameter: &JsonValue) -> (read: Result<Emailer, String>)
        ensures
            match read {
                Ok(emailer) => Self::decoded(parameter@) == Ok::<Mail, Seq<char>>(emailer@),
                Err(message) => Self::decoded(parameter@) == Err::<Mail, Seq<char>>(message@),
            },
    {
        let smtp_server = parameter.required_text("smtp_server")?;
        if smtp_server.as_str().is_empty() {
            return Err(String::from_str("smtp_server must not be empty"));
        }
        let smtp_port = match parameter.required("smtp_port")?.as_u16() {
            Some(port) => port,
            None => {
                return Err(invalid_field_message("smtp_port"));
            },
        };
        let sender = read_person(parameter.required("sender")?)?;
        let recipients = match parameter.required("recipients")? {
            JsonValue::List(items) => {
                assert(parameter@.required("recipients"@)->Ok_0->List_0 =~= items@.map_values(
                    |v: JsonValue| v@,
                ));
                read_recipients(items)?
            },
            _ => {
                return Err(invalid_field_message("recipients"));
            },
        };
        if recipients.len() == 0 {
            return Err(String::from_str("recipients must not be empty"));
        }
        let subject = parameter.required_text("subject")?;
        let html_body = parameter.optional_text("html_body")?;
        let text_body = parameter.optional_text("text_body")?;
        let access_token = parameter.required_text("access_token")?;
        Ok(
            Emailer {
                smtp_server: SmtpHostName(smtp_server),
                smtp_port: SmtpPort(smtp_port),
                sender: Sender { name: SenderName(sender.0), email: SenderEmail(sender.1) },
                recipients,
                subject,
                html_body,
                text_body,
                access_token: AccessToken::new(access_token),
            },
        )
    }
}

/// Where the delivery of one message stands.
pub enum Delivery {
    /// The session with the mail server is being opened; the message waits.
    Connecting(MailMessage),
    /// The server accepted the sender and the message is on its way.
    Transmitting,
    /// Nothing is left to do.
    Finished,
}

/// What the mail transport is to do next for a delivery.
pub enum MailAction {
    /// Open a session with the server and authenticate.
    Connect { server: String, port: u16, implicit_tls: bool, credentials: Credentials },
    /// Transmit the message over the session.
    Transmit(MailMessage),
    /// Close the session, if there is one, and report.
    Finish(EmailResult<()>),
}

/// Why a step of the mail transport failed. The difference counts while
/// the session is opened; a failure while the message is transmitted is a
/// mail error in either case.
#[derive(Debug, Clone, PartialEq, Eq)]
pub enum MailFailure {
    /// The server could not be reached: the network, the name lookup or TLS
    /// failed on the way to it.
    Unreachable(String),
    /// The server was reached and refused: it rejected the sender's
    /// credentials, or the message.
    Refused(String),
}

impl View for MailFailure {
    type V = Failure;

    /// The failure by its cause: a transport error where the server could
    /// not be reached, a mail error where it refused.
    open spec fn view(&self) -> Failure {
        match self {
            MailFailure::Unreachable(detail) => failure(ErrorKind::Curl, detail@),
            MailFailure::Refused(detail) => failure(ErrorKind::MailSend, detail@),
        }
    }
}

impl MailFailure {
    /// The error that stands for the failure by its cause.
    pub fn into_error(self) -> (error: EmailError)
        ensures
            error@ == self@,
    {
        match self {
            MailFailure::Unreachable(detail) => EmailError::Curl(detail),
            MailFailure::Refused(detail) => EmailError::MailSend(detail),
        }
    }

    /// The detail of the failure, whatever its kind.
    pub fn into_detail(self) -> (detail: String)
        ensures
            detail@ == self@.detail,
    {
        match self {
            MailFailure::Unreachable(detail) => detail,
            MailFailure::Refused(detail) => detail,
        }
    }
}

/// The message for an outcome that no step was waiting for.
pub open spec fn no_delivery_message() -> Seq<char> {
    "no delivery in progress"@
}

impl MailAction {
    /// Whether the action ends the delivery and reports `failure`.
    pub open spec fn reports(self, failure: Failure) -> bool {
        self matches MailAction::Finish(Err(error)) && error@ == failure
    }

    /// Whether the action ends the delivery with the mail error `detail`.
    pub open spec fn fails_with(self, detail: Seq<char>) -> bool {
        self.reports(failure(ErrorKind::MailSend, detail))
    }
}

impl Emailer {
    /// Whether `state` and `action` are the first step for `mail`: with no
    /// server to send through, or with nobody to send to, the delivery is
    /// over at once and reports so; otherwise the message is built and waits
    /// while the transport opens a session without implicit TLS and
    /// authenticates with XOAUTH2.
    pub open spec fn is_first_step(mail: Mail, state: Delivery, action: MailAction) -> bool {
        if mail.smtp_server.len() == 0 {
            state is Finished && action.fails_with(no_server_message())
        } else if mail.recipients.len() == 0 {
            state is Finished && action.fails_with(no_recipients_message())
        } else {
            &&& state matches Delivery::Connecting(message)
            &&& message.carries(mail)
            &&& action matches MailAction::Connect { server, port, implicit_tls, credentials }
            &&& server@ == mail.smtp_server
            &&& port == mail.smtp_port
            &&& !implicit_tls
            &&& credentials.authenticate(mail)
        }
    }

    /// Starts the delivery of the message.
    pub fn send_email(self) -> (step: (Delivery, MailAction))
        ensures
            Self::is_first_step(self@, step.0, step.1),
    {
        if self.smtp_server.as_str().is_empty() {
            return (
                Delivery::Finished,
                MailAction::Finish(
                    Err(EmailError::MailSend(String::from_str("smtp_server must not be empty"))),
                ),
            );
        }
        if self.recipients.len() == 0 {
            return (
                Delivery::Finished,
                MailAction::Finish(
                    Err(EmailError::MailSend(String::from_str("recipients must not be empty"))),
                ),
            );
        }
        let message = self.message();
        let credentials = self.credentials();
        (
            Delivery::Connecting(message),
            MailAction::Connect {
                server: self.smtp_server.0,
                port: self.smtp_port.0,
                implicit_tls: false,
                credentials,
            },
        )
    }
}

impl Delivery {
    /// Whether `state` and `action` follow from `self` on `outcome`, the
    /// result of the action before:
    /// - once the session is open, the message that waited is transmitted;
    /// - once the message is transmitted, the delivery has succeeded;
    /// - a session that could not be opened ends the delivery: a server
    ///   that could not be reached is reported as a transport error, a
    ///   server that refused the sender as a mail error, each with the
    ///   detail of the failure;
    /// - a transmission that failed ends the delivery with a mail error
    ///   that carries the detail of the failure, whatever its cause;
    /// - after a failure nothing more is tried, and a delivery that is over
    ///   stays so.
    pub open spec fn is_next_step(
        self,
        outcome: Result<(), MailFailure>,
        state: Delivery,
        action: MailAction,
    ) -> bool {
        match (self, outcome) {
            (Delivery::Connecting(message), Ok(_)) => state is Transmitting && action
                == MailAction::Transmit(message),
            (Delivery::Connecting(_), Err(cause)) => state is Finished && action.reports(cause@),
            (Delivery::Transmitting, Ok(_)) => state is Finished && action matches MailAction::Finish(
                Ok(_),
            ),
            (Delivery::Transmitting, Err(cause)) => state is Finished && action.fails_with(
                cause@.detail,
            ),
            (Delivery::Finished, _) => state is Finished && action.fails_with(
                no_delivery_message(),
            ),
        }
    }

    /// Takes the outcome of the last action and says what comes next.
    pub fn advance(self, outcome: Result<(), MailFailure>) -> (step: (Delivery, MailAction))
        ensures
            self.is_next_step(outcome, step.0, step.1),
    {
        match (self, outcome) {
            (Delivery::Connecting(message), Ok(_)) => (
                Delivery::Transmitting,
                MailAction::Transmit(message),
            ),
            (Delivery::Connecting(_), Err(cause)) => (
                Delivery::Finished,
                MailAction::Finish(Err(cause.into_error())),
            ),
            (Delivery::Transmitting, Ok(_)) => (Delivery::Finished, MailAction::Finish(Ok(()))),
            (Delivery::Transmitting, Err(cause)) => (
                Delivery::Finished,
                MailAction::Finish(Err(EmailError::MailSend(cause.into_detail()))),
            ),
            (Delivery::Finished, _) => (
                Delivery::Finished,
                MailAction::Finish(
                    Err(EmailError::MailSend(String::from_str("no delivery in progress"))),
                ),
            ),
        }
    }
}

} // verus!
