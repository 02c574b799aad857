use vstd::prelude::*;

use crate::error::{failure, EmailError, EmailResult, ErrorKind, Failure};
use crate::interface::{
    body_text, invalid_header_message, is_header_text, Header, HttpRequest, HttpResponse,
    Interface, Method,
};
use crate::token::AccessToken;
use crate::value::{json_document, Json, JsonValue};

verus! {

/// The display name of a sender.
#[derive(Debug, Clone, PartialEq, Eq)]
pub struct SenderName(pub String);

/// The address of a sender.
#[derive(Debug, Clone, PartialEq, Eq)]
pub struct SenderEmail(pub String);

/// The display name of a recipient.
#[derive(Debug, Clone, PartialEq, Eq)]
pub struct RecipientName(pub String);

/// The address of a recipient.
#[derive(Debug, Clone, PartialEq, Eq)]
pub struct RecipientEmail(pub String);

impl View for SenderName {
    type V = Seq<char>;

    open spec fn view(&self) -> Seq<char> {
        self.0@
    }
}

impl View for SenderEmail {
    type V = Seq<char>;

    open spec fn view(&self) -> Seq<char> {
        self.0@
    }
}

impl View for RecipientName {
    type V = Seq<char>;

    open spec fn view(&self) -> Seq<char> {
        self.0@
    }
}

impl View for RecipientEmail {
    type V = Seq<char>;

    open spec fn view(&self) -> Seq<char> {
        self.0@
    }
}

impl SenderName {
    pub fn as_str(&self) -> (text: &str)
        ensures
            text@ == self@,
    {
        self.0.as_str()
    }

    pub fn to_string(&self) -> (text: String)
        ensures
            text@ == self@,
    {
        self.0.clone()
    }
}

impl SenderEmail {
    pub fn as_str(&self) -> (text: &str)
        ensures
            text@ == self@,
    {
        self.0.as_str()
    }

    pub fn to_string(&self) -> (text: String)
        ensures
            text@ == self@,
    {
        self.0.clone()
    }
}

impl RecipientName {
    pub fn as_str(&self) -> (text: &str)
        ensures
            text@ == self@,
    {
        self.0.as_str()
    }

    pub fn to_string(&self) -> (text: String)
        ensures
            text@ == self@,
    {
        self.0.clone()
    }
}

impl RecipientEmail {
    pub fn as_str(&self) -> (text: &str)
        ensures
            text@ == self@,
    {
        self.0.as_str()
    }

    pub fn to_string(&self) -> (text: String)
        ensures
            text@ == self@,
    {
        self.0.clone()
    }
}

/// The profile as Microsoft's endpoint gives it.
#[derive(Debug, Clone, PartialEq, Eq)]
pub struct MicrosoftProfile {
    pub odata_context: String,
    pub odata_id: String,
    pub id: String,
    pub email_address: String,
    pub display_name: String,
    pub alias: String,
    pub mailbox_guid: String,
}

/// The profile as Google's endpoint gives it.
#[derive(Debug, Clone, PartialEq, Eq)]
pub struct GoogleProfile {
    pub id: String,
    pub email: String,
    pub verified_email: bool,
    pub name: String,
    pub given_name: String,
    pub picture: String,
    pub locale: String,
}

/// A profile of either provider.
#[derive(Debug, Clone, PartialEq, Eq)]
pub enum Profile {
    Microsoft(MicrosoftProfile),
    Google(GoogleProfile),
}

/// Whether a document has the shape of Microsoft's profile: an object with
/// each of the seven fields, all strings. Other fields do not matter.
pub open spec fn microsoft_shape(document: Json) -> bool {
    &&& document.text_field("@odata.context"@) is Some
    &&& document.text_field("@odata.id"@) is Some
    &&& document.text_field("Id"@) is Some
    &&& document.text_field("EmailAddress"@) is Some
    &&& document.text_field("DisplayName"@) is Some
    &&& document.text_field("Alias"@) is Some
    &&& document.text_field("MailboxGuid"@) is Some
}

/// Whether a document has the shape of Google's profile: an object with
/// each of the seven fields, `verified_email` a boolean and the others
/// strings. Other fields do not matter.
pub open spec fn google_shape(document: Json) -> bool {
    &&& document.text_field("id"@) is Some
    &&& document.text_field("email"@) is Some
    &&& document.flag_field("verified_email"@) is Some
    &&& document.text_field("name"@) is Some
    &&& document.text_field("given_name"@) is Some
    &&& document.text_field("picture"@) is Some
    &&& document.text_field("locale"@) is Some
}

/// The message for a document of neither shape.
pub open spec fn no_match_message() -> Seq<char> {
    "data did not match any variant of untagged enum Profile"@
}

/// The name and address that a document gives for the sender: the display
/// name and the address of a Microsoft profile, the given name and the
/// address of a Google profile. Microsoft's shape is tried first.
pub open spec fn sender_of(document: Json) -> Option<(Seq<char>, Seq<char>)> {
    if microsoft_shape(document) {
        Some(
            (
                document.text_field("DisplayName"@)->0,
                document.text_field("EmailAddress"@)->0,
            ),
        )
    } else if google_shape(document) {
        Some((document.text_field("given_name"@)->0, document.text_field("email"@)->0))
    } else {
        None
    }
}

impl MicrosoftProfile {
    /// Whether the profile holds the fields of `document`.
    pub open spec fn is_read_from(&self, document: Json) -> bool {
        &&& document.text_field("@odata.context"@) == Some(self.odata_context@)
        &&& document.text_field("@odata.id"@) == Some(self.odata_id@)
        &&& document.text_field("Id"@) == Some(self.id@)
        &&& document.text_field("EmailAddress"@) == Some(self.email_address@)
        &&& document.text_field("DisplayName"@) == Some(self.display_name@)
        &&& document.text_field("Alias"@) == Some(self.alias@)
        &&& document.text_field("MailboxGuid"@) == Some(self.mailbox_guid@)
    }

    /// Reads a profile from a document of Microsoft's shape, and nothing
    /// from any other.
    pub fn from_value(document: &JsonValue) -> (read: Option<MicrosoftProfile>)
        ensures
            read is Some <==> microsoft_shape(document@),
            read matches Some(profile) ==> profile.is_read_from(document@),
    {
        let odata_context = document.text_field("@odata.context")?;
        let odata_id = document.text_field("@odata.id")?;
        let id = document.text_field("Id")?;
        let email_address = document.text_field("EmailAddress")?;
        let display_name = document.text_field("DisplayName")?;
        let alias = document.text_field("Alias")?;
        let mailbox_guid = document.text_field("MailboxGuid")?;
        Some(
            MicrosoftProfile {
                odata_context: odata_context.clone(),
                odata_id: odata_id.clone(),
                id: id.clone(),
                email_address: email_address.clone(),
                display_name: display_name.clone(),
                alias: alias.clone(),
                mailbox_guid: mailbox_guid.clone(),
            },
        )
    }
}

impl GoogleProfile {
    /// Whether the profile holds the fields of `document`.
    pub open spec fn is_read_from(&self, document: Json) -> bool {
        &&& document.text_field("id"@) == Some(self.id@)
        &&& document.text_field("email"@) == Some(self.email@)
        &&& document.flag_field("verified_email"@) == Some(self.verified_email)
        &&& document.text_field("name"@) == Some(self.name@)
        &&& document.text_field("given_name"@) == Some(self.given_name@)
        &&& document.text_field("picture"@) == Some(self.picture@)
        &&& document.text_field("locale"@) == Some(self.locale@)
    }

    /// Reads a profile from a document of Google's shape, and nothing from
    /// any other.
    pub fn from_value(document: &JsonValue) -> (read: Option<GoogleProfile>)
        ensures
            read is Some <==> google_shape(document@),
            read matches Some(profile) ==> profile.is_read_from(document@),
    {
        let id = document.text_field("id")?;
        let email = document.text_field("email")?;
        let verified_email = document.flag_field("verified_email")?;
        let name = document.text_field("name")?;
        let given_name = document.text_field("given_name")?;
        let picture = document.text_field("picture")?;
        let locale = document.text_field("locale")?;
        Some(
            GoogleProfile {
                id: id.clone(),
                email: email.clone(),
                verified_email,
                name: name.clone(),
                given_name: given_name.clone(),
                picture: picture.clone(),
                locale: locale.clone(),
            },
        )
    }
}

impl Profile {
    /// Whether the profile holds the fields of `document`.
    pub open spec fn is_read_from(&self, document: Json) -> bool {
        match self {
            Profile::Microsoft(profile) => profile.is_read_from(document),
            Profile::Google(profile) => profile.is_read_from(document),
        }
    }

    /// The name and address of the sender that the profile gives.
    pub open spec fn sender(&self) -> (Seq<char>, Seq<char>) {
        match self {
            Profile::Microsoft(profile) => (profile.display_name@, profile.email_address@),
            Profile::Google(profile) => (profile.given_name@, profile.email@),
        }
    }

    /// Reads a profile from a document: Microsoft's where the document has
    /// that shape, else Google's where it has that one, else the error that
    /// says that it has neither.
    pub fn from_value(document: &JsonValue) -> (read: EmailResult<Profile>)
        ensures
            match read {
                Ok(profile) => {
                    &&& profile.is_read_from(document@)
                    &&& profile is Microsoft <==> microsoft_shape(document@)
                    &&& profile is Google ==> google_shape(document@)
                    &&& sender_of(document@) == Some(profile.sender())
                },
                Err(error) => {
                    &&& !microsoft_shape(document@)
                    &&& !google_shape(document@)
                    &&& error@ == failure(ErrorKind::Serde, no_match_message())
                },
            },
    {
        if let Some(profile) = MicrosoftProfile::from_value(document) {
            return Ok(Profile::Microsoft(profile));
        }
        if let Some(profile) = GoogleProfile::from_value(document) {
            return Ok(Profile::Google(profile));
        }
        Err(
            EmailError::Serde(
                String::from_str("data did not match any variant of untagged enum Profile"),
            ),
        )
    }

    /// Hands out the name and address of the sender.
    pub fn into_sender(self) -> (pair: (SenderName, SenderEmail))
        ensures
            (pair.0@, pair.1@) == self.sender(),
    {
        match self {
            Profile::Microsoft(profile) => (
                SenderName(profile.display_name),
                SenderEmail(profile.email_address),
            ),
            Profile::Google(profile) => (SenderName(profile.given_name), SenderEmail(profile.email)),
        }
    }
}

/// What `url` makes of a text: the serialization of the absolute URL that
/// it parses to, or the message of the error that it reports.
pub uninterp spec fn url_parse(text: Seq<char>) -> Result<Seq<char>, Seq<char>>;

/// Calls `url::Url::parse` and hands out the URL as `Url::as_str` gives it,
/// or the error as it displays. The contract gives the outcome a name,
/// [`url_parse`]: the same text always parses to the same URL, or fails
/// with the same message.
#[verifier::external_body]
fn parse_url(text: &str) -> (parsed: Result<String, String>)
    ensures
        match parsed {
            Ok(url) => url_parse(text@) == Ok::<Seq<char>, Seq<char>>(url@),
            Err(message) => url_parse(text@) == Err::<Seq<char>, Seq<char>>(message@),
        },
{
    match url::Url::parse(text) {
        Ok(url) => Ok(url.as_str().to_owned()),
        Err(error) => Err(error.to_string()),
    }
}

/// The endpoint of an identity provider: an absolute URL, kept in the form
/// in which the parser serializes it.
#[derive(Debug, PartialEq, Eq)]
pub struct ProfileUrl {
    url: String,
}

impl View for ProfileUrl {
    type V = Seq<char>;

    closed spec fn view(&self) -> Seq<char> {
        self.url@
    }
}

impl ProfileUrl {
    /// Every endpoint is what some text parsed to.
    #[verifier::type_invariant]
    spec fn parsed(self) -> bool {
        exists|text: Seq<char>| #[trigger] url_parse(text) == Ok::<Seq<char>, Seq<char>>(self.url@)
    }

    /// Whether `url` is the serialization of an absolute URL.
    pub open spec fn is_absolute_url(url: Seq<char>) -> bool {
        exists|text: Seq<char>| #[trigger] url_parse(text) == Ok::<Seq<char>, Seq<char>>(url)
    }

    /// Parses an endpoint. A text that is no absolute URL gives the message
    /// of the parser's error.
    pub fn parse(text: &str) -> (parsed: Result<ProfileUrl, String>)
        ensures
            match parsed {
                Ok(endpoint) => url_parse(text@) == Ok::<Seq<char>, Seq<char>>(endpoint@),
                Err(message) => url_parse(text@) == Err::<Seq<char>, Seq<char>>(message@),
            },
    {
        match parse_url(text) {
            Ok(url) => Ok(ProfileUrl { url }),
            Err(message) => Err(message),
        }
    }

    /// The URL as text.
    pub fn as_str(&self) -> (text: &str)
        ensures
            text@ == self@,
            Self::is_absolute_url(self@),
    {
        proof {
            use_type_invariant(self);
        }
        self.url.as_str()
    }
}

/// The parameter of a profile request.
pub struct ProfileParam {
    pub access_token: AccessToken,
    pub profile_endpoint: ProfileUrl,
}

/// The value of the `Authorization` header for a token.
pub open spec fn bearer(token: Seq<char>) -> Seq<char> {
    "Bearer "@ + token
}

/// The message for a response without a body.
pub open spec fn no_body_message() -> Seq<char> {
    "No body"@
}

/// `bearer(token)` may stand in a header whenever `token` may.
pub proof fn lemma_bearer_is_header_text(token: Seq<char>)
    ensures
        is_header_text(bearer(token)) <==> is_header_text(token),
{
    reveal_strlit("Bearer ");
    let prefix = "Bearer "@;
    let value = bearer(token);
    if is_header_text(token) {
        assert forall|i: int| 0 <= i < value.len() implies crate::interface::is_header_char(
            #[trigger] value[i],
        ) by {
            if i >= prefix.len() {
                assert(value[i] == token[i - prefix.len()]);
            }
        }
    }
    if is_header_text(value) {
        assert forall|i: int| 0 <= i < token.len() implies crate::interface::is_header_char(
            #[trigger] token[i],
        ) by {
            assert(value[i + prefix.len()] == token[i]);
        }
    }
}

impl ProfileParam {
    /// What a parameter decodes to: the token and the endpoint, or the
    /// message for the first field that is missing or unfit.
    pub open spec fn decoded(parameter: Json) -> Result<(Seq<char>, Seq<char>), Seq<char>> {
        match parameter.required_text("access_token"@) {
            Err(message) => Err(message),
            Ok(token) => match parameter.required_text("profile_endpoint"@) {
                Err(message) => Err(message),
                Ok(text) => match url_parse(text) {
                    Err(message) => Err(message),
                    Ok(url) => Ok((token, url)),
                },
            },
        }
    }

    /// Decodes the parameter of a profile request.
    pub fn from_value(parameter: &JsonValue) -> (read: Result<ProfileParam, String>)
        ensures
            match read {
                Ok(param) => Self::decoded(parameter@) == Ok::<
                    (Seq<char>, Seq<char>),
                    Seq<char>,
                >((param.access_token@, param.profile_endpoint@)),
                Err(message) => Self::decoded(parameter@) == Err::<
                    (Seq<char>, Seq<char>),
                    Seq<char>,
                >(message@),
            },
    {
        let token = parameter.required_text("access_token")?;
        let text = parameter.required_text("profile_endpoint")?;
        let profile_endpoint = ProfileUrl::parse(text.as_str())?;
        Ok(ProfileParam { access_token: AccessToken::new(token), profile_endpoint })
    }
}

impl Profile {
    /// Whether `request` is the one request that asks `endpoint` for the
    /// profile: a GET with the token as bearer and no body.
    pub open spec fn is_request_for(
        request: HttpRequest,
        token: Seq<char>,
        endpoint: Seq<char>,
    ) -> bool {
        &&& request.url@ == endpoint
        &&& request.method == Method::Get
        &&& request.headers@.len() == 1
        &&& request.headers@[0].name@ == "Authorization"@
        &&& request.headers@[0].value@ == bearer(token)
        &&& request.body is None
    }

    /// Builds the request for a profile. It fails, with the header error,
    /// exactly when the token holds a character that no header value may.
    pub fn request(param: &ProfileParam) -> (built: EmailResult<HttpRequest>)
        ensures
            match built {
                Ok(request) => {
                    &&& is_header_text(param.access_token@)
                    &&& Self::is_request_for(request, param.access_token@, param.profile_endpoint@)
                    &&& ProfileUrl::is_absolute_url(request.url@)
                },
                Err(error) => {
                    &&& !is_header_text(param.access_token@)
                    &&& error@ == failure(ErrorKind::Http, invalid_header_message())
                },
            },
    {
        proof {
            lemma_bearer_is_header_text(param.access_token@);
        }
        let value = String::from_str("Bearer ").concat(param.access_token.secret().as_str());
        match Header::with_value("Authorization", value) {
            Ok(header) => {
                let mut headers: Vec<Header> = Vec::new();
                headers.push(header);
                Ok(
                    HttpRequest {
                        url: param.profile_endpoint.as_str().to_owned(),
                        method: Method::Get,
                        headers,
                        body: None,
                    },
                )
            },
            Err(message) => Err(EmailError::Http(message)),
        }
    }

    /// What the outcome of the transport resolves to:
    /// - a failure of the transport is handed on as it is;
    /// - a response without a body is a transport error;
    /// - a body that is no JSON text is a schema error with the parser's
    ///   message;
    /// - a document of neither shape is a schema error;
    /// - any other document gives its sender.
    pub open spec fn resolution(outcome: EmailResult<HttpResponse>) -> Result<
        (Seq<char>, Seq<char>),
        Failure,
    > {
        match outcome {
            Err(error) => Err(error@),
            Ok(response) => match response.body {
                None => Err(failure(ErrorKind::Curl, no_body_message())),
                Some(bytes) => Self::reading(json_document(body_text(bytes@))),
            },
        }
    }

    /// What the reading of a body resolves to.
    pub open spec fn reading(read: Result<Json, Seq<char>>) -> Result<
        (Seq<char>, Seq<char>),
        Failure,
    > {
        match read {
            Err(reason) => Err(failure(ErrorKind::Serde, reason)),
            Ok(document) => match sender_of(document) {
                None => Err(failure(ErrorKind::Serde, no_match_message())),
                Some(sender) => Ok(sender),
            },
        }
    }

    /// The content of a resolved sender, or of the error in its place.
    pub open spec fn resolved(result: EmailResult<(SenderName, SenderEmail)>) -> Result<
        (Seq<char>, Seq<char>),
        Failure,
    > {
        match result {
            Ok(pair) => Ok((pair.0@, pair.1@)),
            Err(error) => Err(error@),
        }
    }

    /// Reads the profile out of a body text.
    pub fn parse(text: &str) -> (read: EmailResult<Profile>)
        ensures
            match read {
                Ok(profile) => Self::reading(json_document(text@)) == Ok::<
                    (Seq<char>, Seq<char>),
                    Failure,
                >(profile.sender()) && profile.is_read_from(json_document(text@)->Ok_0),
                Err(error) => Self::reading(json_document(text@)) == Err::<
                    (Seq<char>, Seq<char>),
                    Failure,
                >(error@),
            },
    {
        match JsonValue::parse(text) {
            Err(message) => Err(EmailError::Serde(message)),
            Ok(document) => Profile::from_value(&document),
        }
    }

    /// Resolves the sender from what the transport brought back.
    pub fn from_response(outcome: EmailResult<HttpResponse>) -> (resolved: EmailResult<
        (SenderName, SenderEmail),
    >)
        ensures
            Self::resolved(resolved) == Self::resolution(outcome),
    {
        let response = outcome?;
        match response.body {
            None => Err(EmailError::Curl(String::from_str("No body"))),
            Some(bytes) => {
                let text = HttpResponse::read_text(bytes);
                let profile = Profile::parse(text.as_str())?;
                Ok(profile.into_sender())
            },
        }
    }

    /// Whether `resolved` comes from asking `interface` for the profile:
    /// the transport answered the request for the profile, and `resolved`
    /// is the resolution of that answer.
    pub open spec fn is_answered_by<I: Interface>(
        interface: I,
        token: Seq<char>,
        endpoint: Seq<char>,
        resolved: EmailResult<(SenderName, SenderEmail)>,
    ) -> bool {
        exists|request: HttpRequest, outcome: EmailResult<HttpResponse>|
            {
                &&& Self::is_request_for(request, token, endpoint)
                &&& #[trigger] interface.answers(request, outcome)
                &&& Self::resolved(resolved) == Self::resolution(outcome)
            }
    }

    /// Asks the provider for the profile and resolves the sender from it.
    /// A token that no header can carry fails before anything is sent;
    /// otherwise the result is the resolution of an answer that the
    /// transport gave to the request for the profile.
    pub fn get_sender_profile<I: Interface>(param: &ProfileParam, interface: I) -> (resolved:
        EmailResult<(SenderName, SenderEmail)>)
        ensures
            !is_header_text(param.access_token@) ==> Self::resolved(resolved) == Err::<
                (Seq<char>, Seq<char>),
                Failure,
            >(failure(ErrorKind::Http, invalid_header_message())),
            is_header_text(param.access_token@) ==> Self::is_answered_by(
                interface,
                param.access_token@,
                param.profile_endpoint@,
                resolved,
            ),
    {
        let request = Profile::request(param)?;
        let ghost asked = request;
        let outcome = interface.http_request(request);
        let ghost seen = outcome;
        let resolved = Profile::from_response(outcome);
        assert(Self::is_request_for(asked, param.access_token@, param.profile_endpoint@));
        assert(interface.answers(asked, seen));
        assert(Self::resolved(resolved) == Self::resolution(seen));
        resolved
    }
}

/// A response with a body resolves to what the reading of the body's text
/// resolves to.
pub proof fn lemma_body_is_read(response: HttpResponse)
    requires
        response.body is Some,
    ensures
        Profile::resolution(Ok(response)) == Profile::reading(
            json_document(body_text(response.body->0@)),
        ),
{
}

/// A document of Microsoft's shape resolves to the display name and the
/// address that it gives, and a document of Google's shape, unless it has
/// Microsoft's too, to the given name and the address; neither is an error.
pub proof fn lemma_supported_payload_resolves(document: Json)
    requires
        microsoft_shape(document) || google_shape(document),
    ensures
        microsoft_shape(document) ==> Profile::reading(Ok(document)) == Ok::<
            (Seq<char>, Seq<char>),
            Failure,
        >((document.text_field("DisplayName"@)->0, document.text_field("EmailAddress"@)->0)),
        !microsoft_shape(document) ==> Profile::reading(Ok(document)) == Ok::<
            (Seq<char>, Seq<char>),
            Failure,
        >((document.text_field("given_name"@)->0, document.text_field("email"@)->0)),
{
}

/// A document of neither shape resolves to a schema error and to no
/// sender, and so does a body that is no document, with the parser's
/// message.
pub proof fn lemma_unknown_payload_fails(read: Result<Json, Seq<char>>)
    requires
        read matches Ok(document) ==> !microsoft_shape(document) && !google_shape(document),
    ensures
        Profile::reading(read) == Err::<(Seq<char>, Seq<char>), Failure>(
            failure(
                ErrorKind::Serde,
                match read {
                    Ok(_) => no_match_message(),
                    Err(reason) => reason,
                },
            ),
        ),
{
}

/// A response without a body resolves to the transport error `No body`.
pub proof fn lemma_missing_body_fails(response: HttpResponse)
    requires
        response.body is None,
    ensures
        Profile::resolution(Ok(response)) == Err::<(Seq<char>, Seq<char>), Failure>(
            failure(ErrorKind::Curl, no_body_message()),
        ),
{
}

/// A failure of the transport resolves to itself: same kind, same detail.
pub proof fn lemma_transport_failure_is_handed_on(error: EmailError)
    ensures
        Profile::resolution(Err(error)) == Err::<(Seq<char>, Seq<char>), Failure>(error@),
{
}

} // verus!
