use vstd::prelude::*;
use vstd::string::StringExecFns;
use crate::domain::SubscriberEmail;
use crate::secret::{redacted_marker, SecretToken};
use crate::text::{decimal_rep, push_decimal, push_str_chars, string_from_chars};
use crate::wire::{
    email_request_body, lemma_body_fields_recoverable, parse_email_request_body,
    render_email_request_body,
};

verus! {

/// The fixed path segment appended to the base URL for a send.
pub open spec fn email_path() -> Seq<char> {
    "/email"@
}

/// The provider-specific header that carries the authorization token.
pub open spec fn authorization_header_name() -> Seq<char> {
    "X-Postmark-Server-Token"@
}

/// The declared content type of the request body.
pub open spec fn json_content_type() -> Seq<char> {
    "application/json"@
}

/// A successful HTTP status: anything in the 2xx range.
pub open spec fn is_success_status(status: u16) -> bool {
    200 <= status < 300
}

/// The one failure kind a send reports: the request never completed
/// (connection error or the configured timeout elapsed), or it completed
/// with a status outside the success range. The caller cannot tell these
/// apart through this type.
#[derive(Clone, Copy, PartialEq, Eq, Structural)]
pub enum SendError {
    Transport,
}

/// What the network round trip reports back to the classification step:
/// either the response status, or the fact that no response arrived
/// (connection failure, reset, or the configured timeout elapsing).
#[derive(Clone, Copy, PartialEq, Eq, Structural)]
pub enum TransportOutcome {
    Completed(u16),
    Failed,
}

/// The HTTP method of a request image.
#[derive(Clone, Copy, PartialEq, Eq, Structural)]
pub enum HttpMethod {
    Post,
}

/// The configuration of a delivery client, as the contracts see it.
pub struct ClientConfig {
    pub base_url: Seq<char>,
    pub sender: Seq<char>,
    pub authorization_token: Seq<char>,
    pub timeout_ms: u64,
}

/// One fully assembled send request, ready to be put on the wire: the
/// transport that performs the round trip needs nothing but these fields
/// and the client's timeout.
pub struct SendRequest {
    pub method: HttpMethod,
    pub url: String,
    pub authorization_header_name: String,
    pub authorization_header_value: String,
    pub content_type: String,
    pub body: String,
}

/// The ghost image of a [`SendRequest`].
#[verifier::ext_equal]
pub struct RequestImage {
    pub method: HttpMethod,
    pub url: Seq<char>,
    pub authorization_header_name: Seq<char>,
    pub authorization_header_value: Seq<char>,
    pub content_type: Seq<char>,
    pub body: Seq<char>,
}

impl View for SendRequest {
    type V = RequestImage;

    open spec fn view(&self) -> RequestImage {
        RequestImage {
            method: self.method,
            url: self.url@,
            authorization_header_name: self.authorization_header_name@,
            authorization_header_value: self.authorization_header_value@,
            content_type: self.content_type@,
            body: self.body@,
        }
    }
}

/// The request a client with configuration `c` submits for one send: a
/// POST to the base URL with the `/email` path appended, the token in the
/// provider's authorization header, the JSON content type, and the
/// five-field payload built from the sender and the send arguments.
pub open spec fn spec_send_request(
    c: ClientConfig,
    recipient: Seq<char>,
    subject: Seq<char>,
    html: Seq<char>,
    text: Seq<char>,
) -> RequestImage {
    RequestImage {
        method: HttpMethod::Post,
        url: c.base_url + email_path(),
        authorization_header_name: authorization_header_name(),
        authorization_header_value: c.authorization_token,
        content_type: json_content_type(),
        body: email_request_body(c.sender, recipient, subject, html, text),
    }
}

/// The textual rendering of a client. It is a function of the non-secret
/// fields alone: the authorization token is not among its arguments, so no
/// choice of token can influence the rendered text.
pub open spec fn client_description(
    base_url: Seq<char>,
    sender: Seq<char>,
    timeout_ms: u64,
) -> Seq<char> {
    "EmailClient { base_url: "@ + base_url + ", sender: "@ + sender
        + ", authorization_token: "@ + redacted_marker() + ", timeout_ms: "@
        + decimal_rep(timeout_ms as nat) + " }"@
}

/// The delivery client: an immutable value holding everything one send
/// needs. It mutates nothing between calls, so any number of sends may be
/// issued from it concurrently.
pub struct EmailClient {
    base_url: String,
    sender: SubscriberEmail,
    authorization_token: SecretToken,
    timeout_ms: u64,
}

impl View for EmailClient {
    type V = ClientConfig;

    closed spec fn view(&self) -> ClientConfig {
        ClientConfig {
            base_url: self.base_url@,
            sender: self.sender@,
            authorization_token: self.authorization_token@,
            timeout_ms: self.timeout_ms,
        }
    }
}

impl EmailClient {
    /// Builds a client from its configuration. The timeout bounds the whole
    /// round trip of every send issued from this client; the transport that
    /// enforces it is configured from [`EmailClient::timeout_ms`].
    pub fn new(
        base_url: String,
        sender: SubscriberEmail,
        authorization_token: SecretToken,
        timeout_ms: u64,
    ) -> (r: EmailClient)
        requires
            base_url@.len() > 0,
            timeout_ms > 0,
        ensures
            r@ == (ClientConfig {
                base_url: base_url@,
                sender: sender@,
                authorization_token: authorization_token@,
                timeout_ms: timeout_ms,
            }),
    {
        EmailClient { base_url, sender, authorization_token, timeout_ms }
    }

    /// The configured bound, in milliseconds, on one whole round trip.
    pub fn timeout_ms(&self) -> (r: u64)
        ensures
            r == self@.timeout_ms,
    {
        self.timeout_ms
    }

    /// Assembles the one request that a send for these arguments submits.
    pub fn build_send_request(
        &self,
        recipient: &SubscriberEmail,
        subject: &str,
        html_content: &str,
        text_content: &str,
    ) -> (r: SendRequest)
        ensures
            r@ == spec_send_request(self@, recipient@, subject@, html_content@, text_content@),
    {
        let url = self.base_url.clone().concat("/email");
        let body = render_email_request_body(
            self.sender.as_str(),
            recipient.as_str(),
            subject,
            html_content,
            text_content,
        );
        let r = SendRequest {
            method: HttpMethod::Post,
            url,
            authorization_header_name: String::from_str("X-Postmark-Server-Token"),
            authorization_header_value: String::from_str(self.authorization_token.expose_secret()),
            content_type: String::from_str("application/json"),
            body,
        };
        assert(r@ =~= spec_send_request(self@, recipient@, subject@, html_content@, text_content@));
        r
    }

    /// Classifies what the transport reported for one send: success exactly
    /// when a response arrived and its status is in the 2xx range; every
    /// other outcome — no response, or any non-2xx status — is the single
    /// transport failure.
    pub fn classify_outcome(&self, outcome: TransportOutcome) -> (r: Result<(), SendError>)
        ensures
            r is Ok <==> (outcome matches TransportOutcome::Completed(s) && is_success_status(s)),
            r is Err ==> r == Err::<(), SendError>(SendError::Transport),
    {
        match outcome {
            TransportOutcome::Completed(status) => {
                if 200 <= status && status < 300 {
                    Ok(())
                } else {
                    Err(SendError::Transport)
                }
            },
            TransportOutcome::Failed => Err(SendError::Transport),
        }
    }

    /// A textual rendering for diagnostics. Its contract pins the result to
    /// [`client_description`], which does not take the token: the secret
    /// cannot appear here, only the fixed redaction marker does.
    pub fn describe(&self) -> (r: String)
        ensures
            r@ == client_description(self@.base_url, self@.sender, self@.timeout_ms),
    {
        let mut out: Vec<char> = Vec::new();
        push_str_chars("EmailClient { base_url: ", &mut out);
        push_str_chars(self.base_url.as_str(), &mut out);
        push_str_chars(", sender: ", &mut out);
        push_str_chars(self.sender.as_str(), &mut out);
        push_str_chars(", authorization_token: ", &mut out);
        push_str_chars(self.authorization_token.redacted().as_str(), &mut out);
        push_str_chars(", timeout_ms: ", &mut out);
        push_decimal(self.timeout_ms, &mut out);
        push_str_chars(" }", &mut out);
        assert(out@ =~= client_description(self@.base_url, self@.sender, self@.timeout_ms));
        string_from_chars(&out)
    }
}

/// Law: every request a client submits has the shape the remote API asks
/// for — a POST to the base URL with the `/email` path appended, the JSON
/// content type, the provider's authorization header carrying the
/// configured token (non-empty whenever the token is), and a body holding
/// exactly the five payload fields with the values passed to the send.
pub proof fn lemma_request_shape(
    c: ClientConfig,
    recipient: Seq<char>,
    subject: Seq<char>,
    html: Seq<char>,
    text: Seq<char>,
)
    ensures
        ({
            let r = spec_send_request(c, recipient, subject, html, text);
            &&& r.method == HttpMethod::Post
            &&& r.url == c.base_url + email_path()
            &&& r.authorization_header_name == authorization_header_name()
            &&& r.authorization_header_value == c.authorization_token
            &&& c.authorization_token.len() > 0 ==> r.authorization_header_value.len() > 0
            &&& r.content_type == json_content_type()
            &&& r.body == email_request_body(c.sender, recipient, subject, html, text)
            &&& parse_email_request_body(r.body) == Some(
                (c.sender, recipient, subject, html, text),
            )
        }),
{
    lemma_body_fields_recoverable(c.sender, recipient, subject, html, text);
}

/// Law: construction is idempotent with respect to the wire. Two clients
/// built from identical parameters submit identical request images — in
/// particular byte-for-byte identical bodies — for the same send arguments.
pub proof fn lemma_idempotent_construction(
    c1: ClientConfig,
    c2: ClientConfig,
    recipient: Seq<char>,
    subject: Seq<char>,
    html: Seq<char>,
    text: Seq<char>,
)
    requires
        c1 == c2,
    ensures
        spec_send_request(c1, recipient, subject, html, text) == spec_send_request(
            c2,
            recipient,
            subject,
            html,
            text,
        ),
        spec_send_request(c1, recipient, subject, html, text).body == spec_send_request(
            c2,
            recipient,
            subject,
            html,
            text,
        ).body,
{
}

/// Law: the rendering of a client never leaks the secret. Two clients that
/// agree on the non-secret fields render to identical text whatever their
/// authorization tokens are, so the rendering carries no information about
/// the token.
pub proof fn lemma_secret_non_leakage(c1: ClientConfig, c2: ClientConfig)
    requires
        c1.base_url == c2.base_url,
        c1.sender == c2.sender,
        c1.timeout_ms == c2.timeout_ms,
    ensures
        client_description(c1.base_url, c1.sender, c1.timeout_ms) == client_description(
            c2.base_url,
            c2.sender,
            c2.timeout_ms,
        ),
{
}

} // verus!
