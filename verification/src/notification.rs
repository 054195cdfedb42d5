//! Notification channels: their settings and the text they deliver.

use vstd::prelude::*;
use vstd::string::*;
use crate::alerting::{Alert, AlertView};
use crate::clock::{utc_string, utc_text};
use crate::text::occurs_in;

verus! {

#[verifier::external_type_specification]
#[verifier::external_body]
pub struct ExMailbox(lettre::message::Mailbox);

#[verifier::external_type_specification]
#[verifier::external_body]
pub struct ExAddressError(lettre::address::AddressError);

#[verifier::external_type_specification]
#[verifier::external_body]
pub struct ExJsonError(serde_json::Error);

#[verifier::external_type_specification]
#[verifier::external_body]
pub struct ExUrlParseError(url::ParseError);

/// Whether `lettre` reads `address` as a mailbox: an email address, alone
/// or in angle brackets after a display name.
pub uninterp spec fn mailbox_accepted(address: Seq<char>) -> bool;

/// The JSON string literal that `serde_json` writes for `text`, quotes and
/// escapes included.
pub uninterp spec fn json_string(text: Seq<char>) -> Seq<char>;

/// Whether `url` reads `text` as an absolute URL.
pub uninterp spec fn url_accepted(text: Seq<char>) -> bool;

/// Whether the URL that `url` reads from `text` has a host. It says nothing
/// of a text that is no URL.
pub uninterp spec fn url_names_host(text: Seq<char>) -> bool;

/// Parses an address with `lettre`'s `FromStr` impl for `Mailbox`, which
/// `str::parse` calls. The contract names the one thing the library goes
/// by: whether the parse succeeds.
#[verifier::external_body]
fn parse_mailbox(address: &str) -> (parsed: Result<
    lettre::message::Mailbox,
    lettre::address::AddressError,
>)
    ensures
        parsed is Ok == mailbox_accepted(address@),
{
    address.parse::<lettre::message::Mailbox>()
}

/// Writes out a `lettre` address error with its `Display` impl. Nothing is
/// claimed of the text.
#[verifier::external_body]
fn address_error_text(error: &lettre::address::AddressError) -> (text: String) {
    error.to_string()
}

/// Writes a text as a JSON string literal with `serde_json::to_string`. For
/// a text the call always succeeds: it writes into a buffer in memory, and
/// a text is no map with keys that could be refused.
#[verifier::external_body]
fn quote_json(text: &str) -> (quoted: Result<String, serde_json::Error>)
    ensures
        quoted is Ok,
        quoted matches Ok(literal) ==> literal@ == json_string(text@),
{
    serde_json::to_string(text)
}

/// Writes out a `serde_json` error with its `Display` impl. Nothing is
/// claimed of the text.
#[verifier::external_body]
fn json_error_text(error: &serde_json::Error) -> (text: String) {
    error.to_string()
}

/// Parses a text with `url::Url::parse` and asks the URL, where there is
/// one, whether it has a host, with `Url::has_host`. These are the two
/// things an HTTP client asks of a URL before it sends to it.
#[verifier::external_body]
fn parse_url_host(text: &str) -> (parsed: Result<bool, url::ParseError>)
    ensures
        match parsed {
            Ok(has_host) => url_accepted(text@) && has_host == url_names_host(text@),
            Err(_) => !url_accepted(text@),
        },
{
    url::Url::parse(text).map(|url| url.has_host())
}

/// Writes out a `url` parse error with its `Display` impl. Nothing is
/// claimed of the text.
#[verifier::external_body]
fn url_error_text(error: &url::ParseError) -> (text: String) {
    error.to_string()
}

#[derive(Debug)]
pub enum NotificationError {
    EmailError(String),
    SlackError(String),
    GeneralError(String),
}

impl NotificationError {
    /// The cause that the error carries.
    pub open spec fn reason(&self) -> Seq<char> {
        match self {
            NotificationError::EmailError(reason) => reason@,
            NotificationError::SlackError(reason) => reason@,
            NotificationError::GeneralError(reason) => reason@,
        }
    }

    /// The error as one line of text.
    pub open spec fn description(&self) -> Seq<char> {
        match self {
            NotificationError::EmailError(reason) => "Failed to send email: "@ + reason@,
            NotificationError::SlackError(reason) => "Failed to send Slack notification: "@
                + reason@,
            NotificationError::GeneralError(reason) => "Failed to send notification: "@ + reason@,
        }
    }

    /// Writes the error as one line of text.
    pub fn describe(&self) -> (r: String)
        ensures
            r@ == self.description(),
    {
        match self {
            NotificationError::EmailError(reason) => {
                String::from_str("Failed to send email: ").concat(reason.as_str())
            },
            NotificationError::SlackError(reason) => {
                String::from_str("Failed to send Slack notification: ").concat(reason.as_str())
            },
            NotificationError::GeneralError(reason) => {
                String::from_str("Failed to send notification: ").concat(reason.as_str())
            },
        }
    }
}

/// The reason given where a webhook URL is a URL without a host.
pub open spec fn hostless_url_reason() -> Seq<char> {
    "the webhook URL names no host"@
}

/// The reason given where an alert's timestamp has no written form.
pub open spec fn unwritable_timestamp_reason() -> Seq<char> {
    "the alert's timestamp is out of range"@
}

/// The subject line of the email for an alert.
pub open spec fn email_subject(alert: AlertView) -> Seq<char> {
    "["@ + alert.severity.name() + "] "@ + alert.source + " Alert: "@ + alert.message
}

/// The body of the email for an alert; `when` is the written timestamp.
pub open spec fn email_body(alert: AlertView, when: Seq<char>) -> Seq<char> {
    "Alert Details:\n\nSource: "@ + alert.source + "\nSeverity: "@ + alert.severity.name()
        + "\nMessage: "@ + alert.message + "\nDetails: "@ + alert.details + "\nTimestamp: "@ + when
}

/// The chat text for an alert; `when` is the written timestamp.
pub open spec fn chat_text(alert: AlertView, when: Seq<char>) -> Seq<char> {
    "*["@ + alert.severity.name() + "] "@ + alert.source + " Alert*\n>Message: "@ + alert.message
        + "\n>Details: "@ + alert.details + "\n>Timestamp: "@ + when
}

/// The JSON object that is posted to the webhook: the channel and the text,
/// each given as the JSON string literal that stands for it.
pub open spec fn chat_payload(quoted_channel: Seq<char>, quoted_text: Seq<char>) -> Seq<char> {
    "{\"channel\":"@ + quoted_channel + ",\"text\":"@ + quoted_text + "}"@
}

/// Writes the JSON object that is posted to the webhook from the JSON
/// string literals of the channel and the text.
pub fn write_chat_payload(quoted_channel: &str, quoted_text: &str) -> (payload: String)
    ensures
        payload@ == chat_payload(quoted_channel@, quoted_text@),
{
    String::from_str("{\"channel\":").concat(quoted_channel).concat(",\"text\":").concat(
        quoted_text,
    ).concat("}")
}

/// Writes the subject line of the email for an alert.
pub fn write_email_subject(alert: &Alert) -> (subject: String)
    ensures
        subject@ == email_subject(alert@),
{
    String::from_str("[").concat(alert.severity.label()).concat("] ").concat(
        alert.source.as_str(),
    ).concat(" Alert: ").concat(alert.message.as_str())
}

/// Writes the body of the email for an alert, with `when` as its timestamp.
pub fn write_email_body(alert: &Alert, when: &str) -> (body: String)
    ensures
        body@ == email_body(alert@, when@),
{
    String::from_str("Alert Details:\n\nSource: ").concat(alert.source.as_str()).concat(
        "\nSeverity: ",
    ).concat(alert.severity.label()).concat("\nMessage: ").concat(alert.message.as_str()).concat(
        "\nDetails: ",
    ).concat(alert.details.as_str()).concat("\nTimestamp: ").concat(when)
}

/// Writes the chat text for an alert, with `when` as its timestamp.
pub fn write_chat_text(alert: &Alert, when: &str) -> (text: String)
    ensures
        text@ == chat_text(alert@, when@),
{
    String::from_str("*[").concat(alert.severity.label()).concat("] ").concat(
        alert.source.as_str(),
    ).concat(" Alert*\n>Message: ").concat(alert.message.as_str()).concat("\n>Details: ").concat(
        alert.details.as_str(),
    ).concat("\n>Timestamp: ").concat(when)
}

/// An email ready to be handed to a mail transport.
#[derive(Debug)]
pub struct EmailMessage {
    pub from: String,
    pub to: String,
    pub subject: String,
    pub body: String,
}

/// What an `EmailMessage` holds, as character sequences.
pub struct EmailMessageView {
    pub from: Seq<char>,
    pub to: Seq<char>,
    pub subject: Seq<char>,
    pub body: Seq<char>,
}

impl View for EmailMessage {
    type V = EmailMessageView;

    open spec fn view(&self) -> EmailMessageView {
        EmailMessageView { from: self.from@, to: self.to@, subject: self.subject@, body: self.body@ }
    }
}

/// A chat message ready to be posted to a webhook.
#[derive(Debug)]
pub struct ChatMessage {
    pub channel: String,
    pub text: String,
    /// The JSON object to post: it holds the channel and the text.
    pub payload: String,
}

/// What a `ChatMessage` holds, as character sequences.
pub struct ChatMessageView {
    pub channel: Seq<char>,
    pub text: Seq<char>,
    pub payload: Seq<char>,
}

impl View for ChatMessage {
    type V = ChatMessageView;

    open spec fn view(&self) -> ChatMessageView {
        ChatMessageView { channel: self.channel@, text: self.text@, payload: self.payload@ }
    }
}

/// Sends alerts as email through an authenticated mail relay.
pub struct EmailNotifier {
    smtp_server: String,
    smtp_port: u16,
    username: String,
    password: String,
    from_address: String,
    to_address: String,
}

/// The settings of an `EmailNotifier`.
pub struct EmailSettings {
    pub smtp_server: Seq<char>,
    pub smtp_port: u16,
    pub username: Seq<char>,
    pub password: Seq<char>,
    pub from_address: Seq<char>,
    pub to_address: Seq<char>,
}

impl View for EmailNotifier {
    type V = EmailSettings;

    closed spec fn view(&self) -> EmailSettings {
        EmailSettings {
            smtp_server: self.smtp_server@,
            smtp_port: self.smtp_port,
            username: self.username@,
            password: self.password@,
            from_address: self.from_address@,
            to_address: self.to_address@,
        }
    }
}

/// Posts alerts as chat messages to a webhook.
pub struct SlackNotifier {
    webhook_url: String,
    channel: String,
}

/// The settings of a `SlackNotifier`.
pub struct SlackSettings {
    pub webhook_url: Seq<char>,
    pub channel: Seq<char>,
}

impl View for SlackNotifier {
    type V = SlackSettings;

    closed spec fn view(&self) -> SlackSettings {
        SlackSettings { webhook_url: self.webhook_url@, channel: self.channel@ }
    }
}

impl EmailSettings {
    /// Whether the sender and the recipient both read as mailboxes.
    pub open spec fn addresses_accepted(self) -> bool {
        mailbox_accepted(self.from_address) && mailbox_accepted(self.to_address)
    }
}

impl SlackSettings {
    /// Whether the webhook URL reads as a URL with a host.
    pub open spec fn url_usable(self) -> bool {
        url_accepted(self.webhook_url) && url_names_host(self.webhook_url)
    }
}

/// The email that a notifier with `settings` sends for `alert`, with `when`
/// as the written timestamp.
pub open spec fn composed_email(
    settings: EmailSettings,
    alert: AlertView,
    when: Seq<char>,
) -> EmailMessageView {
    EmailMessageView {
        from: settings.from_address,
        to: settings.to_address,
        subject: email_subject(alert),
        body: email_body(alert, when),
    }
}

/// The chat message that a notifier with `settings` posts for `alert`, with
/// `when` as the written timestamp.
pub open spec fn composed_chat(
    settings: SlackSettings,
    alert: AlertView,
    when: Seq<char>,
) -> ChatMessageView {
    let text = chat_text(alert, when);
    ChatMessageView {
        channel: settings.channel,
        text,
        payload: chat_payload(json_string(settings.channel), json_string(text)),
    }
}

impl EmailNotifier {
    /// Every notifier has a sender and a recipient that read as mailboxes.
    #[verifier::type_invariant]
    spec fn addresses_checked(&self) -> bool {
        mailbox_accepted(self.from_address@) && mailbox_accepted(self.to_address@)
    }

    /// A notifier with the given settings, where the sender and the
    /// recipient read as mailboxes. Where one does not, there is no
    /// notifier but an `EmailError` with what `lettre` says of the first
    /// address it refuses.
    pub fn new(
        smtp_server: String,
        smtp_port: u16,
        username: String,
        password: String,
        from_address: String,
        to_address: String,
    ) -> (r: Result<Self, NotificationError>)
        ensures
            r is Ok == (mailbox_accepted(from_address@) && mailbox_accepted(to_address@)),
            r matches Ok(notifier) ==> notifier@ == (EmailSettings {
                smtp_server: smtp_server@,
                smtp_port,
                username: username@,
                password: password@,
                from_address: from_address@,
                to_address: to_address@,
            }),
            r matches Err(e) ==> e is EmailError,
    {
        match parse_mailbox(from_address.as_str()) {
            Ok(_) => {},
            Err(error) => {
                return Err(NotificationError::EmailError(address_error_text(&error)));
            },
        }
        match parse_mailbox(to_address.as_str()) {
            Ok(_) => {},
            Err(error) => {
                return Err(NotificationError::EmailError(address_error_text(&error)));
            },
        }
        Ok(Self { smtp_server, smtp_port, username, password, from_address, to_address })
    }

    pub fn smtp_server(&self) -> (r: &str)
        ensures
            r@ == self@.smtp_server,
    {
        self.smtp_server.as_str()
    }

    pub fn smtp_port(&self) -> (r: u16)
        ensures
            r == self@.smtp_port,
    {
        self.smtp_port
    }

    pub fn username(&self) -> (r: &str)
        ensures
            r@ == self@.username,
    {
        self.username.as_str()
    }

    pub fn password(&self) -> (r: &str)
        ensures
            r@ == self@.password,
    {
        self.password.as_str()
    }

    /// The sender, which reads as a mailbox.
    pub fn from_address(&self) -> (r: &str)
        ensures
            r@ == self@.from_address,
            self@.addresses_accepted(),
    {
        proof {
            use_type_invariant(self);
        }
        self.from_address.as_str()
    }

    /// The recipient, which reads as a mailbox.
    pub fn to_address(&self) -> (r: &str)
        ensures
            r@ == self@.to_address,
            self@.addresses_accepted(),
    {
        proof {
            use_type_invariant(self);
        }
        self.to_address.as_str()
    }

    /// Composes the email for an alert: from the sender to the recipient of
    /// this notifier, with the alert's severity, source, message, details
    /// and written timestamp. There is an email for every alert whose
    /// timestamp has a written form, and an `EmailError` for any other.
    pub fn compose(&self, alert: &Alert) -> (r: Result<EmailMessage, NotificationError>)
        ensures
            self@.addresses_accepted(),
            match utc_text(alert.timestamp.secs, alert.timestamp.nanos) {
                Some(when) => r matches Ok(message) && message@ == composed_email(
                    self@,
                    alert@,
                    when,
                ),
                None => r matches Err(e) && e is EmailError && e.reason()
                    == unwritable_timestamp_reason(),
            },
    {
        proof {
            use_type_invariant(self);
        }
        match utc_string(alert.timestamp.secs, alert.timestamp.nanos) {
            Some(when) => Ok(
                EmailMessage {
                    from: self.from_address.clone(),
                    to: self.to_address.clone(),
                    subject: write_email_subject(alert),
                    body: write_email_body(alert, when.as_str()),
                },
            ),
            None => Err(
                NotificationError::EmailError(
                    String::from_str("the alert's timestamp is out of range"),
                ),
            ),
        }
    }
}

impl SlackNotifier {
    /// Every notifier has a webhook URL that reads as a URL with a host.
    #[verifier::type_invariant]
    spec fn url_checked(&self) -> bool {
        url_accepted(self.webhook_url@) && url_names_host(self.webhook_url@)
    }

    /// A notifier with the given settings, where the webhook URL reads as a
    /// URL with a host. Where it does not, there is no notifier but a
    /// `SlackError`: with what `url` says of a text that is no URL, or with
    /// the remark that the URL names no host.
    pub fn new(webhook_url: String, channel: String) -> (r: Result<Self, NotificationError>)
        ensures
            r is Ok == (url_accepted(webhook_url@) && url_names_host(webhook_url@)),
            r matches Ok(notifier) ==> notifier@ == (SlackSettings {
                webhook_url: webhook_url@,
                channel: channel@,
            }),
            r matches Err(e) ==> e is SlackError && (url_accepted(webhook_url@) ==> e.reason()
                == hostless_url_reason()),
    {
        match parse_url_host(webhook_url.as_str()) {
            Ok(has_host) => {
                if has_host {
                    Ok(Self { webhook_url, channel })
                } else {
                    Err(
                        NotificationError::SlackError(
                            String::from_str("the webhook URL names no host"),
                        ),
                    )
                }
            },
            Err(error) => Err(NotificationError::SlackError(url_error_text(&error))),
        }
    }

    /// The webhook URL, which reads as a URL with a host.
    pub fn webhook_url(&self) -> (r: &str)
        ensures
            r@ == self@.webhook_url,
            self@.url_usable(),
    {
        proof {
            use_type_invariant(self);
        }
        self.webhook_url.as_str()
    }

    pub fn channel(&self) -> (r: &str)
        ensures
            r@ == self@.channel,
    {
        self.channel.as_str()
    }

    /// Composes the chat message for an alert: for the channel of this
    /// notifier, with the alert's severity, source, message, details and
    /// written timestamp, and with the JSON object to post. There is a
    /// message for every alert whose timestamp has a written form, and a
    /// `SlackError` for any other.
    pub fn compose(&self, alert: &Alert) -> (r: Result<ChatMessage, NotificationError>)
        ensures
            match utc_text(alert.timestamp.secs, alert.timestamp.nanos) {
                Some(when) => r matches Ok(message) && message@ == composed_chat(
                    self@,
                    alert@,
                    when,
                ),
                None => r matches Err(e) && e is SlackError && e.reason()
                    == unwritable_timestamp_reason(),
            },
    {
        let when = match utc_string(alert.timestamp.secs, alert.timestamp.nanos) {
            Some(when) => when,
            None => {
                return Err(
                    NotificationError::SlackError(
                        String::from_str("the alert's timestamp is out of range"),
                    ),
                );
            },
        };
        let text = write_chat_text(alert, when.as_str());
        let quoted_channel = match quote_json(self.channel.as_str()) {
            Ok(literal) => literal,
            Err(error) => {
                return Err(NotificationError::SlackError(json_error_text(&error)));
            },
        };
        let quoted_text = match quote_json(text.as_str()) {
            Ok(literal) => literal,
            Err(error) => {
                return Err(NotificationError::SlackError(json_error_text(&error)));
            },
        };
        let payload = write_chat_payload(quoted_channel.as_str(), quoted_text.as_str());
        Ok(ChatMessage { channel: self.channel.clone(), text, payload })
    }
}

/// The email body names the alert's source, severity, message and details
/// and gives its timestamp.
pub proof fn lemma_email_body_is_complete(alert: AlertView, when: Seq<char>)
    ensures
        occurs_in(alert.source, email_body(alert, when)),
        occurs_in(alert.severity.name(), email_body(alert, when)),
        occurs_in(alert.message, email_body(alert, when)),
        occurs_in(alert.details, email_body(alert, when)),
        occurs_in(when, email_body(alert, when)),
{
    let body = email_body(alert, when);
    let opening = "Alert Details:\n\nSource: "@;
    let second = "\nSeverity: "@;
    let third = "\nMessage: "@;
    let fourth = "\nDetails: "@;
    let fifth = "\nTimestamp: "@;
    let name = alert.severity.name();
    let at_first = opening.len() as int;
    let at_second = at_first + alert.source.len() + second.len();
    let at_third = at_second + name.len() + third.len();
    let at_fourth = at_third + alert.message.len() + fourth.len();
    let at_fifth = at_fourth + alert.details.len() + fifth.len();
    assert(body.subrange(at_first, at_first + alert.source.len()) =~= alert.source);
    assert(body.subrange(at_second, at_second + name.len()) =~= name);
    assert(body.subrange(at_third, at_third + alert.message.len()) =~= alert.message);
    assert(body.subrange(at_fourth, at_fourth + alert.details.len()) =~= alert.details);
    assert(body.subrange(at_fifth, at_fifth + when.len()) =~= when);
}

/// The chat text names the alert's severity, source, message and details
/// and gives its timestamp.
pub proof fn lemma_chat_text_is_complete(alert: AlertView, when: Seq<char>)
    ensures
        occurs_in(alert.severity.name(), chat_text(alert, when)),
        occurs_in(alert.source, chat_text(alert, when)),
        occurs_in(alert.message, chat_text(alert, when)),
        occurs_in(alert.details, chat_text(alert, when)),
        occurs_in(when, chat_text(alert, when)),
{
    let text = chat_text(alert, when);
    let opening = "*["@;
    let second = "] "@;
    let third = " Alert*\n>Message: "@;
    let fourth = "\n>Details: "@;
    let fifth = "\n>Timestamp: "@;
    let name = alert.severity.name();
    let at_first = opening.len() as int;
    let at_second = at_first + name.len() + second.len();
    let at_third = at_second + alert.source.len() + third.len();
    let at_fourth = at_third + alert.message.len() + fourth.len();
    let at_fifth = at_fourth + alert.details.len() + fifth.len();
    assert(text.subrange(at_first, at_first + name.len()) =~= name);
    assert(text.subrange(at_second, at_second + alert.source.len()) =~= alert.source);
    assert(text.subrange(at_third, at_third + alert.message.len()) =~= alert.message);
    assert(text.subrange(at_fourth, at_fourth + alert.details.len()) =~= alert.details);
    assert(text.subrange(at_fifth, at_fifth + when.len()) =~= when);
}

} // verus!
