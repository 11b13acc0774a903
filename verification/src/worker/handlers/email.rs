//! Building the message of a `send_email` job.
use vstd::prelude::*;

use crate::worker::error::WorkerError;

verus! {

/// An e-mail address with an optional display name.
#[verifier::external_type_specification]
#[verifier::external_body]
pub struct ExMailbox(lettre::message::Mailbox);

/// A complete e-mail message.
#[verifier::external_type_specification]
#[verifier::external_body]
pub struct ExMessage(lettre::Message);

/// The payload of a `send_email` job.
#[derive(Debug)]
pub struct EmailInfo {
    pub from: String,
    pub to: String,
    pub subject: String,
    pub body: String,
}

/// Whether lettre's mailbox parser accepts the text (a name for the outcome
/// of `<Mailbox as FromStr>::from_str`).
pub uninterp spec fn mailbox_accepted(text: Seq<char>) -> bool;

/// An e-mail address parsed by lettre, kept with the text it was parsed
/// from.
pub struct ParsedMailbox {
    mailbox: lettre::message::Mailbox,
    text: String,
}

impl ParsedMailbox {
    /// The text the address was parsed from.
    pub closed spec fn text_spec(&self) -> Seq<char> {
        self.text@
    }
}

/// A complete plain-text e-mail message, with the sender, recipient,
/// subject and body it was built from.
pub struct EmailMessage {
    message: lettre::Message,
    from: String,
    to: String,
    subject: String,
    body: String,
}

impl EmailMessage {
    /// The sender's address text.
    pub closed spec fn from_spec(&self) -> Seq<char> {
        self.from@
    }

    /// The recipient's address text.
    pub closed spec fn to_spec(&self) -> Seq<char> {
        self.to@
    }

    /// The subject.
    pub closed spec fn subject_spec(&self) -> Seq<char> {
        self.subject@
    }

    /// The body text.
    pub closed spec fn body_spec(&self) -> Seq<char> {
        self.body@
    }

    /// The sender's address text.
    pub fn from(&self) -> (s: &String)
        ensures
            s@ == self.from_spec(),
    {
        &self.from
    }

    /// The recipient's address text.
    pub fn to(&self) -> (s: &String)
        ensures
            s@ == self.to_spec(),
    {
        &self.to
    }

    /// The subject.
    pub fn subject(&self) -> (s: &String)
        ensures
            s@ == self.subject_spec(),
    {
        &self.subject
    }

    /// The body text.
    pub fn body(&self) -> (s: &String)
        ensures
            s@ == self.body_spec(),
    {
        &self.body
    }

    /// The message itself, ready to be sent.
    pub fn into_message(self) -> lettre::Message {
        self.message
    }
}

/// `<lettre::message::Mailbox as FromStr>::from_str`: parses an address such
/// as `Name <user@domain>`. Claimed: it succeeds exactly on the texts that
/// `mailbox_accepted` names; the parsed address is opaque and is kept with
/// its text.
#[verifier::external_body]
fn parse_mailbox(text: &str) -> (r: Result<ParsedMailbox, lettre::address::AddressError>)
    ensures
        r is Ok <==> mailbox_accepted(text@),
        r matches Ok(m) ==> m.text_spec() == text@,
{
    match text.parse::<lettre::message::Mailbox>() {
        Ok(mailbox) => Ok(ParsedMailbox { mailbox, text: text.to_string() }),
        Err(e) => Err(e),
    }
}

/// `lettre::Message::builder()` with `from`, `to`, `subject`,
/// `header(ContentType::TEXT_PLAIN)` and `body`: a plain-text message from
/// one sender to one recipient. Claimed: it succeeds, since lettre's
/// `MessageBuilder::build` fails only on a missing `From`, several `From`
/// without a `Sender`, or an envelope without a recipient, and none of those
/// can happen here (the `Date` header it adds reads the clock, which lettre
/// can only format for years 1970 to 9999); the message is opaque and is
/// kept with the four texts it was built from.
#[verifier::external_body]
fn compose_email(from: ParsedMailbox, to: ParsedMailbox, subject: String, body: String) -> (r:
    Result<EmailMessage, lettre::error::Error>)
    ensures
        r is Ok,
        r matches Ok(m) ==> m.from_spec() == from.text_spec() && m.to_spec() == to.text_spec()
            && m.subject_spec() == subject@ && m.body_spec() == body@,
{
    let built = lettre::Message::builder()
        .from(from.mailbox)
        .to(to.mailbox)
        .subject(subject.clone())
        .header(lettre::message::header::ContentType::TEXT_PLAIN)
        .body(body.clone());
    match built {
        Ok(message) => Ok(EmailMessage { message, from: from.text, to: to.text, subject, body }),
        Err(e) => Err(e),
    }
}

/// Builds the plain-text message of an e-mail job, from its sender to its
/// recipient, with its subject and body.
///
/// The sender and the recipient are parsed first, in that order; an
/// address that does not parse is an `InvalidPayload` error carrying the
/// parser's text, which fails the job for good. Once both parse, the message
/// is always built. Building it stamps the current date, which panics on a
/// system clock outside the years 1970 to 9999.
pub fn build_email(info: EmailInfo) -> (r: Result<EmailMessage, WorkerError>)
    ensures
        r is Ok <==> mailbox_accepted(info.from@) && mailbox_accepted(info.to@),
        r matches Ok(m) ==> m.from_spec() == info.from@ && m.to_spec() == info.to@ && m.subject_spec()
            == info.subject@ && m.body_spec() == info.body@,
        r matches Err(e) ==> e is InvalidPayload,
{
    let from = match parse_mailbox(info.from.as_str()) {
        Ok(m) => m,
        Err(e) => {
            return Err(WorkerError::InvalidPayload(e.to_string()));
        },
    };
    let to = match parse_mailbox(info.to.as_str()) {
        Ok(m) => m,
        Err(e) => {
            return Err(WorkerError::InvalidPayload(e.to_string()));
        },
    };
    match compose_email(from, to, info.subject, info.body) {
        Ok(message) => Ok(message),
        Err(e) => Err(WorkerError::InvalidPayload(e.to_string())),
    }
}

} // verus!
