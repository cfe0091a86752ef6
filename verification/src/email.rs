//! Outbound e-mail: the message, the senders, and the text a message is
//! saved as.

use vstd::prelude::*;
use vstd::string::*;
use std::collections::HashMap;
use crate::json::push_uuid;
use crate::json::uuid_text;

verus! {

#[verifier::external_type_specification]
#[verifier::external_body]
pub struct ExIoError(std::io::Error);

/// An outbound e-mail. `headers` carries extra headers for the transport
/// (routing tags, `List-Unsubscribe` and the like).
#[derive(Debug, Clone)]
pub struct EmailMessage {
    pub to: String,
    pub from: String,
    pub subject: String,
    pub text: String,
    pub html: Option<String>,
    pub headers: HashMap<String, String>,
}

/// What an e-mail holds, as values.
pub struct MessageContent {
    pub to: Seq<char>,
    pub from: Seq<char>,
    pub subject: Seq<char>,
    pub text: Seq<char>,
    pub html: Option<Seq<char>>,
    pub headers: Map<String, String>,
}

impl EmailMessage {
    /// What the message holds, as values.
    pub open spec fn content(&self) -> MessageContent {
        MessageContent {
            to: self.to@,
            from: self.from@,
            subject: self.subject@,
            text: self.text@,
            html: match self.html {
                Some(h) => Some(h@),
                None => None,
            },
            headers: self.headers@,
        }
    }

    /// A plain-text message with no HTML part and no extra headers.
    pub fn new(to: String, from: String, subject: String, text: String) -> (m: EmailMessage)
        ensures
            m.to == to,
            m.from == from,
            m.subject == subject,
            m.text == text,
            m.html is None,
            m.headers@ == Map::<String, String>::empty(),
    {
        EmailMessage { to, from, subject, text, html: None, headers: HashMap::new() }
    }

    /// A copy of the message holding the same values.
    pub fn duplicate(&self) -> (m: EmailMessage)
        ensures
            m.content() == self.content(),
    {
        let html = match &self.html {
            Some(h) => Some(h.clone()),
            None => None,
        };
        EmailMessage {
            to: self.to.clone(),
            from: self.from.clone(),
            subject: self.subject.clone(),
            text: self.text.clone(),
            html,
            headers: self.headers.clone(),
        }
    }
}

/// Why a message could not be sent.
#[derive(Debug)]
pub enum EmailError {
    Transport(String),
    NotConfigured(String),
    InvalidRecipient(String),
    Io(std::io::Error),
}

/// A transport that sends e-mail. One instance is meant to be shared by
/// all request handlers, so sending takes the sender by shared reference.
pub trait EmailSender {
    /// Sends `msg` through the transport.
    fn send(&self, msg: EmailMessage) -> Result<(), EmailError>;
}

#[verifier::external_type_specification]
#[verifier::external_body]
#[verifier::reject_recursive_types(T)]
pub struct ExMutex<T: ?Sized>(std::sync::Mutex<T>);

/// A lock around `entries` (`Mutex::new`). Nothing is claimed of it.
#[verifier::external_body]
fn new_lock(entries: Vec<EmailMessage>) -> std::sync::Mutex<Vec<EmailMessage>> {
    std::sync::Mutex::new(entries)
}

/// Another handle on the same log (`Arc::clone`).
/// Claimed: the handle is the same log as `log` (it points to the same
/// allocation).
#[verifier::external_body]
fn share_log(log: &std::sync::Arc<std::sync::Mutex<Vec<EmailMessage>>>) -> (r: std::sync::Arc<
    std::sync::Mutex<Vec<EmailMessage>>,
>)
    ensures
        r == *log,
{
    std::sync::Arc::clone(log)
}

/// Appends `msg` to the log under its lock (`Mutex::lock`, then
/// `Vec::push`; a poisoned lock is entered all the same). Nothing is
/// claimed: the log is shared state that other handles write to as well.
#[verifier::external_body]
fn log_append(log: &std::sync::Arc<std::sync::Mutex<Vec<EmailMessage>>>, msg: EmailMessage) {
    match log.lock() {
        Ok(mut entries) => entries.push(msg),
        Err(poisoned) => poisoned.into_inner().push(msg),
    }
}

/// A copy of the log's messages, in order, taken under its lock
/// (`Mutex::lock`, then `Vec::clone`; a poisoned lock is entered all the
/// same). Nothing is claimed: what the log holds depends on every handle
/// that has written to it.
#[verifier::external_body]
fn log_snapshot(log: &std::sync::Arc<std::sync::Mutex<Vec<EmailMessage>>>) -> Vec<EmailMessage> {
    match log.lock() {
        Ok(entries) => entries.clone(),
        Err(poisoned) => poisoned.into_inner().clone(),
    }
}

/// A transport that keeps every message it is given instead of delivering
/// it, sent from the address `from`. Its clones share one log.
#[derive(Debug)]
pub struct SmtpSender {
    from: String,
    sent: std::sync::Arc<std::sync::Mutex<Vec<EmailMessage>>>,
}

impl SmtpSender {
    /// The address the sender sends from.
    pub closed spec fn from_address(&self) -> Seq<char> {
        self.from@
    }

    /// Whether `self` and `other` write to and read from one log.
    pub closed spec fn shares_log_with(&self, other: SmtpSender) -> bool {
        self.sent == other.sent
    }

    /// A sender from `from` with a log of its own, empty.
    pub fn new(from: String) -> (s: SmtpSender)
        ensures
            s.from_address() == from@,
    {
        SmtpSender { from, sent: std::sync::Arc::new(new_lock(Vec::new())) }
    }

    /// Copies of every message sent so far through this sender or any of
    /// its clones, in the order sent.
    pub fn sent_messages(&self) -> Vec<EmailMessage> {
        log_snapshot(&self.sent)
    }
}

impl Clone for SmtpSender {
    /// A sender from the same address that shares this sender's log.
    fn clone(&self) -> (r: SmtpSender)
        ensures
            r.from_address() == self.from_address(),
            r.shares_log_with(*self),
    {
        SmtpSender { from: self.from.clone(), sent: share_log(&self.sent) }
    }
}

impl EmailSender for SmtpSender {
    /// Appends `msg` to the shared log; never fails.
    fn send(&self, msg: EmailMessage) -> (r: Result<(), EmailError>)
        ensures
            r is Ok,
    {
        log_append(&self.sent, msg);
        Ok(())
    }
}

/// A transport that saves each message as a file in `dir`.
#[derive(Debug, Clone, PartialEq, Eq)]
pub struct FileSender {
    pub dir: String,
}

/// The directory messages are saved in by default.
pub open spec fn default_mail_dir() -> Seq<char> {
    "./tmp/emails"@
}

impl FileSender {
    /// A sender that saves into `dir`.
    pub fn new(dir: String) -> (s: FileSender)
        ensures
            s.dir == dir,
    {
        FileSender { dir }
    }

    /// The name of the file a message with identifier `id` is saved as.
    pub fn file_name(id: u128) -> (r: String)
        ensures
            r@ == uuid_text(id) + ".eml"@,
    {
        let mut r = String::new();
        push_uuid(&mut r, id);
        r.append(".eml");
        r
    }
}

impl Default for FileSender {
    fn default() -> (s: FileSender)
        ensures
            s.dir@ == default_mail_dir(),
    {
        FileSender::new(String::from_str("./tmp/emails"))
    }
}

/// The text a message is saved as: its sender, recipient and subject
/// headers, a blank line, the plain-text body and a final line break.
pub open spec fn eml_text(m: MessageContent) -> Seq<char> {
    "From: "@ + m.from + "\nTo: "@ + m.to + "\nSubject: "@ + m.subject + "\n\n"@ + m.text + "\n"@
}

/// The text a message is saved as.
pub fn render_eml(msg: &EmailMessage) -> (r: String)
    ensures
        r@ == eml_text(msg.content()),
{
    let mut r = String::from_str("From: ");
    r.append(msg.from.as_str());
    r.append("\nTo: ");
    r.append(msg.to.as_str());
    r.append("\nSubject: ");
    r.append(msg.subject.as_str());
    r.append("\n\n");
    r.append(msg.text.as_str());
    r.append("\n");
    r
}

} // verus!
