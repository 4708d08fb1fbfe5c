//! Turning events of the installed application into outgoing mail.
//!
//! A signal that is no application event, or whose payload does not decode,
//! is dropped without an error. Every event that remains is prepared on its
//! own: a malformed address fails that one message and no other.

use vstd::prelude::*;
use crate::credentials::SendEmailSignal;
use crate::text::join;

verus! {

/// A signal as it arrives from the runtime.
#[derive(Debug)]
pub enum InboundSignal {
    /// A signal of the runtime itself.
    System,
    /// A signal of the installed application, with its payload where that
    /// decoded as an event.
    App { decoded: Option<SendEmailSignal> },
}

/// A message ready to be handed to the relay.
#[derive(Debug)]
pub struct Delivery {
    /// Mailbox in the `From` header.
    pub from: String,
    /// Mailbox in the `To` header.
    pub to: String,
    pub subject: String,
    pub body: String,
    /// URL of the relay to connect to.
    pub relay_url: String,
    /// User name at the relay.
    pub username: String,
    /// Secret at the relay.
    pub password: String,
    /// The message as `lettre` built it from the four texts above.
    pub message: lettre::Message,
}

/// Why a message was not delivered.
#[derive(Debug)]
pub enum DeliveryError {
    /// The sender's address is no valid mailbox.
    MalformedSender,
    /// The recipient's address is no valid mailbox.
    MalformedRecipient,
    /// Both mailboxes are valid, but no message could be built from them.
    MessageBuild,
    /// The relay refused the connection, the login or the message.
    Transport(String),
}

/// Whether `lettre` accepts a text as a mailbox: an optional display name
/// and an address, the address in angle brackets where a name is given.
pub uninterp spec fn spec_mailbox_parses(text: Seq<char>) -> bool;

/// Whether `lettre` builds a message from two mailbox texts, a subject and
/// a text body.
pub uninterp spec fn spec_message_builds(
    from: Seq<char>,
    to: Seq<char>,
    subject: Seq<char>,
    body: Seq<char>,
) -> bool;

/// A message as `lettre` holds it.
#[verifier::external_type_specification]
#[verifier::external_body]
pub struct ExMessage(lettre::Message);

/// Parses `text` with the `FromStr` impl of `lettre::message::Mailbox` and
/// tells whether that succeeded. The outcome depends on the text alone.
#[verifier::external_body]
fn mailbox_parses(text: &str) -> (ok: bool)
    ensures
        ok == spec_mailbox_parses(text@),
{
    text.parse::<lettre::message::Mailbox>().is_ok()
}

/// Builds a message with `lettre::Message::builder`: `from` parsed as the
/// one `From` mailbox, `to` parsed as the one `To` mailbox, then the subject
/// and the text body. Whether a message comes back depends on the four
/// texts alone. The builder stamps the message with the current date, so
/// nothing is claimed of the message itself.
#[verifier::external_body]
fn build_message(from: &str, to: &str, subject: String, body: String) -> (message: Option<
    lettre::Message,
>)
    ensures
        (message is Some) == spec_message_builds(from@, to@, subject@, body@),
{
    let sender = from.parse::<lettre::message::Mailbox>().ok()?;
    let recipient = to.parse::<lettre::message::Mailbox>().ok()?;
    lettre::Message::builder().from(sender).to(recipient).subject(subject).body(body).ok()
}

/// The `From` mailbox for a sender's address.
pub open spec fn spec_sender_mailbox(address: Seq<char>) -> Seq<char> {
    "Sender <"@ + address + ">"@
}

/// The `To` mailbox for a recipient's address.
pub open spec fn spec_recipient_mailbox(address: Seq<char>) -> Seq<char> {
    "Receiver <"@ + address + ">"@
}

/// Whether `delivery` is what `signal` asks for.
pub open spec fn spec_is_delivery_of(delivery: Delivery, signal: SendEmailSignal) -> bool {
    &&& delivery.from@ == spec_sender_mailbox(signal.credentials.sender_email_address@)
    &&& delivery.to@ == spec_recipient_mailbox(signal.email_address@)
    &&& delivery.subject@ == signal.email.subject@
    &&& delivery.body@ == signal.email.body@
    &&& delivery.relay_url@ == signal.credentials.smtp_relay_url@
    &&& delivery.username@ == signal.credentials.sender_email_address@
    &&& delivery.password@ == signal.credentials.password@
}

/// Whether `outcome` is what preparing `signal` gives when the two mailboxes
/// are valid or not as told and `message` is what the builder returned. A bad
/// sender is reported before a bad recipient, and both before a message that
/// could not be built.
pub open spec fn spec_is_prepared(
    outcome: Result<Delivery, DeliveryError>,
    signal: SendEmailSignal,
    sender_ok: bool,
    recipient_ok: bool,
    message: Option<lettre::Message>,
) -> bool {
    if !sender_ok {
        outcome matches Err(e) && e is MalformedSender
    } else if !recipient_ok {
        outcome matches Err(e) && e is MalformedRecipient
    } else {
        match message {
            None => outcome matches Err(e) && e is MessageBuild,
            Some(m) => {
                &&& outcome matches Ok(delivery)
                &&& spec_is_delivery_of(delivery, signal)
                &&& delivery.message == m
            },
        }
    }
}

/// Whether `lettre` builds the message that `signal` asks for.
pub open spec fn spec_builds_for(signal: SendEmailSignal) -> bool {
    spec_message_builds(
        spec_sender_mailbox(signal.credentials.sender_email_address@),
        spec_recipient_mailbox(signal.email_address@),
        signal.email.subject@,
        signal.email.body@,
    )
}

/// Whether `outcome` is what sending `signal` starts with: the error for the
/// first mailbox that does not parse; else the delivery, where `lettre`
/// builds the message from the event's two mailboxes, subject and body; else
/// the report that it does not.
pub open spec fn spec_is_send_of(
    outcome: Result<Delivery, DeliveryError>,
    signal: SendEmailSignal,
) -> bool {
    if !spec_mailbox_parses(spec_sender_mailbox(signal.credentials.sender_email_address@)) {
        outcome matches Err(e) && e is MalformedSender
    } else if !spec_mailbox_parses(spec_recipient_mailbox(signal.email_address@)) {
        outcome matches Err(e) && e is MalformedRecipient
    } else if spec_builds_for(signal) {
        outcome matches Ok(delivery) && spec_is_delivery_of(delivery, signal)
    } else {
        outcome matches Err(e) && e is MessageBuild
    }
}

/// The `From` mailbox for a sender's address.
pub fn sender_mailbox(address: &str) -> (r: String)
    ensures
        r@ == spec_sender_mailbox(address@),
{
    let open = join("Sender <", address);
    join(open.as_str(), ">")
}

/// The `To` mailbox for a recipient's address.
pub fn recipient_mailbox(address: &str) -> (r: String)
    ensures
        r@ == spec_recipient_mailbox(address@),
{
    let open = join("Receiver <", address);
    join(open.as_str(), ">")
}

/// Decides what becomes of a signal: an application event is handed on, any
/// other signal is dropped.
pub fn on_signal(signal: InboundSignal) -> (event: Option<SendEmailSignal>)
    ensures
        event == match signal {
            InboundSignal::System => None::<SendEmailSignal>,
            InboundSignal::App { decoded } => decoded,
        },
{
    match signal {
        InboundSignal::System => None,
        InboundSignal::App { decoded } => decoded,
    }
}

/// Prepares the delivery for an event, given whether its two mailboxes are
/// valid and what the message builder returned.
pub fn prepare_delivery(
    signal: &SendEmailSignal,
    sender_ok: bool,
    recipient_ok: bool,
    message: Option<lettre::Message>,
) -> (r: Result<Delivery, DeliveryError>)
    ensures
        spec_is_prepared(r, *signal, sender_ok, recipient_ok, message),
{
    if !sender_ok {
        return Err(DeliveryError::MalformedSender);
    }
    if !recipient_ok {
        return Err(DeliveryError::MalformedRecipient);
    }
    match message {
        None => Err(DeliveryError::MessageBuild),
        Some(message) => Ok(
            Delivery {
                from: sender_mailbox(signal.credentials.sender_email_address.as_str()),
                to: recipient_mailbox(signal.email_address.as_str()),
                subject: signal.email.subject.clone(),
                body: signal.email.body.clone(),
                relay_url: signal.credentials.smtp_relay_url.clone(),
                username: signal.credentials.sender_email_address.clone(),
                password: signal.credentials.password.clone(),
                message,
            },
        ),
    }
}

/// Prepares the delivery for an event: checks both mailboxes, builds the
/// message from them and from the event's subject and body, and adds the
/// relay login. Nothing is retried.
pub fn send_email(signal: &SendEmailSignal) -> (r: Result<Delivery, DeliveryError>)
    ensures
        spec_is_send_of(r, *signal),
{
    let from = sender_mailbox(signal.credentials.sender_email_address.as_str());
    let to = recipient_mailbox(signal.email_address.as_str());
    let sender_ok = mailbox_parses(from.as_str());
    let recipient_ok = mailbox_parses(to.as_str());
    let message = if sender_ok && recipient_ok {
        build_message(
            from.as_str(),
            to.as_str(),
            signal.email.subject.clone(),
            signal.email.body.clone(),
        )
    } else {
        None
    };
    prepare_delivery(signal, sender_ok, recipient_ok, message)
}

/// What is reported for a message once the relay has answered: success, or
/// a delivery error that carries the relay's cause.
pub fn delivery_result(transport: Result<(), String>) -> (r: Result<(), DeliveryError>)
    ensures
        match transport {
            Ok(_) => r is Ok,
            Err(cause) => r matches Err(DeliveryError::Transport(c)) && c@ == cause@,
        },
{
    match transport {
        Ok(_) => Ok(()),
        Err(cause) => Err(DeliveryError::Transport(cause)),
    }
}

/// Prepares every event of a batch on its own. The outcome at each place is
/// that of its event alone: one that fails changes no other.
pub fn send_all(signals: &Vec<SendEmailSignal>) -> (outcomes: Vec<Result<Delivery, DeliveryError>>)
    ensures
        outcomes@.len() == signals@.len(),
        forall|i: int|
            0 <= i < signals@.len() ==> spec_is_send_of(#[trigger] outcomes@[i], signals@[i]),
{
    let mut outcomes: Vec<Result<Delivery, DeliveryError>> = Vec::new();
    let mut i: usize = 0;
    while i < signals.len()
        invariant
            0 <= i <= signals@.len(),
            outcomes@.len() == i,
            forall|j: int| 0 <= j < i ==> spec_is_send_of(#[trigger] outcomes@[j], signals@[j]),
        decreases signals@.len() - i,
    {
        let outcome = send_email(&signals[i]);
        outcomes.push(outcome);
        i += 1;
    }
    outcomes
}

impl DeliveryError {
    /// The text written to the log.
    pub open spec fn spec_message(self) -> Seq<char> {
        match self {
            DeliveryError::MalformedSender => "Could not send email: the sender is no valid mailbox"@,
            DeliveryError::MalformedRecipient => "Could not send email: the recipient is no valid mailbox"@,
            DeliveryError::MessageBuild => "Could not send email: the message could not be built"@,
            DeliveryError::Transport(cause) => "Could not send email: "@ + cause@,
        }
    }

    /// The text written to the log.
    pub fn message(&self) -> (text: String)
        ensures
            text@ == self.spec_message(),
    {
        match self {
            DeliveryError::MalformedSender => "Could not send email: the sender is no valid mailbox".to_owned(),
            DeliveryError::MalformedRecipient => "Could not send email: the recipient is no valid mailbox".to_owned(),
            DeliveryError::MessageBuild => "Could not send email: the message could not be built".to_owned(),
            DeliveryError::Transport(cause) => join("Could not send email: ", cause.as_str()),
        }
    }
}

} // verus!
