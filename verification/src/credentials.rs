//! The values that travel between the operator, the installed application and
//! the relay.

use vstd::prelude::*;
use vstd::std_specs::cmp::PartialEqSpecImpl;

verus! {

/// Login for a mail relay, as the operator registers it.
#[derive(Debug)]
pub struct EmailCredentials {
    /// Address that mail is sent from, and user name at the relay.
    pub sender_email_address: String,
    /// Secret for that user at the relay.
    pub password: String,
    /// URL of the relay.
    pub smtp_relay_url: String,
}

/// Credentials as three character sequences.
pub struct EmailCredentialsView {
    pub sender_email_address: Seq<char>,
    pub password: Seq<char>,
    pub smtp_relay_url: Seq<char>,
}

impl View for EmailCredentials {
    type V = EmailCredentialsView;

    open spec fn view(&self) -> EmailCredentialsView {
        EmailCredentialsView {
            sender_email_address: self.sender_email_address@,
            password: self.password@,
            smtp_relay_url: self.smtp_relay_url@,
        }
    }
}

impl Clone for EmailCredentials {
    fn clone(&self) -> (r: Self)
        ensures
            r@ == self@,
    {
        EmailCredentials {
            sender_email_address: self.sender_email_address.clone(),
            password: self.password.clone(),
            smtp_relay_url: self.smtp_relay_url.clone(),
        }
    }
}

impl PartialEq for EmailCredentials {
    fn eq(&self, other: &Self) -> (r: bool) {
        self.sender_email_address == other.sender_email_address && self.password == other.password
            && self.smtp_relay_url == other.smtp_relay_url
    }
}

impl PartialEqSpecImpl for EmailCredentials {
    open spec fn obeys_eq_spec() -> bool {
        true
    }

    open spec fn eq_spec(&self, other: &Self) -> bool {
        self.sender_email_address@ == other.sender_email_address@ && self.password@
            == other.password@ && self.smtp_relay_url@ == other.smtp_relay_url@
    }
}

impl EmailCredentials {
    /// Puts the three parts together.
    pub fn new(sender_email_address: String, password: String, smtp_relay_url: String) -> (r:
        Self)
        ensures
            r.sender_email_address@ == sender_email_address@,
            r.password@ == password@,
            r.smtp_relay_url@ == smtp_relay_url@,
    {
        EmailCredentials { sender_email_address, password, smtp_relay_url }
    }

    /// Structural equality: all three parts agree.
    pub fn same_as(&self, other: &EmailCredentials) -> (r: bool)
        ensures
            r == (self@ == other@),
    {
        self == other
    }
}

/// Subject and text of one message.
#[derive(Debug)]
pub struct Email {
    pub subject: String,
    pub body: String,
}

/// One event of the installed application: a message, whom it is for, and the
/// credentials to send it with.
#[derive(Debug)]
pub struct SendEmailSignal {
    /// Address of the recipient.
    pub email_address: String,
    /// The message.
    pub email: Email,
    /// Login for the relay that carries it.
    pub credentials: EmailCredentials,
}

} // verus!
