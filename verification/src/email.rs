//! The confirmation email and the outbound transport model.
//!
//! The transport is a send capability: it either accepts a message or fails.
//! The `Outbox` models it as a record of accepted messages with a switch for
//! the failing transport, so the workflow is verified for both outcomes.

use vstd::prelude::*;
use vstd::string::StringExecFns;

use crate::domain::NewSubscriber;
use crate::errors::SendEmailError;

verus! {

/// The public base URL of the application; confirmation links start with it.
#[derive(Debug)]
pub struct ApplicationBaseUrl(pub String);

/// One outbound email.
#[derive(Debug)]
pub struct EmailMessage {
    pub to: String,
    pub subject: String,
    pub html_body: String,
    pub text_body: String,
}

/// Mathematical model of an outbound email.
#[verifier::ext_equal]
pub struct EmailMessageView {
    pub to: Seq<char>,
    pub subject: Seq<char>,
    pub html_body: Seq<char>,
    pub text_body: Seq<char>,
}

impl View for EmailMessage {
    type V = EmailMessageView;

    open spec fn view(&self) -> EmailMessageView {
        EmailMessageView {
            to: self.to@,
            subject: self.subject@,
            html_body: self.html_body@,
            text_body: self.text_body@,
        }
    }
}

/// Mathematical model of the transport: what it accepted, and whether it is
/// accepting.
#[verifier::ext_equal]
pub struct OutboxView {
    pub sent: Seq<EmailMessageView>,
    pub accepting: bool,
}

/// The outbound transport: accepted messages in order, and a switch that
/// makes every following send fail, the way a transport outage would.
pub struct Outbox {
    sent: Vec<EmailMessage>,
    accepting: bool,
}

impl View for Outbox {
    type V = OutboxView;

    closed spec fn view(&self) -> OutboxView {
        OutboxView {
            sent: self.sent@.map_values(|m: EmailMessage| m@),
            accepting: self.accepting,
        }
    }
}

impl Outbox {
    /// A transport that accepts everything.
    pub fn new() -> (r: Outbox)
        ensures
            r@.sent.len() == 0,
            r@.accepting,
    {
        Outbox { sent: Vec::new(), accepting: true }
    }

    /// Turns acceptance on or off.
    pub fn set_accepting(&mut self, accepting: bool)
        ensures
            final(self)@.sent == old(self)@.sent,
            final(self)@.accepting == accepting,
    {
        self.accepting = accepting;
        proof {
            assert(self@.sent =~= old(self)@.sent);
        }
    }

    /// Hands a message to the transport.
    pub fn send(&mut self, message: EmailMessage) -> (r: Result<(), SendEmailError>)
        ensures
            old(self)@.accepting ==> r is Ok && final(self)@.sent == old(self)@.sent.push(
                message@,
            ) && final(self)@.accepting,
            !old(self)@.accepting ==> r is Err && final(self)@ == old(self)@,
    {
        if self.accepting {
            let ghost pre = self@.sent;
            self.sent.push(message);
            proof {
                assert(self@.sent =~= pre.push(message@));
            }
            Ok(())
        } else {
            Err(SendEmailError {})
        }
    }

    /// Number of accepted messages.
    pub fn sent_count(&self) -> (r: usize)
        ensures
            r == self@.sent.len(),
    {
        self.sent.len()
    }

    /// The `i`-th accepted message.
    pub fn get_sent(&self, i: usize) -> (m: &EmailMessage)
        requires
            i < self@.sent.len(),
        ensures
            m@ == self@.sent[i as int],
    {
        &self.sent[i]
    }
}

/// The confirmation link embedded in the email.
pub open spec fn confirmation_link(base: Seq<char>, token: Seq<char>) -> Seq<char> {
    base + "/subscriptions/confirm?subscription_token="@ + token
}

/// The HTML body of the confirmation email.
pub open spec fn confirmation_html_body(link: Seq<char>) -> Seq<char> {
    "Welcome to our newsletter!<br />Click <a href=\""@ + link
        + "\">here</a> to confirm your subscription."@
}

/// The plain-text body of the confirmation email.
pub open spec fn confirmation_text_body(link: Seq<char>) -> Seq<char> {
    "Welcome to our newsletter!\nVisit "@ + link + " to confirm your subscription."@
}

/// Builds the confirmation email for a new subscriber, with the link that
/// embeds the subscription token, and hands it to the transport.
pub fn send_confirmation_email(
    outbox: &mut Outbox,
    new_subscriber: &NewSubscriber,
    base_url: &ApplicationBaseUrl,
    subscription_token: &String,
) -> (r: Result<(), SendEmailError>)
    ensures
        old(outbox)@.accepting ==> r is Ok && final(outbox)@.accepting && final(outbox)@.sent
            == old(outbox)@.sent.push(
            (EmailMessageView {
                to: new_subscriber.email@,
                subject: "Welcome!"@,
                html_body: confirmation_html_body(
                    confirmation_link(base_url.0@, subscription_token@),
                ),
                text_body: confirmation_text_body(
                    confirmation_link(base_url.0@, subscription_token@),
                ),
            }),
        ),
        !old(outbox)@.accepting ==> r is Err && final(outbox)@ == old(outbox)@,
{
    let link = base_url.0.clone().concat(
        "/subscriptions/confirm?subscription_token=",
    ).concat(subscription_token.as_str());
    let html_body = String::from_str("Welcome to our newsletter!<br />Click <a href=\"").concat(
        link.as_str(),
    ).concat("\">here</a> to confirm your subscription.");
    let text_body = String::from_str("Welcome to our newsletter!\nVisit ").concat(
        link.as_str(),
    ).concat(" to confirm your subscription.");
    let message = EmailMessage {
        to: new_subscriber.email.as_string(),
        subject: String::from_str("Welcome!"),
        html_body,
        text_body,
    };
    proof {
        assert(message@.html_body =~= confirmation_html_body(
            confirmation_link(base_url.0@, subscription_token@),
        ));
        assert(message@.text_body =~= confirmation_text_body(
            confirmation_link(base_url.0@, subscription_token@),
        ));
        assert(message@ =~= EmailMessageView {
            to: new_subscriber.email@,
            subject: "Welcome!"@,
            html_body: confirmation_html_body(
                confirmation_link(base_url.0@, subscription_token@),
            ),
            text_body: confirmation_text_body(
                confirmation_link(base_url.0@, subscription_token@),
            ),
        });
    }
    outbox.send(message)
}

} // verus!
