//! Email identities and message composition: mailbox validation (backed by
//! lettre's parser), the check-in and activation messages, and best-effort
//! aggregation of delivery outcomes.

use vstd::prelude::*;
use vstd::string::*;

verus! {

/// Whether lettre's mailbox parser accepts the string `s`.
pub uninterp spec fn mailbox_accepted(s: Seq<char>) -> bool;

/// Relies on lettre's `Mailbox` parser (`<Mailbox as FromStr>::from_str`):
/// whether a string is accepted depends on the string alone.
#[verifier::external_body]
fn lettre_mailbox_ok(s: &str) -> (r: bool)
    ensures
        r == mailbox_accepted(s@),
{
    s.parse::<lettre::message::Mailbox>().is_ok()
}

/// A validated email identity: text that lettre's mailbox parser accepted,
/// kept in the form it was validated in.
#[derive(Debug)]
pub struct Mailbox {
    raw: String,
}

impl Mailbox {
    /// The text of this identity.
    pub closed spec fn text(&self) -> Seq<char> {
        self.raw@
    }

    /// Well-formedness: the text passed validation.
    pub open spec fn valid(&self) -> bool {
        mailbox_accepted(self.text())
    }

    /// Validates `s` once, at startup: `Some` exactly when lettre's parser
    /// accepts it.
    pub fn parse(s: &str) -> (r: Option<Mailbox>)
        ensures
            (r matches Some(m) ==> m.valid() && m.text() == s@),
            (r is Some) == mailbox_accepted(s@),
    {
        if lettre_mailbox_ok(s) {
            Some(Mailbox { raw: s.to_owned() })
        } else {
            None
        }
    }

    pub fn as_str(&self) -> (r: &str)
        ensures
            r@ == self.text(),
    {
        self.raw.as_str()
    }

    /// An owned copy of the same identity.
    pub fn duplicate(&self) -> (m: Mailbox)
        ensures
            m.text() == self.text(),
            m.valid() == self.valid(),
    {
        Mailbox { raw: self.raw.clone() }
    }
}

/// The form the sender identity is validated and used in: the configured
/// address wrapped with the fixed display name.
pub open spec fn sender_string(raw: Seq<char>) -> Seq<char> {
    "Rusty Switch <"@ + raw + ">"@
}

/// Validates the configured sender address, in its display form
/// `Rusty Switch <address>`: `Some` exactly when lettre accepts that form.
pub fn parse_sender(raw: &str) -> (r: Option<Mailbox>)
    ensures
        (r matches Some(m) ==> m.valid() && m.text() == sender_string(raw@)),
        (r is Some) == mailbox_accepted(sender_string(raw@)),
{
    let mut s = "Rusty Switch <".to_owned();
    s.append(raw);
    s.append(">");
    Mailbox::parse(s.as_str())
}

/// One outbound message: recipient, subject and body. The sender and
/// reply-to identity is the single configured sender.
pub struct Email {
    pub to: Mailbox,
    pub subject: String,
    pub body: String,
}

/// The body of a check-in message: an HTML page whose embedded image URL is
/// the heartbeat reset link carrying the secret token.
pub open spec fn checkin_body(token: Seq<char>) -> Seq<char> {
    "<html><img src='http://localhost:6969/heartbeat?token="@ + token
        + "'><h1>Checking in.</h1></html>"@
}

/// The body of an activation message: the secret payload wrapped in HTML.
pub open spec fn activation_body(data: Seq<char>) -> Seq<char> {
    "<html><p>"@ + data + "</p></html>"@
}

/// Composes the daily check-in message: sent to the operator's own mailbox,
/// with the reset link (carrying `secret_token`) embedded in the body.
pub fn compose_checkin_email(sender: &Mailbox, secret_token: &str) -> (e: Email)
    ensures
        e.to.text() == sender.text(),
        e.to.valid() == sender.valid(),
        e.subject@ == "Rusty Switch Check In"@,
        e.body@ == checkin_body(secret_token@),
{
    let mut body = "<html><img src='http://localhost:6969/heartbeat?token=".to_owned();
    body.append(secret_token);
    body.append("'><h1>Checking in.</h1></html>");
    Email { to: sender.duplicate(), subject: "Rusty Switch Check In".to_owned(), body }
}

/// Composes the activation messages: one per recipient, every one carrying
/// the full payload. Every recipient is included, whatever later happens to
/// an individual delivery.
pub fn compose_activation_emails(recipients: &Vec<Mailbox>, data: &str) -> (es: Vec<Email>)
    ensures
        es@.len() == recipients@.len(),
        forall|i: int|
            0 <= i < es@.len() ==> {
                &&& (#[trigger] es@[i]).to.text() == recipients@[i].text()
                &&& es@[i].to.valid() == recipients@[i].valid()
                &&& es@[i].subject@ == "Rusty Switch ACTIVATED"@
                &&& es@[i].body@ == activation_body(data@)
            },
{
    let mut body = "<html><p>".to_owned();
    body.append(data);
    body.append("</p></html>");
    let mut es: Vec<Email> = Vec::new();
    let mut i: usize = 0;
    while i < recipients.len()
        invariant
            i <= recipients@.len(),
            es@.len() == i,
            body@ == activation_body(data@),
            forall|j: int|
                0 <= j < i ==> {
                    &&& (#[trigger] es@[j]).to.text() == recipients@[j].text()
                    &&& es@[j].to.valid() == recipients@[j].valid()
                    &&& es@[j].subject@ == "Rusty Switch ACTIVATED"@
                    &&& es@[j].body@ == activation_body(data@)
                },
        decreases recipients@.len() - i,
    {
        es.push(
            Email {
                to: recipients[i].duplicate(),
                subject: "Rusty Switch ACTIVATED".to_owned(),
                body: body.clone(),
            },
        );
        i += 1;
    }
    es
}

/// What one delivery attempt came to: delivered, or failed with a report.
#[derive(Debug)]
pub enum DeliveryOutcome {
    Delivered,
    Failed(String),
}

/// The reports of the failed attempts among `s`, in order.
pub open spec fn spec_failures(s: Seq<DeliveryOutcome>) -> Seq<Seq<char>>
    decreases s.len(),
{
    if s.len() == 0 {
        Seq::empty()
    } else {
        let rest = spec_failures(s.drop_last());
        match s.last() {
            DeliveryOutcome::Failed(m) => rest.push(m@),
            DeliveryOutcome::Delivered => rest,
        }
    }
}

/// Best-effort error aggregation: given the outcome of every delivery
/// attempt, returns the reports of exactly the failed ones, in order.
/// Partial disclosure being better than none, a failure never cancels the
/// remaining sends; they are all attempted and accounted for here.
pub fn collect_failures(outcomes: &Vec<DeliveryOutcome>) -> (fails: Vec<String>)
    ensures
        fails@.map_values(|f: String| f@) == spec_failures(outcomes@),
{
    let mut fails: Vec<String> = Vec::new();
    let mut i: usize = 0;
    while i < outcomes.len()
        invariant
            i <= outcomes@.len(),
            fails@.map_values(|f: String| f@) == spec_failures(outcomes@.subrange(0, i as int)),
        decreases outcomes@.len() - i,
    {
        match &outcomes[i] {
            DeliveryOutcome::Delivered => {},
            DeliveryOutcome::Failed(m) => {
                fails.push(m.clone());
            },
        }
        proof {
            assert(outcomes@.subrange(0, i as int + 1).drop_last() =~= outcomes@.subrange(
                0,
                i as int,
            ));
            assert(outcomes@.subrange(0, i as int + 1).last() == outcomes@[i as int]);
            assert(fails@.map_values(|f: String| f@) =~= spec_failures(
                outcomes@.subrange(0, i as int + 1),
            ));
        }
        i += 1;
    }
    proof {
        assert(outcomes@.subrange(0, outcomes@.len() as int) =~= outcomes@);
    }
    fails
}

} // verus!
