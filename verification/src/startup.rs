//! Startup validation: the configuration inputs are checked once, eagerly,
//! into immutable typed values; any failure is fatal at startup and carries
//! a printable diagnostic.

use vstd::prelude::*;
use vstd::string::*;
use crate::config::{parse_threshold_days, spec_threshold_days};
use crate::email::{mailbox_accepted, parse_sender, sender_string, Mailbox};

verus! {

/// A startup configuration failure, with what it was about.
#[derive(Debug)]
pub enum ConfigError {
    /// The configured sender address was rejected; holds its text.
    InvalidSender(String),
    /// A recipient address was rejected; holds its text.
    InvalidRecipient(String),
    /// The secret payload file was empty.
    EmptyPayload,
}

impl ConfigError {
    /// The diagnostic this failure prints.
    pub open spec fn spec_message(&self) -> Seq<char> {
        match self {
            ConfigError::InvalidSender(raw) => "ERROR: Sender email is invalid: "@ + raw@,
            ConfigError::InvalidRecipient(raw) => "ERROR: Recipient email is invalid: "@ + raw@,
            ConfigError::EmptyPayload => "ERROR: data file cannot be empty."@,
        }
    }

    pub fn message(&self) -> (r: String)
        ensures
            r@ == self.spec_message(),
    {
        match self {
            ConfigError::InvalidSender(raw) => {
                let mut s = "ERROR: Sender email is invalid: ".to_owned();
                s.append(raw.as_str());
                s
            },
            ConfigError::InvalidRecipient(raw) => {
                let mut s = "ERROR: Recipient email is invalid: ".to_owned();
                s.append(raw.as_str());
                s
            },
            ConfigError::EmptyPayload => "ERROR: data file cannot be empty.".to_owned(),
        }
    }
}

/// The validated, immutable startup configuration.
#[derive(Debug)]
pub struct Config {
    /// The sender identity, in its display form `Rusty Switch <address>`.
    pub sender: Mailbox,
    /// The recipients of the activation messages, in the order given.
    pub recipients: Vec<Mailbox>,
    /// The secret payload, read once; never empty.
    pub payload: String,
    /// The activation threshold in whole days.
    pub threshold_days: i64,
}

/// Validates every startup input in the order the process checks them:
/// the sender address first, then each recipient in order, then the payload;
/// the threshold text never fails (it falls back to the default).
pub fn build_config(
    sender_raw: &str,
    recipient_raws: &Vec<String>,
    payload: String,
    threshold_raw: &str,
) -> (r: Result<Config, ConfigError>)
    ensures
        (r is Ok) == (mailbox_accepted(sender_string(sender_raw@)) && (forall|i: int|
            0 <= i < recipient_raws@.len() ==> mailbox_accepted(#[trigger] recipient_raws@[i]@))
            && payload@.len() > 0),
        (r matches Ok(c) ==> {
            &&& c.sender.text() == sender_string(sender_raw@)
            &&& c.sender.valid()
            &&& c.recipients@.len() == recipient_raws@.len()
            &&& forall|i: int|
                0 <= i < recipient_raws@.len() ==> {
                    &&& (#[trigger] c.recipients@[i]).text() == recipient_raws@[i]@
                    &&& c.recipients@[i].valid()
                }
            &&& c.payload@ == payload@
            &&& c.threshold_days as int == spec_threshold_days(threshold_raw@)
        }),
        (r matches Err(e) ==> {
            ||| (!mailbox_accepted(sender_string(sender_raw@)) && (e matches
            ConfigError::InvalidSender(s) && s@ == sender_raw@))
            ||| (mailbox_accepted(sender_string(sender_raw@)) && (exists|j: int|
                0 <= j < recipient_raws@.len() && !mailbox_accepted(#[trigger] recipient_raws@[j]@)
                    && (forall|k: int|
                    0 <= k < j ==> mailbox_accepted(#[trigger] recipient_raws@[k]@)) && (e matches
                ConfigError::InvalidRecipient(t) && t@ == recipient_raws@[j]@)))
            ||| ((forall|i: int|
                0 <= i < recipient_raws@.len() ==> mailbox_accepted(
                    #[trigger] recipient_raws@[i]@,
                )) && payload@.len() == 0 && (e matches ConfigError::EmptyPayload))
        }),
{
    let sender = match parse_sender(sender_raw) {
        Some(m) => m,
        None => {
            return Err(ConfigError::InvalidSender(sender_raw.to_owned()));
        },
    };
    let mut recipients: Vec<Mailbox> = Vec::new();
    let mut i: usize = 0;
    while i < recipient_raws.len()
        invariant
            i <= recipient_raws@.len(),
            recipients@.len() == i,
            mailbox_accepted(sender_string(sender_raw@)),
            sender.text() == sender_string(sender_raw@),
            sender.valid(),
            forall|k: int| 0 <= k < i ==> mailbox_accepted(#[trigger] recipient_raws@[k]@),
            forall|k: int|
                0 <= k < i ==> {
                    &&& (#[trigger] recipients@[k]).text() == recipient_raws@[k]@
                    &&& recipients@[k].valid()
                },
        decreases recipient_raws@.len() - i,
    {
        let raw = &recipient_raws[i];
        match Mailbox::parse(raw.as_str()) {
            Some(m) => {
                recipients.push(m);
            },
            None => {
                let err = ConfigError::InvalidRecipient(raw.clone());
                proof {
                    assert(exists|j: int|
                        0 <= j < recipient_raws@.len() && !mailbox_accepted(
                            #[trigger] recipient_raws@[j]@,
                        ) && (forall|k: int|
                            0 <= k < j ==> mailbox_accepted(#[trigger] recipient_raws@[k]@)) && (err
                            matches ConfigError::InvalidRecipient(t)
                            && t@ == recipient_raws@[j]@)) by {
                        assert(0 <= i < recipient_raws@.len() && !mailbox_accepted(
                            recipient_raws@[i as int]@,
                        ) && (forall|k: int|
                            0 <= k < i ==> mailbox_accepted(#[trigger] recipient_raws@[k]@)) && (err
                            matches ConfigError::InvalidRecipient(t)
                            && t@ == recipient_raws@[i as int]@));
                    }
                }
                return Err(err);
            },
        }
        i += 1;
    }
    if payload.as_str().is_empty() {
        return Err(ConfigError::EmptyPayload);
    }
    let threshold_days = parse_threshold_days(threshold_raw);
    Ok(Config { sender, recipients, payload, threshold_days })
}

} // verus!
