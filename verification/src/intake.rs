//! Intake classification: what the event loop does with one inbound event.
//!
//! Each delivered event is screened against the active filter, decrypted,
//! and searched for a recognized reference. The outcome is a decision value;
//! the loop around this crate dispatches the download, sends the fixed
//! notice, or drops the event accordingly, and nothing else. A sender the
//! filter does not admit is dropped before any decryption or extraction.

use vstd::prelude::*;

use crate::codec::decrypt_dm;
use crate::codec::dm_plain_of;
use crate::codec::is_dm_pubkey;
use crate::codec::is_sk_hex;
use crate::dispatch::invalid_notice_spec;
use crate::dispatch::invalid_reference_notice;
use crate::extract::extract;
use crate::extract::extract_spec;
use crate::reconcile::FilterSpec;
use crate::reconcile::admits;
use crate::reconcile::has_str;
use crate::reconcile::views_of;

verus! {

/// The decision for one inbound event.
#[derive(Debug, PartialEq, Eq)]
pub enum InboundAction {
    /// An authorized message held a recognized reference: run a download job
    /// for this identifier and reply with its outcome.
    Dispatch(String),
    /// An authorized message held no recognized reference: reply with this
    /// fixed notice.
    ReplyInvalid(String),
    /// The event is not for this agent, not admitted, or not decryptable:
    /// no reply at all.
    Drop,
}

fn filter_admits(
    filter: &FilterSpec,
    kind: u16,
    recipient: &String,
    author: &String,
    created_at: u64,
) -> (r: bool)
    ensures
        r == admits(filter, kind, recipient@, author@, created_at),
{
    kind == crate::reconcile::DM_KIND && *recipient == filter.recipient
        && crate::reconcile::member(&filter.authors, author) && created_at >= filter.since
}

/// Classify one inbound event: screen it against the filter, decrypt it with
/// the agent's secret key, and extract a reference from the plaintext.
pub fn handle_inbound(
    filter: &FilterSpec,
    sk_hex: &str,
    kind: u16,
    recipient_hex: &String,
    author_hex: &String,
    created_at: u64,
    ciphertext: &str,
) -> (r: InboundAction)
    ensures
        !admits(filter, kind, recipient_hex@, author_hex@, created_at) ==> r is Drop,
        !has_str(views_of(filter.authors@), author_hex@) ==> r is Drop,
        r matches InboundAction::Dispatch(id) ==> (dm_plain_of(
            sk_hex@,
            author_hex@,
            ciphertext@,
        ) matches Some(pt) && admits(filter, kind, recipient_hex@, author_hex@, created_at)
            && extract_spec(pt) == Some(id@)),
        r matches InboundAction::ReplyInvalid(notice) ==> (dm_plain_of(
            sk_hex@,
            author_hex@,
            ciphertext@,
        ) matches Some(pt) && admits(filter, kind, recipient_hex@, author_hex@, created_at)
            && extract_spec(pt) is None && notice@ == invalid_notice_spec()),
        admits(filter, kind, recipient_hex@, author_hex@, created_at) && is_sk_hex(sk_hex@)
            && is_dm_pubkey(author_hex@) && dm_plain_of(sk_hex@, author_hex@, ciphertext@) is Some
            ==> !(r is Drop),
{
    if !filter_admits(filter, kind, recipient_hex, author_hex, created_at) {
        return InboundAction::Drop;
    }
    let plaintext = match decrypt_dm(sk_hex, author_hex.as_str(), ciphertext) {
        Ok(p) => p,
        Err(_) => {
            return InboundAction::Drop;
        },
    };
    match extract(plaintext.as_str()) {
        Some(id) => InboundAction::Dispatch(id),
        None => InboundAction::ReplyInvalid(invalid_reference_notice()),
    }
}

} // verus!
