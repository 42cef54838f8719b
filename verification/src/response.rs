//! The outcome of an admission request as the response that the policy host
//! reads.
//!
//! The response is written by the Kubewarden SDK. Its functions are called
//! here, and what they return is stated without proof.

use crate::decision::{decide, decision, Extraction, OutcomeView, ValidationOutcome};
use crate::settings::Settings;
use vstd::prelude::*;
use vstd::string::StringSliceAdditionalSpecFns;
use vstd::utf8::{is_ascii_chars, is_ascii_chars_encode_utf8};

verus! {

/// The response could not be written.
#[derive(Debug, PartialEq, Eq)]
pub struct ResponseError {
    /// What the SDK reported.
    pub detail: String,
}

/// The response that accepts a request: a JSON object whose `accepted`
/// member is `true` and whose other members are `null`.
pub open spec fn acceptance_document() -> Seq<u8> {
    "{\"accepted\":true,\"message\":null,\"code\":null,\"mutated_object\":null,\"audit_annotations\":null,\"warnings\":null}".spec_bytes()
}

/// What `kubewarden_policy_sdk::reject_request` makes of a message: the JSON
/// string that it writes as the `message` member of its response (the message
/// between double quotes, escaped where JSON asks for it), or `None` where it
/// reports an error and writes no response.
pub uninterp spec fn message_member(message: Seq<char>) -> Option<Seq<u8>>;

/// What a rejection holds before its message.
pub open spec fn rejection_opening() -> Seq<u8> {
    "{\"accepted\":false,\"message\":".spec_bytes()
}

/// What a rejection holds after its message.
pub open spec fn rejection_closing() -> Seq<u8> {
    ",\"code\":null,\"mutated_object\":null,\"audit_annotations\":null,\"warnings\":null}".spec_bytes()
}

/// The response that rejects a request with a message: a JSON object whose
/// `accepted` member is `false`, whose `message` member is the message, and
/// whose other members are `null`. `None` where the SDK writes no response
/// for the message.
pub open spec fn rejection_document(message: Seq<char>) -> Option<Seq<u8>> {
    match message_member(message) {
        Some(member) => Some(rejection_opening() + member + rejection_closing()),
        None => None,
    }
}

/// The bytes of a response that was written, `None` for an error.
pub open spec fn written(response: Result<Vec<u8>, ResponseError>) -> Option<Seq<u8>> {
    match response {
        Ok(bytes) => Some(bytes@),
        Err(_) => None,
    }
}

/// Whether `response` is what the SDK returns for `outcome`.
///
/// For a rejection the SDK's result is a function of the message, and the
/// response is that result: the rejection document, or an error where there
/// is none. For an acceptance the SDK is handed nothing, and a response that
/// it writes is the acceptance document.
pub open spec fn renders(outcome: OutcomeView, response: Result<Vec<u8>, ResponseError>) -> bool {
    match outcome {
        OutcomeView::Accepted => response matches Ok(bytes) ==> bytes@ == acceptance_document(),
        OutcomeView::Rejected(message) => written(response) == rejection_document(message),
    }
}

/// The acceptance document is written for an acceptance and for nothing
/// else: a rejection differs from it, whatever its message.
pub proof fn lemma_only_acceptance_reads_as_accepted(message: Seq<char>)
    ensures
        rejection_document(message) != Some(acceptance_document()),
{
    if let Some(member) = message_member(message) {
        let accepted =
            "{\"accepted\":true,\"message\":null,\"code\":null,\"mutated_object\":null,\"audit_annotations\":null,\"warnings\":null}";
        let opening = "{\"accepted\":false,\"message\":";
        reveal_strlit(
            "{\"accepted\":true,\"message\":null,\"code\":null,\"mutated_object\":null,\"audit_annotations\":null,\"warnings\":null}",
        );
        reveal_strlit("{\"accepted\":false,\"message\":");
        // Both texts are ASCII, so their bytes are their characters, and
        // they part ways at the first letter of `true` and `false`.
        assert(is_ascii_chars(accepted@));
        assert(is_ascii_chars(opening@));
        is_ascii_chars_encode_utf8(accepted@);
        is_ascii_chars_encode_utf8(opening@);
        assert(acceptance_document()[12] == 't' as u8);
        assert((rejection_opening() + member + rejection_closing())[12] == 'f' as u8);
    }
}

/// Calls `kubewarden_policy_sdk::accept_request`.
///
/// Not proved: where the call succeeds, it returns the acceptance document.
/// The SDK serializes a response with `accepted` set and every other member
/// empty, member by member in the order of their declaration, as compact
/// JSON.
#[verifier::external_body]
fn accept_request() -> (response: Result<Vec<u8>, ResponseError>)
    ensures
        response matches Ok(bytes) ==> bytes@ == acceptance_document(),
{
    match kubewarden_policy_sdk::accept_request() {
        Ok(bytes) => Ok(bytes),
        Err(error) => Err(ResponseError { detail: error.to_string() }),
    }
}

/// Calls `kubewarden_policy_sdk::reject_request` with a message and without
/// a code, audit annotations or warnings.
///
/// Not proved: what the call returns depends on the message alone, and
/// where it succeeds, it returns the rejection document of the message. The
/// SDK serializes a response with `accepted` unset, the message, and every
/// other member empty, in the same way as for an acceptance; it reads
/// nothing but its arguments.
#[verifier::external_body]
fn reject_request(message: String) -> (response: Result<Vec<u8>, ResponseError>)
    ensures
        match response {
            Ok(bytes) => message_member(message@) matches Some(member)
                && bytes@ == rejection_opening() + member + rejection_closing(),
            Err(_) => message_member(message@) is None,
        },
{
    match kubewarden_policy_sdk::reject_request(Some(message), None, None, None) {
        Ok(bytes) => Ok(bytes),
        Err(error) => Err(ResponseError { detail: error.to_string() }),
    }
}

/// Writes the response for an outcome.
///
/// A rejection is handed to the SDK with its message, and what the SDK
/// makes of that message is returned as it is: the rejection document, or
/// the error. An acceptance is written by the SDK from nothing; where it
/// writes one, it is the acceptance document. No rejection is written as
/// the acceptance document.
pub fn render(outcome: ValidationOutcome) -> (response: Result<Vec<u8>, ResponseError>)
    ensures
        renders(outcome@, response),
        response matches Ok(bytes) ==> (bytes@ == acceptance_document() <==> outcome@ is Accepted),
{
    proof {
        if let OutcomeView::Rejected(message) = outcome@ {
            lemma_only_acceptance_reads_as_accepted(message);
        }
    }
    match outcome {
        ValidationOutcome::Accepted => accept_request(),
        ValidationOutcome::Rejected(message) => reject_request(message),
    }
}

/// Decides on admission from what was read of an object and writes the
/// response.
pub fn validate(extraction: &Extraction, settings: &Settings) -> (response: Result<
    Vec<u8>,
    ResponseError,
>)
    ensures
        renders(decision(*extraction, *settings), response),
        response matches Ok(bytes) ==> (bytes@ == acceptance_document() <==> decision(
            *extraction,
            *settings,
        ) is Accepted),
{
    render(decide(extraction, settings))
}

} // verus!
