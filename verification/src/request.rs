//! What is signed for a request: its request id behind a domain separator.

use ic_agent::agent::EnvelopeContent;
use vstd::prelude::*;

verus! {

/// The content of a request envelope, as `ic-agent` builds it. The library
/// hands it on and never looks inside.
#[verifier::external_type_specification]
#[verifier::external_body]
pub struct ExEnvelopeContent(ic_agent::agent::EnvelopeContent);

/// Length in bytes of a request id.
pub const REQUEST_ID_LENGTH: usize = 32;

/// The bytes `"\x0Aic-request"` that stand before a request id when it is
/// signed.
pub open spec fn domain_separator() -> Seq<u8> {
    seq![10u8, 105u8, 99u8, 45u8, 114u8, 101u8, 113u8, 117u8, 101u8, 115u8, 116u8]
}

/// The message that is signed for a request id.
pub open spec fn signable(request_id: Seq<u8>) -> Seq<u8> {
    domain_separator() + request_id
}

/// Calls `EnvelopeContent::to_request_id`. Nothing is claimed of the id but
/// its length, which the type gives.
#[verifier::external_body]
pub(crate) fn request_id_of(content: &EnvelopeContent) -> (request_id: [u8; 32]) {
    *content.to_request_id()
}

/// Calls `RequestId::signable` on the id.
///
/// Not proved: that the outcome is the domain separator followed by the id.
#[verifier::external_body]
pub(crate) fn signable_form(request_id: &[u8; 32]) -> (message: Vec<u8>)
    ensures
        message@ == signable(request_id@),
{
    ic_agent::RequestId::new(request_id).signable()
}

} // verus!
