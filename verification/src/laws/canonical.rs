//! Canonical forms: exactly the forms of valid records are read, and what is read
//! authenticates under the trusted time.
use vstd::prelude::*;
use super::authority::digest_of;
use super::identities::a_digest_is_written_so;
use super::transport::four_byte_number;
use super::words::says;
use crate::error::CultNetError;
use crate::record::{
    canonical_record_bytes, canonical_record_sha256, copy_record, decode_canonical_record,
    record_bytes, CanonicalRecord, Record,
};
use crate::runtime_authority_contracts::authority::{
    authenticate_odin_runtime_topology_correlation, authenticate_runtime_presence_claim,
    presence_claim_violation, receipt_violation, AuthenticatedOdinRuntimeTopologyCorrelation,
    AuthenticatedRuntimePresenceClaim, OdinTopologyAuthenticationContext,
    RuntimePresenceAuthenticationContext, VerifiedRuntimeAuthority,
};
use crate::runtime_authority_contracts::presence::GameCultRuntimePresenceHealthRecord;
use crate::runtime_authority_contracts::topology::OdinRuntimeTopologyCorrelationRecord;
use crate::text::text_of_option;
use crate::wire::{
    array_length, map_length, messagepack_array_len, messagepack_decoding, messagepack_encoding,
};

verus! {

/// The bytes start with the header of an array with so many items: up to fifteen in one byte,
/// and else in two or in four bytes behind it.
pub open spec fn announces_items(bytes: Seq<u8>, count: int) -> bool {
    ||| bytes.len() >= 1 && 0 <= count <= 15 && bytes[0] == 144 + count
    ||| bytes.len() >= 3 && bytes[0] == 220 && count == bytes[1] * 256 + bytes[2]
    ||| bytes.len() >= 5 && bytes[0] == 221 && count == four_byte_number(bytes.skip(1))
}

/// The bytes start with the header of a map with so many members.
pub open spec fn announces_members(bytes: Seq<u8>, count: int) -> bool {
    ||| bytes.len() >= 1 && 0 <= count <= 15 && bytes[0] == 128 + count
    ||| bytes.len() >= 3 && bytes[0] == 222 && count == bytes[1] * 256 + bytes[2]
    ||| bytes.len() >= 5 && bytes[0] == 223 && count == four_byte_number(bytes.skip(1))
}

/// A header is read exactly as it announces.
pub proof fn a_header_is_read_as_it_announces(payload: &[u8], length: Option<u64>, count: nat)
    requires
        call_ensures(messagepack_array_len, (payload,), length),
    ensures
        length matches Some(found) ==> announces_items(payload@, found as int),
        length is None ==> !announces_items(payload@, count as int),
        array_length(payload@) == Some(count) <==> announces_items(payload@, count as int),
        map_length(payload@) == Some(count) <==> announces_members(payload@, count as int),
{
}

/// A payload is taken exactly if it is the form of a valid record, which is then what is read.
pub proof fn exactly_the_forms_of_valid_records_are_read<R: CanonicalRecord>(
    payload: &[u8],
    width: usize,
    record: R,
    outcome: Result<R, CultNetError>,
)
    requires
        width == R::width(),
        call_ensures(decode_canonical_record::<R>, (payload, width), outcome),
    ensures
        outcome matches Ok(found) ==> found.violation() is None && payload@ == messagepack_encoding(found.wire()),
        record.violation() is None && payload@ == messagepack_encoding(record.wire()) ==> (outcome matches Ok(found)
            && found.wire() == record.wire()),
        !announces_items(payload@, width as int) ==> says(outcome, R::WIDTH_REFUSAL@),
        announces_items(payload@, width as int) && (forall|any: R|
            messagepack_decoding(payload@) != Some(#[trigger] any.wire())) ==> says(outcome, R::MALFORMED_REFUSAL@),
        announces_items(payload@, width as int) && messagepack_decoding(payload@) == Some(record.wire()) ==> {
            let same = payload@ == messagepack_encoding(record.wire());
            &&& !R::RULES_FIRST && !same ==> says(outcome, R::NONCANONICAL_REFUSAL@)
            &&& R::RULES_FIRST && !same && record.violation() is None ==> says(outcome, R::NONCANONICAL_REFUSAL@)
            &&& R::RULES_FIRST || same ==> (record.violation() matches Some(words) ==> says(outcome, words))
        },
{
    assert(array_length(payload@) == Some(R::width()) <==> announces_items(payload@, width as int));
}

/// The form of a record is written exactly if it meets its rules, and its digest is that of
/// the form; a copy has the same form.
pub proof fn a_valid_record_is_written_in_its_form<R: Record>(
    record: &R,
    bytes: Result<Vec<u8>, CultNetError>,
    digest: Result<String, CultNetError>,
    anyway: Vec<u8>,
    copy: R,
)
    requires
        call_ensures(canonical_record_bytes::<R>, (record,), bytes),
        call_ensures(canonical_record_sha256::<R>, (record,), digest),
        call_ensures(record_bytes::<R>, (record,), anyway),
        call_ensures(copy_record::<R>, (record,), copy),
    ensures
        bytes is Ok <==> record.violation() is None,
        digest is Ok <==> record.violation() is None,
        record.violation() matches Some(words) ==> says(bytes, words) && says(digest, words),
        bytes matches Ok(found) ==> found@ == messagepack_encoding(record.wire()),
        digest matches Ok(found) ==> found@ == digest_of(*record),
        anyway@ == messagepack_encoding(record.wire()),
        copy.wire() == record.wire(),
{
    a_digest_is_written_so(messagepack_encoding(record.wire()));
}

/// A claim comes only of the form of a valid presence that authenticates under a trusted time
/// and an age that are not zero; it holds that presence, its bytes, their digest and the time.
pub proof fn a_claim_is_the_presence_in_the_bytes(
    bytes: &[u8],
    authority: &VerifiedRuntimeAuthority,
    context: RuntimePresenceAuthenticationContext,
    presence: GameCultRuntimePresenceHealthRecord,
    outcome: Result<AuthenticatedRuntimePresenceClaim, CultNetError>,
)
    requires
        call_ensures(authenticate_runtime_presence_claim, (bytes, authority, context), outcome),
    ensures
        context.trusted_received_at_unix_millis == 0 || context.maximum_age_millis == 0 ==> says(
            outcome,
            "runtime presence trusted time and maximum age must be positive"@,
        ),
        outcome matches Ok(claim) ==> {
            &&& context.trusted_received_at_unix_millis > 0 && context.maximum_age_millis > 0
            &&& claim.claimed().violation() is None
            &&& bytes@ == messagepack_encoding(claim.claimed().wire())
            &&& claim.claimed_bytes() == bytes@
            &&& claim.claimed_digest() == digest_of(claim.claimed())
            &&& claim.received_at() == context.trusted_received_at_unix_millis
            &&& presence_claim_violation(claim.claimed(), *authority, context) is None
        },
        outcome is Err && context.trusted_received_at_unix_millis > 0 && context.maximum_age_millis > 0
            && presence.violation() is None && bytes@ == messagepack_encoding(presence.wire()) ==> exists|
            found: GameCultRuntimePresenceHealthRecord,
        |
            {
                &&& #[trigger] found.wire() == presence.wire()
                &&& presence_claim_violation(found, *authority, context) matches Some(words) && says(outcome, words)
            },
{
    if let Ok(claim) = outcome {
        a_digest_is_written_so(messagepack_encoding(claim.claimed().wire()));
    } else if context.trusted_received_at_unix_millis > 0 && context.maximum_age_millis > 0 && presence.violation() is None
        && bytes@ == messagepack_encoding(presence.wire()) {
        let decoded = choose|decoded: Result<GameCultRuntimePresenceHealthRecord, CultNetError>|
            {
                &&& #[trigger] crate::record::decoded_canonically(bytes@, decoded)
                &&& match decoded {
                    Ok(found) => {
                        &&& crate::error::reports(outcome, presence_claim_violation(found, *authority, context))
                        &&& outcome matches Ok(claim) ==> claim.claimed() == found
                    },
                    Err(error) => outcome is Err && outcome->Err_0@ == error@,
                }
            };
        assert(decoded is Ok);
        assert(decoded->Ok_0.wire() == presence.wire());
    }
}

/// A receipt is authenticated only from the form of a valid one that authenticates under a
/// trusted time and an age that are not zero; it holds that receipt and its bytes.
pub proof fn a_receipt_is_the_one_in_the_bytes(
    bytes: &[u8],
    authority: &VerifiedRuntimeAuthority,
    current: Option<&str>,
    odin_key: &[u8],
    context: OdinTopologyAuthenticationContext,
    receipt: OdinRuntimeTopologyCorrelationRecord,
    outcome: Result<AuthenticatedOdinRuntimeTopologyCorrelation, CultNetError>,
)
    requires
        call_ensures(
            authenticate_odin_runtime_topology_correlation,
            (bytes, authority, current, odin_key, context),
            outcome,
        ),
    ensures
        context.trusted_received_at_unix_millis == 0 || context.maximum_age_millis == 0 ==> says(
            outcome,
            "Odin topology trusted time and maximum age must be positive"@,
        ),
        outcome matches Ok(found) ==> {
            &&& context.trusted_received_at_unix_millis > 0 && context.maximum_age_millis > 0
            &&& bytes@ == messagepack_encoding(found.receipt().wire())
            &&& found.receipt_bytes() == bytes@
            &&& receipt_violation(found.receipt(), *authority, text_of_option(current), odin_key@, context) is None
        },
        outcome is Err && context.trusted_received_at_unix_millis > 0 && context.maximum_age_millis > 0
            && receipt.violation() is None && bytes@ == messagepack_encoding(receipt.wire()) ==> exists|
            found: OdinRuntimeTopologyCorrelationRecord,
        |
            {
                &&& #[trigger] found.wire() == receipt.wire()
                &&& receipt_violation(found, *authority, text_of_option(current), odin_key@, context) matches Some(words)
                    && says(outcome, words)
            },
{
    if outcome is Err && context.trusted_received_at_unix_millis > 0 && context.maximum_age_millis > 0
        && receipt.violation() is None && bytes@ == messagepack_encoding(receipt.wire()) {
        let decoded = choose|decoded: Result<OdinRuntimeTopologyCorrelationRecord, CultNetError>|
            {
                &&& #[trigger] crate::record::decoded_canonically(bytes@, decoded)
                &&& match decoded {
                    Ok(found) => {
                        &&& crate::error::reports(
                            outcome,
                            receipt_violation(found, *authority, text_of_option(current), odin_key@, context),
                        )
                        &&& outcome matches Ok(held) ==> held.receipt() == found
                    },
                    Err(error) => outcome is Err && outcome->Err_0@ == error@,
                }
            };
        assert(decoded is Ok);
        assert(decoded->Ok_0.wire() == receipt.wire());
    }
}

}
