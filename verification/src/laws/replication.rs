//! Replication: which schema a document type travels under, which documents a snapshot
//! holds, and what a cache is asked to store.
use vstd::prelude::*;
use super::words::says;
use crate::contracts::{
    CultNetDocumentMutationContract, CultNetDocumentRecord, CultNetMessage,
    CultNetRawDocumentRecord, CultNetRawPayloadEncoding,
};
use crate::envelope::{envelopes, CultCacheEnvelope};
use crate::error::{first_among, CultNetError};
use crate::json::{json_from_messagepack, member_of, JsonValue};
use crate::replication::{
    borrowed_texts, contracts_among, raw_with_schema, requested, with_schema, Binding,
    CultNetDocumentBinding, CultNetDocumentPutOptions, CultNetDocumentRegistry,
    CultNetDocumentWrite,
};
use crate::text::{debug_text, views};

verus! {

// ---------------------------------------------------------------------------
// Bindings
// ---------------------------------------------------------------------------

/// The first member under the key is the one with the value.
pub open spec fn first_under<V>(members: Seq<(Seq<char>, V)>, key: Seq<char>, value: V) -> bool {
    exists|i: int|
        {
            &&& 0 <= i < members.len()
            &&& (#[trigger] members[i]).0 == key
            &&& members[i].1 == value
            &&& forall|k: int| 0 <= k < i ==> (#[trigger] members[k]).0 != key
        }
}

/// No member is under the key.
pub open spec fn none_under<V>(members: Seq<(Seq<char>, V)>, key: Seq<char>) -> bool {
    forall|i: int| 0 <= i < members.len() ==> (#[trigger] members[i]).0 != key
}

/// A lookup finds the first member under the key, and nothing where there is none.
pub proof fn a_lookup_finds_the_first_under_the_key<V>(members: Seq<(Seq<char>, V)>, key: Seq<char>)
    ensures
        member_of(members, key) is None <==> none_under(members, key),
        forall|value: V| member_of(members, key) == Some(value) <==> #[trigger] first_under(members, key, value),
    decreases members.len(),
{
    if members.len() > 0 {
        let rest = members.drop_first();
        a_lookup_finds_the_first_under_the_key(rest, key);
        if members[0].0 == key {
            assert forall|value: V| #[trigger] first_under(members, key, value) <==> members[0].1 == value by {
                if first_under(members, key, value) {
                    let i = choose|i: int|
                        {
                            &&& 0 <= i < members.len()
                            &&& (#[trigger] members[i]).0 == key
                            &&& members[i].1 == value
                            &&& forall|k: int| 0 <= k < i ==> (#[trigger] members[k]).0 != key
                        };
                    if i > 0 {
                        assert(members[0].0 != key);
                    }
                }
            }
        } else {
            if none_under(rest, key) {
                assert forall|i: int| 0 <= i < members.len() implies (#[trigger] members[i]).0 != key by {
                    if i > 0 {
                        assert(rest[i - 1].0 != key);
                    }
                }
            }
            if none_under(members, key) {
                assert forall|i: int| 0 <= i < rest.len() implies (#[trigger] rest[i]).0 != key by {
                    assert(members[i + 1].0 != key);
                }
            }
            assert forall|value: V| #[trigger] first_under(members, key, value) <==> first_under(rest, key, value) by {
                if first_under(members, key, value) {
                    let i = choose|i: int|
                        {
                            &&& 0 <= i < members.len()
                            &&& (#[trigger] members[i]).0 == key
                            &&& members[i].1 == value
                            &&& forall|k: int| 0 <= k < i ==> (#[trigger] members[k]).0 != key
                        };
                    assert(rest[i - 1].0 == key);
                    assert forall|k: int| 0 <= k < i - 1 implies (#[trigger] rest[k]).0 != key by {
                        assert(members[k + 1].0 != key);
                    }
                }
                if first_under(rest, key, value) {
                    let i = choose|i: int|
                        {
                            &&& 0 <= i < rest.len()
                            &&& (#[trigger] rest[i]).0 == key
                            &&& rest[i].1 == value
                            &&& forall|k: int| 0 <= k < i ==> (#[trigger] rest[k]).0 != key
                        };
                    assert(members[i + 1].0 == key);
                    assert forall|k: int| 0 <= k < i + 1 implies (#[trigger] members[k]).0 != key by {
                        if k > 0 {
                            assert(rest[k - 1].0 != key);
                        }
                    }
                }
            }
        }
    }
}

/// What a binding says is what its fields hold.
pub proof fn a_binding_says_what_its_fields_hold(binding: CultNetDocumentBinding)
    ensures
        binding@.schema_id == binding.schema_id@,
        binding@.document_type == binding.document_type@,
        binding@.mutation_contract == (match binding.mutation_contract {
            Some(contract) => Some(contract@),
            None => None,
        }),
        binding@.payload_schema_version == (match binding.payload_schema_version {
            Some(version) => Some(version@),
            None => None,
        }),
        binding.mutation_contract matches Some(contract) ==> {
            &&& contract@.schema_id == contract.schema_id@
            &&& contract@.contract_id == contract.contract_id@
            &&& contract@.allowed_operations.len() == contract.allowed_operations@.len()
            &&& forall|i: int|
                0 <= i < contract.allowed_operations@.len() ==> contract@.allowed_operations[i] == (
                #[trigger] contract.allowed_operations@[i])@
        },
{
}

/// A binding for a document type carries its schema and version, and no contract until
/// one is given to it.
pub proof fn bindings_are_made_of_what_is_given(
    document_type: &str,
    schema_id: &str,
    version: Option<String>,
    contract: CultNetDocumentMutationContract,
    plain: CultNetDocumentBinding,
    named: CultNetDocumentBinding,
    contracted: CultNetDocumentBinding,
)
    requires
        call_ensures(CultNetDocumentBinding::for_entry, (document_type, version), plain),
        call_ensures(
            CultNetDocumentBinding::for_entry_with_schema_id,
            (document_type, schema_id, version),
            named,
        ),
        call_ensures(CultNetDocumentBinding::with_mutation_contract, (named, contract), contracted),
    ensures
        plain.schema_id@ == document_type@,
        plain.document_type@ == document_type@,
        plain.mutation_contract is None,
        named.schema_id@ == schema_id@,
        named.document_type@ == document_type@,
        named.mutation_contract is None,
        version is None ==> plain.payload_schema_version is None && named.payload_schema_version is None,
        version matches Some(text) ==> {
            &&& plain.payload_schema_version matches Some(kept) && kept@ == text@
            &&& named.payload_schema_version matches Some(kept) && kept@ == text@
        },
        contracted.schema_id@ == schema_id@,
        contracted.document_type@ == document_type@,
        contracted.mutation_contract matches Some(kept) && kept.schema_id@ == contract.schema_id@
            && kept.contract_id@ == contract.contract_id@,
{
    assert(plain@.document_type == document_type@);
    assert(named@.document_type == document_type@);
    assert(contracted@.document_type == document_type@);
}

/// A registered document type and a registered schema find their binding, and what is not
/// registered finds nothing.
pub proof fn registered_bindings_are_found(
    registry: &CultNetDocumentRegistry,
    name: &str,
    by_type: Option<&CultNetDocumentBinding>,
    by_schema: Option<&CultNetDocumentBinding>,
)
    requires
        call_ensures(CultNetDocumentRegistry::binding, (registry, name), by_type),
        call_ensures(CultNetDocumentRegistry::binding_by_schema_id, (registry, name), by_schema),
    ensures
        by_type is None <==> none_under(registry.by_type(), name@),
        by_type matches Some(found) ==> first_under(registry.by_type(), name@, found@) && found.document_type@
            == name@,
        by_schema is None <==> none_under(registry.by_schema_id(), name@),
        by_schema matches Some(found) ==> first_under(registry.by_schema_id(), name@, found@) && found.schema_id@
            == name@,
{
    a_lookup_finds_the_first_under_the_key(registry.by_type(), name@);
    a_lookup_finds_the_first_under_the_key(registry.by_schema_id(), name@);
}

/// The document type travels under the schema.
pub open spec fn travels_under(
    bindings: Seq<(Seq<char>, Binding)>,
    document_type: Seq<char>,
    schema_id: Seq<char>,
) -> bool {
    exists|binding: Binding| #[trigger] first_under(bindings, document_type, binding) && binding.schema_id == schema_id
}

/// A type travels under a schema exactly if its binding names it.
pub proof fn a_bound_type_travels(bindings: Seq<(Seq<char>, Binding)>, document_type: Seq<char>)
    ensures
        member_of(bindings, document_type) is None <==> none_under(bindings, document_type),
        forall|schema_id: Seq<char>| #[trigger]
            travels_under(bindings, document_type, schema_id) <==> (member_of(bindings, document_type) matches Some(
                binding,
            ) && binding.schema_id == schema_id),
{
    a_lookup_finds_the_first_under_the_key(bindings, document_type);
    assert forall|schema_id: Seq<char>| #[trigger]
        travels_under(bindings, document_type, schema_id) <==> (member_of(bindings, document_type) matches Some(
            binding,
        ) && binding.schema_id == schema_id) by {
        if travels_under(bindings, document_type, schema_id) {
            let binding = choose|binding: Binding| #[trigger]
                first_under(bindings, document_type, binding) && binding.schema_id == schema_id;
            assert(member_of(bindings, document_type) == Some(binding));
        }
        if let Some(binding) = member_of(bindings, document_type) {
            assert(first_under(bindings, document_type, binding));
        }
    }
}

/// The mutation contracts are those of the bindings that have one, in their order.
pub proof fn contracts_are_those_of_the_bindings(bindings: Seq<(Seq<char>, Binding)>, end: nat)
    requires
        end <= bindings.len(),
    ensures
        contracts_among(bindings, end) == bindings.take(end as int).filter(
            |member: (Seq<char>, Binding)| member.1.mutation_contract is Some,
        ).map_values(|member: (Seq<char>, Binding)| member.1.mutation_contract->0),
    decreases end,
{
    reveal(Seq::filter);
    let has = |member: (Seq<char>, Binding)| member.1.mutation_contract is Some;
    let of = |member: (Seq<char>, Binding)| member.1.mutation_contract->0;
    let taken = bindings.take(end as int);
    if end > 0 {
        contracts_are_those_of_the_bindings(bindings, (end - 1) as nat);
        assert(taken.drop_last() =~= bindings.take(end - 1));
        assert(taken.last() == bindings[end - 1]);
        let shorter = taken.drop_last().filter(has);
        assert(shorter.push(taken.last()).map_values(of) =~= shorter.map_values(of).push(of(taken.last())));
    }
    assert(contracts_among(bindings, end) =~= taken.filter(has).map_values(of));
}

/// The listed contracts are those of the registered bindings that have one, in the order of
/// the document types.
pub proof fn every_contract_is_listed(registry: &CultNetDocumentRegistry, list: Vec<CultNetDocumentMutationContract>)
    requires
        call_ensures(CultNetDocumentRegistry::mutation_contracts, (registry,), list),
    ensures
        ({
            let contracted = registry.by_type().filter(
                |member: (Seq<char>, Binding)| member.1.mutation_contract is Some,
            );
            &&& list@.len() == contracted.len()
            &&& forall|i: int|
                0 <= i < list@.len() ==> (#[trigger] list@[i])@ == contracted[i].1.mutation_contract->0
        }),
{
    let bindings = registry.by_type();
    contracts_are_those_of_the_bindings(bindings, bindings.len());
    assert(bindings.take(bindings.len() as int) =~= bindings);
    let image = |contract: CultNetDocumentMutationContract| contract@;
    let views = list@.map_values(image);
    assert(views.len() == list@.len());
    assert forall|i: int| 0 <= i < list@.len() implies (#[trigger] list@[i])@ == contracts_among(
        bindings,
        bindings.len(),
    )[i] by {
        assert(views[i] == list@[i]@);
    }
}

// ---------------------------------------------------------------------------
// Choosing documents
// ---------------------------------------------------------------------------

/// The positions come strictly one after the other.
pub open spec fn ascending_positions(positions: Seq<int>) -> bool {
    forall|a: int, b: int| 0 <= a < b < positions.len() ==> #[trigger] positions[a] < #[trigger] positions[b]
}

/// The chosen positions are exactly those of the documents with the schema, each once and
/// in their order.
pub proof fn the_positions_with_the_schema_are_exact(
    documents: Seq<CultNetDocumentRecord<JsonValue>>,
    schema_id: Seq<char>,
    end: nat,
)
    requires
        end <= documents.len(),
    ensures
        forall|i: int| #[trigger]
            with_schema(documents, schema_id, end).contains(i) <==> 0 <= i < end && documents[i].schema_id@ == schema_id,
        ascending_positions(with_schema(documents, schema_id, end)),
        with_schema(documents, schema_id, end).map_values(|i: int| documents[i]) == documents.take(end as int).filter(
            |document: CultNetDocumentRecord<JsonValue>| document.schema_id@ == schema_id,
        ),
    decreases end,
{
    reveal(Seq::filter);
    let whole = with_schema(documents, schema_id, end);
    let has = |document: CultNetDocumentRecord<JsonValue>| document.schema_id@ == schema_id;
    let at = |i: int| documents[i];
    let taken = documents.take(end as int);
    if end > 0 {
        the_positions_with_the_schema_are_exact(documents, schema_id, (end - 1) as nat);
        let earlier = with_schema(documents, schema_id, (end - 1) as nat);
        assert(taken.drop_last() =~= documents.take(end - 1));
        assert(taken.last() == documents[end - 1]);
        assert(earlier.push(end - 1).map_values(at) =~= earlier.map_values(at).push(documents[end - 1]));
        assert forall|a: int| 0 <= a < earlier.len() implies 0 <= #[trigger] earlier[a] < end - 1 by {
            assert(earlier.contains(earlier[a]));
        }
        assert forall|i: int| #[trigger] whole.contains(i) <==> 0 <= i < end && documents[i].schema_id@ == schema_id by {
            if earlier.contains(i) {
                let a = choose|a: int| 0 <= a < earlier.len() && earlier[a] == i;
                assert(whole[a] == i);
            }
            if documents[end - 1].schema_id@ == schema_id {
                assert(whole[whole.len() - 1] == end - 1);
            }
            if whole.contains(i) {
                let a = choose|a: int| 0 <= a < whole.len() && whole[a] == i;
                if a < earlier.len() {
                    assert(earlier[a] == i);
                    assert(earlier.contains(i));
                }
            }
        }
    } else {
        assert(whole.len() == 0);
        assert(whole.map_values(at) =~= taken.filter(has));
    }
}

/// The chosen positions are exactly those of the raw documents with the schema, each once
/// and in their order.
pub proof fn the_raw_positions_with_the_schema_are_exact(
    documents: Seq<CultNetRawDocumentRecord>,
    schema_id: Seq<char>,
    end: nat,
)
    requires
        end <= documents.len(),
    ensures
        forall|i: int| #[trigger]
            raw_with_schema(documents, schema_id, end).contains(i) <==> 0 <= i < end && documents[i].schema_id@
                == schema_id,
        ascending_positions(raw_with_schema(documents, schema_id, end)),
        raw_with_schema(documents, schema_id, end).map_values(|i: int| documents[i]) == documents.take(
            end as int,
        ).filter(|document: CultNetRawDocumentRecord| document.schema_id@ == schema_id),
    decreases end,
{
    reveal(Seq::filter);
    let whole = raw_with_schema(documents, schema_id, end);
    let has = |document: CultNetRawDocumentRecord| document.schema_id@ == schema_id;
    let at = |i: int| documents[i];
    let taken = documents.take(end as int);
    if end > 0 {
        the_raw_positions_with_the_schema_are_exact(documents, schema_id, (end - 1) as nat);
        let earlier = raw_with_schema(documents, schema_id, (end - 1) as nat);
        assert(taken.drop_last() =~= documents.take(end - 1));
        assert(taken.last() == documents[end - 1]);
        assert(earlier.push(end - 1).map_values(at) =~= earlier.map_values(at).push(documents[end - 1]));
        assert forall|a: int| 0 <= a < earlier.len() implies 0 <= #[trigger] earlier[a] < end - 1 by {
            assert(earlier.contains(earlier[a]));
        }
        assert forall|i: int| #[trigger] whole.contains(i) <==> 0 <= i < end && documents[i].schema_id@ == schema_id by {
            if earlier.contains(i) {
                let a = choose|a: int| 0 <= a < earlier.len() && earlier[a] == i;
                assert(whole[a] == i);
            }
            if documents[end - 1].schema_id@ == schema_id {
                assert(whole[whole.len() - 1] == end - 1);
            }
            if whole.contains(i) {
                let a = choose|a: int| 0 <= a < whole.len() && whole[a] == i;
                if a < earlier.len() {
                    assert(earlier[a] == i);
                    assert(earlier.contains(i));
                }
            }
        }
    } else {
        assert(whole.len() == 0);
        assert(whole.map_values(at) =~= taken.filter(has));
    }
}

// ---------------------------------------------------------------------------
// Applying
// ---------------------------------------------------------------------------

/// A snapshot asks a cache to store exactly the documents with the schema that the document
/// type travels under, in their order, each under its key and with its payload.
pub proof fn a_snapshot_is_applied_whole(
    registry: &CultNetDocumentRegistry,
    document_type: &str,
    response: &CultNetMessage,
    schema_id: Seq<char>,
    outcome: Result<Vec<CultNetDocumentWrite>, CultNetError>,
)
    requires
        call_ensures(CultNetDocumentRegistry::apply_snapshot_response, (registry, document_type, response), outcome),
        *response is SnapshotResponse,
        travels_under(registry.by_type(), document_type@, schema_id),
    ensures
        outcome matches Ok(writes) && {
            let documents = response->SnapshotResponse_documents@;
            let wanted = documents.filter(
                |document: CultNetDocumentRecord<JsonValue>| document.schema_id@ == schema_id,
            );
            &&& writes@.len() == wanted.len()
            &&& forall|i: int|
                0 <= i < writes@.len() ==> (#[trigger] writes@[i]).record_key@ == wanted[i].record_key@
                    && writes@[i].payload@ == wanted[i].payload@
            &&& forall|k: int|
                0 <= k < documents.len() && documents[k].schema_id@ == schema_id ==> exists|i: int|
                    {
                        &&& 0 <= i < writes@.len()
                        &&& (#[trigger] writes@[i]).record_key@ == (#[trigger] documents[k]).record_key@
                        &&& writes@[i].payload@ == documents[k].payload@
                    }
        },
{
    a_bound_type_travels(registry.by_type(), document_type@);
    let documents = response->SnapshotResponse_documents@;
    let chosen = with_schema(documents, schema_id, documents.len());
    let at = |i: int| documents[i];
    the_positions_with_the_schema_are_exact(documents, schema_id, documents.len());
    assert(documents.take(documents.len() as int) =~= documents);
    let writes = outcome->Ok_0;
    assert forall|i: int| 0 <= i < chosen.len() implies documents[#[trigger] chosen[i]] == chosen.map_values(at)[i] by {}
    assert forall|k: int| 0 <= k < documents.len() && documents[k].schema_id@ == schema_id implies exists|i: int|
        {
            &&& 0 <= i < writes@.len()
            &&& (#[trigger] writes@[i]).record_key@ == (#[trigger] documents[k]).record_key@
            &&& writes@[i].payload@ == documents[k].payload@
        } by {
        assert(chosen.contains(k));
        let i = choose|i: int| 0 <= i < chosen.len() && chosen[i] == k;
        assert(writes@[i].record_key@ == documents[k].record_key@);
    }
}

/// A raw snapshot asks a cache to store exactly the documents with the schema that the
/// document type travels under, in their order, each as it is.
pub proof fn a_raw_snapshot_is_applied_whole(
    registry: &CultNetDocumentRegistry,
    document_type: &str,
    response: &CultNetMessage,
    binding: Binding,
    outcome: Result<Vec<CultCacheEnvelope>, CultNetError>,
)
    requires
        call_ensures(
            CultNetDocumentRegistry::apply_raw_snapshot_response,
            (registry, document_type, response),
            outcome,
        ),
        *response is SnapshotResponseRaw,
        first_under(registry.by_type(), document_type@, binding),
    ensures
        outcome matches Ok(stored) && {
            let documents = response->SnapshotResponseRaw_documents@;
            let wanted = documents.filter(
                |document: CultNetRawDocumentRecord| document.schema_id@ == binding.schema_id,
            );
            &&& stored@.len() == wanted.len()
            &&& forall|i: int|
                0 <= i < stored@.len() ==> {
                    &&& (#[trigger] stored@[i]).key@ == wanted[i].record_key@
                    &&& stored@[i].entry_type@ == binding.document_type
                    &&& stored@[i].payload@ == wanted[i].payload@
                    &&& stored@[i].stored_at@ == wanted[i].stored_at@
                    &&& stored@[i].schema_id is None
                }
        },
{
    a_lookup_finds_the_first_under_the_key(registry.by_type(), document_type@);
    assert(member_of(registry.by_type(), document_type@) == Some(binding));
    let documents = response->SnapshotResponseRaw_documents@;
    let schema_id = binding.schema_id;
    let chosen = raw_with_schema(documents, schema_id, documents.len());
    let at = |i: int| documents[i];
    the_raw_positions_with_the_schema_are_exact(documents, schema_id, documents.len());
    assert(documents.take(documents.len() as int) =~= documents);
    assert forall|i: int| 0 <= i < chosen.len() implies documents[#[trigger] chosen[i]] == chosen.map_values(at)[i] by {}
    let stored = outcome->Ok_0;
    assert forall|i: int| 0 <= i < stored@.len() implies {
        &&& (#[trigger] stored@[i]).key@ == documents[chosen[i]].record_key@
        &&& stored@[i].entry_type@ == binding.document_type
        &&& stored@[i].payload@ == documents[chosen[i]].payload@
        &&& stored@[i].stored_at@ == documents[chosen[i]].stored_at@
        &&& stored@[i].schema_id is None
    } by {
        assert(stored@[i]@.key == stored@[i].key@);
        assert(stored@[i]@.schema_id is None);
    }
}

/// A snapshot is refused exactly if it is none or if the document type is not bound.
pub proof fn a_snapshot_is_refused_for_these_reasons(
    registry: &CultNetDocumentRegistry,
    document_type: &str,
    response: &CultNetMessage,
    plain: Result<Vec<CultNetDocumentWrite>, CultNetError>,
    raw: Result<Vec<CultCacheEnvelope>, CultNetError>,
)
    requires
        call_ensures(CultNetDocumentRegistry::apply_snapshot_response, (registry, document_type, response), plain),
        call_ensures(CultNetDocumentRegistry::apply_raw_snapshot_response, (registry, document_type, response), raw),
    ensures
        !(*response is SnapshotResponse) ==> says(plain, "expected cultnet.snapshot_response.v0"@),
        !(*response is SnapshotResponseRaw) ==> says(raw, "expected cultnet.snapshot_response_raw.v0"@),
        *response is SnapshotResponse && none_under(registry.by_type(), document_type@) ==> says(
            plain,
            "No CultNet document binding is registered for "@ + debug_text(document_type@),
        ),
        *response is SnapshotResponseRaw && none_under(registry.by_type(), document_type@) ==> says(
            raw,
            "No CultNet document binding is registered for "@ + debug_text(document_type@),
        ),
        plain is Ok <==> *response is SnapshotResponse && !none_under(registry.by_type(), document_type@),
        raw is Ok <==> *response is SnapshotResponseRaw && !none_under(registry.by_type(), document_type@),
{
    a_lookup_finds_the_first_under_the_key(registry.by_type(), document_type@);
}

/// What is said of a document with a schema that the document type does not travel under.
pub open spec fn other_schema_words(schema_id: Seq<char>, document_type: Seq<char>, bound: Seq<char>) -> Seq<char> {
    "schema id "@ + debug_text(schema_id) + " does not match registered Rust type "@ + debug_text(document_type)
        + " schema "@ + debug_text(bound)
}

/// A single document is stored or dropped exactly if it has the schema that the document
/// type travels under: what is stored is its payload under its key, and what is dropped is
/// its key.
pub proof fn a_single_document_is_applied_if_its_schema_is_bound(
    registry: &CultNetDocumentRegistry,
    document_type: &str,
    message: &CultNetMessage,
    put: Result<CultNetDocumentWrite, CultNetError>,
    raw: Result<CultCacheEnvelope, CultNetError>,
    delete: Result<String, CultNetError>,
)
    requires
        call_ensures(CultNetDocumentRegistry::apply_document_put_message, (registry, document_type, message), put),
        call_ensures(
            CultNetDocumentRegistry::apply_raw_document_put_message,
            (registry, document_type, message),
            raw,
        ),
        call_ensures(
            CultNetDocumentRegistry::apply_document_delete_message,
            (registry, document_type, message),
            delete,
        ),
    ensures
        match *message {
            CultNetMessage::DocumentPut { message_id, document } => {
                &&& put is Ok <==> travels_under(registry.by_type(), document_type@, document.schema_id@)
                &&& put matches Ok(write) ==> write.record_key@ == document.record_key@ && write.payload@
                    == document.payload@
            },
            _ => says(put, "expected cultnet.document_put.v0"@),
        },
        match *message {
            CultNetMessage::DocumentPutRaw { message_id, document } => {
                &&& raw is Ok <==> travels_under(registry.by_type(), document_type@, document.schema_id@)
                &&& raw matches Ok(stored) ==> {
                    &&& stored.key@ == document.record_key@
                    &&& stored.payload@ == document.payload@
                    &&& stored.stored_at@ == document.stored_at@
                    &&& stored.schema_id is None
                    &&& forall|binding: Binding| #[trigger]
                        first_under(registry.by_type(), document_type@, binding) ==> stored.entry_type@
                            == binding.document_type
                }
            },
            _ => says(raw, "expected cultnet.document_put_raw.v0"@),
        },
        match *message {
            CultNetMessage::DocumentDelete { message_id, schema_id, record_key } => {
                &&& delete is Ok <==> travels_under(registry.by_type(), document_type@, schema_id@)
                &&& delete matches Ok(key) ==> key@ == record_key@
            },
            _ => says(delete, "expected cultnet.document_delete.v0"@),
        },
        none_under(registry.by_type(), document_type@) ==> {
            &&& *message is DocumentPut ==> says(
                put,
                "No CultNet document binding is registered for "@ + debug_text(document_type@),
            )
            &&& *message is DocumentPutRaw ==> says(
                raw,
                "No CultNet document binding is registered for "@ + debug_text(document_type@),
            )
            &&& *message is DocumentDelete ==> says(
                delete,
                "No CultNet document binding is registered for "@ + debug_text(document_type@),
            )
        },
        forall|bound: Seq<char>| #[trigger]
            travels_under(registry.by_type(), document_type@, bound) ==> {
                &&& *message matches CultNetMessage::DocumentPut { message_id, document } ==> (document.schema_id@
                    != bound ==> says(put, other_schema_words(document.schema_id@, document_type@, bound)))
                &&& *message matches CultNetMessage::DocumentPutRaw { message_id, document } ==> (document.schema_id@
                    != bound ==> says(raw, other_schema_words(document.schema_id@, document_type@, bound)))
                &&& *message matches CultNetMessage::DocumentDelete { message_id, schema_id, record_key } ==> (
                schema_id@ != bound ==> says(delete, other_schema_words(schema_id@, document_type@, bound)))
            },
{
    a_bound_type_travels(registry.by_type(), document_type@);
    a_lookup_finds_the_first_under_the_key(registry.by_type(), document_type@);
    if let Ok(stored) = raw {
        assert(stored@.key == stored.key@);
        assert(stored@.entry_type == stored.entry_type@);
        assert(stored@.schema_id is None);
    }
}

// ---------------------------------------------------------------------------
// Creating
// ---------------------------------------------------------------------------

/// The list is not there, or the text is in it.
pub open spec fn wanted(list: Option<&Vec<String>>, text: Seq<char>) -> bool {
    list matches Some(texts) ==> exists|k: int| 0 <= k < texts@.len() && (#[trigger] texts@[k])@ == text
}

proof fn wanted_is_requested(list: Option<&Vec<String>>, text: Seq<char>)
    ensures
        requested(borrowed_texts(list), text) == wanted(list, text),
{
    if let Some(texts) = list {
        let all = views(texts@);
        if all.contains(text) {
            let k = choose|k: int| 0 <= k < all.len() && all[k] == text;
            assert(texts@[k]@ == text);
        }
        if exists|k: int| 0 <= k < texts@.len() && (#[trigger] texts@[k])@ == text {
            let k = choose|k: int| 0 <= k < texts@.len() && (#[trigger] texts@[k])@ == text;
            assert(all[k] == text);
        }
    }
}

/// The envelope's type travels under a schema that is asked for, and its key is asked for.
pub open spec fn envelope_wanted(
    registry: CultNetDocumentRegistry,
    schema_ids: Option<&Vec<String>>,
    record_keys: Option<&Vec<String>>,
    envelope: CultCacheEnvelope,
) -> bool {
    &&& wanted(record_keys, envelope.key@)
    &&& exists|schema: Seq<char>| #[trigger]
        travels_under(registry.by_type(), envelope.entry_type@, schema) && wanted(schema_ids, schema)
}

proof fn a_wanted_envelope_is_selected(
    registry: CultNetDocumentRegistry,
    schema_ids: Option<&Vec<String>>,
    record_keys: Option<&Vec<String>>,
    envelope: CultCacheEnvelope,
)
    ensures
        registry.selects(envelope@, borrowed_texts(schema_ids), borrowed_texts(record_keys)) == envelope_wanted(
            registry,
            schema_ids,
            record_keys,
            envelope,
        ),
{
    a_bound_type_travels(registry.by_type(), envelope.entry_type@);
    wanted_is_requested(record_keys, envelope.key@);
    if let Some(binding) = member_of(registry.by_type(), envelope.entry_type@) {
        wanted_is_requested(schema_ids, binding.schema_id);
        assert(travels_under(registry.by_type(), envelope.entry_type@, binding.schema_id));
    }
}

/// The selected positions are those of the envelopes that are asked for, in their order.
pub proof fn the_selection_is_the_wanted(
    registry: CultNetDocumentRegistry,
    snapshot: Seq<CultCacheEnvelope>,
    schema_ids: Option<&Vec<String>>,
    record_keys: Option<&Vec<String>>,
    end: nat,
)
    requires
        end <= snapshot.len(),
    ensures
        ({
            let chosen = registry.selection(
                envelopes(snapshot),
                borrowed_texts(schema_ids),
                borrowed_texts(record_keys),
                end,
            );
            &&& chosen.map_values(|i: int| snapshot[i]) == snapshot.take(end as int).filter(
                |envelope: CultCacheEnvelope| envelope_wanted(registry, schema_ids, record_keys, envelope),
            )
            &&& forall|a: int| 0 <= a < chosen.len() ==> 0 <= #[trigger] chosen[a] < end
        }),
    decreases end,
{
    reveal(Seq::filter);
    let all = envelopes(snapshot);
    let (ids, keys) = (borrowed_texts(schema_ids), borrowed_texts(record_keys));
    let pred = |envelope: CultCacheEnvelope| envelope_wanted(registry, schema_ids, record_keys, envelope);
    let at = |i: int| snapshot[i];
    let taken = snapshot.take(end as int);
    if end > 0 {
        the_selection_is_the_wanted(registry, snapshot, schema_ids, record_keys, (end - 1) as nat);
        let earlier = registry.selection(all, ids, keys, (end - 1) as nat);
        assert(taken.drop_last() =~= snapshot.take(end - 1));
        assert(taken.last() == snapshot[end - 1]);
        assert(all[end - 1] == snapshot[end - 1]@);
        a_wanted_envelope_is_selected(registry, schema_ids, record_keys, snapshot[end - 1]);
        assert(earlier.push(end - 1).map_values(at) =~= earlier.map_values(at).push(snapshot[end - 1]));
    } else {
        assert(registry.selection(all, ids, keys, end).map_values(at) =~= taken.filter(pred));
    }
}

/// A raw snapshot holds exactly the envelopes that are asked for, in their order: each under
/// the schema that its type travels under, with its key, time and payload as they are.
pub proof fn a_raw_snapshot_holds_exactly_what_is_asked_for(
    registry: &CultNetDocumentRegistry,
    snapshot: &Vec<CultCacheEnvelope>,
    message_id: &str,
    schema_ids: Option<&Vec<String>>,
    record_keys: Option<&Vec<String>>,
    outcome: Result<CultNetMessage, CultNetError>,
)
    requires
        call_ensures(
            CultNetDocumentRegistry::create_raw_snapshot_response,
            (registry, snapshot, message_id, schema_ids, record_keys),
            outcome,
        ),
        outcome is Ok,
    ensures
        outcome->Ok_0 matches CultNetMessage::SnapshotResponseRaw { message_id: id, documents } && {
            let chosen = snapshot@.filter(
                |envelope: CultCacheEnvelope| envelope_wanted(*registry, schema_ids, record_keys, envelope),
            );
            &&& id@ == message_id@
            &&& documents@.len() == chosen.len()
            &&& forall|i: int|
                0 <= i < documents@.len() ==> {
                    &&& travels_under(
                        registry.by_type(),
                        chosen[i].entry_type@,
                        (#[trigger] documents@[i]).schema_id@,
                    )
                    &&& documents@[i].record_key@ == chosen[i].key@
                    &&& documents@[i].stored_at@ == chosen[i].stored_at@
                    &&& documents@[i].payload@ == chosen[i].payload@
                    &&& documents@[i].payload_encoding == CultNetRawPayloadEncoding::Messagepack
                    &&& documents@[i].source_runtime_id is None
                    &&& documents@[i].source_agent_id is None
                    &&& documents@[i].source_role is None
                    &&& documents@[i].tags is None
                }
        },
{
    let pred = |envelope: CultCacheEnvelope| envelope_wanted(*registry, schema_ids, record_keys, envelope);
    let at = |i: int| snapshot@[i];
    let positions = registry.selection(
        envelopes(snapshot@),
        borrowed_texts(schema_ids),
        borrowed_texts(record_keys),
        snapshot@.len(),
    );
    let chosen = snapshot@.filter(pred);
    the_selection_is_the_wanted(*registry, snapshot@, schema_ids, record_keys, snapshot@.len());
    assert(snapshot@.take(snapshot@.len() as int) =~= snapshot@);
    let documents = outcome->Ok_0->SnapshotResponseRaw_documents;
    assert(positions.map_values(at).len() == positions.len());
    assert forall|i: int| 0 <= i < documents@.len() implies registry.is_raw_document_of(
        #[trigger] documents@[i],
        chosen[i]@,
    ) && travels_under(registry.by_type(), chosen[i].entry_type@, documents@[i].schema_id@) by {
        assert(positions.map_values(at)[i] == snapshot@[positions[i]]);
        assert(envelopes(snapshot@)[positions[i]] == snapshot@[positions[i]]@);
        a_bound_type_travels(registry.by_type(), chosen[i].entry_type@);
    }
}

/// A snapshot holds exactly the envelopes that are asked for, in their order: each under the
/// schema that its type travels under, with its key, its time and its payload decoded.
pub proof fn a_snapshot_holds_exactly_what_is_asked_for(
    registry: &CultNetDocumentRegistry,
    snapshot: &Vec<CultCacheEnvelope>,
    message_id: &str,
    schema_ids: Option<&Vec<String>>,
    record_keys: Option<&Vec<String>>,
    outcome: Result<CultNetMessage, CultNetError>,
)
    requires
        call_ensures(
            CultNetDocumentRegistry::create_snapshot_response,
            (registry, snapshot, message_id, schema_ids, record_keys),
            outcome,
        ),
        outcome is Ok,
    ensures
        outcome->Ok_0 matches CultNetMessage::SnapshotResponse { message_id: id, documents } && {
            let chosen = snapshot@.filter(
                |envelope: CultCacheEnvelope| envelope_wanted(*registry, schema_ids, record_keys, envelope),
            );
            &&& id@ == message_id@
            &&& documents@.len() == chosen.len()
            &&& forall|i: int|
                0 <= i < documents@.len() ==> {
                    &&& travels_under(
                        registry.by_type(),
                        chosen[i].entry_type@,
                        (#[trigger] documents@[i]).schema_id@,
                    )
                    &&& documents@[i].record_key@ == chosen[i].key@
                    &&& documents@[i].stored_at@ == chosen[i].stored_at@
                    &&& json_from_messagepack(chosen[i].payload@) == Some(documents@[i].payload@)
                    &&& documents@[i].source_runtime_id is None
                    &&& documents@[i].source_agent_id is None
                    &&& documents@[i].source_role is None
                    &&& documents@[i].tags is None
                }
        },
{
    let pred = |envelope: CultCacheEnvelope| envelope_wanted(*registry, schema_ids, record_keys, envelope);
    let at = |i: int| snapshot@[i];
    let positions = registry.selection(
        envelopes(snapshot@),
        borrowed_texts(schema_ids),
        borrowed_texts(record_keys),
        snapshot@.len(),
    );
    let chosen = snapshot@.filter(pred);
    the_selection_is_the_wanted(*registry, snapshot@, schema_ids, record_keys, snapshot@.len());
    assert(snapshot@.take(snapshot@.len() as int) =~= snapshot@);
    let documents = outcome->Ok_0->SnapshotResponse_documents;
    assert(positions.map_values(at).len() == positions.len());
    assert forall|i: int| 0 <= i < documents@.len() implies registry.is_document_of(#[trigger] documents@[i], chosen[i]@)
        && travels_under(registry.by_type(), chosen[i].entry_type@, documents@[i].schema_id@) by {
        assert(positions.map_values(at)[i] == snapshot@[positions[i]]);
        assert(envelopes(snapshot@)[positions[i]] == snapshot@[positions[i]]@);
        a_bound_type_travels(registry.by_type(), chosen[i].entry_type@);
    }
}

/// A snapshot is made exactly if every envelope's type is bound and, where payloads are
/// decoded, those that are asked for can be.
pub proof fn a_snapshot_is_made_exactly_if_it_can_be(
    registry: &CultNetDocumentRegistry,
    snapshot: &Vec<CultCacheEnvelope>,
    message_id: &str,
    schema_ids: Option<&Vec<String>>,
    record_keys: Option<&Vec<String>>,
    plain: Result<CultNetMessage, CultNetError>,
    raw: Result<CultNetMessage, CultNetError>,
)
    requires
        call_ensures(
            CultNetDocumentRegistry::create_snapshot_response,
            (registry, snapshot, message_id, schema_ids, record_keys),
            plain,
        ),
        call_ensures(
            CultNetDocumentRegistry::create_raw_snapshot_response,
            (registry, snapshot, message_id, schema_ids, record_keys),
            raw,
        ),
    ensures
        raw is Ok <==> forall|i: int|
            0 <= i < snapshot@.len() ==> !none_under(registry.by_type(), (#[trigger] snapshot@[i]).entry_type@),
        plain is Ok <==> forall|i: int|
            0 <= i < snapshot@.len() ==> !none_under(registry.by_type(), (#[trigger] snapshot@[i]).entry_type@) && (
            envelope_wanted(*registry, schema_ids, record_keys, snapshot@[i]) ==> json_from_messagepack(
                snapshot@[i].payload@,
            ) is Some),
{
    snapshots_stop_at(*registry, snapshot@, schema_ids, record_keys, true);
    snapshots_stop_at(*registry, snapshot@, schema_ids, record_keys, false);
}

proof fn snapshots_stop_at(
    registry: CultNetDocumentRegistry,
    snapshot: Seq<CultCacheEnvelope>,
    schema_ids: Option<&Vec<String>>,
    record_keys: Option<&Vec<String>>,
    decoded: bool,
)
    ensures
        registry.snapshot_violation(
            envelopes(snapshot),
            borrowed_texts(schema_ids),
            borrowed_texts(record_keys),
            decoded,
        ) is None <==> forall|i: int|
            0 <= i < snapshot.len() ==> !none_under(registry.by_type(), (#[trigger] snapshot[i]).entry_type@) && (decoded
                && envelope_wanted(registry, schema_ids, record_keys, snapshot[i]) ==> json_from_messagepack(
                snapshot[i].payload@,
            ) is Some),
{
    let all = envelopes(snapshot);
    let (ids, keys) = (borrowed_texts(schema_ids), borrowed_texts(record_keys));
    let reasons = |i: int| registry.snapshot_violation_at(all, ids, keys, decoded, i);
    super::snapshots::no_reason_among_none(reasons, snapshot.len());
    assert forall|i: int| 0 <= i < snapshot.len() implies (reasons(i) is None <==> !none_under(
        registry.by_type(),
        (#[trigger] snapshot[i]).entry_type@,
    ) && (decoded && envelope_wanted(registry, schema_ids, record_keys, snapshot[i]) ==> json_from_messagepack(
        snapshot[i].payload@,
    ) is Some)) by {
        assert(all[i] == snapshot[i]@);
        a_lookup_finds_the_first_under_the_key(registry.by_type(), snapshot[i].entry_type@);
        a_wanted_envelope_is_selected(registry, schema_ids, record_keys, snapshot[i]);
    }
    if forall|i: int|
        0 <= i < snapshot.len() ==> !none_under(registry.by_type(), (#[trigger] snapshot[i]).entry_type@) && (decoded
            && envelope_wanted(registry, schema_ids, record_keys, snapshot[i]) ==> json_from_messagepack(
            snapshot[i].payload@,
        ) is Some) {
        assert forall|i: int| 0 <= i < snapshot.len() implies (#[trigger] reasons(i)) is None by {
            assert(!none_under(registry.by_type(), snapshot[i].entry_type@));
        }
    }
    if first_among(reasons, snapshot.len()) is None {
        assert forall|i: int| 0 <= i < snapshot.len() implies !none_under(
            registry.by_type(),
            (#[trigger] snapshot[i]).entry_type@,
        ) && (decoded && envelope_wanted(registry, schema_ids, record_keys, snapshot[i]) ==> json_from_messagepack(
            snapshot[i].payload@,
        ) is Some) by {
            assert(reasons(i) is None);
        }
    }
}

/// A put message names the document, under the schema that its type travels under, with what
/// the options say; a delete message names the schema and the key; both carry their id.
pub proof fn single_messages_say_what_is_given(
    registry: &CultNetDocumentRegistry,
    document_type: &str,
    message_id: &str,
    record_key: &str,
    schema_id: &str,
    payload: JsonValue,
    options: CultNetDocumentPutOptions,
    put: Result<CultNetMessage, CultNetError>,
    delete: CultNetMessage,
)
    requires
        call_ensures(
            CultNetDocumentRegistry::create_document_put_message,
            (registry, document_type, message_id, record_key, payload, options),
            put,
        ),
        call_ensures(
            CultNetDocumentRegistry::create_document_delete_message,
            (registry, message_id, schema_id, record_key),
            delete,
        ),
    ensures
        put is Ok <==> !none_under(registry.by_type(), document_type@),
        put is Err ==> says(put, "No CultNet document binding is registered for "@ + debug_text(document_type@)),
        put matches Ok(message) ==> (message matches CultNetMessage::DocumentPut { message_id: id, document } && {
            &&& id@ == message_id@
            &&& travels_under(registry.by_type(), document_type@, document.schema_id@)
            &&& document.record_key@ == record_key@
            &&& options.stored_at matches Some(time) ==> document.stored_at@ == time@
            &&& document.payload@ == payload@
            &&& super::words::same_if_there(document.source_runtime_id, options.source_runtime_id)
            &&& super::words::same_if_there(document.source_agent_id, options.source_agent_id)
            &&& super::words::same_if_there(document.source_role, options.source_role)
            &&& super::snapshots::same_lists(document.tags, options.tags)
        }),
        delete matches CultNetMessage::DocumentDelete { message_id: id, schema_id: schema, record_key: key } && id@
            == message_id@ && schema@ == schema_id@ && key@ == record_key@,
{
    a_bound_type_travels(registry.by_type(), document_type@);
    if let Ok(CultNetMessage::DocumentPut { message_id: id, document }) = put {
        if document.tags is Some && options.tags is Some {
            let (a, b) = (views(document.tags->0@), views(options.tags->0@));
            assert(a.len() == b.len());
            assert forall|i: int| 0 <= i < document.tags->0@.len() implies (#[trigger] document.tags->0@[i])@
                == options.tags->0@[i]@ by {
                assert(a[i] == b[i]);
            }
        }
    }
}

/// A raw put message carries the envelope as it is, under the schema that its type travels
/// under.
pub proof fn a_raw_put_message_carries_the_envelope(
    registry: &CultNetDocumentRegistry,
    message_id: &str,
    envelope: &CultCacheEnvelope,
    outcome: Result<CultNetMessage, CultNetError>,
)
    requires
        call_ensures(
            CultNetDocumentRegistry::create_raw_document_put_message_from_envelope,
            (registry, message_id, envelope),
            outcome,
        ),
    ensures
        outcome is Ok <==> !none_under(registry.by_type(), envelope.entry_type@),
        outcome is Err ==> says(
            outcome,
            "No CultNet document binding is registered for "@ + debug_text(envelope.entry_type@),
        ),
        outcome matches Ok(message) ==> (message matches CultNetMessage::DocumentPutRaw { message_id: id, document } && {
            &&& id@ == message_id@
            &&& travels_under(registry.by_type(), envelope.entry_type@, document.schema_id@)
            &&& document.record_key@ == envelope.key@
            &&& document.stored_at@ == envelope.stored_at@
            &&& document.payload_encoding == CultNetRawPayloadEncoding::Messagepack
            &&& document.payload@ == envelope.payload@
            &&& document.source_runtime_id is None
            &&& document.source_agent_id is None
            &&& document.source_role is None
            &&& document.tags is None
        }),
{
    a_bound_type_travels(registry.by_type(), envelope.entry_type@);
}

}
