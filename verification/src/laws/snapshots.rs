//! Read-only snapshots: exactly what is allowed and asked for is served, and exactly what
//! was asked for is accepted.
use vstd::prelude::*;
use super::replication::{a_lookup_finds_the_first_under_the_key, none_under};
use super::words::{
    comes_first, says, the_earliest_reason_counts, the_order_is_that_of_the_first_difference,
};
use crate::contracts::validation::opt_texts;
use crate::contracts::{CultNetMessage, CultNetRawDocumentRecord};
use crate::error::{first_among, none_among, CultNetError};
use crate::replication::{requested, CultNetDocumentRegistry};
use crate::snapshot_query::{
    answer_violation_at, expectation_of, expectation_violation_at, expected_identities,
    expected_keys, expected_schemas, identities, is_served, raw_documents, repeats,
    select_raw_snapshot, served, source_mismatch, source_violation, source_violation_at,
    term_violation, terms_violation, CultNetRawSnapshotQuery, CultNetReadOnlySnapshotPolicy,
    CultNetSnapshotRecordExpectation, CultNetSnapshotSourceExpectation,
};
use crate::sorted_list::{ascending, pairs_of, TextPair};
use crate::text::{before, blank, debug_text, views, white_space};

verus! {

/// Some character of the text is not white space.
pub open spec fn filled(text: Seq<char>) -> bool {
    exists|i: int| 0 <= i < text.len() && !white_space(#[trigger] text[i])
}

/// The list is not there, or the text is in it.
pub open spec fn asked(list: Option<Vec<String>>, text: Seq<char>) -> bool {
    list matches Some(texts) ==> exists|k: int| 0 <= k < texts@.len() && (#[trigger] texts@[k])@ == text
}

/// The two optional lists hold the same texts in the same order.
pub open spec fn same_lists(a: Option<Vec<String>>, b: Option<Vec<String>>) -> bool {
    match (a, b) {
        (Some(x), Some(y)) => x@.len() == y@.len() && forall|i: int|
            0 <= i < x@.len() ==> (#[trigger] x@[i])@ == y@[i]@,
        (None, None) => true,
        _ => false,
    }
}

/// The two optional texts are the same.
pub open spec fn same_optional(a: Option<String>, b: Option<String>) -> bool {
    match (a, b) {
        (Some(x), Some(y)) => x@ == y@,
        (None, None) => true,
        _ => false,
    }
}

/// The two documents agree in every field.
pub open spec fn same_document(a: CultNetRawDocumentRecord, b: CultNetRawDocumentRecord) -> bool {
    &&& a.schema_id@ == b.schema_id@
    &&& a.record_key@ == b.record_key@
    &&& a.stored_at@ == b.stored_at@
    &&& a.payload_encoding == b.payload_encoding
    &&& a.payload@ == b.payload@
    &&& same_optional(a.source_runtime_id, b.source_runtime_id)
    &&& same_optional(a.source_agent_id, b.source_agent_id)
    &&& same_optional(a.source_role, b.source_role)
    &&& same_lists(a.tags, b.tags)
}

proof fn a_list_is_its_texts(list: Option<Vec<String>>)
    ensures
        opt_texts(list) is None <==> list is None,
        list matches Some(texts) ==> opt_texts(list) == Some(views(texts@)) && views(texts@).len() == texts@.len()
            && forall|i: int| 0 <= i < texts@.len() ==> views(texts@)[i] == (#[trigger] texts@[i])@,
{
}

/// A text is requested exactly if it is asked for.
pub proof fn asked_is_requested(list: Option<Vec<String>>, text: Seq<char>)
    ensures
        requested(opt_texts(list), text) == asked(list, text),
{
    if let Some(texts) = list {
        let all = views(texts@);
        if all.contains(text) {
            let k = choose|k: int| 0 <= k < all.len() && all[k] == text;
            assert(texts@[k]@ == text);
        }
        if exists|k: int| 0 <= k < texts@.len() && (#[trigger] texts@[k])@ == text {
            let k = choose|k: int| 0 <= k < texts@.len() && (#[trigger] texts@[k])@ == text;
            assert(all[k] == text);
        }
    }
}

/// Documents with the same view agree in every field, and the other way round.
pub proof fn a_document_is_its_fields(a: CultNetRawDocumentRecord, b: CultNetRawDocumentRecord)
    ensures
        a@ == b@ <==> same_document(a, b),
{
    a_list_is_its_texts(a.tags);
    a_list_is_its_texts(b.tags);
    if a@ == b@ {
        assert(a@.schema_id == b@.schema_id);
        assert(a@.tags == b@.tags);
    }
    if same_document(a, b) {
        if a.tags is Some {
            assert(views(a.tags->0@) =~= views(b.tags->0@));
        }
        assert(a@ =~= b@);
    }
}

/// A text is filled exactly if it is not blank.
pub proof fn filled_is_not_blank(text: Seq<char>)
    ensures
        filled(text) == !blank(text),
{
    if !blank(text) {
        let i = choose|i: int| 0 <= i < text.len() && !white_space(#[trigger] text[i]);
        assert(!white_space(text[i]));
    }
}

/// There is no reason among several exactly if none of them is one.
pub proof fn no_reason_among_none(reasons: spec_fn(int) -> Option<Seq<char>>, end: nat)
    ensures
        first_among(reasons, end) is None <==> forall|i: int| 0 <= i < end ==> (#[trigger] reasons(i)) is None,
    decreases end,
{
    if end > 0 {
        no_reason_among_none(reasons, (end - 1) as nat);
        if first_among(reasons, end) is None {
            none_among(reasons, end);
        }
    }
}

// ---------------------------------------------------------------------------
// Serving
// ---------------------------------------------------------------------------

/// The document is served: the policy lets its schema and key out, and both were asked for.
pub open spec fn let_out_and_asked(
    policy: Set<TextPair>,
    schema_ids: Option<Vec<String>>,
    record_keys: Option<Vec<String>>,
    document: CultNetRawDocumentRecord,
) -> bool {
    &&& policy.contains((document.schema_id@, document.record_key@))
    &&& asked(schema_ids, document.schema_id@)
    &&& asked(record_keys, document.record_key@)
}

proof fn the_served_are_the_wanted(
    policy: Set<TextPair>,
    documents: Seq<CultNetRawDocumentRecord>,
    schema_ids: Option<Vec<String>>,
    record_keys: Option<Vec<String>>,
    end: nat,
)
    requires
        end <= documents.len(),
    ensures
        served(policy, raw_documents(documents), opt_texts(schema_ids), opt_texts(record_keys), end) == raw_documents(
            documents.take(end as int).filter(
                |document: CultNetRawDocumentRecord| let_out_and_asked(policy, schema_ids, record_keys, document),
            ),
        ),
    decreases end,
{
    reveal(Seq::filter);
    let wanted = |document: CultNetRawDocumentRecord| let_out_and_asked(policy, schema_ids, record_keys, document);
    let all = raw_documents(documents);
    let taken = documents.take(end as int);
    if end > 0 {
        the_served_are_the_wanted(policy, documents, schema_ids, record_keys, (end - 1) as nat);
        assert(taken.drop_last() =~= documents.take(end - 1));
        assert(taken.last() == documents[end - 1]);
        let shorter = taken.drop_last().filter(wanted);
        assert(raw_documents(shorter.push(taken.last())) =~= raw_documents(shorter).push(taken.last()@));
        assert(all[end - 1] == taken.last()@);
        asked_is_requested(schema_ids, taken.last().schema_id@);
        asked_is_requested(record_keys, taken.last().record_key@);
        assert(is_served(policy, all[end - 1], opt_texts(schema_ids), opt_texts(record_keys)) == wanted(taken.last()));
    } else {
        assert(raw_documents(taken.filter(wanted)) =~= Seq::empty());
    }
}

proof fn a_filtered_document_is_one_of_them(
    documents: Seq<CultNetRawDocumentRecord>,
    pred: spec_fn(CultNetRawDocumentRecord) -> bool,
    document: CultNetRawDocumentRecord,
)
    ensures
        documents.filter(pred).contains(document) <==> documents.contains(document) && pred(document),
    decreases documents.len(),
{
    reveal(Seq::filter);
    let whole = documents.filter(pred);
    if documents.len() > 0 {
        let shorter = documents.drop_last();
        a_filtered_document_is_one_of_them(shorter, pred, document);
        let earlier = shorter.filter(pred);
        assert(documents[documents.len() - 1] == documents.last());
        if shorter.contains(document) {
            let k = choose|k: int| 0 <= k < shorter.len() && shorter[k] == document;
            assert(documents[k] == document);
        }
        if documents.contains(document) && document != documents.last() {
            let k = choose|k: int| 0 <= k < documents.len() && documents[k] == document;
            assert(shorter[k] == document);
        }
        if pred(documents.last()) {
            assert(whole[whole.len() - 1] == documents.last());
            if earlier.contains(document) {
                let k = choose|k: int| 0 <= k < earlier.len() && earlier[k] == document;
                assert(whole[k] == document);
            }
            if whole.contains(document) && document != documents.last() {
                let k = choose|k: int| 0 <= k < whole.len() && whole[k] == document;
                assert(earlier[k] == document);
            }
        }
    } else {
        assert(whole.len() == 0);
    }
}

/// A served snapshot holds exactly the source's documents that the policy lets out and
/// whose schema and key were asked for, in their order and as they are.
pub proof fn exactly_what_is_let_out_and_asked_for_is_served(
    registry: &CultNetDocumentRegistry,
    policy: &CultNetReadOnlySnapshotPolicy,
    documents: &Vec<CultNetRawDocumentRecord>,
    request: &CultNetMessage,
    outcome: Result<CultNetMessage, CultNetError>,
)
    requires
        call_ensures(select_raw_snapshot, (registry, policy, documents, request), outcome),
        outcome is Ok,
    ensures
        *request matches CultNetMessage::SnapshotRequest { message_id, schema_ids, record_keys } && (
        outcome->Ok_0 matches CultNetMessage::SnapshotResponseRaw { message_id: id, documents: selected } && {
            let wanted = documents@.filter(
                |document: CultNetRawDocumentRecord| let_out_and_asked(policy@, schema_ids, record_keys, document),
            );
            &&& id@ == message_id@
            &&& selected@.len() == wanted.len()
            &&& forall|i: int| 0 <= i < selected@.len() ==> same_document(#[trigger] selected@[i], wanted[i])
            &&& forall|i: int|
                0 <= i < selected@.len() ==> {
                    &&& policy@.contains(((#[trigger] selected@[i]).schema_id@, selected@[i].record_key@))
                    &&& asked(schema_ids, selected@[i].schema_id@)
                    &&& asked(record_keys, selected@[i].record_key@)
                }
            &&& forall|k: int|
                {
                    &&& 0 <= k < documents@.len()
                    &&& policy@.contains(((#[trigger] documents@[k]).schema_id@, documents@[k].record_key@))
                    &&& asked(schema_ids, documents@[k].schema_id@)
                    &&& asked(record_keys, documents@[k].record_key@)
                } ==> exists|i: int| 0 <= i < selected@.len() && same_document(#[trigger] selected@[i], documents@[k])
        }),
{
    let schema_ids = request->SnapshotRequest_schema_ids;
    let record_keys = request->SnapshotRequest_record_keys;
    let selected = outcome->Ok_0->SnapshotResponseRaw_documents;
    let pred = |document: CultNetRawDocumentRecord| let_out_and_asked(policy@, schema_ids, record_keys, document);
    let wanted = documents@.filter(pred);
    the_served_are_the_wanted(policy@, documents@, schema_ids, record_keys, documents@.len());
    assert(documents@.take(documents@.len() as int) =~= documents@);
    assert(raw_documents(selected@) == raw_documents(wanted));
    assert(raw_documents(selected@).len() == selected@.len());
    assert(raw_documents(wanted).len() == wanted.len());
    assert forall|i: int| 0 <= i < selected@.len() implies same_document(#[trigger] selected@[i], wanted[i]) && wanted.contains(wanted[i]) && let_out_and_asked(
        policy@,
        schema_ids,
        record_keys,
        wanted[i],
    ) by {
        assert(raw_documents(selected@)[i] == selected@[i]@);
        assert(raw_documents(wanted)[i] == wanted[i]@);
        a_document_is_its_fields(selected@[i], wanted[i]);
        assert(wanted.contains(wanted[i]));
        a_filtered_document_is_one_of_them(documents@, pred, wanted[i]);
    }
    assert forall|k: int|
        {
            &&& 0 <= k < documents@.len()
            &&& policy@.contains(((#[trigger] documents@[k]).schema_id@, documents@[k].record_key@))
            &&& asked(schema_ids, documents@[k].schema_id@)
            &&& asked(record_keys, documents@[k].record_key@)
        } implies exists|i: int| 0 <= i < selected@.len() && same_document(#[trigger] selected@[i], documents@[k]) by {
        assert(documents@.contains(documents@[k]));
        a_filtered_document_is_one_of_them(documents@, pred, documents@[k]);
        let i = choose|i: int| 0 <= i < wanted.len() && wanted[i] == documents@[k];
        assert(same_document(selected@[i], wanted[i]));
    }
}

/// An earlier document of the list has the same schema and key.
pub open spec fn again(documents: Seq<CultNetRawDocumentRecord>, position: int) -> bool {
    exists|i: int|
        {
            &&& 0 <= i < position
            &&& (#[trigger] documents[i]).schema_id@ == documents[position].schema_id@
            &&& documents[i].record_key@ == documents[position].record_key@
        }
}

proof fn again_is_repeated(documents: Seq<CultNetRawDocumentRecord>, position: int)
    requires
        0 <= position < documents.len(),
    ensures
        repeats(identities(raw_documents(documents)), position) == again(documents, position),
{
    let all = identities(raw_documents(documents));
    assert forall|i: int| 0 <= i < documents.len() implies #[trigger] all[i] == (
        documents[i].schema_id@,
        documents[i].record_key@,
    ) by {}
    if repeats(all, position) {
        let i = choose|i: int| 0 <= i < position && #[trigger] all[i] == all[position];
        assert(documents[i].schema_id@ == documents[position].schema_id@);
    }
    if again(documents, position) {
        let i = choose|i: int|
            {
                &&& 0 <= i < position
                &&& (#[trigger] documents[i]).schema_id@ == documents[position].schema_id@
                &&& documents[i].record_key@ == documents[position].record_key@
            };
        assert(all[i] == all[position]);
    }
}

/// An earlier text of the list is the same.
pub open spec fn said_before(texts: Seq<String>, position: int) -> bool {
    exists|i: int| 0 <= i < position && (#[trigger] texts[i])@ == texts[position]@
}

/// Every text of the list, where there is one, is filled and there once.
pub open spec fn proper_terms(list: Option<Vec<String>>) -> bool {
    list matches Some(texts) ==> forall|i: int|
        0 <= i < texts@.len() ==> filled((#[trigger] texts@[i])@) && !said_before(texts@, i)
}

proof fn said_before_is_repeated(texts: Seq<String>, position: int)
    requires
        0 <= position < texts.len(),
    ensures
        repeats(views(texts), position) == said_before(texts, position),
{
    let all = views(texts);
    if repeats(all, position) {
        let i = choose|i: int| 0 <= i < position && #[trigger] all[i] == all[position];
        assert(texts[i]@ == texts[position]@);
    }
    if said_before(texts, position) {
        let i = choose|i: int| 0 <= i < position && (#[trigger] texts[i])@ == texts[position]@;
        assert(all[i] == all[position]);
    }
}

proof fn proper_terms_are_taken(list: Option<Vec<String>>, label: Seq<char>)
    ensures
        terms_violation(opt_texts(list), label) is None <==> proper_terms(list),
{
    if let Some(texts) = list {
        let all = views(texts@);
        let reasons = |i: int| term_violation(all, label, i);
        no_reason_among_none(reasons, all.len());
        assert forall|i: int| 0 <= i < texts@.len() implies (reasons(i) is None <==> filled((#[trigger] texts@[i])@)
            && !said_before(texts@, i)) by {
            said_before_is_repeated(texts@, i);
            filled_is_not_blank(texts@[i]@);
            assert(all[i] == texts@[i]@);
        }
        if proper_terms(list) {
            assert forall|i: int| 0 <= i < all.len() implies (#[trigger] reasons(i)) is None by {
                assert(filled(texts@[i]@) && !said_before(texts@, i));
            }
        }
        if first_among(reasons, all.len()) is None {
            assert forall|i: int| 0 <= i < texts@.len() implies filled((#[trigger] texts@[i])@) && !said_before(texts@, i) by {
                assert(reasons(i) is None);
            }
        }
    }
}

/// Every document of the source has a registered schema, and no other of them has its
/// schema and key.
pub open spec fn servable(registry: CultNetDocumentRegistry, documents: Seq<CultNetRawDocumentRecord>) -> bool {
    forall|i: int|
        0 <= i < documents.len() ==> !again(documents, i) && !none_under(
            registry.by_schema_id(),
            (#[trigger] documents[i]).schema_id@,
        )
}

/// A schema and a key in words.
pub open spec fn record_words(schema_id: Seq<char>, record_key: Seq<char>) -> Seq<char> {
    debug_text(schema_id) + "/"@ + debug_text(record_key)
}

proof fn a_servable_source_is_taken(registry: CultNetDocumentRegistry, documents: Seq<CultNetRawDocumentRecord>)
    ensures
        source_violation(registry, raw_documents(documents)) is None <==> servable(registry, documents),
        forall|i: int|
            0 <= i < documents.len() && servable(registry, #[trigger] documents.take(i)) ==> {
                &&& again(documents, i) ==> source_violation(registry, raw_documents(documents)) == Some(
                    "snapshot source contains duplicate record "@ + record_words(
                        documents[i].schema_id@,
                        documents[i].record_key@,
                    ),
                )
                &&& !again(documents, i) && none_under(registry.by_schema_id(), documents[i].schema_id@)
                    ==> source_violation(registry, raw_documents(documents)) == Some(
                    "snapshot source record "@ + record_words(documents[i].schema_id@, documents[i].record_key@)
                        + " uses an unregistered schema"@,
                )
            },
{
    let all = raw_documents(documents);
    let reasons = |i: int| source_violation_at(registry, all, i);
    no_reason_among_none(reasons, all.len());
    assert forall|i: int| 0 <= i < documents.len() implies (reasons(i) is None <==> !again(documents, i) && !none_under(
        registry.by_schema_id(),
        (#[trigger] documents[i]).schema_id@,
    )) by {
        again_is_repeated(documents, i);
        a_lookup_finds_the_first_under_the_key(registry.by_schema_id(), documents[i].schema_id@);
        assert(all[i] == documents[i]@);
    }
    if servable(registry, documents) {
        assert forall|i: int| 0 <= i < all.len() implies (#[trigger] reasons(i)) is None by {
            assert(!again(documents, i) && !none_under(registry.by_schema_id(), documents[i].schema_id@));
        }
    }
    if first_among(reasons, all.len()) is None {
        assert forall|i: int| 0 <= i < documents.len() implies !again(documents, i) && !none_under(
            registry.by_schema_id(),
            (#[trigger] documents[i]).schema_id@,
        ) by {
            assert(reasons(i) is None);
        }
    }
    assert forall|i: int| 0 <= i < documents.len() && servable(registry, #[trigger] documents.take(i)) implies {
        &&& again(documents, i) ==> source_violation(registry, raw_documents(documents)) == Some(
            "snapshot source contains duplicate record "@ + record_words(
                documents[i].schema_id@,
                documents[i].record_key@,
            ),
        )
        &&& !again(documents, i) && none_under(registry.by_schema_id(), documents[i].schema_id@)
            ==> source_violation(registry, raw_documents(documents)) == Some(
            "snapshot source record "@ + record_words(documents[i].schema_id@, documents[i].record_key@)
                + " uses an unregistered schema"@,
        )
    } by {
        if again(documents, i) || none_under(registry.by_schema_id(), documents[i].schema_id@) {
            let earlier = documents.take(i);
            assert forall|k: int| 0 <= k < i implies (#[trigger] reasons(k)) is None by {
                assert(earlier[k] == documents[k]);
                assert(!again(earlier, k));
                if again(documents, k) {
                    let j = choose|j: int|
                        {
                            &&& 0 <= j < k
                            &&& (#[trigger] documents[j]).schema_id@ == documents[k].schema_id@
                            &&& documents[j].record_key@ == documents[k].record_key@
                        };
                    assert(earlier[j] == documents[j]);
                    assert(again(earlier, k));
                }
                assert(documents[k] == documents[k]);
            }
            again_is_repeated(documents, i);
            a_lookup_finds_the_first_under_the_key(registry.by_schema_id(), documents[i].schema_id@);
            assert(all[i] == documents[i]@);
            the_earliest_reason_counts(reasons, all.len(), i);
        }
    }
}

/// A request is served exactly if it is one, has an id and proper terms, and the source can
/// be served.
pub proof fn a_request_is_served_exactly_if_it_can_be(
    registry: &CultNetDocumentRegistry,
    policy: &CultNetReadOnlySnapshotPolicy,
    documents: &Vec<CultNetRawDocumentRecord>,
    request: &CultNetMessage,
    outcome: Result<CultNetMessage, CultNetError>,
)
    requires
        call_ensures(select_raw_snapshot, (registry, policy, documents, request), outcome),
    ensures
        match *request {
            CultNetMessage::SnapshotRequest { message_id, schema_ids, record_keys } => {
                &&& outcome is Ok <==> filled(message_id@) && proper_terms(schema_ids) && proper_terms(record_keys)
                    && servable(*registry, documents@)
                &&& !filled(message_id@) ==> says(outcome, "message_id"@ + " must be non-empty"@)
            },
            _ => says(outcome, "expected cultnet.snapshot_request.v0"@),
        },
{
    if let CultNetMessage::SnapshotRequest { message_id, schema_ids, record_keys } = *request {
        filled_is_not_blank(message_id@);
        assert(terms_violation(opt_texts(schema_ids), "requested schema id"@) is None <==> proper_terms(schema_ids))
            by {
            proper_terms_are_taken(schema_ids, "requested schema id"@);
        }
        assert(terms_violation(opt_texts(record_keys), "requested record key"@) is None <==> proper_terms(
            record_keys,
        )) by {
            proper_terms_are_taken(record_keys, "requested record key"@);
        }
        assert(source_violation(*registry, raw_documents(documents@)) is None <==> servable(*registry, documents@))
            by {
            a_servable_source_is_taken(*registry, documents@);
        }
    }
}

/// A proper request of a source that cannot be served is refused in words on the first
/// document that stands in the way.
pub proof fn the_first_unfit_document_is_named(
    registry: &CultNetDocumentRegistry,
    policy: &CultNetReadOnlySnapshotPolicy,
    documents: &Vec<CultNetRawDocumentRecord>,
    request: &CultNetMessage,
    outcome: Result<CultNetMessage, CultNetError>,
    position: int,
)
    requires
        call_ensures(select_raw_snapshot, (registry, policy, documents, request), outcome),
        *request is SnapshotRequest,
        filled(request->SnapshotRequest_message_id@),
        proper_terms(request->SnapshotRequest_schema_ids),
        proper_terms(request->SnapshotRequest_record_keys),
        0 <= position < documents@.len(),
        servable(*registry, documents@.take(position)),
    ensures
        again(documents@, position) ==> says(
            outcome,
            "snapshot source contains duplicate record "@ + record_words(
                documents@[position].schema_id@,
                documents@[position].record_key@,
            ),
        ),
        !again(documents@, position) && none_under(registry.by_schema_id(), documents@[position].schema_id@) ==> says(
            outcome,
            "snapshot source record "@ + record_words(
                documents@[position].schema_id@,
                documents@[position].record_key@,
            ) + " uses an unregistered schema"@,
        ),
{
    filled_is_not_blank(request->SnapshotRequest_message_id@);
    assert(terms_violation(opt_texts(request->SnapshotRequest_schema_ids), "requested schema id"@) is None) by {
        proper_terms_are_taken(request->SnapshotRequest_schema_ids, "requested schema id"@);
    }
    assert(terms_violation(opt_texts(request->SnapshotRequest_record_keys), "requested record key"@) is None) by {
        proper_terms_are_taken(request->SnapshotRequest_record_keys, "requested record key"@);
    }
    a_servable_source_is_taken(*registry, documents@);
}

/// A request with an improper list is refused in words on the first improper text of it; an
/// improper list of schemas comes before one of keys.
pub proof fn the_first_improper_term_is_named(
    registry: &CultNetDocumentRegistry,
    policy: &CultNetReadOnlySnapshotPolicy,
    documents: &Vec<CultNetRawDocumentRecord>,
    request: &CultNetMessage,
    outcome: Result<CultNetMessage, CultNetError>,
    texts: Vec<String>,
    position: int,
)
    requires
        call_ensures(select_raw_snapshot, (registry, policy, documents, request), outcome),
        *request is SnapshotRequest,
        filled(request->SnapshotRequest_message_id@),
        0 <= position < texts@.len(),
        forall|k: int| 0 <= k < position ==> filled((#[trigger] texts@[k])@) && !said_before(texts@, k),
    ensures
        request->SnapshotRequest_schema_ids == Some(texts) ==> {
            &&& !filled(texts@[position]@) ==> says(outcome, "requested schema id"@ + " must be non-empty"@)
            &&& filled(texts@[position]@) && said_before(texts@, position) ==> says(
                outcome,
                "duplicate "@ + "requested schema id"@ + " "@ + debug_text(texts@[position]@),
            )
        },
        request->SnapshotRequest_record_keys == Some(texts) && proper_terms(request->SnapshotRequest_schema_ids) ==> {
            &&& !filled(texts@[position]@) ==> says(outcome, "requested record key"@ + " must be non-empty"@)
            &&& filled(texts@[position]@) && said_before(texts@, position) ==> says(
                outcome,
                "duplicate "@ + "requested record key"@ + " "@ + debug_text(texts@[position]@),
            )
        },
{
    filled_is_not_blank(request->SnapshotRequest_message_id@);
    assert(terms_violation(opt_texts(request->SnapshotRequest_schema_ids), "requested schema id"@) is None
        <==> proper_terms(request->SnapshotRequest_schema_ids)) by {
        proper_terms_are_taken(request->SnapshotRequest_schema_ids, "requested schema id"@);
    }
    an_improper_term_is_named(texts, "requested schema id"@, position);
    an_improper_term_is_named(texts, "requested record key"@, position);
}

proof fn an_improper_term_is_named(texts: Vec<String>, label: Seq<char>, position: int)
    requires
        0 <= position < texts@.len(),
        forall|k: int| 0 <= k < position ==> filled((#[trigger] texts@[k])@) && !said_before(texts@, k),
    ensures
        !filled(texts@[position]@) ==> terms_violation(opt_texts(Some(texts)), label) == Some(
            label + " must be non-empty"@,
        ),
        filled(texts@[position]@) && said_before(texts@, position) ==> terms_violation(opt_texts(Some(texts)), label)
            == Some("duplicate "@ + label + " "@ + debug_text(texts@[position]@)),
{
    let all = views(texts@);
    let reasons = |i: int| term_violation(all, label, i);
    assert forall|k: int| 0 <= k < position implies (#[trigger] reasons(k)) is None by {
        assert(filled(texts@[k]@) && !said_before(texts@, k));
        said_before_is_repeated(texts@, k);
        filled_is_not_blank(texts@[k]@);
        assert(all[k] == texts@[k]@);
    }
    said_before_is_repeated(texts@, position);
    filled_is_not_blank(texts@[position]@);
    assert(all[position] == texts@[position]@);
    if !filled(texts@[position]@) || said_before(texts@, position) {
        the_earliest_reason_counts(reasons, all.len(), position);
    }
}

// ---------------------------------------------------------------------------
// Asking
// ---------------------------------------------------------------------------

/// An earlier record of the list has the same schema and key.
pub open spec fn asked_before(records: Seq<CultNetSnapshotRecordExpectation>, position: int) -> bool {
    exists|i: int|
        {
            &&& 0 <= i < position
            &&& (#[trigger] records[i]).schema_id@ == records[position].schema_id@
            &&& records[i].record_key@ == records[position].record_key@
        }
}

/// The record has a schema and a key, and was not named before.
pub open spec fn can_be_asked_for(records: Seq<CultNetSnapshotRecordExpectation>, position: int) -> bool {
    filled(records[position].schema_id@) && filled(records[position].record_key@) && !asked_before(records, position)
}

proof fn asked_before_is_repeated(records: Seq<CultNetSnapshotRecordExpectation>, position: int)
    requires
        0 <= position < records.len(),
    ensures
        repeats(expected_identities(records), position) == asked_before(records, position),
{
    let all = expected_identities(records);
    assert forall|i: int| 0 <= i < records.len() implies #[trigger] all[i] == (
        records[i].schema_id@,
        records[i].record_key@,
    ) by {}
    if repeats(all, position) {
        let i = choose|i: int| 0 <= i < position && #[trigger] all[i] == all[position];
        assert(records[i].schema_id@ == records[position].schema_id@);
    }
    if asked_before(records, position) {
        let i = choose|i: int|
            {
                &&& 0 <= i < position
                &&& (#[trigger] records[i]).schema_id@ == records[position].schema_id@
                &&& records[i].record_key@ == records[position].record_key@
            };
        assert(all[i] == all[position]);
    }
}

/// A query is made exactly if it has an id, names a record, and each of its records has a
/// schema and a key and is named once; it holds exactly those records.
pub proof fn a_query_is_made_exactly_if_it_can_be_asked(
    message_id: &str,
    records: Vec<CultNetSnapshotRecordExpectation>,
    outcome: Result<CultNetRawSnapshotQuery, CultNetError>,
)
    requires
        call_ensures(CultNetRawSnapshotQuery::new, (message_id, records), outcome),
    ensures
        outcome is Ok <==> filled(message_id@) && records@.len() > 0 && forall|i: int|
            0 <= i < records@.len() ==> #[trigger] can_be_asked_for(records@, i),
        !filled(message_id@) ==> says(outcome, "message_id"@ + " must be non-empty"@),
        filled(message_id@) && records@.len() == 0 ==> says(outcome, "snapshot query must request at least one record"@),
        outcome matches Ok(query) ==> {
            &&& query.asked_in() == message_id@
            &&& query.expected().len() == records@.len()
            &&& forall|record: CultNetSnapshotRecordExpectation|
                query.expected().contains(record) <==> records@.contains(record)
        },
{
    let reasons = |i: int| expectation_violation_at(records@, i);
    filled_is_not_blank(message_id@);
    no_reason_among_none(reasons, records@.len());
    assert forall|i: int| 0 <= i < records@.len() implies (#[trigger] can_be_asked_for(records@, i) <==> reasons(i) is None) by {
        asked_before_is_repeated(records@, i);
        filled_is_not_blank(records@[i].schema_id@);
        filled_is_not_blank(records@[i].record_key@);
    }
    if forall|i: int| 0 <= i < records@.len() ==> #[trigger] can_be_asked_for(records@, i) {
        assert forall|i: int| 0 <= i < records@.len() implies (#[trigger] reasons(i)) is None by {
            assert(can_be_asked_for(records@, i));
        }
    }
    if first_among(reasons, records@.len()) is None {
        assert forall|i: int| 0 <= i < records@.len() implies #[trigger] can_be_asked_for(records@, i) by {
            assert(reasons(i) is None);
        }
    }
}

/// The first record that cannot be asked for is named, for its schema, its key, or because it
/// was named before.
pub proof fn the_first_record_that_cannot_be_asked_for_is_named(
    message_id: &str,
    records: Vec<CultNetSnapshotRecordExpectation>,
    position: int,
    outcome: Result<CultNetRawSnapshotQuery, CultNetError>,
)
    requires
        call_ensures(CultNetRawSnapshotQuery::new, (message_id, records), outcome),
        filled(message_id@),
        0 <= position < records@.len(),
        forall|i: int| 0 <= i < position ==> #[trigger] can_be_asked_for(records@, i),
    ensures
        !filled(records@[position].schema_id@) ==> says(outcome, "schema_id"@ + " must be non-empty"@),
        filled(records@[position].schema_id@) && !filled(records@[position].record_key@) ==> says(
            outcome,
            "record_key"@ + " must be non-empty"@,
        ),
        filled(records@[position].schema_id@) && filled(records@[position].record_key@) && asked_before(
            records@,
            position,
        ) ==> says(
            outcome,
            "snapshot query contains duplicate requested record "@ + record_words(
                records@[position].schema_id@,
                records@[position].record_key@,
            ),
        ),
{
    let reasons = |i: int| expectation_violation_at(records@, i);
    filled_is_not_blank(message_id@);
    assert forall|i: int| 0 <= i < position implies (#[trigger] reasons(i)) is None by {
        assert(can_be_asked_for(records@, i));
        asked_before_is_repeated(records@, i);
        filled_is_not_blank(records@[i].schema_id@);
        filled_is_not_blank(records@[i].record_key@);
    }
    asked_before_is_repeated(records@, position);
    filled_is_not_blank(records@[position].schema_id@);
    filled_is_not_blank(records@[position].record_key@);
    if reasons(position) is Some {
        the_earliest_reason_counts(reasons, records@.len(), position);
    }
}

/// The request of a query asks in its name for exactly the schemas and the keys of its
/// records, in order.
pub proof fn a_request_asks_for_the_schemas_and_keys_of_the_records(
    query: &CultNetRawSnapshotQuery,
    message: CultNetMessage,
)
    requires
        call_ensures(CultNetRawSnapshotQuery::request, (query,), message),
    ensures
        message matches CultNetMessage::SnapshotRequest { message_id, schema_ids: Some(schemas), record_keys: Some(keys) }
            && {
            &&& message_id@ == query.asked_in()
            &&& forall|i: int|
                0 <= i < query.expected().len() ==> asked(Some(schemas), (#[trigger] query.expected()[i]).schema_id@)
                    && asked(Some(keys), query.expected()[i].record_key@)
            &&& forall|k: int|
                0 <= k < schemas@.len() ==> names_schema(query.expected(), (#[trigger] schemas@[k])@)
            &&& forall|k: int| 0 <= k < keys@.len() ==> names_key(query.expected(), (#[trigger] keys@[k])@)
            &&& forall|k: int| 0 < k < schemas@.len() ==> comes_first(schemas@[k - 1]@, (#[trigger] schemas@[k])@)
            &&& forall|k: int| 0 < k < keys@.len() ==> comes_first(keys@[k - 1]@, (#[trigger] keys@[k])@)
        },
{
    let records = query.expected();
    let schemas = message->SnapshotRequest_schema_ids->0;
    let keys = message->SnapshotRequest_record_keys->0;
    let (a, b) = (views(schemas@), views(keys@));
    assert forall|i: int| 0 <= i < records.len() implies asked(Some(schemas), (#[trigger] records[i]).schema_id@) && asked(
        Some(keys),
        records[i].record_key@,
    ) by {
        assert(expected_schemas(records)[i] == records[i].schema_id@);
        assert(expected_schemas(records).contains(records[i].schema_id@));
        assert(expected_keys(records)[i] == records[i].record_key@);
        assert(expected_keys(records).contains(records[i].record_key@));
        let k = choose|k: int| 0 <= k < a.len() && a[k] == records[i].schema_id@;
        assert(schemas@[k]@ == records[i].schema_id@);
        let j = choose|j: int| 0 <= j < b.len() && b[j] == records[i].record_key@;
        assert(keys@[j]@ == records[i].record_key@);
    }
    assert forall|k: int| 0 <= k < schemas@.len() implies names_schema(records, (#[trigger] schemas@[k])@) by {
        assert(a[k] == schemas@[k]@);
        assert(a.contains(schemas@[k]@));
        let i = choose|i: int| 0 <= i < expected_schemas(records).len() && expected_schemas(records)[i] == schemas@[k]@;
        assert(records[i].schema_id@ == schemas@[k]@);
    }
    assert forall|k: int| 0 <= k < keys@.len() implies names_key(records, (#[trigger] keys@[k])@) by {
        assert(b[k] == keys@[k]@);
        assert(b.contains(keys@[k]@));
        let i = choose|i: int| 0 <= i < expected_keys(records).len() && expected_keys(records)[i] == keys@[k]@;
        assert(records[i].record_key@ == keys@[k]@);
    }
    assert forall|k: int| 0 < k < schemas@.len() implies comes_first(schemas@[k - 1]@, (#[trigger] schemas@[k])@) by {
        assert(before(a[k - 1], a[k - 1 + 1]));
        the_order_is_that_of_the_first_difference(a[k - 1], a[k]);
    }
    assert forall|k: int| 0 < k < keys@.len() implies comes_first(keys@[k - 1]@, (#[trigger] keys@[k])@) by {
        assert(before(b[k - 1], b[k - 1 + 1]));
        the_order_is_that_of_the_first_difference(b[k - 1], b[k]);
    }
}

/// Some record has the schema.
pub open spec fn names_schema(records: Seq<CultNetSnapshotRecordExpectation>, schema_id: Seq<char>) -> bool {
    exists|i: int| 0 <= i < records.len() && (#[trigger] records[i]).schema_id@ == schema_id
}

/// Some record has the key.
pub open spec fn names_key(records: Seq<CultNetSnapshotRecordExpectation>, record_key: Seq<char>) -> bool {
    exists|i: int| 0 <= i < records.len() && (#[trigger] records[i]).record_key@ == record_key
}

// ---------------------------------------------------------------------------
// Accepting
// ---------------------------------------------------------------------------

/// What is expected of the source, where anything is, is so.
pub open spec fn from_the_expected_source(
    source: CultNetSnapshotSourceExpectation,
    document: CultNetRawDocumentRecord,
) -> bool {
    &&& source.runtime_id is Some ==> same_optional(source.runtime_id, document.source_runtime_id)
    &&& source.agent_id is Some ==> same_optional(source.agent_id, document.source_agent_id)
    &&& source.role is Some ==> same_optional(source.role, document.source_role)
    &&& source.tags is Some ==> same_lists(source.tags, document.tags)
}

/// The record is the first that asks for the document's schema and key.
pub open spec fn asks_for(
    records: Seq<CultNetSnapshotRecordExpectation>,
    position: int,
    document: CultNetRawDocumentRecord,
) -> bool {
    &&& 0 <= position < records.len()
    &&& records[position].schema_id@ == document.schema_id@
    &&& records[position].record_key@ == document.record_key@
    &&& forall|k: int|
        0 <= k < position ==> (#[trigger] records[k]).schema_id@ != document.schema_id@ || records[k].record_key@
            != document.record_key@
}

/// The document was asked for, from this source.
pub open spec fn is_welcome(records: Seq<CultNetSnapshotRecordExpectation>, document: CultNetRawDocumentRecord) -> bool {
    exists|k: int| #[trigger]
        asks_for(records, k, document) && from_the_expected_source(records[k].source, document)
}

proof fn the_expectation_is_the_first(
    records: Seq<CultNetSnapshotRecordExpectation>,
    document: CultNetRawDocumentRecord,
    end: nat,
)
    requires
        end <= records.len(),
    ensures
        ({
            let found = expectation_of(records, (document.schema_id@, document.record_key@), end);
            &&& found matches Some(k) ==> k < end && asks_for(records, k, document)
            &&& found is None ==> forall|k: int|
                0 <= k < end ==> (#[trigger] records[k]).schema_id@ != document.schema_id@ || records[k].record_key@
                    != document.record_key@
        }),
    decreases end,
{
    if end > 0 {
        the_expectation_is_the_first(records, document, (end - 1) as nat);
    }
}

proof fn the_source_is_as_expected(source: CultNetSnapshotSourceExpectation, document: CultNetRawDocumentRecord)
    ensures
        source_mismatch(source, document@) is None <==> from_the_expected_source(source, document),
{
    a_list_is_its_texts(source.tags);
    a_list_is_its_texts(document.tags);
    if source.tags is Some && document.tags is Some {
        let (a, b) = (views(source.tags->0@), views(document.tags->0@));
        if same_lists(source.tags, document.tags) {
            assert(a =~= b);
        }
        if a == b {
            assert(a.len() == b.len());
            assert forall|i: int| 0 <= i < a.len() implies (#[trigger] source.tags->0@[i])@ == document.tags->0@[i]@ by {
                assert(a[i] == b[i]);
            }
        }
    }
}

/// An answer is accepted exactly if it is a raw snapshot in the query's name and each of its
/// documents is there once and is welcome; what is accepted is its documents.
pub proof fn an_answer_is_accepted_exactly_if_everything_in_it_is_welcome(
    query: &CultNetRawSnapshotQuery,
    response: CultNetMessage,
    outcome: Result<Vec<CultNetRawDocumentRecord>, CultNetError>,
)
    requires
        call_ensures(CultNetRawSnapshotQuery::accept_response, (query, response), outcome),
    ensures
        match response {
            CultNetMessage::SnapshotResponseRaw { message_id, documents } => {
                &&& outcome is Ok <==> message_id@ == query.asked_in() && forall|i: int|
                    0 <= i < documents@.len() ==> !again(documents@, i) && is_welcome(
                        query.expected(),
                        #[trigger] documents@[i],
                    )
                &&& outcome matches Ok(accepted) ==> accepted == documents
                &&& message_id@ != query.asked_in() ==> says(
                    outcome,
                    "snapshot response message id "@ + debug_text(message_id@) + " does not match request "@
                        + debug_text(query.asked_in()),
                )
            },
            _ => says(outcome, "expected cultnet.snapshot_response_raw.v0"@),
        },
{
    if let CultNetMessage::SnapshotResponseRaw { message_id, documents } = response {
        let records = query.expected();
        let all = raw_documents(documents@);
        let reasons = |i: int| answer_violation_at(records, all, i);
        no_reason_among_none(reasons, documents@.len());
        assert forall|i: int| 0 <= i < documents@.len() implies (reasons(i) is None <==> !again(documents@, i) && is_welcome(
            records,
            #[trigger] documents@[i],
        )) by {
            a_document_is_judged(records, documents@, i);
        }
        if forall|i: int|
            0 <= i < documents@.len() ==> !again(documents@, i) && is_welcome(records, #[trigger] documents@[i]) {
            assert forall|i: int| 0 <= i < documents@.len() implies (#[trigger] reasons(i)) is None by {
                assert(is_welcome(records, documents@[i]));
            }
        }
        if first_among(reasons, documents@.len()) is None {
            assert forall|i: int| 0 <= i < documents@.len() implies !again(documents@, i) && is_welcome(
                records,
                #[trigger] documents@[i],
            ) by {
                assert(reasons(i) is None);
            }
        }
    }
}

proof fn a_document_is_judged(
    records: Seq<CultNetSnapshotRecordExpectation>,
    documents: Seq<CultNetRawDocumentRecord>,
    position: int,
)
    requires
        0 <= position < documents.len(),
    ensures
        answer_violation_at(records, raw_documents(documents), position) is None <==> !again(documents, position)
            && is_welcome(records, documents[position]),
{
    let document = documents[position];
    assert(raw_documents(documents)[position] == document@);
    again_is_repeated(documents, position);
    the_expectation_is_the_first(records, document, records.len());
    let found = expectation_of(records, (document.schema_id@, document.record_key@), records.len());
    if let Some(k) = found {
        the_source_is_as_expected(records[k].source, document);
        assert(asks_for(records, k, document));
        if is_welcome(records, document) {
            let j = choose|j: int| #[trigger]
                asks_for(records, j, document) && from_the_expected_source(records[j].source, document);
            assert(j == k);
        }
    } else if is_welcome(records, document) {
        let j = choose|j: int| #[trigger]
            asks_for(records, j, document) && from_the_expected_source(records[j].source, document);
        assert(records[j].schema_id@ == document.schema_id@);
    }
}

// ---------------------------------------------------------------------------
// Order
// ---------------------------------------------------------------------------

/// One pair comes first: by its first text, and where that is the same by its second.
pub open spec fn pair_comes_first(a: TextPair, b: TextPair) -> bool {
    comes_first(a.0, b.0) || (a.0 == b.0 && comes_first(a.1, b.1))
}

/// Pairs that ascend come first one after the other.
pub proof fn ascending_pairs_come_one_after_the_other(pairs: Seq<TextPair>)
    ensures
        ascending(pairs) <==> forall|i: int|
            0 <= i < pairs.len() - 1 ==> pair_comes_first(#[trigger] pairs[i], pairs[i + 1]),
{
    assert forall|i: int| 0 <= i < pairs.len() - 1 implies (crate::sorted_list::pair_before(
        #[trigger] pairs[i],
        pairs[i + 1],
    ) <==> pair_comes_first(pairs[i], pairs[i + 1])) by {
        the_order_is_that_of_the_first_difference(pairs[i].0, pairs[i + 1].0);
        the_order_is_that_of_the_first_difference(pairs[i].1, pairs[i + 1].1);
        crate::text::before_is_total(pairs[i].0, pairs[i + 1].0);
    }
    if ascending(pairs) {
        assert forall|i: int| 0 <= i < pairs.len() - 1 implies pair_comes_first(#[trigger] pairs[i], pairs[i + 1]) by {
            assert(crate::sorted_list::pair_before(pairs[i], pairs[i + 1]));
        }
    }
    if forall|i: int| 0 <= i < pairs.len() - 1 ==> pair_comes_first(#[trigger] pairs[i], pairs[i + 1]) {
        assert forall|i: int| 0 <= i < pairs.len() - 1 implies crate::sorted_list::pair_before(
            #[trigger] pairs[i],
            pairs[i + 1],
        ) by {
            assert(pair_comes_first(pairs[i], pairs[i + 1]));
        }
    }
}

/// The records of a query are kept in the order of their schemas and keys.
pub proof fn a_query_keeps_its_records_in_order(
    message_id: &str,
    records: Vec<CultNetSnapshotRecordExpectation>,
    outcome: Result<CultNetRawSnapshotQuery, CultNetError>,
)
    requires
        call_ensures(CultNetRawSnapshotQuery::new, (message_id, records), outcome),
        outcome is Ok,
    ensures
        ({
            let kept = outcome->Ok_0.expected();
            forall|i: int|
                0 <= i < kept.len() - 1 ==> pair_comes_first(
                    ((#[trigger] kept[i]).schema_id@, kept[i].record_key@),
                    (kept[i + 1].schema_id@, kept[i + 1].record_key@),
                )
        }),
{
    let kept = outcome->Ok_0.expected();
    let pairs = pairs_of(kept);
    ascending_pairs_come_one_after_the_other(pairs);
    assert forall|i: int| 0 <= i < kept.len() - 1 implies pair_comes_first(
        ((#[trigger] kept[i]).schema_id@, kept[i].record_key@),
        (kept[i + 1].schema_id@, kept[i + 1].record_key@),
    ) by {
        assert(pairs[i] == (kept[i].schema_id@, kept[i].record_key@));
        assert(pairs[i + 1] == (kept[i + 1].schema_id@, kept[i + 1].record_key@));
    }
}

// ---------------------------------------------------------------------------
// Unwelcome documents
// ---------------------------------------------------------------------------

/// An optional text in words.
pub open spec fn optional_words(text: Option<String>) -> Seq<char> {
    match text {
        Some(found) => "Some("@ + debug_text(found@) + ")"@,
        None => "None"@,
    }
}

/// What is said of a field that is not the expected one.
pub open spec fn other_field_words(
    document: CultNetRawDocumentRecord,
    field: Seq<char>,
    expected: Seq<char>,
    actual: Option<String>,
) -> Seq<char> {
    "snapshot response record "@ + record_words(document.schema_id@, document.record_key@) + " has unexpected "@ + field
        + ": expected "@ + debug_text(expected) + ", got "@ + optional_words(actual)
}

/// The first document that is not welcome is named: because it was there before, because it
/// was not asked for, or for the first field of its source that is not the expected one.
pub proof fn the_first_unwelcome_document_is_named(
    query: &CultNetRawSnapshotQuery,
    response: CultNetMessage,
    position: int,
    asking: int,
    outcome: Result<Vec<CultNetRawDocumentRecord>, CultNetError>,
)
    requires
        call_ensures(CultNetRawSnapshotQuery::accept_response, (query, response), outcome),
        response is SnapshotResponseRaw,
        response->SnapshotResponseRaw_message_id@ == query.asked_in(),
        0 <= position < response->SnapshotResponseRaw_documents@.len(),
        forall|i: int|
            0 <= i < position ==> !again(response->SnapshotResponseRaw_documents@, i) && is_welcome(
                query.expected(),
                #[trigger] response->SnapshotResponseRaw_documents@[i],
            ),
    ensures
        ({
            let documents = response->SnapshotResponseRaw_documents@;
            let document = documents[position];
            let name = record_words(document.schema_id@, document.record_key@);
            let source = query.expected()[asking].source;
            &&& again(documents, position) ==> says(outcome, "snapshot response contains duplicate record "@ + name)
            &&& !again(documents, position) && (forall|k: int| !#[trigger] asks_for(query.expected(), k, document))
                ==> says(outcome, "snapshot response contains unexpected record "@ + name)
            &&& !again(documents, position) && asks_for(query.expected(), asking, document) ==> {
                let runtime = source.runtime_id is Some ==> same_optional(source.runtime_id, document.source_runtime_id);
                let agent = source.agent_id is Some ==> same_optional(source.agent_id, document.source_agent_id);
                let role = source.role is Some ==> same_optional(source.role, document.source_role);
                &&& !runtime ==> says(
                    outcome,
                    other_field_words(
                        document,
                        "source_runtime_id"@,
                        source.runtime_id->0@,
                        document.source_runtime_id,
                    ),
                )
                &&& runtime && !agent ==> says(
                    outcome,
                    other_field_words(document, "source_agent_id"@, source.agent_id->0@, document.source_agent_id),
                )
                &&& runtime && agent && !role ==> says(
                    outcome,
                    other_field_words(document, "source_role"@, source.role->0@, document.source_role),
                )
            }
        }),
{
    let records = query.expected();
    let documents = response->SnapshotResponseRaw_documents@;
    let document = documents[position];
    let all = raw_documents(documents);
    let reasons = |i: int| answer_violation_at(records, all, i);
    assert forall|i: int| 0 <= i < position implies (#[trigger] reasons(i)) is None by {
        assert(is_welcome(records, documents[i]));
        a_document_is_judged(records, documents, i);
    }
    assert(all[position] == document@);
    again_is_repeated(documents, position);
    the_expectation_is_the_first(records, document, records.len());
    if reasons(position) is Some {
        the_earliest_reason_counts(reasons, all.len(), position);
    }
    let found = expectation_of(records, (document.schema_id@, document.record_key@), records.len());
    if let Some(k) = found {
        assert(asks_for(records, k, document));
        if asks_for(records, asking, document) {
            assert(k == asking);
        }
    }
}

}
