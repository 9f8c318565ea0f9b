//! Read-only snapshots: what a server lets out of its records, and what a client accepts
//! as the answer to its question.
use vstd::prelude::*;
use crate::contracts::validation::opt_texts;
use crate::contracts::{CultNetMessage, CultNetRawDocumentRecord, CultNetRawPayloadEncoding};
use crate::error::{
    ensure, first_among, first_among_stays, first_of, none_among, refuse, reports, unless,
    CultNetError,
};
use crate::json::{a_put_member_is_found, member_of};
use crate::ordered_map::OrderedMap;
use crate::replication::{requested, CultNetDocumentRegistry};
use crate::sorted_list::{
    ascending, earlier_comes_before, insert_in_order, pairs_are_ordered, pairs_of, place_of_pair,
    the_items_decide_the_list, the_pairs_decide_the_list, PairKeyed, TextPair,
};
use crate::text::{
    blank, copy_bytes, copy_optional_text, copy_texts, debug_text, holds_text, is_blank, joined,
    lists, opt, quoted, same_text, same_texts, strictly_sorted, views,
};

verus! {

// ---------------------------------------------------------------------------
// Records
// ---------------------------------------------------------------------------

/// What a raw document holds.
#[verifier::ext_equal]
pub struct RawDocument {
    pub schema_id: Seq<char>,
    pub record_key: Seq<char>,
    pub stored_at: Seq<char>,
    pub payload_encoding: CultNetRawPayloadEncoding,
    pub payload: Seq<u8>,
    pub source_runtime_id: Option<Seq<char>>,
    pub source_agent_id: Option<Seq<char>>,
    pub source_role: Option<Seq<char>>,
    pub tags: Option<Seq<Seq<char>>>,
}

impl View for CultNetRawDocumentRecord {
    type V = RawDocument;

    open spec fn view(&self) -> RawDocument {
        RawDocument {
            schema_id: self.schema_id@,
            record_key: self.record_key@,
            stored_at: self.stored_at@,
            payload_encoding: self.payload_encoding,
            payload: self.payload@,
            source_runtime_id: opt(self.source_runtime_id),
            source_agent_id: opt(self.source_agent_id),
            source_role: opt(self.source_role),
            tags: opt_texts(self.tags),
        }
    }
}

/// What the documents of a list hold.
pub open spec fn raw_documents(list: Seq<CultNetRawDocumentRecord>) -> Seq<RawDocument> {
    list.map_values(|document: CultNetRawDocumentRecord| document@)
}

/// The schema and the key by which a document is known.
pub open spec fn identity_of_document(document: RawDocument) -> (Seq<char>, Seq<char>) {
    (document.schema_id, document.record_key)
}

impl CultNetRawDocumentRecord {
    pub fn copy(&self) -> (copy: Self)
        ensures
            copy@ == self@,
    {
        let tags = match &self.tags {
            Some(texts) => Some(copy_texts(texts)),
            None => None,
        };
        CultNetRawDocumentRecord {
            schema_id: self.schema_id.clone(),
            record_key: self.record_key.clone(),
            stored_at: self.stored_at.clone(),
            payload_encoding: self.payload_encoding,
            payload: copy_bytes(&self.payload),
            source_runtime_id: copy_optional_text(&self.source_runtime_id),
            source_agent_id: copy_optional_text(&self.source_agent_id),
            source_role: copy_optional_text(&self.source_role),
            tags,
        }
    }
}

/// Read-only backing surface for a CultNet snapshot server.
///
/// Records returned here are already the stored wire records. The snapshot
/// server selects and clones them; it never decodes payloads, rewrites source
/// metadata, or applies them to another cache.
pub trait CultNetRawSnapshotSource {
    /// The source is ready to be asked.
    open spec fn answers(&self) -> bool {
        true
    }

    fn raw_snapshot(&self) -> (outcome: Result<Vec<CultNetRawDocumentRecord>, CultNetError>)
        requires
            self.answers(),
    ;
}

impl<F> CultNetRawSnapshotSource for F where F: Fn() -> Result<Vec<CultNetRawDocumentRecord>, CultNetError> {
    open spec fn answers(&self) -> bool {
        self.requires(())
    }

    fn raw_snapshot(&self) -> (outcome: Result<Vec<CultNetRawDocumentRecord>, CultNetError>)
        ensures
            self.ensures((), outcome),
    {
        self()
    }
}

impl CultNetRawSnapshotSource for Vec<CultNetRawDocumentRecord> {
    fn raw_snapshot(&self) -> (outcome: Result<Vec<CultNetRawDocumentRecord>, CultNetError>)
        ensures
            outcome matches Ok(documents) && raw_documents(documents@) == raw_documents(self@),
    {
        let mut copies: Vec<CultNetRawDocumentRecord> = Vec::new();
        let mut i: usize = 0;
        while i < self.len()
            invariant
                i <= self@.len(),
                copies@.len() == i,
                forall|k: int| 0 <= k < i ==> (#[trigger] copies@[k])@ == self@[k]@,
            decreases self@.len() - i,
        {
            copies.push(self[i].copy());
            i += 1;
        }
        assert(raw_documents(copies@) =~= raw_documents(self@));
        Ok(copies)
    }
}

// ---------------------------------------------------------------------------
// Refusals
// ---------------------------------------------------------------------------

/// A schema and a key in words.
pub open spec fn record_text(identity: (Seq<char>, Seq<char>)) -> Seq<char> {
    debug_text(identity.0) + "/"@ + debug_text(identity.1)
}

fn record_name(schema_id: &str, record_key: &str) -> (text: String)
    ensures
        text@ == record_text((schema_id@, record_key@)),
{
    joined(&joined(&quoted(schema_id), "/"), &quoted(record_key))
}

/// An optional text in words.
pub open spec fn optional_debug_text(text: Option<Seq<char>>) -> Seq<char> {
    match text {
        Some(found) => "Some("@ + debug_text(found) + ")"@,
        None => "None"@,
    }
}

fn optional_quoted(text: &Option<String>) -> (form: String)
    ensures
        form@ == optional_debug_text(opt(*text)),
{
    match text {
        Some(found) => joined(&joined("Some(", &quoted(found)), ")"),
        None => "None".to_owned(),
    }
}

/// The first `end` texts of a list in words, with commas between them.
pub open spec fn listed_debug_texts(texts: Seq<Seq<char>>, end: nat) -> Seq<char>
    decreases end,
{
    if end == 0 {
        Seq::empty()
    } else if end == 1 {
        debug_text(texts[0])
    } else {
        listed_debug_texts(texts, (end - 1) as nat) + ", "@ + debug_text(texts[end - 1])
    }
}

/// A list of texts in words.
pub open spec fn debug_texts(texts: Seq<Seq<char>>) -> Seq<char> {
    "["@ + listed_debug_texts(texts, texts.len()) + "]"@
}

pub open spec fn optional_debug_texts(texts: Option<Seq<Seq<char>>>) -> Seq<char> {
    match texts {
        Some(found) => "Some("@ + debug_texts(found) + ")"@,
        None => "None"@,
    }
}

fn quoted_texts(texts: &Vec<String>) -> (form: String)
    ensures
        form@ == debug_texts(views(texts@)),
{
    let mut inner = String::new();
    let mut i: usize = 0;
    while i < texts.len()
        invariant
            i <= texts@.len(),
            inner@ == listed_debug_texts(views(texts@), i as nat),
        decreases texts@.len() - i,
    {
        let next = quoted(&texts[i]);
        assert(views(texts@)[i as int] == texts@[i as int]@);
        if i == 0 {
            inner = next;
        } else {
            inner = joined(&joined(&inner, ", "), &next);
        }
        i += 1;
    }
    joined(&joined("[", &inner), "]")
}

fn optional_quoted_texts(texts: &Option<Vec<String>>) -> (form: String)
    ensures
        form@ == optional_debug_texts(opt_texts(*texts)),
{
    match texts {
        Some(found) => joined(&joined("Some(", &quoted_texts(found)), ")"),
        None => "None".to_owned(),
    }
}

/// Why the text is refused, if it is.
pub open spec fn empty_violation(text: Seq<char>, field: Seq<char>) -> Option<Seq<char>> {
    unless(!blank(text), field + " must be non-empty"@)
}

fn require_non_empty(text: &str, field: &str) -> (outcome: Result<(), CultNetError>)
    ensures
        reports(outcome, empty_violation(text@, field@)),
{
    ensure(!is_blank(text), &joined(field, " must be non-empty"))
}

/// An earlier text of the list is the same.
pub open spec fn repeats<T>(list: Seq<T>, position: int) -> bool {
    exists|i: int| 0 <= i < position && #[trigger] list[i] == list[position]
}

/// Why the text at the position is refused, if it is: it is blank, or it was there
/// before.
pub open spec fn term_violation(texts: Seq<Seq<char>>, label: Seq<char>, position: int) -> Option<Seq<char>> {
    first_of(
        empty_violation(texts[position], label),
        unless(
            !repeats(texts, position),
            "duplicate "@ + label + " "@ + debug_text(texts[position]),
        ),
    )
}

/// Why the requested texts are refused, if they are.
pub open spec fn terms_violation(texts: Option<Seq<Seq<char>>>, label: Seq<char>) -> Option<Seq<char>> {
    match texts {
        Some(found) => first_among(|i: int| term_violation(found, label, i), found.len()),
        None => None,
    }
}

fn is_repeated(texts: &Vec<String>, position: usize) -> (found: bool)
    requires
        position < texts@.len(),
    ensures
        found == repeats(views(texts@), position as int),
{
    let ghost all = views(texts@);
    let mut i: usize = 0;
    while i < position
        invariant
            i <= position < texts@.len(),
            all == views(texts@),
            forall|k: int| 0 <= k < i ==> #[trigger] all[k] != all[position as int],
        decreases position - i,
    {
        assert(all[i as int] == texts@[i as int]@ && all[position as int] == texts@[position as int]@);
        if same_text(&texts[i], &texts[position]) {
            assert(all[i as int] == all[position as int]);
            return true;
        }
        i += 1;
    }
    false
}

fn reject_duplicates(texts: &Option<Vec<String>>, label: &str) -> (outcome: Result<(), CultNetError>)
    ensures
        reports(outcome, terms_violation(opt_texts(*texts), label@)),
{
    match texts {
        None => Ok(()),
        Some(found) => {
            let ghost all = views(found@);
            let ghost reasons = |i: int| term_violation(all, label@, i);
            let mut i: usize = 0;
            while i < found.len()
                invariant
                    i <= found@.len(),
                    texts matches Some(listed) && listed == found,
                    all == views(found@),
                    reasons == (|i: int| term_violation(all, label@, i)),
                    first_among(reasons, i as nat) is None,
                decreases found@.len() - i,
            {
                proof {
                    assert(all[i as int] == found@[i as int]@);
                    assert(reasons(i as int) == term_violation(all, label@, i as int));
                    assert(first_among(reasons, (i + 1) as nat) == reasons(i as int));
                    if reasons(i as int) is Some {
                        first_among_stays(reasons, (i + 1) as nat, found@.len());
                    }
                }
                require_non_empty(&found[i], label)?;
                if is_repeated(found, i) {
                    return refuse(
                        &joined(&joined(&joined("duplicate ", label), " "), &quoted(&found[i])),
                    );
                }
                i += 1;
            }
            Ok(())
        },
    }
}

// ---------------------------------------------------------------------------
// Serving
// ---------------------------------------------------------------------------

/// The records that a snapshot server may let out, one by one.
#[derive(Debug, PartialEq, Eq)]
pub struct CultNetReadOnlySnapshotPolicy {
    allowed_records: Vec<(String, String)>,
}

impl View for CultNetReadOnlySnapshotPolicy {
    type V = Set<TextPair>;

    open spec fn view(&self) -> Set<TextPair> {
        self.granted().to_set()
    }
}

impl CultNetReadOnlySnapshotPolicy {
    /// The schemas and keys of the records that are let out, as they are kept.
    pub closed spec fn granted(self) -> Seq<TextPair> {
        pairs_of(self.allowed_records@)
    }

    #[verifier::type_invariant]
    spec fn is_in_order(self) -> bool {
        ascending(self.granted())
    }

    pub fn new() -> (policy: Self)
        ensures
            policy.granted() == Seq::<TextPair>::empty(),
            policy@ == Set::<TextPair>::empty(),
    {
        let allowed_records: Vec<(String, String)> = Vec::new();
        assert(pairs_of(allowed_records@) =~= Seq::<TextPair>::empty());
        let policy = CultNetReadOnlySnapshotPolicy { allowed_records };
        assert(policy@ =~= Set::<TextPair>::empty());
        policy
    }

    /// Lets the record with the schema and the key out. The records are kept in the order
    /// of their schemas and keys, each once, so that it does not show in which order they
    /// were let out, nor how often.
    pub fn allow(&mut self, schema_id: &str, record_key: &str) -> (outcome: Result<&mut Self, CultNetError>)
        ensures
            reports(
                outcome,
                first_of(
                    empty_violation(schema_id@, "schema_id"@),
                    empty_violation(record_key@, "record_key"@),
                ),
            ),
            match outcome {
                Ok(policy) => {
                    &&& policy@ == old(self)@.insert((schema_id@, record_key@))
                    &&& ascending(policy.granted())
                    &&& old(self)@.contains((schema_id@, record_key@)) ==> *policy == *old(self)
                    &&& *final(self) == *final(policy)
                },
                Err(_) => *final(self) == *old(self),
            },
    {
        require_non_empty(schema_id, "schema_id")?;
        require_non_empty(record_key, "record_key")?;
        proof {
            use_type_invariant(&*self);
        }
        let (_, there) = place_of_pair(&self.allowed_records, (schema_id, record_key));
        let ghost sofar = self.allowed_records@;
        let ghost added = (schema_id@, record_key@);
        if !there {
            let mut records: Vec<(String, String)> = Vec::new();
            assert(pairs_of(records@) =~= Seq::<TextPair>::empty());
            std::mem::swap(&mut records, &mut self.allowed_records);
            let item = (schema_id.to_owned(), record_key.to_owned());
            let longer = insert_in_order(records, item);
            proof {
                let place = choose|place: int|
                    0 <= place <= sofar.len() && longer@ == #[trigger] sofar.insert(place, item);
                assert(pairs_of(longer@) =~= pairs_of(sofar).insert(place, added));
                inserted_pairs(pairs_of(sofar), place, added);
            }
            self.allowed_records = longer;
        } else {
            assert(old(self)@.insert(added) =~= old(self)@);
        }
        Ok(self)
    }

    fn allows(&self, schema_id: &str, record_key: &str) -> (found: bool)
        ensures
            found == self@.contains((schema_id@, record_key@)),
    {
        proof {
            use_type_invariant(self);
        }
        let (_, there) = place_of_pair(&self.allowed_records, (schema_id, record_key));
        there
    }
}

proof fn inserted_pairs(pairs: Seq<TextPair>, place: int, added: TextPair)
    requires
        0 <= place <= pairs.len(),
    ensures
        pairs.insert(place, added).to_set() == pairs.to_set().insert(added),
{
    let longer = pairs.insert(place, added);
    assert forall|pair: TextPair| longer.contains(pair) <==> pairs.contains(pair) || pair == added by {
        assert(longer[place] == added);
        if pairs.contains(pair) {
            let k = choose|k: int| 0 <= k < pairs.len() && pairs[k] == pair;
            assert(longer[if k < place { k } else { k + 1 }] == pair);
        }
        if longer.contains(pair) && pair != added {
            let k = choose|k: int| 0 <= k < longer.len() && longer[k] == pair;
            assert(pairs[if k < place { k } else { k - 1 }] == pair);
        }
    }
    assert(longer.to_set() =~= pairs.to_set().insert(added));
}

/// Policies that let the same records out keep the same list, whatever the order in which
/// the records were let out.
pub proof fn the_grants_decide_the_policy(a: CultNetReadOnlySnapshotPolicy, b: CultNetReadOnlySnapshotPolicy)
    requires
        ascending(a.granted()),
        ascending(b.granted()),
        a@ == b@,
    ensures
        a.granted() == b.granted(),
{
    assert forall|pair: TextPair| a.granted().contains(pair) <==> b.granted().contains(pair) by {
        assert(a.granted().to_set().contains(pair) <==> a.granted().contains(pair));
        assert(b.granted().to_set().contains(pair) <==> b.granted().contains(pair));
    }
    the_pairs_decide_the_list(a.granted(), b.granted());
}

impl Clone for CultNetReadOnlySnapshotPolicy {
    fn clone(&self) -> (copy: Self)
        ensures
            copy.granted() == self.granted(),
    {
        proof {
            use_type_invariant(self);
        }
        let mut allowed_records: Vec<(String, String)> = Vec::new();
        let mut i: usize = 0;
        while i < self.allowed_records.len()
            invariant
                i <= self.allowed_records@.len(),
                allowed_records@.len() == i,
                forall|k: int| 0 <= k < i ==> (#[trigger] allowed_records@[k]).pair() == self.allowed_records@[k].pair(),
            decreases self.allowed_records@.len() - i,
        {
            let record = &self.allowed_records[i];
            allowed_records.push((record.0.clone(), record.1.clone()));
            i += 1;
        }
        assert(pairs_of(allowed_records@) =~= pairs_of(self.allowed_records@));
        CultNetReadOnlySnapshotPolicy { allowed_records }
    }
}

impl Default for CultNetReadOnlySnapshotPolicy {
    fn default() -> (policy: Self)
        ensures
            policy.granted() == Seq::<TextPair>::empty(),
            policy@ == Set::<TextPair>::empty(),
    {
        Self::new()
    }
}

/// Why the message is no request that can be served, if it is none.
pub open spec fn request_violation(request: CultNetMessage) -> Option<Seq<char>> {
    match request {
        CultNetMessage::SnapshotRequest { message_id, schema_ids, record_keys } => first_of(
            empty_violation(message_id@, "message_id"@),
            first_of(
                terms_violation(opt_texts(schema_ids), "requested schema id"@),
                terms_violation(opt_texts(record_keys), "requested record key"@),
            ),
        ),
        _ => Some("expected cultnet.snapshot_request.v0"@),
    }
}

/// The identities of the documents.
pub open spec fn identities(documents: Seq<RawDocument>) -> Seq<(Seq<char>, Seq<char>)> {
    documents.map_values(|document: RawDocument| identity_of_document(document))
}

/// Why the document at the position makes the source unfit to be served, if it does: it
/// was there before, or its schema is not registered.
pub open spec fn source_violation_at(
    registry: CultNetDocumentRegistry,
    documents: Seq<RawDocument>,
    position: int,
) -> Option<Seq<char>> {
    let identity = identity_of_document(documents[position]);
    first_of(
        unless(
            !repeats(identities(documents), position),
            "snapshot source contains duplicate record "@ + record_text(identity),
        ),
        unless(
            member_of(registry.by_schema_id(), documents[position].schema_id) is Some,
            "snapshot source record "@ + record_text(identity) + " uses an unregistered schema"@,
        ),
    )
}

/// Why the source is unfit to be served, if it is.
pub open spec fn source_violation(registry: CultNetDocumentRegistry, documents: Seq<RawDocument>) -> Option<
    Seq<char>,
> {
    first_among(|i: int| source_violation_at(registry, documents, i), documents.len())
}

/// The policy lets the document out, and it is requested.
pub open spec fn is_served(
    policy: Set<(Seq<char>, Seq<char>)>,
    document: RawDocument,
    schema_ids: Option<Seq<Seq<char>>>,
    record_keys: Option<Seq<Seq<char>>>,
) -> bool {
    &&& policy.contains(identity_of_document(document))
    &&& requested(schema_ids, document.schema_id)
    &&& requested(record_keys, document.record_key)
}

/// Those of the first `end` documents that are served, in their order.
pub open spec fn served(
    policy: Set<(Seq<char>, Seq<char>)>,
    documents: Seq<RawDocument>,
    schema_ids: Option<Seq<Seq<char>>>,
    record_keys: Option<Seq<Seq<char>>>,
    end: nat,
) -> Seq<RawDocument>
    decreases end,
{
    if end == 0 {
        Seq::empty()
    } else {
        let earlier = served(policy, documents, schema_ids, record_keys, (end - 1) as nat);
        if is_served(policy, documents[end - 1], schema_ids, record_keys) {
            earlier.push(documents[end - 1])
        } else {
            earlier
        }
    }
}

fn is_repeated_document(documents: &Vec<CultNetRawDocumentRecord>, position: usize) -> (found: bool)
    requires
        position < documents@.len(),
    ensures
        found == repeats(identities(raw_documents(documents@)), position as int),
{
    let ghost all = identities(raw_documents(documents@));
    let mut i: usize = 0;
    while i < position
        invariant
            i <= position < documents@.len(),
            all == identities(raw_documents(documents@)),
            forall|k: int| 0 <= k < i ==> #[trigger] all[k] != all[position as int],
        decreases position - i,
    {
        assert(all[i as int] == (documents@[i as int].schema_id@, documents@[i as int].record_key@));
        assert(all[position as int] == (
            documents@[position as int].schema_id@,
            documents@[position as int].record_key@,
        ));
        if same_text(&documents[i].schema_id, &documents[position].schema_id) && same_text(
            &documents[i].record_key,
            &documents[position].record_key,
        ) {
            assert(all[i as int] == all[position as int]);
            return true;
        }
        i += 1;
    }
    false
}

fn is_asked_for(list: &Option<Vec<String>>, text: &str) -> (found: bool)
    ensures
        found == requested(opt_texts(*list), text@),
{
    match list {
        Some(texts) => lists(texts, text),
        None => true,
    }
}

fn check_request(request: &CultNetMessage) -> (outcome: Result<(), CultNetError>)
    ensures
        reports(outcome, request_violation(*request)),
{
    match request {
        CultNetMessage::SnapshotRequest { message_id, schema_ids, record_keys } => {
            require_non_empty(message_id, "message_id")?;
            reject_duplicates(schema_ids, "requested schema id")?;
            reject_duplicates(record_keys, "requested record key")
        },
        _ => refuse("expected cultnet.snapshot_request.v0"),
    }
}

/// What is served of the source's documents to a request: an exact selection, in their
/// order.
pub open spec fn is_served_response(
    registry: CultNetDocumentRegistry,
    policy: Set<(Seq<char>, Seq<char>)>,
    documents: Seq<RawDocument>,
    request: CultNetMessage,
    outcome: Result<CultNetMessage, CultNetError>,
) -> bool {
    &&& reports(outcome, first_of(request_violation(request), source_violation(registry, documents)))
    &&& outcome matches Ok(response) ==> (request matches CultNetMessage::SnapshotRequest {
        message_id,
        schema_ids,
        record_keys,
    } && response matches CultNetMessage::SnapshotResponseRaw { message_id: id, documents: selected } && {
        &&& id@ == message_id@
        &&& raw_documents(selected@) == served(
            policy,
            documents,
            opt_texts(schema_ids),
            opt_texts(record_keys),
            documents.len(),
        )
    })
}

/// Serves a request from the documents that a source gave.
pub fn select_raw_snapshot(
    document_registry: &CultNetDocumentRegistry,
    policy: &CultNetReadOnlySnapshotPolicy,
    documents: &Vec<CultNetRawDocumentRecord>,
    request: &CultNetMessage,
) -> (outcome: Result<CultNetMessage, CultNetError>)
    ensures
        is_served_response(
            *document_registry,
            policy@,
            raw_documents(documents@),
            *request,
            outcome,
        ),
{
    check_request(request)?;
    match request {
        CultNetMessage::SnapshotRequest { message_id, schema_ids, record_keys } => {
            let ghost all = raw_documents(documents@);
            let ghost ids = opt_texts(*schema_ids);
            let ghost keys = opt_texts(*record_keys);
            let ghost reasons = |i: int| source_violation_at(*document_registry, all, i);
            let mut selected: Vec<CultNetRawDocumentRecord> = Vec::new();
            let mut i: usize = 0;
            assert(raw_documents(selected@) =~= Seq::empty());
            while i < documents.len()
                invariant
                    i <= documents@.len(),
                    all == raw_documents(documents@),
                    ids == opt_texts(*schema_ids),
                    keys == opt_texts(*record_keys),
                    reasons == (|i: int| source_violation_at(*document_registry, all, i)),
                    first_among(reasons, i as nat) is None,
                    request_violation(*request) is None,
                    raw_documents(selected@) == served(policy@, all, ids, keys, i as nat),
                decreases documents@.len() - i,
            {
                let document = &documents[i];
                proof {
                    assert(all[i as int] == document@);
                    assert(reasons(i as int) == source_violation_at(*document_registry, all, i as int));
                    assert(first_among(reasons, (i + 1) as nat) == reasons(i as int));
                    if reasons(i as int) is Some {
                        first_among_stays(reasons, (i + 1) as nat, documents@.len());
                    }
                }
                let name = record_name(&document.schema_id, &document.record_key);
                ensure(
                    !is_repeated_document(documents, i),
                    &joined("snapshot source contains duplicate record ", &name),
                )?;
                ensure(
                    document_registry.binding_by_schema_id(&document.schema_id).is_some(),
                    &joined(
                        &joined("snapshot source record ", &name),
                        " uses an unregistered schema",
                    ),
                )?;
                if policy.allows(&document.schema_id, &document.record_key) && is_asked_for(
                    schema_ids,
                    &document.schema_id,
                ) && is_asked_for(record_keys, &document.record_key) {
                    let ghost sofar = raw_documents(selected@);
                    let copy = document.copy();
                    selected.push(copy);
                    assert(raw_documents(selected@) =~= sofar.push(copy@));
                }
                i += 1;
            }
            Ok(CultNetMessage::SnapshotResponseRaw { message_id: message_id.clone(), documents: selected })
        },
        _ => refuse("expected cultnet.snapshot_request.v0"),
    }
}

/// Serve one raw snapshot request from an explicitly bounded, read-only view.
///
/// The document registry proves that every exposed schema belongs to the
/// runtime. The policy grants individual `(schema_id, record_key)` pairs. The
/// source owns the bytes and metadata; this function only selects records.
pub fn serve_read_only_raw_snapshot<S: CultNetRawSnapshotSource>(
    document_registry: &CultNetDocumentRegistry,
    policy: &CultNetReadOnlySnapshotPolicy,
    source: &S,
    request: &CultNetMessage,
) -> (outcome: Result<CultNetMessage, CultNetError>)
    requires
        source.answers(),
    ensures
        request_violation(*request) is Some ==> reports(outcome, request_violation(*request)),
        request_violation(*request) is None ==> exists|
            reply: Result<Vec<CultNetRawDocumentRecord>, CultNetError>,
        |
            {
                &&& #[trigger] call_ensures(S::raw_snapshot, (source,), reply)
                &&& match reply {
                    Ok(documents) => is_served_response(
                        *document_registry,
                        policy@,
                        raw_documents(documents@),
                        *request,
                        outcome,
                    ),
                    Err(error) => outcome is Err && outcome->Err_0@ == error@,
                }
            },
{
    check_request(request)?;
    let reply = source.raw_snapshot();
    assert(call_ensures(S::raw_snapshot, (source,), reply));
    match reply {
        Ok(documents) => select_raw_snapshot(document_registry, policy, &documents, request),
        Err(error) => Err(error),
    }
}

/// What is served is always something that the policy lets out and that was requested,
/// exactly as the source holds it; and all of that is served.
pub proof fn exactly_the_allowed_and_requested_is_served(
    policy: Set<(Seq<char>, Seq<char>)>,
    documents: Seq<RawDocument>,
    schema_ids: Option<Seq<Seq<char>>>,
    record_keys: Option<Seq<Seq<char>>>,
    end: nat,
    document: RawDocument,
)
    requires
        end <= documents.len(),
    ensures
        served(policy, documents, schema_ids, record_keys, end).contains(document) <==> documents.take(
            end as int,
        ).contains(document) && is_served(policy, document, schema_ids, record_keys),
    decreases end,
{
    let whole = served(policy, documents, schema_ids, record_keys, end);
    if end > 0 {
        let earlier = served(policy, documents, schema_ids, record_keys, (end - 1) as nat);
        exactly_the_allowed_and_requested_is_served(
            policy,
            documents,
            schema_ids,
            record_keys,
            (end - 1) as nat,
            document,
        );
        let last = documents[end - 1];
        let shorter = documents.take(end - 1);
        let longer = documents.take(end as int);
        assert(longer =~= shorter.push(last));
        assert(longer.contains(document) <==> shorter.contains(document) || document == last) by {
            assert(longer[end - 1] == last);
            if shorter.contains(document) {
                let k = choose|k: int| 0 <= k < shorter.len() && shorter[k] == document;
                assert(longer[k] == document);
            }
        }
        if is_served(policy, last, schema_ids, record_keys) {
            assert(whole[whole.len() - 1] == last);
            if earlier.contains(document) {
                let k = choose|k: int| 0 <= k < earlier.len() && earlier[k] == document;
                assert(whole[k] == document);
            }
            if whole.contains(document) {
                let k = choose|k: int| 0 <= k < whole.len() && whole[k] == document;
                assert(k < earlier.len() ==> earlier[k] == document);
            }
        }
    } else {
        assert(whole.len() == 0);
    }
}

// ---------------------------------------------------------------------------
// Asking
// ---------------------------------------------------------------------------

/// What a client expects of the source of a record.
#[derive(Clone, Debug, PartialEq, Eq)]
pub struct CultNetSnapshotSourceExpectation {
    pub runtime_id: Option<String>,
    pub agent_id: Option<String>,
    pub role: Option<String>,
    pub tags: Option<Vec<String>>,
}

impl Default for CultNetSnapshotSourceExpectation {
    fn default() -> (source: Self)
        ensures
            source.runtime_id is None,
            source.agent_id is None,
            source.role is None,
            source.tags is None,
    {
        CultNetSnapshotSourceExpectation { runtime_id: None, agent_id: None, role: None, tags: None }
    }
}

/// A record that a client asks for, and what it expects of its source.
#[derive(Clone, Debug, PartialEq, Eq)]
pub struct CultNetSnapshotRecordExpectation {
    pub schema_id: String,
    pub record_key: String,
    pub source: CultNetSnapshotSourceExpectation,
}

impl CultNetSnapshotRecordExpectation {
    pub fn new(schema_id: &str, record_key: &str) -> (record: Self)
        ensures
            record.schema_id@ == schema_id@,
            record.record_key@ == record_key@,
            record.source.runtime_id is None,
            record.source.agent_id is None,
            record.source.role is None,
            record.source.tags is None,
    {
        CultNetSnapshotRecordExpectation {
            schema_id: schema_id.to_owned(),
            record_key: record_key.to_owned(),
            source: CultNetSnapshotSourceExpectation::default(),
        }
    }
}

/// The schema and the key that are asked for.
pub open spec fn expected_identity(record: CultNetSnapshotRecordExpectation) -> (Seq<char>, Seq<char>) {
    (record.schema_id@, record.record_key@)
}

/// The identities that are asked for.
pub open spec fn expected_identities(records: Seq<CultNetSnapshotRecordExpectation>) -> Seq<
    (Seq<char>, Seq<char>),
> {
    records.map_values(|record: CultNetSnapshotRecordExpectation| expected_identity(record))
}

impl PairKeyed for CultNetSnapshotRecordExpectation {
    open spec fn pair(self) -> TextPair {
        expected_identity(self)
    }

    fn pair_texts(&self) -> (texts: (&str, &str)) {
        (self.schema_id.as_str(), self.record_key.as_str())
    }
}

/// Why the record at the position cannot be asked for, if it cannot.
pub open spec fn expectation_violation_at(
    records: Seq<CultNetSnapshotRecordExpectation>,
    position: int,
) -> Option<Seq<char>> {
    first_of(
        empty_violation(records[position].schema_id@, "schema_id"@),
        first_of(
            empty_violation(records[position].record_key@, "record_key"@),
            unless(
                !repeats(expected_identities(records), position),
                "snapshot query contains duplicate requested record "@ + record_text(
                    expected_identity(records[position]),
                ),
            ),
        ),
    )
}

/// Why the query cannot be asked, if it cannot.
pub open spec fn query_violation(message_id: Seq<char>, records: Seq<CultNetSnapshotRecordExpectation>) -> Option<
    Seq<char>,
> {
    first_of(
        empty_violation(message_id, "message_id"@),
        first_of(
            unless(records.len() > 0, "snapshot query must request at least one record"@),
            first_among(|i: int| expectation_violation_at(records, i), records.len()),
        ),
    )
}

/// A question for exactly the records that a client names.
#[derive(Clone, Debug, PartialEq, Eq)]
pub struct CultNetRawSnapshotQuery {
    message_id: String,
    expectations: Vec<CultNetSnapshotRecordExpectation>,
}

/// Why the field is not the expected one, if it is not.
pub open spec fn metadata_violation(
    field: Seq<char>,
    expected: Option<Seq<char>>,
    actual: Option<Seq<char>>,
    identity: (Seq<char>, Seq<char>),
) -> Option<Seq<char>> {
    match expected {
        Some(wanted) => unless(
            actual == Some(wanted),
            "snapshot response record "@ + record_text(identity) + " has unexpected "@ + field
                + ": expected "@ + debug_text(wanted) + ", got "@ + optional_debug_text(actual),
        ),
        None => None,
    }
}

/// Why the tags are not the expected ones, if they are not.
pub open spec fn tags_violation(
    expected: Option<Seq<Seq<char>>>,
    actual: Option<Seq<Seq<char>>>,
    identity: (Seq<char>, Seq<char>),
) -> Option<Seq<char>> {
    match expected {
        Some(wanted) => unless(
            actual == Some(wanted),
            "snapshot response record "@ + record_text(identity) + " has unexpected tags: expected "@
                + debug_texts(wanted) + ", got "@ + optional_debug_texts(actual),
        ),
        None => None,
    }
}

/// Why the document's source is not the expected one, if it is not.
pub open spec fn source_mismatch(expected: CultNetSnapshotSourceExpectation, document: RawDocument) -> Option<
    Seq<char>,
> {
    let identity = identity_of_document(document);
    first_of(
        metadata_violation(
            "source_runtime_id"@,
            opt(expected.runtime_id),
            document.source_runtime_id,
            identity,
        ),
        first_of(
            metadata_violation(
                "source_agent_id"@,
                opt(expected.agent_id),
                document.source_agent_id,
                identity,
            ),
            first_of(
                metadata_violation("source_role"@, opt(expected.role), document.source_role, identity),
                tags_violation(opt_texts(expected.tags), document.tags, identity),
            ),
        ),
    )
}

/// The position of the first expectation with the identity, if there is one.
pub open spec fn expectation_of(
    records: Seq<CultNetSnapshotRecordExpectation>,
    identity: (Seq<char>, Seq<char>),
    end: nat,
) -> Option<int>
    decreases end,
{
    if end == 0 {
        None
    } else {
        let earlier = expectation_of(records, identity, (end - 1) as nat);
        if earlier is Some {
            earlier
        } else if expected_identity(records[end - 1]) == identity {
            Some(end - 1)
        } else {
            None
        }
    }
}

/// Why the document at the position is not accepted, if it is not: it was there before,
/// it was not asked for, or its source is not the expected one.
pub open spec fn answer_violation_at(
    records: Seq<CultNetSnapshotRecordExpectation>,
    documents: Seq<RawDocument>,
    position: int,
) -> Option<Seq<char>> {
    let document = documents[position];
    let identity = identity_of_document(document);
    if repeats(identities(documents), position) {
        Some("snapshot response contains duplicate record "@ + record_text(identity))
    } else {
        match expectation_of(records, identity, records.len()) {
            None => Some("snapshot response contains unexpected record "@ + record_text(identity)),
            Some(k) => source_mismatch(records[k].source, document),
        }
    }
}

/// Why the answer is not accepted, if it is not.
pub open spec fn answer_violation(
    message_id: Seq<char>,
    records: Seq<CultNetSnapshotRecordExpectation>,
    response: CultNetMessage,
) -> Option<Seq<char>> {
    match response {
        CultNetMessage::SnapshotResponseRaw { message_id: id, documents } => first_of(
            unless(
                id@ == message_id,
                "snapshot response message id "@ + debug_text(id@) + " does not match request "@ + debug_text(
                    message_id,
                ),
            ),
            first_among(
                |i: int| answer_violation_at(records, raw_documents(documents@), i),
                documents@.len(),
            ),
        ),
        _ => Some("expected cultnet.snapshot_response_raw.v0"@),
    }
}

fn require_expected_metadata(
    field: &str,
    expected: &Option<String>,
    actual: &Option<String>,
    schema_id: &str,
    record_key: &str,
) -> (outcome: Result<(), CultNetError>)
    ensures
        reports(
            outcome,
            metadata_violation(field@, opt(*expected), opt(*actual), (schema_id@, record_key@)),
        ),
{
    match expected {
        None => Ok(()),
        Some(wanted) => {
            if holds_text(actual, wanted) {
                return Ok(());
            }
            let start = joined("snapshot response record ", &record_name(schema_id, record_key));
            let named = joined(&joined(&joined(&start, " has unexpected "), field), ": expected ");
            refuse(
                &joined(&joined(&joined(&named, &quoted(wanted)), ", got "), &optional_quoted(actual)),
            )
        },
    }
}

fn require_expected_tags(
    expected: &Option<Vec<String>>,
    actual: &Option<Vec<String>>,
    schema_id: &str,
    record_key: &str,
) -> (outcome: Result<(), CultNetError>)
    ensures
        reports(
            outcome,
            tags_violation(opt_texts(*expected), opt_texts(*actual), (schema_id@, record_key@)),
        ),
{
    match expected {
        None => Ok(()),
        Some(wanted) => {
            let same = match actual {
                Some(found) => same_texts(found, wanted),
                None => false,
            };
            if same {
                return Ok(());
            }
            let start = joined("snapshot response record ", &record_name(schema_id, record_key));
            let named = joined(&start, " has unexpected tags: expected ");
            refuse(
                &joined(
                    &joined(&joined(&named, &quoted_texts(wanted)), ", got "),
                    &optional_quoted_texts(actual),
                ),
            )
        },
    }
}

/// The texts, each once, in their order.
fn sorted_distinct(texts: &Vec<String>) -> (sorted: Vec<String>)
    ensures
        strictly_sorted(views(sorted@)),
        forall|text: Seq<char>| views(sorted@).contains(text) <==> views(texts@).contains(text),
{
    let ghost all = views(texts@);
    let mut map: OrderedMap<bool> = OrderedMap::new();
    let mut i: usize = 0;
    while i < texts.len()
        invariant
            i <= texts@.len(),
            all == views(texts@),
            map.well_formed(),
            forall|text: Seq<char>| (#[trigger] member_of(map@, text)) is Some <==> all.take(i as int).contains(text),
        decreases texts@.len() - i,
    {
        let ghost before_map = map@;
        map.insert(texts[i].clone(), true);
        proof {
            let added = texts@[i as int]@;
            assert(all[i as int] == added);
            assert(all.take(i + 1) =~= all.take(i as int).push(added));
            assert forall|text: Seq<char>| (#[trigger] member_of(map@, text)) is Some <==> all.take(
                i + 1,
            ).contains(text) by {
                a_put_member_is_found(before_map, added, true, text);
                let (shorter, longer) = (all.take(i as int), all.take(i + 1));
                assert(longer[i as int] == added);
                if shorter.contains(text) {
                    let k = choose|k: int| 0 <= k < shorter.len() && shorter[k] == text;
                    assert(longer[k] == text);
                }
                if longer.contains(text) && text != added {
                    let k = choose|k: int| 0 <= k < longer.len() && longer[k] == text;
                    assert(shorter[k] == text);
                }
            }
        }
        i += 1;
    }
    assert(all.take(i as int) =~= all);
    let mut sorted: Vec<String> = Vec::new();
    let mut k: usize = 0;
    while k < map.len()
        invariant
            k <= map@.len(),
            sorted@.len() == k,
            forall|j: int| 0 <= j < k ==> (#[trigger] sorted@[j])@ == map@[j].0,
        decreases map@.len() - k,
    {
        sorted.push(map.key_at(k).clone());
        k += 1;
    }
    proof {
        let list = views(sorted@);
        assert forall|j: int| 0 <= j < list.len() - 1 implies crate::text::before(
            #[trigger] list[j],
            list[j + 1],
        ) by {
            assert(crate::text::before(map@[j + 1 - 1].0, map@[j + 1].0));
        }
        assert forall|text: Seq<char>| list.contains(text) <==> all.contains(text) by {
            keys_are_found(map@, text);
            if list.contains(text) {
                let j = choose|j: int| 0 <= j < list.len() && list[j] == text;
                assert(map@[j].0 == text);
            }
            if member_of(map@, text) is Some {
                let j = choose|j: int| 0 <= j < map@.len() && (#[trigger] map@[j]).0 == text;
                assert(list[j] == text);
            }
        }
    }
    sorted
}

proof fn keys_are_found<V>(members: Seq<(Seq<char>, V)>, key: Seq<char>)
    ensures
        member_of(members, key) is Some <==> exists|i: int| 0 <= i < members.len() && (#[trigger] members[i]).0 == key,
    decreases members.len(),
{
    if members.len() > 0 {
        let rest = members.drop_first();
        keys_are_found(rest, key);
        if exists|i: int| 0 <= i < members.len() && (#[trigger] members[i]).0 == key {
            let i = choose|i: int| 0 <= i < members.len() && (#[trigger] members[i]).0 == key;
            if i > 0 {
                assert(rest[i - 1].0 == key);
            }
        }
        if exists|i: int| 0 <= i < rest.len() && (#[trigger] rest[i]).0 == key {
            let i = choose|i: int| 0 <= i < rest.len() && (#[trigger] rest[i]).0 == key;
            assert(members[i + 1].0 == key);
        }
    }
}

/// The records of a query in the order of their schemas and keys.
fn in_order(message_id: &str, records: Vec<CultNetSnapshotRecordExpectation>) -> (sorted: Vec<
    CultNetSnapshotRecordExpectation,
>)
    requires
        query_violation(message_id@, records@) is None,
    ensures
        ascending(pairs_of(sorted@)),
        sorted@.len() == records@.len(),
        forall|record: CultNetSnapshotRecordExpectation| sorted@.contains(record) <==> records@.contains(record),
        query_violation(message_id@, sorted@) is None,
{
    let ghost all = records@;
    let ghost reasons = |i: int| expectation_violation_at(all, i);
    proof {
        none_among(reasons, all.len());
        assert forall|i: int| 0 <= i < all.len() implies (#[trigger] expectation_violation_at(all, i)) is None by {
            assert(reasons(i) is None);
        }
    }
    let mut sorted: Vec<CultNetSnapshotRecordExpectation> = Vec::new();
    for record in it: records
        invariant
            it.seq() == all,
            forall|i: int| 0 <= i < all.len() ==> (#[trigger] expectation_violation_at(all, i)) is None,
            ascending(pairs_of(sorted@)),
            sorted@.len() == it.index(),
            forall|any: CultNetSnapshotRecordExpectation|
                sorted@.contains(any) <==> all.take(it.index() as int).contains(any),
    {
        let ghost i = it.index() as int;
        proof {
            assert(record == all[i]);
            if pairs_of(sorted@).contains(record.pair()) {
                let k = choose|k: int| 0 <= k < sorted@.len() && pairs_of(sorted@)[k] == record.pair();
                assert(sorted@.contains(sorted@[k]));
                let earlier = all.take(i);
                let j = choose|j: int| 0 <= j < earlier.len() && earlier[j] == sorted@[k];
                assert(expected_identities(all)[j] == expected_identities(all)[i]);
                assert(expectation_violation_at(all, i) is None);
            }
        }
        sorted = insert_in_order(sorted, record);
        proof {
            assert(all.take(i + 1) =~= all.take(i).push(record));
            assert forall|any: CultNetSnapshotRecordExpectation|
                sorted@.contains(any) <==> all.take(i + 1).contains(any) by {
                let (fewer, more) = (all.take(i), all.take(i + 1));
                assert(more[i] == record);
                if fewer.contains(any) {
                    let k = choose|k: int| 0 <= k < fewer.len() && fewer[k] == any;
                    assert(more[k] == any);
                }
                if more.contains(any) && any != record {
                    let k = choose|k: int| 0 <= k < more.len() && more[k] == any;
                    assert(fewer[k] == any);
                }
            }
        }
    }
    proof {
        assert(all.take(all.len() as int) =~= all);
        let reasons = |i: int| expectation_violation_at(sorted@, i);
        assert forall|i: int| 0 <= i < sorted@.len() implies (#[trigger] reasons(i)) is None by {
            assert(sorted@.contains(sorted@[i]));
            let j = choose|j: int| 0 <= j < all.len() && all[j] == sorted@[i];
            assert(expectation_violation_at(all, j) is None);
            let identities = expected_identities(sorted@);
            assert(identities =~= pairs_of(sorted@));
            an_ascending_list_repeats_nothing(identities, i);
        }
        nothing_among(reasons, sorted@.len());
    }
    sorted
}

proof fn an_ascending_list_repeats_nothing(pairs: Seq<TextPair>, position: int)
    requires
        ascending(pairs),
        0 <= position < pairs.len(),
    ensures
        !repeats(pairs, position),
{
    if repeats(pairs, position) {
        let k = choose|k: int| 0 <= k < position && pairs[k] == pairs[position];
        earlier_comes_before(pairs, k, position);
        pairs_are_ordered(pairs[k], pairs[k]);
    }
}

proof fn nothing_among(reasons: spec_fn(int) -> Option<Seq<char>>, end: nat)
    requires
        forall|i: int| 0 <= i < end ==> (#[trigger] reasons(i)) is None,
    ensures
        first_among(reasons, end) is None,
    decreases end,
{
    if end > 0 {
        nothing_among(reasons, (end - 1) as nat);
    }
}

impl CultNetRawSnapshotQuery {
    pub closed spec fn asked_in(self) -> Seq<char> {
        self.message_id@
    }

    pub closed spec fn expected(self) -> Seq<CultNetSnapshotRecordExpectation> {
        self.expectations@
    }

    /// The query can be asked, and its records are in the order of their schemas and keys.
    pub open spec fn well_formed(self) -> bool {
        &&& query_violation(self.asked_in(), self.expected()) is None
        &&& ascending(pairs_of(self.expected()))
    }

    pub fn new(message_id: &str, records: Vec<CultNetSnapshotRecordExpectation>) -> (outcome: Result<
        Self,
        CultNetError,
    >)
        ensures
            reports(outcome, query_violation(message_id@, records@)),
            outcome matches Ok(query) ==> {
                &&& query.asked_in() == message_id@
                &&& query.well_formed()
                &&& query.expected().len() == records@.len()
                &&& forall|record: CultNetSnapshotRecordExpectation|
                    query.expected().contains(record) <==> records@.contains(record)
            },
    {
        require_non_empty(message_id, "message_id")?;
        ensure(records.len() > 0, "snapshot query must request at least one record")?;
        let ghost reasons = |i: int| expectation_violation_at(records@, i);
        let mut i: usize = 0;
        while i < records.len()
            invariant
                i <= records@.len(),
                records@.len() > 0,
                empty_violation(message_id@, "message_id"@) is None,
                reasons == (|i: int| expectation_violation_at(records@, i)),
                first_among(reasons, i as nat) is None,
            decreases records@.len() - i,
        {
            let record = &records[i];
            proof {
                assert(reasons(i as int) == expectation_violation_at(records@, i as int));
                assert(first_among(reasons, (i + 1) as nat) == reasons(i as int));
                if reasons(i as int) is Some {
                    first_among_stays(reasons, (i + 1) as nat, records@.len());
                }
            }
            require_non_empty(&record.schema_id, "schema_id")?;
            require_non_empty(&record.record_key, "record_key")?;
            ensure(
                !is_repeated_expectation(&records, i),
                &joined(
                    "snapshot query contains duplicate requested record ",
                    &record_name(&record.schema_id, &record.record_key),
                ),
            )?;
            i += 1;
        }
        let expectations = in_order(message_id, records);
        Ok(CultNetRawSnapshotQuery { message_id: message_id.to_owned(), expectations })
    }

    /// The message asks in the query's name for the schemas and the keys of its records,
    /// each once and in order.
    pub open spec fn is_request(self, message: CultNetMessage) -> bool {
        message matches CultNetMessage::SnapshotRequest {
            message_id,
            schema_ids: Some(schema_ids),
            record_keys: Some(record_keys),
        } && {
            &&& message_id@ == self.asked_in()
            &&& strictly_sorted(views(schema_ids@))
            &&& strictly_sorted(views(record_keys@))
            &&& forall|text: Seq<char>|
                views(schema_ids@).contains(text) <==> expected_schemas(self.expected()).contains(text)
            &&& forall|text: Seq<char>|
                views(record_keys@).contains(text) <==> expected_keys(self.expected()).contains(text)
        }
    }

    pub fn request(&self) -> (message: CultNetMessage)
        ensures
            self.is_request(message),
    {
        let mut schemas: Vec<String> = Vec::new();
        let mut keys: Vec<String> = Vec::new();
        let mut i: usize = 0;
        while i < self.expectations.len()
            invariant
                i <= self.expectations@.len(),
                schemas@.len() == i,
                keys@.len() == i,
                forall|k: int| 0 <= k < i ==> (#[trigger] schemas@[k])@ == self.expectations@[k].schema_id@,
                forall|k: int| 0 <= k < i ==> (#[trigger] keys@[k])@ == self.expectations@[k].record_key@,
            decreases self.expectations@.len() - i,
        {
            schemas.push(self.expectations[i].schema_id.clone());
            keys.push(self.expectations[i].record_key.clone());
            i += 1;
        }
        assert(views(schemas@) =~= expected_schemas(self.expected()));
        assert(views(keys@) =~= expected_keys(self.expected()));
        CultNetMessage::SnapshotRequest {
            message_id: self.message_id.clone(),
            schema_ids: Some(sorted_distinct(&schemas)),
            record_keys: Some(sorted_distinct(&keys)),
        }
    }

    /// Validate a response and return records without mutating any local cache.
    pub fn accept_response(&self, response: CultNetMessage) -> (outcome: Result<
        Vec<CultNetRawDocumentRecord>,
        CultNetError,
    >)
        ensures
            reports(outcome, answer_violation(self.asked_in(), self.expected(), response)),
            outcome matches Ok(documents) ==> response->SnapshotResponseRaw_documents == documents,
    {
        match response {
            CultNetMessage::SnapshotResponseRaw { message_id, documents } => {
                if !same_text(&message_id, &self.message_id) {
                    let start = joined("snapshot response message id ", &quoted(&message_id));
                    return refuse(
                        &joined(&joined(&start, " does not match request "), &quoted(&self.message_id)),
                    );
                }
                let ghost all = raw_documents(documents@);
                let ghost reasons = |i: int| answer_violation_at(self.expectations@, all, i);
                let mut i: usize = 0;
                while i < documents.len()
                    invariant
                        i <= documents@.len(),
                        all == raw_documents(documents@),
                        message_id@ == self.message_id@,
                        response == (CultNetMessage::SnapshotResponseRaw { message_id, documents }),
                        reasons == (|i: int| answer_violation_at(self.expectations@, all, i)),
                        first_among(reasons, i as nat) is None,
                    decreases documents@.len() - i,
                {
                    let document = &documents[i];
                    proof {
                        assert(all[i as int] == document@);
                        assert(reasons(i as int) == answer_violation_at(self.expectations@, all, i as int));
                        assert(first_among(reasons, (i + 1) as nat) == reasons(i as int));
                        if reasons(i as int) is Some {
                            first_among_stays(reasons, (i + 1) as nat, documents@.len());
                        }
                    }
                    self.accept_document(&documents, i)?;
                    i += 1;
                }
                Ok(documents)
            },
            _ => refuse("expected cultnet.snapshot_response_raw.v0"),
        }
    }

    fn accept_document(&self, documents: &Vec<CultNetRawDocumentRecord>, position: usize) -> (outcome: Result<
        (),
        CultNetError,
    >)
        requires
            position < documents@.len(),
        ensures
            reports(
                outcome,
                answer_violation_at(
                    self.expected(),
                    raw_documents(documents@),
                    position as int,
                ),
            ),
    {
        let document = &documents[position];
        assert(raw_documents(documents@)[position as int] == document@);
        let (schema_id, record_key) = (&document.schema_id, &document.record_key);
        if is_repeated_document(documents, position) {
            return refuse(
                &joined(
                    "snapshot response contains duplicate record ",
                    &record_name(schema_id, record_key),
                ),
            );
        }
        match self.find_expectation(schema_id, record_key) {
            None => refuse(
                &joined(
                    "snapshot response contains unexpected record ",
                    &record_name(schema_id, record_key),
                ),
            ),
            Some(k) => {
                let expected = &self.expectations[k].source;
                require_expected_metadata(
                    "source_runtime_id",
                    &expected.runtime_id,
                    &document.source_runtime_id,
                    schema_id,
                    record_key,
                )?;
                require_expected_metadata(
                    "source_agent_id",
                    &expected.agent_id,
                    &document.source_agent_id,
                    schema_id,
                    record_key,
                )?;
                require_expected_metadata(
                    "source_role",
                    &expected.role,
                    &document.source_role,
                    schema_id,
                    record_key,
                )?;
                require_expected_tags(&expected.tags, &document.tags, schema_id, record_key)
            },
        }
    }

    fn find_expectation(&self, schema_id: &str, record_key: &str) -> (position: Option<usize>)
        ensures
            match position {
                Some(found) => found < self.expected().len() && expectation_of(
                    self.expected(),
                    (schema_id@, record_key@),
                    self.expected().len(),
                ) == Some(found as int),
                None => expectation_of(
                    self.expected(),
                    (schema_id@, record_key@),
                    self.expected().len(),
                ) is None,
            },
    {
        let ghost identity = (schema_id@, record_key@);
        let mut i: usize = 0;
        while i < self.expectations.len()
            invariant
                i <= self.expectations@.len(),
                identity == (schema_id@, record_key@),
                expectation_of(self.expectations@, identity, i as nat) is None,
            decreases self.expectations@.len() - i,
        {
            if same_text(&self.expectations[i].schema_id, schema_id) && same_text(
                &self.expectations[i].record_key,
                record_key,
            ) {
                proof {
                    expectation_stays(
                        self.expectations@,
                        identity,
                        (i + 1) as nat,
                        self.expectations@.len(),
                    );
                }
                return Some(i);
            }
            i += 1;
        }
        None
    }
}

proof fn expectation_stays(
    records: Seq<CultNetSnapshotRecordExpectation>,
    identity: (Seq<char>, Seq<char>),
    start: nat,
    end: nat,
)
    requires
        start <= end,
        expectation_of(records, identity, start) is Some,
    ensures
        expectation_of(records, identity, end) == expectation_of(records, identity, start),
    decreases end,
{
    if start < end {
        expectation_stays(records, identity, start, (end - 1) as nat);
    }
}

/// The schemas that are asked for.
pub open spec fn expected_schemas(records: Seq<CultNetSnapshotRecordExpectation>) -> Seq<Seq<char>> {
    records.map_values(|record: CultNetSnapshotRecordExpectation| record.schema_id@)
}

/// The keys that are asked for.
pub open spec fn expected_keys(records: Seq<CultNetSnapshotRecordExpectation>) -> Seq<Seq<char>> {
    records.map_values(|record: CultNetSnapshotRecordExpectation| record.record_key@)
}

fn is_repeated_expectation(records: &Vec<CultNetSnapshotRecordExpectation>, position: usize) -> (found: bool)
    requires
        position < records@.len(),
    ensures
        found == repeats(expected_identities(records@), position as int),
{
    let ghost all = expected_identities(records@);
    let mut i: usize = 0;
    while i < position
        invariant
            i <= position < records@.len(),
            all == expected_identities(records@),
            forall|k: int| 0 <= k < i ==> #[trigger] all[k] != all[position as int],
        decreases position - i,
    {
        assert(all[i as int] == (records@[i as int].schema_id@, records@[i as int].record_key@));
        assert(all[position as int] == (
            records@[position as int].schema_id@,
            records@[position as int].record_key@,
        ));
        if same_text(&records[i].schema_id, &records[position].schema_id) && same_text(
            &records[i].record_key,
            &records[position].record_key,
        ) {
            assert(all[i as int] == all[position as int]);
            return true;
        }
        i += 1;
    }
    false
}

/// Sends the query's request through the exchange, and accepts its answer.
pub fn query_read_only_raw_snapshot<F: FnOnce(CultNetMessage) -> Result<CultNetMessage, CultNetError>>(
    query: &CultNetRawSnapshotQuery,
    exchange: F,
) -> (outcome: Result<Vec<CultNetRawDocumentRecord>, CultNetError>)
    requires
        forall|message: CultNetMessage| query.is_request(message) ==> #[trigger] exchange.requires((message,)),
    ensures
        exists|message: CultNetMessage, reply: Result<CultNetMessage, CultNetError>|
            {
                &&& query.is_request(message)
                &&& #[trigger] exchange.ensures((message,), reply)
                &&& match reply {
                    Ok(response) => {
                        &&& reports(
                            outcome,
                            answer_violation(query.asked_in(), query.expected(), response),
                        )
                        &&& outcome matches Ok(documents) ==> response->SnapshotResponseRaw_documents
                            == documents
                    },
                    Err(error) => outcome is Err && outcome->Err_0@ == error@,
                }
            },
{
    let message = query.request();
    let reply = exchange(message);
    let ghost (asked, answered) = (message, reply);
    assert(exchange.ensures((asked,), answered));
    match reply {
        Ok(response) => query.accept_response(response),
        Err(error) => Err(error),
    }
}

/// An accepted answer holds each record at most once, none that was not asked for, and
/// each from the source that was expected.
pub proof fn an_accepted_answer_is_exact(
    message_id: Seq<char>,
    records: Seq<CultNetSnapshotRecordExpectation>,
    response: CultNetMessage,
    position: int,
)
    requires
        answer_violation(message_id, records, response) is None,
        0 <= position < response->SnapshotResponseRaw_documents@.len(),
    ensures
        response is SnapshotResponseRaw,
        response->SnapshotResponseRaw_message_id@ == message_id,
        ({
            let documents = raw_documents(response->SnapshotResponseRaw_documents@);
            let document = documents[position];
            &&& !repeats(identities(documents), position)
            &&& expectation_of(records, identity_of_document(document), records.len()) matches Some(k)
                && source_mismatch(records[k].source, document) is None
        }),
{
    let documents = raw_documents(response->SnapshotResponseRaw_documents@);
    let reasons = |i: int| answer_violation_at(records, documents, i);
    none_among(reasons, documents.len());
    assert(reasons(position) is None);
}

/// Queries with one message id for the same records keep the same list, whatever the
/// order in which the records were named.
pub proof fn the_records_decide_the_query(a: CultNetRawSnapshotQuery, b: CultNetRawSnapshotQuery)
    requires
        a.well_formed(),
        b.well_formed(),
        a.asked_in() == b.asked_in(),
        forall|record: CultNetSnapshotRecordExpectation|
            a.expected().contains(record) <==> b.expected().contains(record),
    ensures
        a.expected() == b.expected(),
{
    the_items_decide_the_list(a.expected(), b.expected());
}

}
