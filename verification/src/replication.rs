//! Documents between caches: which schema a document type is bound to, what a snapshot
//! holds, and what a received message asks a cache to store or to drop.
use vstd::prelude::*;
use crate::contracts::validation::opt_texts;
use crate::contracts::{
    CultNetDocumentMutationContract, CultNetDocumentRecord, CultNetMessage,
    CultNetRawDocumentRecord, CultNetRawPayloadEncoding,
};
use crate::envelope::{envelopes, CultCacheEnvelope, Envelope};
use crate::error::{first_among, first_among_stays, refuse, reports, unless, CultNetError};
use crate::json::{
    decode_json, json_from_messagepack, member_of, members_stay_sorted, proper, sorted_members,
    with_member, JsonValue,
};
use crate::ordered_map::{
    a_found_member_is_one, a_last_member_is_put_at_the_end, a_put_member_keeps_what_holds, mapped,
    mapping_keeps_lookups, mapping_keeps_members, mapping_keeps_the_order, OrderedMap,
};
use crate::primitives::now_utc_second;
use crate::text::{
    before, copy_bytes, copy_optional_text, copy_texts, debug_text, joined, lists, opt, quoted,
    same_text, views,
};

verus! {

/// What a put message says beside the document itself.
#[derive(Clone, Debug, PartialEq, Eq)]
pub struct CultNetDocumentPutOptions {
    pub stored_at: Option<String>,
    pub source_runtime_id: Option<String>,
    pub source_agent_id: Option<String>,
    pub source_role: Option<String>,
    pub tags: Option<Vec<String>>,
}

impl Default for CultNetDocumentPutOptions {
    fn default() -> (options: Self)
        ensures
            options.stored_at is None,
            options.source_runtime_id is None,
            options.source_agent_id is None,
            options.source_role is None,
            options.tags is None,
    {
        CultNetDocumentPutOptions {
            stored_at: None,
            source_runtime_id: None,
            source_agent_id: None,
            source_role: None,
            tags: None,
        }
    }
}

// ---------------------------------------------------------------------------
// Bindings
// ---------------------------------------------------------------------------

/// What a mutation contract says.
#[verifier::ext_equal]
pub struct MutationContract {
    pub schema_id: Seq<char>,
    pub contract_id: Seq<char>,
    pub allowed_operations: Seq<Seq<char>>,
}

impl View for CultNetDocumentMutationContract {
    type V = MutationContract;

    open spec fn view(&self) -> MutationContract {
        MutationContract {
            schema_id: self.schema_id@,
            contract_id: self.contract_id@,
            allowed_operations: views(self.allowed_operations@),
        }
    }
}

impl CultNetDocumentMutationContract {
    pub fn copy(&self) -> (copy: Self)
        ensures
            copy@ == self@,
    {
        CultNetDocumentMutationContract {
            schema_id: self.schema_id.clone(),
            contract_id: self.contract_id.clone(),
            allowed_operations: copy_texts(&self.allowed_operations),
        }
    }
}

/// Binds a document type to the schema under which its documents travel.
#[derive(Clone, Debug, PartialEq, Eq)]
pub struct CultNetDocumentBinding {
    pub schema_id: String,
    pub document_type: String,
    pub mutation_contract: Option<CultNetDocumentMutationContract>,
    pub payload_schema_version: Option<String>,
}

/// What a binding says.
#[verifier::ext_equal]
pub struct Binding {
    pub schema_id: Seq<char>,
    pub document_type: Seq<char>,
    pub mutation_contract: Option<MutationContract>,
    pub payload_schema_version: Option<Seq<char>>,
}

impl View for CultNetDocumentBinding {
    type V = Binding;

    open spec fn view(&self) -> Binding {
        Binding {
            schema_id: self.schema_id@,
            document_type: self.document_type@,
            mutation_contract: match self.mutation_contract {
                Some(contract) => Some(contract@),
                None => None,
            },
            payload_schema_version: opt(self.payload_schema_version),
        }
    }
}

impl CultNetDocumentBinding {
    /// Binds the document type to a schema of the same name.
    pub fn for_entry(document_type: &str, payload_schema_version: Option<String>) -> (binding: Self)
        ensures
            binding@ == (Binding {
                schema_id: document_type@,
                document_type: document_type@,
                mutation_contract: None,
                payload_schema_version: opt(payload_schema_version),
            }),
    {
        CultNetDocumentBinding {
            document_type: document_type.to_owned(),
            schema_id: document_type.to_owned(),
            mutation_contract: None,
            payload_schema_version,
        }
    }

    pub fn for_entry_with_schema_id(
        document_type: &str,
        schema_id: &str,
        payload_schema_version: Option<String>,
    ) -> (binding: Self)
        ensures
            binding@ == (Binding {
                schema_id: schema_id@,
                document_type: document_type@,
                mutation_contract: None,
                payload_schema_version: opt(payload_schema_version),
            }),
    {
        CultNetDocumentBinding {
            document_type: document_type.to_owned(),
            schema_id: schema_id.to_owned(),
            mutation_contract: None,
            payload_schema_version,
        }
    }

    pub fn with_mutation_contract(self, contract: CultNetDocumentMutationContract) -> (binding: Self)
        ensures
            binding@ == (Binding { mutation_contract: Some(contract@), ..self@ }),
    {
        CultNetDocumentBinding { mutation_contract: Some(contract), ..self }
    }

    pub fn copy(&self) -> (copy: Self)
        ensures
            copy@ == self@,
    {
        let mutation_contract = match &self.mutation_contract {
            Some(contract) => Some(contract.copy()),
            None => None,
        };
        CultNetDocumentBinding {
            schema_id: self.schema_id.clone(),
            document_type: self.document_type.clone(),
            mutation_contract,
            payload_schema_version: copy_optional_text(&self.payload_schema_version),
        }
    }
}

// ---------------------------------------------------------------------------
// The registry
// ---------------------------------------------------------------------------

/// The bindings that a runtime knows, by document type and by schema.
#[derive(Debug)]
pub struct CultNetDocumentRegistry {
    bindings_by_type: OrderedMap<CultNetDocumentBinding>,
    bindings_by_schema_id: OrderedMap<CultNetDocumentBinding>,
}

/// What is said of a document type that no binding is registered for.
pub open spec fn unbound_refusal(document_type: Seq<char>) -> Seq<char> {
    "No CultNet document binding is registered for "@ + debug_text(document_type)
}

/// What is said of a document whose schema is not the one that its type is bound to.
pub open spec fn mismatch_refusal(schema_id: Seq<char>, document_type: Seq<char>, bound: Seq<char>) -> Seq<char> {
    "schema id "@ + debug_text(schema_id) + " does not match registered Rust type "@ + debug_text(
        document_type,
    ) + " schema "@ + debug_text(bound)
}

/// The list is missing, or holds the text.
pub open spec fn requested(list: Option<Seq<Seq<char>>>, text: Seq<char>) -> bool {
    match list {
        Some(texts) => texts.contains(text),
        None => true,
    }
}

/// The view of an optional borrowed list.
pub open spec fn borrowed_texts(list: Option<&Vec<String>>) -> Option<Seq<Seq<char>>> {
    match list {
        Some(texts) => Some(views(texts@)),
        None => None,
    }
}

fn is_requested(list: Option<&Vec<String>>, text: &str) -> (found: bool)
    ensures
        found == requested(borrowed_texts(list), text@),
{
    match list {
        Some(texts) => lists(texts, text),
        None => true,
    }
}

fn mismatch<T>(schema_id: &str, document_type: &str, bound: &str) -> (outcome: Result<T, CultNetError>)
    ensures
        outcome is Err,
        outcome->Err_0@ == mismatch_refusal(schema_id@, document_type@, bound@),
{
    let start = joined(
        &joined(&joined("schema id ", &quoted(schema_id)), " does not match registered Rust type "),
        &quoted(document_type),
    );
    refuse(&joined(&joined(&start, " schema "), &quoted(bound)))
}

/// What a cache is asked to store under a key.
#[derive(Clone, Debug, PartialEq, Eq)]
pub struct CultNetDocumentWrite {
    pub record_key: String,
    pub payload: JsonValue,
}

/// The bindings come strictly one after the other by their document types, under which
/// they are kept.
pub open spec fn kept_by_type(bindings: Seq<(Seq<char>, Binding)>) -> bool {
    &&& sorted_members(bindings)
    &&& forall|i: int| 0 <= i < bindings.len() ==> (#[trigger] bindings[i]).0 == bindings[i].1.document_type
}

/// The bindings come strictly one after the other by their schemas, under which they are
/// kept.
pub open spec fn kept_by_schema_id(bindings: Seq<(Seq<char>, Binding)>) -> bool {
    &&& sorted_members(bindings)
    &&& forall|i: int| 0 <= i < bindings.len() ==> (#[trigger] bindings[i]).0 == bindings[i].1.schema_id
}

/// What the bindings of the map hold.
pub open spec fn bindings_of(map: OrderedMap<CultNetDocumentBinding>) -> Seq<(Seq<char>, Binding)> {
    mapped(map@, |binding: CultNetDocumentBinding| binding@)
}

fn no_bindings() -> (map: OrderedMap<CultNetDocumentBinding>)
    ensures
        bindings_of(map) == Seq::<(Seq<char>, Binding)>::empty(),
{
    let map: OrderedMap<CultNetDocumentBinding> = OrderedMap::new();
    assert(bindings_of(map) =~= Seq::<(Seq<char>, Binding)>::empty());
    map
}

fn copy_bindings(map: &OrderedMap<CultNetDocumentBinding>) -> (copy: OrderedMap<CultNetDocumentBinding>)
    ensures
        bindings_of(copy) == bindings_of(*map),
{
    let ghost image = |binding: CultNetDocumentBinding| binding@;
    let ghost all = bindings_of(*map);
    proof {
        use_type_invariant(map);
        mapping_keeps_the_order(map@, image);
    }
    let mut copy = no_bindings();
    let mut i: usize = 0;
    assert(bindings_of(copy) =~= all.take(0));
    while i < map.len()
        invariant
            i <= all.len(),
            all == bindings_of(*map),
            sorted_members(all),
            image == (|binding: CultNetDocumentBinding| binding@),
            bindings_of(copy) == all.take(i as int),
        decreases all.len() - i,
    {
        let key = map.key_at(i).clone();
        let binding = map.value_at(i).copy();
        proof {
            use_type_invariant(&copy);
            assert(all[i as int] == (key@, binding@));
            mapping_keeps_members(copy@, key@, binding, image);
            mapping_keeps_the_order(copy@, image);
            if i > 0 {
                assert(before(all[i - 1].0, all[i as int].0));
            }
            a_last_member_is_put_at_the_end(all.take(i as int), key@, binding@);
            assert(all.take(i + 1) =~= all.take(i as int).push(all[i as int]));
        }
        copy.insert(key, binding);
        i += 1;
    }
    assert(all.take(i as int) =~= all);
    copy
}

impl Clone for CultNetDocumentRegistry {
    fn clone(&self) -> (copy: Self)
        ensures
            copy.by_type() == self.by_type(),
            copy.by_schema_id() == self.by_schema_id(),
    {
        proof {
            use_type_invariant(self);
        }
        CultNetDocumentRegistry {
            bindings_by_type: copy_bindings(&self.bindings_by_type),
            bindings_by_schema_id: copy_bindings(&self.bindings_by_schema_id),
        }
    }
}

impl Default for CultNetDocumentRegistry {
    fn default() -> (registry: Self)
        ensures
            registry.by_type() == Seq::<(Seq<char>, Binding)>::empty(),
            registry.by_schema_id() == Seq::<(Seq<char>, Binding)>::empty(),
    {
        CultNetDocumentRegistry::new()
    }
}

impl CultNetDocumentRegistry {
    /// The bindings by document type, in the order of the types.
    pub closed spec fn by_type(self) -> Seq<(Seq<char>, Binding)> {
        bindings_of(self.bindings_by_type)
    }

    /// The bindings by schema, in the order of the schemas.
    pub closed spec fn by_schema_id(self) -> Seq<(Seq<char>, Binding)> {
        bindings_of(self.bindings_by_schema_id)
    }

    #[verifier::type_invariant]
    pub open spec fn well_formed(self) -> bool {
        kept_by_type(self.by_type()) && kept_by_schema_id(self.by_schema_id())
    }

    pub fn new() -> (registry: Self)
        ensures
            registry.by_type() == Seq::<(Seq<char>, Binding)>::empty(),
            registry.by_schema_id() == Seq::<(Seq<char>, Binding)>::empty(),
    {
        CultNetDocumentRegistry { bindings_by_type: no_bindings(), bindings_by_schema_id: no_bindings() }
    }

    /// Registers the binding under its type and under its schema, in the place of what
    /// was there.
    pub fn register(&mut self, binding: CultNetDocumentBinding) -> (registry: &mut Self)
        ensures
            registry.by_type() == with_member(old(self).by_type(), binding.document_type@, binding@),
            registry.by_schema_id() == with_member(
                old(self).by_schema_id(),
                binding.schema_id@,
                binding@,
            ),
            registry.well_formed(),
            *final(self) == *final(registry),
    {
        let copy = binding.copy();
        proof {
            use_type_invariant(&*self);
            let image = |binding: CultNetDocumentBinding| binding@;
            mapping_keeps_members(self.bindings_by_schema_id@, binding.schema_id@, copy, image);
            mapping_keeps_members(self.bindings_by_type@, binding.document_type@, binding, image);
            members_stay_sorted(self.by_schema_id(), binding.schema_id@, binding@);
            members_stay_sorted(self.by_type(), binding.document_type@, binding@);
            a_put_member_keeps_what_holds(
                self.by_schema_id(),
                binding.schema_id@,
                binding@,
                |member: (Seq<char>, Binding)| member.0 == member.1.schema_id,
            );
            a_put_member_keeps_what_holds(
                self.by_type(),
                binding.document_type@,
                binding@,
                |member: (Seq<char>, Binding)| member.0 == member.1.document_type,
            );
        }
        let mut by_schema_id = no_bindings();
        std::mem::swap(&mut by_schema_id, &mut self.bindings_by_schema_id);
        by_schema_id.insert(binding.schema_id.clone(), copy);
        self.bindings_by_schema_id = by_schema_id;
        let mut by_type = no_bindings();
        std::mem::swap(&mut by_type, &mut self.bindings_by_type);
        by_type.insert(binding.document_type.clone(), binding);
        self.bindings_by_type = by_type;
        self
    }

    pub fn binding(&self, document_type: &str) -> (binding: Option<&CultNetDocumentBinding>)
        ensures
            match binding {
                Some(found) => member_of(self.by_type(), document_type@) == Some(found@) && found.document_type@
                    == document_type@,
                None => member_of(self.by_type(), document_type@) is None,
            },
    {
        proof {
            use_type_invariant(self);
            a_found_member_is_one(self.by_type(), document_type@);
            mapping_keeps_lookups(
                self.bindings_by_type@,
                document_type@,
                |binding: CultNetDocumentBinding| binding@,
            );
        }
        self.bindings_by_type.get(document_type)
    }

    pub fn binding_by_schema_id(&self, schema_id: &str) -> (binding: Option<&CultNetDocumentBinding>)
        ensures
            match binding {
                Some(found) => member_of(self.by_schema_id(), schema_id@) == Some(found@) && found.schema_id@
                    == schema_id@,
                None => member_of(self.by_schema_id(), schema_id@) is None,
            },
    {
        proof {
            use_type_invariant(self);
            a_found_member_is_one(self.by_schema_id(), schema_id@);
            mapping_keeps_lookups(
                self.bindings_by_schema_id@,
                schema_id@,
                |binding: CultNetDocumentBinding| binding@,
            );
        }
        self.bindings_by_schema_id.get(schema_id)
    }

    /// The mutation contracts of the bindings, in the order of the document types.
    pub fn mutation_contracts(&self) -> (contracts: Vec<CultNetDocumentMutationContract>)
        ensures
            contracts@.map_values(|contract: CultNetDocumentMutationContract| contract@)
                == contracts_among(self.by_type(), self.by_type().len()),
            kept_by_type(self.by_type()),
    {
        proof {
            use_type_invariant(self);
        }
        let mut contracts: Vec<CultNetDocumentMutationContract> = Vec::new();
        let mut i: usize = 0;
        let ghost image = |contract: CultNetDocumentMutationContract| contract@;
        assert(contracts@.map_values(image) =~= Seq::<MutationContract>::empty());
        while i < self.bindings_by_type.len()
            invariant
                i <= self.by_type().len(),
                image == (|contract: CultNetDocumentMutationContract| contract@),
                contracts@.map_values(image) == contracts_among(self.by_type(), i as nat),
            decreases self.by_type().len() - i,
        {
            let binding = self.bindings_by_type.value_at(i);
            assert(self.by_type()[i as int].1 == binding@);
            if let Some(contract) = &binding.mutation_contract {
                let ghost sofar = contracts@.map_values(image);
                let copy = contract.copy();
                contracts.push(copy);
                assert(contracts@.map_values(image) =~= sofar.push(copy@));
            }
            i += 1;
        }
        contracts
    }

    fn require_binding(&self, document_type: &str) -> (outcome: Result<&CultNetDocumentBinding, CultNetError>)
        ensures
            reports(
                outcome,
                unless(
                    member_of(self.by_type(), document_type@) is Some,
                    unbound_refusal(document_type@),
                ),
            ),
            outcome matches Ok(binding) ==> member_of(self.by_type(), document_type@) == Some(binding@),
    {
        match self.binding(document_type) {
            Some(binding) => Ok(binding),
            None => refuse(
                &joined("No CultNet document binding is registered for ", &quoted(document_type)),
            ),
        }
    }

    /// The message that puts a document of the type; where no time of storage is given,
    /// the time is now.
    pub fn create_document_put_message(
        &self,
        document_type: &str,
        message_id: &str,
        record_key: &str,
        payload: JsonValue,
        options: CultNetDocumentPutOptions,
    ) -> (outcome: Result<CultNetMessage, CultNetError>)
        ensures
            reports(
                outcome,
                unless(
                    member_of(self.by_type(), document_type@) is Some,
                    unbound_refusal(document_type@),
                ),
            ),
            outcome matches Ok(message) ==> (message matches CultNetMessage::DocumentPut {
                message_id: id,
                document,
            } && {
                &&& id@ == message_id@
                &&& document.schema_id@ == member_of(self.by_type(), document_type@)->0.schema_id
                &&& document.record_key@ == record_key@
                &&& options.stored_at matches Some(time) ==> document.stored_at@ == time@
                &&& document.payload@ == payload@
                &&& opt(document.source_runtime_id) == opt(options.source_runtime_id)
                &&& opt(document.source_agent_id) == opt(options.source_agent_id)
                &&& opt(document.source_role) == opt(options.source_role)
                &&& opt_texts(document.tags) == opt_texts(options.tags)
            }),
    {
        let binding = self.require_binding(document_type)?;
        let stored_at = match options.stored_at {
            Some(time) => time,
            None => now_utc_second(),
        };
        Ok(
            CultNetMessage::DocumentPut {
                message_id: message_id.to_owned(),
                document: CultNetDocumentRecord {
                    schema_id: binding.schema_id.clone(),
                    record_key: record_key.to_owned(),
                    stored_at,
                    payload,
                    source_runtime_id: options.source_runtime_id,
                    source_agent_id: options.source_agent_id,
                    source_role: options.source_role,
                    tags: options.tags,
                },
            },
        )
    }

    pub fn create_document_delete_message(&self, message_id: &str, schema_id: &str, record_key: &str) -> (message:
        CultNetMessage)
        ensures
            message matches CultNetMessage::DocumentDelete { message_id: id, schema_id: schema, record_key: key }
                && id@ == message_id@ && schema@ == schema_id@ && key@ == record_key@,
    {
        CultNetMessage::DocumentDelete {
            message_id: message_id.to_owned(),
            schema_id: schema_id.to_owned(),
            record_key: record_key.to_owned(),
        }
    }

    pub fn create_raw_document_put_message_from_envelope(
        &self,
        message_id: &str,
        envelope: &CultCacheEnvelope,
    ) -> (outcome: Result<CultNetMessage, CultNetError>)
        ensures
            reports(
                outcome,
                unless(
                    member_of(self.by_type(), envelope.entry_type@) is Some,
                    unbound_refusal(envelope.entry_type@),
                ),
            ),
            outcome matches Ok(message) ==> (message matches CultNetMessage::DocumentPutRaw {
                message_id: id,
                document,
            } && id@ == message_id@ && self.is_raw_document_of(document, envelope@)),
    {
        Ok(
            CultNetMessage::DocumentPutRaw {
                message_id: message_id.to_owned(),
                document: self.raw_document_record_from_envelope(envelope)?,
            },
        )
    }

    /// The document holds what the envelope does, under the schema of its type, with its
    /// payload as it is.
    pub open spec fn is_raw_document_of(self, document: CultNetRawDocumentRecord, envelope: Envelope) -> bool {
        &&& member_of(self.by_type(), envelope.entry_type) matches Some(binding) && document.schema_id@
            == binding.schema_id
        &&& document.record_key@ == envelope.key
        &&& document.stored_at@ == envelope.stored_at
        &&& document.payload_encoding == CultNetRawPayloadEncoding::Messagepack
        &&& document.payload@ == envelope.payload
        &&& document.source_runtime_id is None
        &&& document.source_agent_id is None
        &&& document.source_role is None
        &&& document.tags is None
    }

    /// The document holds what the envelope does, under the schema of its type, with its
    /// payload decoded.
    pub open spec fn is_document_of(self, document: CultNetDocumentRecord<JsonValue>, envelope: Envelope) -> bool {
        &&& member_of(self.by_type(), envelope.entry_type) matches Some(binding) && document.schema_id@
            == binding.schema_id
        &&& document.record_key@ == envelope.key
        &&& document.stored_at@ == envelope.stored_at
        &&& json_from_messagepack(envelope.payload) == Some(document.payload@)
        &&& proper(document.payload@)
        &&& document.source_runtime_id is None
        &&& document.source_agent_id is None
        &&& document.source_role is None
        &&& document.tags is None
    }

    fn raw_document_record_from_envelope(&self, envelope: &CultCacheEnvelope) -> (outcome: Result<
        CultNetRawDocumentRecord,
        CultNetError,
    >)
        ensures
            reports(
                outcome,
                unless(
                    member_of(self.by_type(), envelope.entry_type@) is Some,
                    unbound_refusal(envelope.entry_type@),
                ),
            ),
            outcome matches Ok(document) ==> self.is_raw_document_of(document, envelope@),
    {
        let binding = self.require_binding(&envelope.entry_type)?;
        Ok(
            CultNetRawDocumentRecord {
                schema_id: binding.schema_id.clone(),
                record_key: envelope.key.clone(),
                stored_at: envelope.stored_at.clone(),
                payload_encoding: CultNetRawPayloadEncoding::Messagepack,
                payload: copy_bytes(&envelope.payload),
                source_runtime_id: None,
                source_agent_id: None,
                source_role: None,
                tags: None,
            },
        )
    }

    fn document_record_from_envelope(&self, envelope: &CultCacheEnvelope) -> (outcome: Result<
        CultNetDocumentRecord<JsonValue>,
        CultNetError,
    >)
        requires
            member_of(self.by_type(), envelope.entry_type@) is Some,
        ensures
            reports(
                outcome,
                unless(
                    json_from_messagepack(envelope.payload@) is Some,
                    undecodable_refusal(envelope@),
                ),
            ),
            outcome matches Ok(document) ==> self.is_document_of(document, envelope@),
    {
        let binding = self.require_binding(&envelope.entry_type)?;
        match decode_json(&envelope.payload) {
            Some(payload) => Ok(
                CultNetDocumentRecord {
                    schema_id: binding.schema_id.clone(),
                    record_key: envelope.key.clone(),
                    stored_at: envelope.stored_at.clone(),
                    payload,
                    source_runtime_id: None,
                    source_agent_id: None,
                    source_role: None,
                    tags: None,
                },
            ),
            None => {
                let start = joined(
                    "failed to decode CultCache envelope ",
                    &quoted(&envelope.entry_type),
                );
                refuse(
                    &joined(
                        &joined(&joined(&start, " at "), &quoted(&envelope.key)),
                        " as generic CultNet payload",
                    ),
                )
            },
        }
    }

    /// The envelope's schema and key are among those that are requested.
    pub open spec fn selects(
        self,
        envelope: Envelope,
        schema_ids: Option<Seq<Seq<char>>>,
        record_keys: Option<Seq<Seq<char>>>,
    ) -> bool {
        member_of(self.by_type(), envelope.entry_type) matches Some(binding) && requested(
            schema_ids,
            binding.schema_id,
        ) && requested(record_keys, envelope.key)
    }

    /// The positions, among the first `end`, of the envelopes that are requested.
    pub open spec fn selection(
        self,
        snapshot: Seq<Envelope>,
        schema_ids: Option<Seq<Seq<char>>>,
        record_keys: Option<Seq<Seq<char>>>,
        end: nat,
    ) -> Seq<int>
        decreases end,
    {
        if end == 0 {
            Seq::empty()
        } else {
            let earlier = self.selection(snapshot, schema_ids, record_keys, (end - 1) as nat);
            if self.selects(snapshot[end - 1], schema_ids, record_keys) {
                earlier.push(end - 1)
            } else {
                earlier
            }
        }
    }

    /// Why the envelope at the position stops a snapshot, if it does.
    pub open spec fn snapshot_violation_at(
        self,
        snapshot: Seq<Envelope>,
        schema_ids: Option<Seq<Seq<char>>>,
        record_keys: Option<Seq<Seq<char>>>,
        decoded: bool,
        position: int,
    ) -> Option<Seq<char>> {
        let envelope = snapshot[position];
        if member_of(self.by_type(), envelope.entry_type) is None {
            Some(unbound_refusal(envelope.entry_type))
        } else if decoded && self.selects(envelope, schema_ids, record_keys) && json_from_messagepack(
            envelope.payload,
        ) is None {
            Some(undecodable_refusal(envelope))
        } else {
            None
        }
    }

    /// Why there is no snapshot, if there is none.
    pub open spec fn snapshot_violation(
        self,
        snapshot: Seq<Envelope>,
        schema_ids: Option<Seq<Seq<char>>>,
        record_keys: Option<Seq<Seq<char>>>,
        decoded: bool,
    ) -> Option<Seq<char>> {
        first_among(
            |i: int| self.snapshot_violation_at(snapshot, schema_ids, record_keys, decoded, i),
            snapshot.len(),
        )
    }

    /// The requested documents of a cache's snapshot, decoded.
    pub fn create_snapshot_response(
        &self,
        snapshot: &Vec<CultCacheEnvelope>,
        message_id: &str,
        schema_ids: Option<&Vec<String>>,
        record_keys: Option<&Vec<String>>,
    ) -> (outcome: Result<CultNetMessage, CultNetError>)
        ensures
            reports(
                outcome,
                self.snapshot_violation(
                    envelopes(snapshot@),
                    borrowed_texts(schema_ids),
                    borrowed_texts(record_keys),
                    true,
                ),
            ),
            outcome matches Ok(message) ==> (message matches CultNetMessage::SnapshotResponse {
                message_id: id,
                documents,
            } && {
                let chosen = self.selection(
                    envelopes(snapshot@),
                    borrowed_texts(schema_ids),
                    borrowed_texts(record_keys),
                    snapshot@.len(),
                );
                &&& id@ == message_id@
                &&& documents@.len() == chosen.len()
                &&& forall|i: int|
                    0 <= i < chosen.len() ==> self.is_document_of(
                        #[trigger] documents@[i],
                        envelopes(snapshot@)[chosen[i]],
                    )
            }),
    {
        let ghost all = envelopes(snapshot@);
        let ghost ids = borrowed_texts(schema_ids);
        let ghost keys = borrowed_texts(record_keys);
        let ghost reasons = |i: int| self.snapshot_violation_at(all, ids, keys, true, i);
        let mut documents: Vec<CultNetDocumentRecord<JsonValue>> = Vec::new();
        let mut i: usize = 0;
        while i < snapshot.len()
            invariant
                i <= snapshot@.len(),
                all == envelopes(snapshot@),
                ids == borrowed_texts(schema_ids),
                keys == borrowed_texts(record_keys),
                reasons == (|i: int| self.snapshot_violation_at(all, ids, keys, true, i)),
                first_among(reasons, i as nat) is None,
                documents@.len() == self.selection(all, ids, keys, i as nat).len(),
                forall|k: int|
                    0 <= k < documents@.len() ==> self.is_document_of(
                        #[trigger] documents@[k],
                        all[self.selection(all, ids, keys, i as nat)[k]],
                    ),
            decreases snapshot@.len() - i,
        {
            let envelope = &snapshot[i];
            proof {
                assert(all[i as int] == envelope@);
                assert(reasons(i as int) == self.snapshot_violation_at(all, ids, keys, true, i as int));
                assert(first_among(reasons, (i + 1) as nat) == reasons(i as int));
                if reasons(i as int) is Some {
                    first_among_stays(reasons, (i + 1) as nat, snapshot@.len());
                }
            }
            let binding = self.require_binding(&envelope.entry_type)?;
            if is_requested(schema_ids, &binding.schema_id) && is_requested(record_keys, &envelope.key) {
                let document = self.document_record_from_envelope(envelope)?;
                documents.push(document);
            }
            i += 1;
        }
        Ok(CultNetMessage::SnapshotResponse { message_id: message_id.to_owned(), documents })
    }

    /// The requested documents of a cache's snapshot, as they are stored.
    pub fn create_raw_snapshot_response(
        &self,
        snapshot: &Vec<CultCacheEnvelope>,
        message_id: &str,
        schema_ids: Option<&Vec<String>>,
        record_keys: Option<&Vec<String>>,
    ) -> (outcome: Result<CultNetMessage, CultNetError>)
        ensures
            reports(
                outcome,
                self.snapshot_violation(
                    envelopes(snapshot@),
                    borrowed_texts(schema_ids),
                    borrowed_texts(record_keys),
                    false,
                ),
            ),
            outcome matches Ok(message) ==> (message matches CultNetMessage::SnapshotResponseRaw {
                message_id: id,
                documents,
            } && {
                let chosen = self.selection(
                    envelopes(snapshot@),
                    borrowed_texts(schema_ids),
                    borrowed_texts(record_keys),
                    snapshot@.len(),
                );
                &&& id@ == message_id@
                &&& documents@.len() == chosen.len()
                &&& forall|i: int|
                    0 <= i < chosen.len() ==> self.is_raw_document_of(
                        #[trigger] documents@[i],
                        envelopes(snapshot@)[chosen[i]],
                    )
            }),
    {
        let ghost all = envelopes(snapshot@);
        let ghost ids = borrowed_texts(schema_ids);
        let ghost keys = borrowed_texts(record_keys);
        let ghost reasons = |i: int| self.snapshot_violation_at(all, ids, keys, false, i);
        let mut documents: Vec<CultNetRawDocumentRecord> = Vec::new();
        let mut i: usize = 0;
        while i < snapshot.len()
            invariant
                i <= snapshot@.len(),
                all == envelopes(snapshot@),
                ids == borrowed_texts(schema_ids),
                keys == borrowed_texts(record_keys),
                reasons == (|i: int| self.snapshot_violation_at(all, ids, keys, false, i)),
                first_among(reasons, i as nat) is None,
                documents@.len() == self.selection(all, ids, keys, i as nat).len(),
                forall|k: int|
                    0 <= k < documents@.len() ==> self.is_raw_document_of(
                        #[trigger] documents@[k],
                        all[self.selection(all, ids, keys, i as nat)[k]],
                    ),
            decreases snapshot@.len() - i,
        {
            let envelope = &snapshot[i];
            proof {
                assert(all[i as int] == envelope@);
                assert(reasons(i as int) == self.snapshot_violation_at(all, ids, keys, false, i as int));
                assert(first_among(reasons, (i + 1) as nat) == reasons(i as int));
                if reasons(i as int) is Some {
                    first_among_stays(reasons, (i + 1) as nat, snapshot@.len());
                }
            }
            let binding = self.require_binding(&envelope.entry_type)?;
            if is_requested(schema_ids, &binding.schema_id) && is_requested(record_keys, &envelope.key) {
                let document = self.raw_document_record_from_envelope(envelope)?;
                documents.push(document);
            }
            i += 1;
        }
        Ok(CultNetMessage::SnapshotResponseRaw { message_id: message_id.to_owned(), documents })
    }

    // -----------------------------------------------------------------------
    // Applying
    // -----------------------------------------------------------------------

    /// Why a document with the schema is not one of the type, if it is not.
    pub open spec fn schema_violation(self, document_type: Seq<char>, schema_id: Seq<char>) -> Option<Seq<char>> {
        match member_of(self.by_type(), document_type) {
            None => Some(unbound_refusal(document_type)),
            Some(binding) => unless(
                schema_id == binding.schema_id,
                mismatch_refusal(schema_id, document_type, binding.schema_id),
            ),
        }
    }

    fn require_schema(&self, document_type: &str, schema_id: &str) -> (outcome: Result<
        &CultNetDocumentBinding,
        CultNetError,
    >)
        ensures
            reports(outcome, self.schema_violation(document_type@, schema_id@)),
            outcome matches Ok(binding) ==> member_of(self.by_type(), document_type@) == Some(binding@),
    {
        let binding = self.require_binding(document_type)?;
        if !same_text(schema_id, &binding.schema_id) {
            return mismatch(schema_id, document_type, &binding.schema_id);
        }
        Ok(binding)
    }

    /// What the put message asks a cache of the document type to store.
    pub fn apply_document_put_message(&self, document_type: &str, message: &CultNetMessage) -> (outcome: Result<
        CultNetDocumentWrite,
        CultNetError,
    >)
        ensures
            match message {
                CultNetMessage::DocumentPut { message_id, document } => {
                    &&& reports(outcome, self.schema_violation(document_type@, document.schema_id@))
                    &&& outcome matches Ok(write) ==> write.record_key@ == document.record_key@
                        && write.payload@ == document.payload@
                },
                _ => outcome is Err && outcome->Err_0@ == "expected cultnet.document_put.v0"@,
            },
    {
        match message {
            CultNetMessage::DocumentPut { message_id: _, document } => {
                self.require_schema(document_type, &document.schema_id)?;
                Ok(
                    CultNetDocumentWrite {
                        record_key: document.record_key.clone(),
                        payload: document.payload.copy(),
                    },
                )
            },
            _ => refuse("expected cultnet.document_put.v0"),
        }
    }

    /// The key under which the delete message asks a cache of the document type to drop.
    pub fn apply_document_delete_message(&self, document_type: &str, message: &CultNetMessage) -> (outcome: Result<
        String,
        CultNetError,
    >)
        ensures
            match message {
                CultNetMessage::DocumentDelete { message_id, schema_id, record_key } => {
                    &&& reports(outcome, self.schema_violation(document_type@, schema_id@))
                    &&& outcome matches Ok(key) ==> key@ == record_key@
                },
                _ => outcome is Err && outcome->Err_0@ == "expected cultnet.document_delete.v0"@,
            },
    {
        match message {
            CultNetMessage::DocumentDelete { message_id: _, schema_id, record_key } => {
                self.require_schema(document_type, schema_id)?;
                Ok(record_key.clone())
            },
            _ => refuse("expected cultnet.document_delete.v0"),
        }
    }

    /// The envelope that a raw document becomes in a cache of the document type: its
    /// payload is the document's, byte for byte.
    pub open spec fn stored_form(document: CultNetRawDocumentRecord, document_type: Seq<char>) -> Envelope {
        Envelope {
            key: document.record_key@,
            entry_type: document_type,
            payload: document.payload@,
            stored_at: document.stored_at@,
            schema_id: None,
        }
    }

    fn raw_envelope(document: &CultNetRawDocumentRecord, document_type: &str) -> (envelope: CultCacheEnvelope)
        ensures
            envelope@ == Self::stored_form(*document, document_type@),
    {
        CultCacheEnvelope {
            key: document.record_key.clone(),
            entry_type: document_type.to_owned(),
            payload: copy_bytes(&document.payload),
            stored_at: document.stored_at.clone(),
            schema_id: None,
        }
    }

    /// The envelope that the raw put message asks a cache of the document type to store.
    pub fn apply_raw_document_put_message(&self, document_type: &str, message: &CultNetMessage) -> (outcome: Result<
        CultCacheEnvelope,
        CultNetError,
    >)
        ensures
            match message {
                CultNetMessage::DocumentPutRaw { message_id, document } => {
                    &&& reports(outcome, self.schema_violation(document_type@, document.schema_id@))
                    &&& outcome matches Ok(envelope) ==> envelope@ == Self::stored_form(
                        *document,
                        member_of(self.by_type(), document_type@)->0.document_type,
                    )
                },
                _ => outcome is Err && outcome->Err_0@ == "expected cultnet.document_put_raw.v0"@,
            },
    {
        match message {
            CultNetMessage::DocumentPutRaw { message_id: _, document } => {
                let binding = self.require_schema(document_type, &document.schema_id)?;
                Ok(Self::raw_envelope(document, &binding.document_type))
            },
            _ => refuse("expected cultnet.document_put_raw.v0"),
        }
    }

    /// What the snapshot asks a cache of the document type to store: its documents with
    /// the schema of that type, in their order; the others are passed over.
    pub fn apply_snapshot_response(&self, document_type: &str, response: &CultNetMessage) -> (outcome: Result<
        Vec<CultNetDocumentWrite>,
        CultNetError,
    >)
        ensures
            match response {
                CultNetMessage::SnapshotResponse { message_id, documents } => {
                    &&& reports(
                        outcome,
                        unless(
                            member_of(self.by_type(), document_type@) is Some,
                            unbound_refusal(document_type@),
                        ),
                    )
                    &&& outcome matches Ok(writes) ==> {
                        let chosen = with_schema(
                            documents@,
                            member_of(self.by_type(), document_type@)->0.schema_id,
                            documents@.len(),
                        );
                        &&& writes@.len() == chosen.len()
                        &&& forall|i: int|
                            0 <= i < chosen.len() ==> (#[trigger] writes@[i]).record_key@
                                == documents@[chosen[i]].record_key@ && writes@[i].payload@
                                == documents@[chosen[i]].payload@
                    }
                },
                _ => outcome is Err && outcome->Err_0@ == "expected cultnet.snapshot_response.v0"@,
            },
    {
        match response {
            CultNetMessage::SnapshotResponse { message_id: _, documents } => {
                let binding = self.require_binding(document_type)?;
                let ghost schema = binding.schema_id@;
                let mut writes: Vec<CultNetDocumentWrite> = Vec::new();
                let mut i: usize = 0;
                while i < documents.len()
                    invariant
                        i <= documents@.len(),
                        schema == binding.schema_id@,
                        writes@.len() == with_schema(documents@, schema, i as nat).len(),
                        forall|k: int|
                            0 <= k < writes@.len() ==> (#[trigger] writes@[k]).record_key@
                                == documents@[with_schema(documents@, schema, i as nat)[k]].record_key@
                                && writes@[k].payload@ == documents@[with_schema(
                                documents@,
                                schema,
                                i as nat,
                            )[k]].payload@,
                    decreases documents@.len() - i,
                {
                    let document = &documents[i];
                    if same_text(&document.schema_id, &binding.schema_id) {
                        writes.push(
                            CultNetDocumentWrite {
                                record_key: document.record_key.clone(),
                                payload: document.payload.copy(),
                            },
                        );
                    }
                    i += 1;
                }
                Ok(writes)
            },
            _ => refuse("expected cultnet.snapshot_response.v0"),
        }
    }

    /// What comes of a raw snapshot in a cache of the document type: the stored forms of
    /// its documents with the schema of that type, in their order; the others are passed
    /// over.
    pub open spec fn applies_raw_snapshot(
        self,
        document_type: Seq<char>,
        response: CultNetMessage,
        outcome: Result<Vec<CultCacheEnvelope>, CultNetError>,
    ) -> bool {
        match response {
            CultNetMessage::SnapshotResponseRaw { message_id, documents } => {
                &&& reports(
                    outcome,
                    unless(
                        member_of(self.by_type(), document_type) is Some,
                        unbound_refusal(document_type),
                    ),
                )
                &&& outcome matches Ok(stored) ==> {
                    let binding = member_of(self.by_type(), document_type)->0;
                    let chosen = raw_with_schema(documents@, binding.schema_id, documents@.len());
                    &&& stored@.len() == chosen.len()
                    &&& forall|i: int|
                        0 <= i < chosen.len() ==> (#[trigger] stored@[i])@ == Self::stored_form(
                            documents@[chosen[i]],
                            binding.document_type,
                        )
                }
            },
            _ => outcome is Err && outcome->Err_0@ == "expected cultnet.snapshot_response_raw.v0"@,
        }
    }

    /// The envelopes that the raw snapshot asks a cache of the document type to store.
    pub fn apply_raw_snapshot_response(&self, document_type: &str, response: &CultNetMessage) -> (outcome: Result<
        Vec<CultCacheEnvelope>,
        CultNetError,
    >)
        ensures
            self.applies_raw_snapshot(document_type@, *response, outcome),
    {
        match response {
            CultNetMessage::SnapshotResponseRaw { message_id: _, documents } => {
                let binding = self.require_binding(document_type)?;
                let ghost schema = binding.schema_id@;
                let mut stored: Vec<CultCacheEnvelope> = Vec::new();
                let mut i: usize = 0;
                while i < documents.len()
                    invariant
                        i <= documents@.len(),
                        schema == binding.schema_id@,
                        stored@.len() == raw_with_schema(documents@, schema, i as nat).len(),
                        forall|k: int|
                            0 <= k < stored@.len() ==> (#[trigger] stored@[k])@ == Self::stored_form(
                                documents@[raw_with_schema(documents@, schema, i as nat)[k]],
                                binding.document_type@,
                            ),
                    decreases documents@.len() - i,
                {
                    let document = &documents[i];
                    if same_text(&document.schema_id, &binding.schema_id) {
                        stored.push(Self::raw_envelope(document, &binding.document_type));
                    }
                    i += 1;
                }
                Ok(stored)
            },
            _ => refuse("expected cultnet.snapshot_response_raw.v0"),
        }
    }
}

/// What is said of an envelope whose payload JSON cannot hold.
pub open spec fn undecodable_refusal(envelope: Envelope) -> Seq<char> {
    "failed to decode CultCache envelope "@ + debug_text(envelope.entry_type) + " at "@ + debug_text(envelope.key)
        + " as generic CultNet payload"@
}

/// The mutation contracts of the first `end` bindings, in their order.
pub open spec fn contracts_among(bindings: Seq<(Seq<char>, Binding)>, end: nat) -> Seq<MutationContract>
    decreases end,
{
    if end == 0 {
        Seq::empty()
    } else {
        let earlier = contracts_among(bindings, (end - 1) as nat);
        match bindings[end - 1].1.mutation_contract {
            Some(contract) => earlier.push(contract),
            None => earlier,
        }
    }
}

/// The positions, among the first `end`, of the documents with the schema.
pub open spec fn with_schema(
    documents: Seq<CultNetDocumentRecord<JsonValue>>,
    schema_id: Seq<char>,
    end: nat,
) -> Seq<int>
    decreases end,
{
    if end == 0 {
        Seq::empty()
    } else if documents[end - 1].schema_id@ == schema_id {
        with_schema(documents, schema_id, (end - 1) as nat).push(end - 1)
    } else {
        with_schema(documents, schema_id, (end - 1) as nat)
    }
}

/// The positions, among the first `end`, of the raw documents with the schema.
pub open spec fn raw_with_schema(
    documents: Seq<CultNetRawDocumentRecord>,
    schema_id: Seq<char>,
    end: nat,
) -> Seq<int>
    decreases end,
{
    if end == 0 {
        Seq::empty()
    } else if documents[end - 1].schema_id@ == schema_id {
        raw_with_schema(documents, schema_id, (end - 1) as nat).push(end - 1)
    } else {
        raw_with_schema(documents, schema_id, (end - 1) as nat)
    }
}

/// A raw document that is made of an envelope and applied to a cache of the same type
/// becomes an envelope with the same key, type, time and payload, byte for byte.
pub proof fn raw_replication_preserves_what_is_stored(
    registry: CultNetDocumentRegistry,
    document: CultNetRawDocumentRecord,
    envelope: Envelope,
    document_type: Seq<char>,
)
    requires
        registry.is_raw_document_of(document, envelope),
        member_of(registry.by_type(), document_type) matches Some(binding) && binding.document_type
            == envelope.entry_type,
        document_type == envelope.entry_type,
    ensures
        registry.schema_violation(document_type, document.schema_id@) is None,
        ({
            let stored = CultNetDocumentRegistry::stored_form(
                document,
                member_of(registry.by_type(), document_type)->0.document_type,
            );
            &&& stored.key == envelope.key
            &&& stored.entry_type == envelope.entry_type
            &&& stored.payload == envelope.payload
            &&& stored.stored_at == envelope.stored_at
        }),
{
}

/// A registered binding is found under its type and under its schema, and every other
/// type and schema finds what it found before.
pub proof fn a_registered_binding_is_found(
    before: Seq<(Seq<char>, Binding)>,
    key: Seq<char>,
    binding: Binding,
    other: Seq<char>,
)
    ensures
        member_of(with_member(before, key, binding), other) == (if other == key {
            Some(binding)
        } else {
            member_of(before, other)
        }),
{
    crate::json::a_put_member_is_found(before, key, binding, other);
}

}
