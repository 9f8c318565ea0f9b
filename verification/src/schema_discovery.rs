//! Schema discovery: which schemas a peer understands, and how it answers those who ask.
use vstd::prelude::*;
use vstd::utf8::encode_utf8;
use crate::builtin_schemas::{builtin_schemas, BuiltinSchema};
use crate::contracts::validation::opt_texts;
use crate::contracts::{
    CultNetMessage, CultNetSchemaDescriptor, CultNetSchemaKind, CultNetWireContract,
};
use crate::error::{
    ensure, first_among, first_among_stays, first_of, refuse, reports, unless, CultNetError,
};
use crate::json::{
    a_put_member_is_found, canonical_text, json_from_text, member, member_of, members_stay_sorted, parse_json,
    sorted_members, stable_stringify, with_member, Json, JsonValue,
};
use crate::ordered_map::{
    a_found_member_is_one, a_last_member_is_put_at_the_end, a_put_member_keeps_what_holds, earlier_keys_come_before,
    mapped, mapping_keeps_lookups, mapping_keeps_members, mapping_keeps_the_order, OrderedMap,
};
use crate::primitives::{sha256, sha256_digest};
use crate::replication::requested;
use crate::text::{
    before, blank, copy_optional_text, copy_texts, hex, hex_text, is_blank, lists, opt,
    strictly_sorted, text_of_option,
};

verus! {

// ---------------------------------------------------------------------------
// Registrations and descriptors
// ---------------------------------------------------------------------------

/// A schema as it is registered.
#[derive(Clone, Debug, PartialEq, Eq)]
pub struct CultNetSchemaRegistration {
    pub schema_id: String,
    pub kind: CultNetSchemaKind,
    pub wire_contracts: Vec<CultNetWireContract>,
    pub schema_version: Option<String>,
    pub document_type: Option<String>,
    pub title: Option<String>,
    pub schema_json: Option<String>,
}

/// What a registration says.
#[verifier::ext_equal]
pub struct Registration {
    pub schema_id: Seq<char>,
    pub kind: CultNetSchemaKind,
    pub wire_contracts: Seq<CultNetWireContract>,
    pub schema_version: Option<Seq<char>>,
    pub document_type: Option<Seq<char>>,
    pub title: Option<Seq<char>>,
    pub schema_json: Option<Seq<char>>,
}

impl View for CultNetSchemaRegistration {
    type V = Registration;

    open spec fn view(&self) -> Registration {
        Registration {
            schema_id: self.schema_id@,
            kind: self.kind,
            wire_contracts: self.wire_contracts@,
            schema_version: opt(self.schema_version),
            document_type: opt(self.document_type),
            title: opt(self.title),
            schema_json: opt(self.schema_json),
        }
    }
}

/// What a descriptor says.
#[verifier::ext_equal]
pub struct Descriptor {
    pub schema_id: Seq<char>,
    pub kind: CultNetSchemaKind,
    pub schema_version: Option<Seq<char>>,
    pub document_type: Option<Seq<char>>,
    pub title: Option<Seq<char>>,
    pub wire_contracts: Seq<CultNetWireContract>,
    pub content_hash: Seq<char>,
    pub schema_json: Option<Seq<char>>,
}

impl View for CultNetSchemaDescriptor {
    type V = Descriptor;

    open spec fn view(&self) -> Descriptor {
        Descriptor {
            schema_id: self.schema_id@,
            kind: self.kind,
            schema_version: opt(self.schema_version),
            document_type: opt(self.document_type),
            title: opt(self.title),
            wire_contracts: self.wire_contracts@,
            content_hash: self.content_hash@,
            schema_json: opt(self.schema_json),
        }
    }
}

/// The descriptors of a list.
pub open spec fn descriptors(list: Seq<CultNetSchemaDescriptor>) -> Seq<Descriptor> {
    list.map_values(|descriptor: CultNetSchemaDescriptor| descriptor@)
}

/// The canonical hash of a JSON value: the digest of its canonical text.
pub open spec fn content_hash_of(json: Json) -> Seq<char> {
    hex_text(sha256_digest(encode_utf8(canonical_text(json))))
}

/// Why the registration is refused, if it is.
pub open spec fn registration_violation(registration: Registration) -> Option<Seq<char>> {
    if blank(registration.schema_id) {
        Some("schema_id must be non-empty"@)
    } else if registration.wire_contracts.len() == 0 {
        Some("wire_contracts must contain at least one entry"@)
    } else if registration.schema_json is None {
        Some("schema_json is required so discovery can advertise canonical hashes"@)
    } else {
        unless(json_from_text(registration.schema_json->0) is Some, "schema_json is not valid JSON"@)
    }
}

/// The descriptor under which a registered schema is advertised.
pub open spec fn descriptor_of(registration: Registration) -> Descriptor {
    Descriptor {
        schema_id: registration.schema_id,
        kind: registration.kind,
        schema_version: registration.schema_version,
        document_type: registration.document_type,
        title: registration.title,
        wire_contracts: registration.wire_contracts,
        content_hash: content_hash_of(json_from_text(registration.schema_json->0)->0),
        schema_json: registration.schema_json,
    }
}

/// The descriptor with its body, if it is asked for, and otherwise without.
pub open spec fn sanitized(descriptor: Descriptor, include_schema_json: bool) -> Descriptor {
    if include_schema_json {
        descriptor
    } else {
        Descriptor { schema_json: None, ..descriptor }
    }
}

fn copy_contracts(contracts: &Vec<CultNetWireContract>) -> (copy: Vec<CultNetWireContract>)
    ensures
        copy@ == contracts@,
{
    let mut copy: Vec<CultNetWireContract> = Vec::new();
    let mut i: usize = 0;
    while i < contracts.len()
        invariant
            i <= contracts@.len(),
            copy@ == contracts@.take(i as int),
        decreases contracts@.len() - i,
    {
        copy.push(contracts[i]);
        i += 1;
        assert(contracts@.take(i as int) =~= contracts@.take(i - 1).push(contracts@[i - 1]));
    }
    assert(contracts@.take(i as int) =~= contracts@);
    copy
}

fn sanitize_descriptor(descriptor: &CultNetSchemaDescriptor, include_schema_json: bool) -> (copy:
    CultNetSchemaDescriptor)
    ensures
        copy@ == sanitized(descriptor@, include_schema_json),
{
    let schema_json = if include_schema_json {
        copy_optional_text(&descriptor.schema_json)
    } else {
        None
    };
    CultNetSchemaDescriptor {
        schema_id: descriptor.schema_id.clone(),
        kind: descriptor.kind,
        schema_version: copy_optional_text(&descriptor.schema_version),
        document_type: copy_optional_text(&descriptor.document_type),
        title: copy_optional_text(&descriptor.title),
        wire_contracts: copy_contracts(&descriptor.wire_contracts),
        content_hash: descriptor.content_hash.clone(),
        schema_json,
    }
}

/// The canonical hash of the JSON value that the text stands for.
pub fn canonical_schema_hash(schema_json: &str) -> (outcome: Result<String, CultNetError>)
    ensures
        reports(
            outcome,
            unless(json_from_text(schema_json@) is Some, "schema_json is not valid JSON"@),
        ),
        outcome matches Ok(hash) ==> hash@ == content_hash_of(json_from_text(schema_json@)->0),
{
    match parse_json(schema_json) {
        Some(value) => Ok(content_hash(&value)),
        None => refuse("schema_json is not valid JSON"),
    }
}

/// The canonical hash of the value.
pub fn content_hash(value: &JsonValue) -> (hash: String)
    ensures
        hash@ == content_hash_of(value@),
{
    let canonical = stable_stringify(value);
    hex(&sha256(canonical.as_str().as_bytes()))
}

// ---------------------------------------------------------------------------
// The registry
// ---------------------------------------------------------------------------

/// What is asked of a catalog.
#[derive(Clone, Debug, PartialEq, Eq)]
pub struct CultNetSchemaCatalogOptions {
    pub include_schema_json: bool,
    pub schema_ids: Option<Vec<String>>,
    pub kinds: Option<Vec<CultNetSchemaKind>>,
}

impl Default for CultNetSchemaCatalogOptions {
    fn default() -> (options: Self)
        ensures
            !options.include_schema_json,
            options.schema_ids is None,
            options.kinds is None,
    {
        CultNetSchemaCatalogOptions { include_schema_json: false, schema_ids: None, kinds: None }
    }
}

/// The schemas that a peer understands.
#[derive(Debug)]
pub struct CultNetSchemaRegistry {
    entries: OrderedMap<CultNetSchemaDescriptor>,
}

/// The kinds of an optional list.
pub open spec fn opt_kinds(kinds: Option<Vec<CultNetSchemaKind>>) -> Option<Seq<CultNetSchemaKind>> {
    match kinds {
        Some(found) => Some(found@),
        None => None,
    }
}

/// The descriptor's schema and kind are among those that are asked for.
pub open spec fn is_asked_for(
    descriptor: Descriptor,
    schema_ids: Option<Seq<Seq<char>>>,
    kinds: Option<Seq<CultNetSchemaKind>>,
) -> bool {
    &&& requested(schema_ids, descriptor.schema_id)
    &&& kinds matches Some(found) ==> found.contains(descriptor.kind)
}

/// Those of the first `end` descriptors that are asked for, in their order.
pub open spec fn catalog(
    entries: Seq<(Seq<char>, Descriptor)>,
    schema_ids: Option<Seq<Seq<char>>>,
    kinds: Option<Seq<CultNetSchemaKind>>,
    include_schema_json: bool,
    end: nat,
) -> Seq<Descriptor>
    decreases end,
{
    if end == 0 {
        Seq::empty()
    } else {
        let earlier = catalog(entries, schema_ids, kinds, include_schema_json, (end - 1) as nat);
        let descriptor = entries[end - 1].1;
        if is_asked_for(descriptor, schema_ids, kinds) {
            earlier.push(sanitized(descriptor, include_schema_json))
        } else {
            earlier
        }
    }
}

fn lists_kind(kinds: &Vec<CultNetSchemaKind>, kind: CultNetSchemaKind) -> (found: bool)
    ensures
        found == kinds@.contains(kind),
{
    let mut i: usize = 0;
    while i < kinds.len()
        invariant
            i <= kinds@.len(),
            forall|k: int| 0 <= k < i ==> kinds@[k] != kind,
        decreases kinds@.len() - i,
    {
        if kinds[i] == kind {
            assert(kinds@[i as int] == kind);
            return true;
        }
        i += 1;
    }
    false
}

/// Each descriptor is kept under its schema.
pub open spec fn kept_by_schema(entries: Seq<(Seq<char>, Descriptor)>) -> bool {
    forall|i: int| 0 <= i < entries.len() ==> (#[trigger] entries[i]).0 == entries[i].1.schema_id
}

/// Each descriptor has its body.
pub open spec fn kept_with_bodies(entries: Seq<(Seq<char>, Descriptor)>) -> bool {
    forall|i: int| 0 <= i < entries.len() ==> (#[trigger] entries[i]).1.schema_json is Some
}

/// The schemas of the descriptors.
pub open spec fn schemas_of(list: Seq<Descriptor>) -> Seq<Seq<char>> {
    list.map_values(|descriptor: Descriptor| descriptor.schema_id)
}

impl Clone for CultNetSchemaRegistry {
    fn clone(&self) -> (copy: Self)
        ensures
            copy.advertised() == self.advertised(),
    {
        proof {
            use_type_invariant(self);
        }
        let ghost image = |descriptor: CultNetSchemaDescriptor| descriptor@;
        let ghost all = self.advertised();
        let mut entries: OrderedMap<CultNetSchemaDescriptor> = OrderedMap::new();
        let mut i: usize = 0;
        assert(mapped(entries@, image) =~= all.take(0));
        while i < self.entries.len()
            invariant
                i <= all.len(),
                all == self.advertised(),
                sorted_members(all),
                image == (|descriptor: CultNetSchemaDescriptor| descriptor@),
                mapped(entries@, image) == all.take(i as int),
            decreases all.len() - i,
        {
            let key = self.entries.key_at(i).clone();
            let descriptor = sanitize_descriptor(self.entries.value_at(i), true);
            proof {
                use_type_invariant(&entries);
                assert(all[i as int] == (key@, descriptor@));
                mapping_keeps_members(entries@, key@, descriptor, image);
                mapping_keeps_the_order(entries@, image);
                if i > 0 {
                    assert(before(all[i - 1].0, all[i as int].0));
                }
                a_last_member_is_put_at_the_end(all.take(i as int), key@, descriptor@);
                assert(all.take(i + 1) =~= all.take(i as int).push(all[i as int]));
            }
            entries.insert(key, descriptor);
            i += 1;
        }
        assert(all.take(i as int) =~= all);
        CultNetSchemaRegistry { entries }
    }
}

impl Default for CultNetSchemaRegistry {
    fn default() -> (registry: Self)
        ensures
            registry.advertised() == Seq::<(Seq<char>, Descriptor)>::empty(),
    {
        CultNetSchemaRegistry::new()
    }
}

impl CultNetSchemaRegistry {
    /// The descriptors by schema, in the order of the schemas.
    pub closed spec fn advertised(self) -> Seq<(Seq<char>, Descriptor)> {
        mapped(self.entries@, |descriptor: CultNetSchemaDescriptor| descriptor@)
    }

    /// The descriptors come strictly one after the other by their schemas, under which
    /// they are kept, and each has its body.
    #[verifier::type_invariant]
    pub open spec fn well_formed(self) -> bool {
        &&& sorted_members(self.advertised())
        &&& kept_by_schema(self.advertised())
        &&& kept_with_bodies(self.advertised())
    }

    pub fn new() -> (registry: Self)
        ensures
            registry.advertised() == Seq::<(Seq<char>, Descriptor)>::empty(),
    {
        let entries: OrderedMap<CultNetSchemaDescriptor> = OrderedMap::new();
        assert(mapped(entries@, |descriptor: CultNetSchemaDescriptor| descriptor@) =~= Seq::<
            (Seq<char>, Descriptor),
        >::empty());
        CultNetSchemaRegistry { entries }
    }

    /// Registers the schema, in the place of one with its id.
    pub fn register(&mut self, registration: CultNetSchemaRegistration) -> (outcome: Result<(), CultNetError>)
        ensures
            reports(outcome, registration_violation(registration@)),
            final(self).advertised() == (if outcome is Ok {
                with_member(
                    old(self).advertised(),
                    registration.schema_id@,
                    descriptor_of(registration@),
                )
            } else {
                old(self).advertised()
            }),
            final(self).well_formed(),
    {
        proof {
            use_type_invariant(&*self);
        }
        ensure(!is_blank(&registration.schema_id), "schema_id must be non-empty")?;
        ensure(
            registration.wire_contracts.len() > 0,
            "wire_contracts must contain at least one entry",
        )?;
        let content_hash = match &registration.schema_json {
            Some(schema_json) => canonical_schema_hash(schema_json)?,
            None => {
                return refuse(
                    "schema_json is required so discovery can advertise canonical hashes",
                );
            },
        };
        let key = registration.schema_id.clone();
        let descriptor = CultNetSchemaDescriptor {
            schema_id: registration.schema_id,
            kind: registration.kind,
            schema_version: registration.schema_version,
            document_type: registration.document_type,
            title: registration.title,
            wire_contracts: registration.wire_contracts,
            content_hash,
            schema_json: registration.schema_json,
        };
        proof {
            let image = |descriptor: CultNetSchemaDescriptor| descriptor@;
            mapping_keeps_members(self.entries@, key@, descriptor, image);
            members_stay_sorted(self.advertised(), key@, descriptor@);
            a_put_member_keeps_what_holds(
                self.advertised(),
                key@,
                descriptor@,
                |member: (Seq<char>, Descriptor)| member.0 == member.1.schema_id,
            );
            a_put_member_keeps_what_holds(
                self.advertised(),
                key@,
                descriptor@,
                |member: (Seq<char>, Descriptor)| member.1.schema_json is Some,
            );
        }
        let mut entries: OrderedMap<CultNetSchemaDescriptor> = OrderedMap::new();
        assert(mapped(entries@, |descriptor: CultNetSchemaDescriptor| descriptor@) =~= Seq::<
            (Seq<char>, Descriptor),
        >::empty());
        std::mem::swap(&mut entries, &mut self.entries);
        entries.insert(key, descriptor);
        self.entries = entries;
        Ok(())
    }

    pub fn get(&self, schema_id: &str, include_schema_json: bool) -> (descriptor: Option<CultNetSchemaDescriptor>)
        ensures
            match member_of(self.advertised(), schema_id@) {
                Some(found) => descriptor matches Some(copy) && copy@ == sanitized(
                    found,
                    include_schema_json,
                ) && copy.schema_id@ == schema_id@ && (copy.schema_json is Some <==> include_schema_json),
                None => descriptor is None,
            },
    {
        proof {
            use_type_invariant(self);
            a_found_member_is_one(self.advertised(), schema_id@);
            mapping_keeps_lookups(
                self.entries@,
                schema_id@,
                |descriptor: CultNetSchemaDescriptor| descriptor@,
            );
        }
        match self.entries.get(schema_id) {
            Some(entry) => Some(sanitize_descriptor(entry, include_schema_json)),
            None => None,
        }
    }

    /// The descriptors that are asked for, in the order of their schemas.
    pub fn list(&self, options: &CultNetSchemaCatalogOptions) -> (list: Vec<CultNetSchemaDescriptor>)
        ensures
            descriptors(list@) == catalog(
                self.advertised(),
                opt_texts(options.schema_ids),
                opt_kinds(options.kinds),
                options.include_schema_json,
                self.advertised().len(),
            ),
            strictly_sorted(schemas_of(descriptors(list@))),
    {
        proof {
            use_type_invariant(self);
            a_catalog_ascends(
                self.advertised(),
                opt_texts(options.schema_ids),
                opt_kinds(options.kinds),
                options.include_schema_json,
                self.advertised().len(),
            );
        }
        let ghost all = self.advertised();
        let ghost ids = opt_texts(options.schema_ids);
        let ghost kinds = opt_kinds(options.kinds);
        let mut list: Vec<CultNetSchemaDescriptor> = Vec::new();
        let mut i: usize = 0;
        assert(descriptors(list@) =~= Seq::<Descriptor>::empty());
        while i < self.entries.len()
            invariant
                all == self.advertised(),
                ids == opt_texts(options.schema_ids),
                kinds == opt_kinds(options.kinds),
                i <= all.len(),
                descriptors(list@) == catalog(all, ids, kinds, options.include_schema_json, i as nat),
            decreases all.len() - i,
        {
            let entry = self.entries.value_at(i);
            assert(all[i as int].1 == entry@);
            let id_is_asked_for = match &options.schema_ids {
                Some(texts) => lists(texts, &entry.schema_id),
                None => true,
            };
            let kind_is_asked_for = match &options.kinds {
                Some(found) => lists_kind(found, entry.kind),
                None => true,
            };
            if id_is_asked_for && kind_is_asked_for {
                let ghost sofar = descriptors(list@);
                let copy = sanitize_descriptor(entry, options.include_schema_json);
                list.push(copy);
                assert(descriptors(list@) =~= sofar.push(copy@));
            }
            i += 1;
        }
        list
    }

    /// The answer to a catalog request.
    pub fn create_catalog_response(&self, request: &CultNetMessage) -> (outcome: Result<CultNetMessage, CultNetError>)
        ensures
            match request {
                CultNetMessage::SchemaCatalogRequest { message_id, include_schema_json, schema_ids, kinds } => {
                    outcome matches Ok(CultNetMessage::SchemaCatalogResponse { message_id: id, schemas })
                        && id@ == message_id@ && descriptors(schemas@) == catalog(
                        self.advertised(),
                        opt_texts(*schema_ids),
                        opt_kinds(*kinds),
                        *include_schema_json == Some(true),
                        self.advertised().len(),
                    ) && strictly_sorted(schemas_of(descriptors(schemas@)))
                },
                _ => outcome is Err && outcome->Err_0@
                    == "expected cultnet.schema_catalog_request.v0 for schema discovery"@,
            },
    {
        match request {
            CultNetMessage::SchemaCatalogRequest { message_id, include_schema_json, schema_ids, kinds } => {
                let include_schema_json = match include_schema_json {
                    Some(flag) => *flag,
                    None => false,
                };
                let copied_ids = match schema_ids {
                    Some(texts) => Some(copy_texts(texts)),
                    None => None,
                };
                let copied_kinds = match kinds {
                    Some(found) => Some(copy_kinds(found)),
                    None => None,
                };
                let options = CultNetSchemaCatalogOptions {
                    include_schema_json,
                    schema_ids: copied_ids,
                    kinds: copied_kinds,
                };
                Ok(
                    CultNetMessage::SchemaCatalogResponse {
                        message_id: message_id.clone(),
                        schemas: self.list(&options),
                    },
                )
            },
            _ => refuse("expected cultnet.schema_catalog_request.v0 for schema discovery"),
        }
    }
}

fn copy_kinds(kinds: &Vec<CultNetSchemaKind>) -> (copy: Vec<CultNetSchemaKind>)
    ensures
        copy@ == kinds@,
{
    let mut copy: Vec<CultNetSchemaKind> = Vec::new();
    let mut i: usize = 0;
    while i < kinds.len()
        invariant
            i <= kinds@.len(),
            copy@ == kinds@.take(i as int),
        decreases kinds@.len() - i,
    {
        copy.push(kinds[i]);
        i += 1;
        assert(kinds@.take(i as int) =~= kinds@.take(i - 1).push(kinds@[i - 1]));
    }
    assert(kinds@.take(i as int) =~= kinds@);
    copy
}

// ---------------------------------------------------------------------------
// The built-in schemas
// ---------------------------------------------------------------------------

/// The text of a member that is one.
pub open spec fn text_of_member(json: Json, key: Seq<char>) -> Option<Seq<char>> {
    match member(json, key) {
        Some(Json::Text(text)) => Some(text),
        _ => None,
    }
}

fn read_member_text(json: &JsonValue, key: &str) -> (text: Option<String>)
    ensures
        opt(text) == text_of_member(json@, key@),
{
    match json.get(key) {
        Some(JsonValue::Text(text)) => Some(text.clone()),
        _ => None,
    }
}

/// Why the text of a schema does not make a registration, if it does not.
pub open spec fn schema_text_violation(schema_json: Seq<char>) -> Option<Seq<char>> {
    match json_from_text(schema_json) {
        None => Some("schema is not valid JSON"@),
        Some(json) => unless(text_of_member(json, "$id"@) is Some, "schema is missing $id"@),
    }
}

/// The registration that the text of a schema makes: id and title are its own.
pub open spec fn registration_of(
    schema_json: Seq<char>,
    kind: CultNetSchemaKind,
    wire_contracts: Seq<CultNetWireContract>,
    schema_version: Option<Seq<char>>,
    document_type: Option<Seq<char>>,
) -> Registration {
    let json = json_from_text(schema_json)->0;
    Registration {
        schema_id: text_of_member(json, "$id"@)->0,
        kind,
        wire_contracts,
        schema_version,
        document_type,
        title: text_of_member(json, "title"@),
        schema_json: Some(schema_json),
    }
}

pub fn schema_registration(
    schema_json: &str,
    kind: CultNetSchemaKind,
    wire_contracts: Vec<CultNetWireContract>,
    schema_version: Option<&str>,
    document_type: Option<&str>,
) -> (outcome: Result<CultNetSchemaRegistration, CultNetError>)
    ensures
        reports(outcome, schema_text_violation(schema_json@)),
        outcome matches Ok(registration) ==> registration@ == registration_of(
            schema_json@,
            kind,
            wire_contracts@,
            text_of_option(schema_version),
            text_of_option(document_type),
        ),
{
    let value = match parse_json(schema_json) {
        Some(value) => value,
        None => {
            return refuse("schema is not valid JSON");
        },
    };
    let schema_id = match read_member_text(&value, "$id") {
        Some(text) => text,
        None => {
            return refuse("schema is missing $id");
        },
    };
    let schema_version = match schema_version {
        Some(text) => Some(text.to_owned()),
        None => None,
    };
    let document_type = match document_type {
        Some(text) => Some(text.to_owned()),
        None => None,
    };
    Ok(
        CultNetSchemaRegistration {
            schema_id,
            kind,
            wire_contracts,
            schema_version,
            document_type,
            title: read_member_text(&value, "title"),
            schema_json: Some(schema_json.to_owned()),
        },
    )
}

/// The contracts that carry what a built-in schema describes.
pub open spec fn builtin_contracts(schema: BuiltinSchema) -> Seq<CultNetWireContract> {
    if schema.legacy {
        seq![CultNetWireContract::CultNetSchemaV0, CultNetWireContract::GameCultNetworkingV0]
    } else {
        seq![CultNetWireContract::CultNetSchemaV0]
    }
}

/// The registration of a built-in schema.
pub open spec fn builtin_registration(schema: BuiltinSchema) -> Registration {
    registration_of(
        schema.schema_json@,
        schema.kind,
        builtin_contracts(schema),
        text_of_option(schema.schema_version),
        text_of_option(schema.document_type),
    )
}

/// Why the schemas do not make a registry, if they do not: the first text that makes no
/// registration, and else the first registration that is refused.
pub open spec fn builtin_violation(schemas: Seq<BuiltinSchema>) -> Option<Seq<char>> {
    first_of(
        first_among(|i: int| schema_text_violation(schemas[i].schema_json@), schemas.len()),
        first_among(|i: int| registration_violation(builtin_registration(schemas[i])), schemas.len()),
    )
}

/// The first `end` schemas, each registered after the one before it.
pub open spec fn builtin_entries(schemas: Seq<BuiltinSchema>, end: nat) -> Seq<(Seq<char>, Descriptor)>
    decreases end,
{
    if end == 0 {
        Seq::empty()
    } else {
        let registration = builtin_registration(schemas[end - 1]);
        with_member(
            builtin_entries(schemas, (end - 1) as nat),
            registration.schema_id,
            descriptor_of(registration),
        )
    }
}

fn contracts_of(schema: &BuiltinSchema) -> (contracts: Vec<CultNetWireContract>)
    ensures
        contracts@ == builtin_contracts(*schema),
{
    let mut contracts: Vec<CultNetWireContract> = Vec::new();
    contracts.push(CultNetWireContract::CultNetSchemaV0);
    if schema.legacy {
        contracts.push(CultNetWireContract::GameCultNetworkingV0);
    }
    assert(contracts@ =~= builtin_contracts(*schema));
    contracts
}

/// A registry of the given schemas.
pub fn schema_registry_of(schemas: &Vec<BuiltinSchema>) -> (outcome: Result<CultNetSchemaRegistry, CultNetError>)
    ensures
        reports(outcome, builtin_violation(schemas@)),
        outcome matches Ok(registry) ==> registry.advertised() == builtin_entries(schemas@, schemas@.len()),
{
    let ghost texts = |i: int| schema_text_violation(schemas@[i].schema_json@);
    let ghost rules = |i: int| registration_violation(builtin_registration(schemas@[i]));
    let mut registrations: Vec<CultNetSchemaRegistration> = Vec::new();
    let mut i: usize = 0;
    while i < schemas.len()
        invariant
            i <= schemas@.len(),
            texts == (|i: int| schema_text_violation(schemas@[i].schema_json@)),
            first_among(texts, i as nat) is None,
            registrations@.len() == i,
            forall|k: int| 0 <= k < i ==> (#[trigger] registrations@[k])@ == builtin_registration(schemas@[k]),
        decreases schemas@.len() - i,
    {
        let schema = &schemas[i];
        proof {
            assert(texts(i as int) == schema_text_violation(schema.schema_json@));
            assert(first_among(texts, (i + 1) as nat) == texts(i as int));
            if texts(i as int) is Some {
                first_among_stays(texts, (i + 1) as nat, schemas@.len());
            }
        }
        let registration = schema_registration(
            schema.schema_json,
            schema.kind,
            contracts_of(schema),
            schema.schema_version,
            schema.document_type,
        )?;
        registrations.push(registration);
        i += 1;
    }
    let ghost all = registrations@;
    let mut registry = CultNetSchemaRegistry::new();
    let mut rest = registrations;
    let mut done: usize = 0;
    assert(rest@ =~= all.skip(0));
    while done < schemas.len()
        invariant
            done <= schemas@.len(),
            all.len() == schemas@.len(),
            rest@ == all.skip(done as int),
            forall|k: int| 0 <= k < all.len() ==> (#[trigger] all[k])@ == builtin_registration(schemas@[k]),
            rules == (|i: int| registration_violation(builtin_registration(schemas@[i]))),
            first_among(texts, schemas@.len()) is None,
            texts == (|i: int| schema_text_violation(schemas@[i].schema_json@)),
            first_among(rules, done as nat) is None,
            registry.advertised() == builtin_entries(schemas@, done as nat),
        decreases schemas@.len() - done,
    {
        let registration = rest.remove(0);
        proof {
            assert(registration == all[done as int]);
            assert(rest@ =~= all.skip(done + 1));
            assert(rules(done as int) == registration_violation(registration@));
            assert(first_among(rules, (done + 1) as nat) == rules(done as int));
            if rules(done as int) is Some {
                first_among_stays(rules, (done + 1) as nat, schemas@.len());
            }
        }
        registry.register(registration)?;
        done += 1;
    }
    Ok(registry)
}

/// The registry of the shared contracts: the core wire messages, those that the legacy
/// contract carries too, the shared records, and the canonical document payload.
pub fn builtin_schema_registry() -> (outcome: Result<CultNetSchemaRegistry, CultNetError>)
    ensures
        exists|schemas: Seq<BuiltinSchema>|
            {
                &&& #[trigger] crate::builtin_schemas::are_builtin(schemas)
                &&& reports(outcome, builtin_violation(schemas))
                &&& outcome matches Ok(registry) ==> registry.advertised() == builtin_entries(
                    schemas,
                    schemas.len(),
                )
            },
{
    let schemas = builtin_schemas();
    let ghost witness = schemas@;
    assert(crate::builtin_schemas::are_builtin(witness));
    schema_registry_of(&schemas)
}

// ---------------------------------------------------------------------------
// Laws
// ---------------------------------------------------------------------------

/// A registered schema is found under its id and no other, with its body; every other id
/// finds what it found before. Without its body it is the same in every other field.
pub proof fn a_registered_schema_is_found(
    registered: Seq<(Seq<char>, Descriptor)>,
    registration: Registration,
    schema_id: Seq<char>,
)
    requires
        registration_violation(registration) is None,
    ensures
        member_of(with_member(registered, registration.schema_id, descriptor_of(registration)), schema_id) == (
        if schema_id == registration.schema_id {
            Some(descriptor_of(registration))
        } else {
            member_of(registered, schema_id)
        }),
        sanitized(descriptor_of(registration), true).schema_json is Some,
        sanitized(descriptor_of(registration), false) == (Descriptor {
            schema_json: None,
            ..sanitized(descriptor_of(registration), true)
        }),
{
    a_put_member_is_found(registered, registration.schema_id, descriptor_of(registration), schema_id);
}

/// A catalog lists its descriptors strictly one after the other by their schemas.
pub proof fn a_catalog_ascends(
    entries: Seq<(Seq<char>, Descriptor)>,
    schema_ids: Option<Seq<Seq<char>>>,
    kinds: Option<Seq<CultNetSchemaKind>>,
    include_schema_json: bool,
    end: nat,
)
    requires
        sorted_members(entries),
        kept_by_schema(entries),
        end <= entries.len(),
    ensures
        strictly_sorted(schemas_of(catalog(entries, schema_ids, kinds, include_schema_json, end))),
        ({
            let list = schemas_of(catalog(entries, schema_ids, kinds, include_schema_json, end));
            list.len() > 0 ==> exists|k: int| 0 <= k < end && list.last() == (#[trigger] entries[k]).0
        }),
    decreases end,
{
    if end > 0 {
        a_catalog_ascends(entries, schema_ids, kinds, include_schema_json, (end - 1) as nat);
        let earlier = schemas_of(catalog(entries, schema_ids, kinds, include_schema_json, (end - 1) as nat));
        let whole = schemas_of(catalog(entries, schema_ids, kinds, include_schema_json, end));
        if is_asked_for(entries[end - 1].1, schema_ids, kinds) {
            assert(whole =~= earlier.push(entries[end - 1].0));
            if earlier.len() > 0 {
                let k = choose|k: int| 0 <= k < end - 1 && earlier.last() == (#[trigger] entries[k]).0;
                earlier_keys_come_before(entries, k, end - 1);
            }
            assert forall|i: int| 0 <= i < whole.len() - 1 implies before(#[trigger] whole[i], whole[i + 1]) by {
                if i + 1 < earlier.len() {
                    assert(before(earlier[i], earlier[i + 1]));
                }
            }
        } else {
            assert(whole =~= earlier);
            if earlier.len() > 0 {
                let k = choose|k: int| 0 <= k < end - 1 && earlier.last() == (#[trigger] entries[k]).0;
                assert(whole.last() == entries[k].0);
            }
        }
    }
}

/// A catalog lists exactly what is asked for: every listed descriptor is an advertised
/// one that is asked for, without its body unless that is asked for too, and every
/// advertised one that is asked for is listed.
pub proof fn a_catalog_lists_exactly_what_is_asked_for(
    entries: Seq<(Seq<char>, Descriptor)>,
    schema_ids: Option<Seq<Seq<char>>>,
    kinds: Option<Seq<CultNetSchemaKind>>,
    include_schema_json: bool,
    end: nat,
    listed: Descriptor,
)
    requires
        end <= entries.len(),
    ensures
        catalog(entries, schema_ids, kinds, include_schema_json, end).contains(listed) <==> exists|i: int|
            0 <= i < end && is_asked_for((#[trigger] entries[i]).1, schema_ids, kinds) && listed == sanitized(
                entries[i].1,
                include_schema_json,
            ),
    decreases end,
{
    if end > 0 {
        let earlier = catalog(entries, schema_ids, kinds, include_schema_json, (end - 1) as nat);
        a_catalog_lists_exactly_what_is_asked_for(
            entries,
            schema_ids,
            kinds,
            include_schema_json,
            (end - 1) as nat,
            listed,
        );
        let descriptor = entries[end - 1].1;
        let whole = catalog(entries, schema_ids, kinds, include_schema_json, end);
        if is_asked_for(descriptor, schema_ids, kinds) {
            let last = sanitized(descriptor, include_schema_json);
            assert(whole[whole.len() - 1] == last);
            if whole.contains(listed) {
                let k = choose|k: int| 0 <= k < whole.len() && whole[k] == listed;
                if k < earlier.len() {
                    assert(earlier[k] == listed);
                } else {
                    assert(entries[end - 1].1 == descriptor);
                }
            }
            if earlier.contains(listed) {
                let k = choose|k: int| 0 <= k < earlier.len() && earlier[k] == listed;
                assert(whole[k] == listed);
            }
        }
    }
}

/// The hash of a schema depends on its value alone: texts that stand for the same JSON
/// value are advertised under the same hash.
pub proof fn the_hash_is_canonical(a: Registration, b: Registration)
    requires
        registration_violation(a) is None,
        registration_violation(b) is None,
        json_from_text(a.schema_json->0) == json_from_text(b.schema_json->0),
    ensures
        descriptor_of(a).content_hash == descriptor_of(b).content_hash,
{
}

}
