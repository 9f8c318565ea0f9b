//! Schema discovery: what a registered schema is advertised as, which schemas a catalog
//! lists, and the one text whose digest names a schema.
use vstd::prelude::*;
use vstd::utf8::encode_utf8;
use super::replication::{a_lookup_finds_the_first_under_the_key, first_under, none_under};
use super::snapshots::{asked, asked_is_requested, filled, filled_is_not_blank};
use super::words::{
    comes_first, hex_digits_of, hex_texts_are_plain, rejoined, says,
    the_order_is_that_of_the_first_difference,
};
use crate::builtin_schemas::{
    builtin_schemas, is_builtin, BuiltinSchema, DOCUMENT_DELETE_SCHEMA,
    DOCUMENT_MUTATION_CONTRACT_SCHEMA, DOCUMENT_PUT_RAW_SCHEMA, DOCUMENT_PUT_SCHEMA, ERROR_SCHEMA,
    GHOSTLIGHT_AGENT_STATE_SCHEMA, HELLO_SCHEMA, LOGIN_SCHEMA, LOGIN_SUCCESS_SCHEMA,
    RAW_DOCUMENT_RECORD_SCHEMA, REGISTER_SCHEMA, SAMPLE_CHANGE_NAME_SCHEMA, SAMPLE_CHAT_SCHEMA,
    SCHEMA_CATALOG_REQUEST_SCHEMA, SCHEMA_CATALOG_RESPONSE_SCHEMA, SNAPSHOT_REQUEST_SCHEMA,
    SNAPSHOT_RESPONSE_RAW_SCHEMA, SNAPSHOT_RESPONSE_SCHEMA, VERIFY_SCHEMA,
};
use crate::contracts::validation::opt_texts;
use crate::contracts::{
    CultNetMessage, CultNetSchemaDescriptor, CultNetSchemaKind, CultNetWireContract,
};
use crate::error::CultNetError;
use crate::json::{
    canonical_items, canonical_members, canonical_text, json_from_text, json_string, member_of,
    sorted_members, stable_stringify, with_member, Json, JsonValue,
};
use crate::number::{decimal, integer};
use crate::primitives::sha256_digest;
use crate::schema_discovery::{
    builtin_contracts, canonical_schema_hash, catalog, content_hash, descriptor_of, descriptors,
    is_asked_for, opt_kinds, registration_violation, sanitized, schema_registration,
    text_of_member, CultNetSchemaCatalogOptions, CultNetSchemaRegistration, CultNetSchemaRegistry,
    Descriptor,
};
use crate::text::before;

verus! {

// ---------------------------------------------------------------------------
// The one text of a value
// ---------------------------------------------------------------------------

proof fn a_last_piece_is_joined_behind(pieces: Seq<Seq<char>>, last: Seq<char>, separator: char)
    requires
        pieces.len() > 0,
    ensures
        rejoined(pieces.push(last), separator) == rejoined(pieces, separator) + seq![separator] + last,
    decreases pieces.len(),
{
    let whole = pieces.push(last);
    assert(whole.drop_first() =~= pieces.drop_first().push(last));
    if pieces.len() == 1 {
        assert(pieces.drop_first().push(last)[0] == last);
        assert(rejoined(whole.drop_first(), separator) == last);
    } else {
        a_last_piece_is_joined_behind(pieces.drop_first(), last, separator);
        let inner = rejoined(pieces.drop_first(), separator);
        assert(pieces[0] + seq![separator] + (inner + seq![separator] + last) =~= pieces[0] + seq![separator] + inner
            + seq![separator] + last);
    }
}

proof fn items_are_joined(items: Seq<Json>, end: nat)
    requires
        end <= items.len(),
    ensures
        canonical_items(items, end) == rejoined(items.take(end as int).map_values(|item: Json| canonical_text(item)), ','),
    decreases end,
{
    let text = |item: Json| canonical_text(item);
    let pieces = items.take(end as int).map_values(text);
    if end == 1 {
        assert(pieces[0] == canonical_text(items[0]));
    } else if end > 1 {
        items_are_joined(items, (end - 1) as nat);
        let shorter = items.take(end - 1).map_values(text);
        assert(pieces =~= shorter.push(canonical_text(items[end - 1])));
        a_last_piece_is_joined_behind(shorter, canonical_text(items[end - 1]), ',');
        reveal_strlit(",");
        assert(","@ =~= seq![',']);
    }
}

/// A member is written as its key, a colon, and its value.
pub open spec fn member_words(member: (Seq<char>, Json)) -> Seq<char> {
    json_string(member.0) + ":"@ + canonical_text(member.1)
}

proof fn members_are_joined(members: Seq<(Seq<char>, Json)>, end: nat)
    requires
        end <= members.len(),
    ensures
        canonical_members(members, end) == rejoined(
            members.take(end as int).map_values(|member: (Seq<char>, Json)| member_words(member)),
            ',',
        ),
    decreases end,
{
    let text = |member: (Seq<char>, Json)| member_words(member);
    let pieces = members.take(end as int).map_values(text);
    if end == 1 {
        assert(pieces[0] == member_words(members[0]));
    } else if end > 1 {
        members_are_joined(members, (end - 1) as nat);
        let shorter = members.take(end - 1).map_values(text);
        assert(pieces =~= shorter.push(member_words(members[end - 1])));
        a_last_piece_is_joined_behind(shorter, member_words(members[end - 1]), ',');
        reveal_strlit(",");
        assert(","@ =~= seq![',']);
    }
}

/// The one text of a value: the word for nothing and for flags, digits, quoted texts, and
/// arrays and objects in brackets with commas between their parts and no space.
pub proof fn a_value_has_this_one_text(value: &JsonValue, text: String)
    requires
        call_ensures(stable_stringify, (value,), text),
    ensures
        match value@ {
            Json::Null => text@ == "null"@,
            Json::Flag(flag) => text@ == (if flag { "true"@ } else { "false"@ }),
            Json::Unsigned(number) => text@ == decimal(number as nat),
            Json::Negative(number) => text@ == integer(number as int),
            Json::Fraction(_) => text@ == canonical_text(value@),
            Json::Text(found) => text@ == json_string(found),
            Json::Array(items) => text@ == "["@ + rejoined(items.map_values(|item: Json| canonical_text(item)), ',')
                + "]"@,
            Json::Object(members) => text@ == "{"@ + rejoined(
                members.map_values(|member: (Seq<char>, Json)| member_words(member)),
                ',',
            ) + "}"@,
        },
{
    match value@ {
        Json::Array(items) => {
            items_are_joined(items, items.len());
            assert(items.take(items.len() as int) =~= items);
        },
        Json::Object(members) => {
            members_are_joined(members, members.len());
            assert(members.take(members.len() as int) =~= members);
        },
        _ => {},
    }
}

/// The hash of a value is the digest of its one text; a text is hashed exactly if it is JSON.
pub proof fn a_hash_is_the_digest_of_the_one_text(
    value: &JsonValue,
    hash: String,
    schema_json: &str,
    outcome: Result<String, CultNetError>,
)
    requires
        call_ensures(content_hash, (value,), hash),
        call_ensures(canonical_schema_hash, (schema_json,), outcome),
    ensures
        hash@ == hex_digits_of(sha256_digest(encode_utf8(canonical_text(value@)))),
        outcome is Ok <==> json_from_text(schema_json@) is Some,
        outcome is Err ==> says(outcome, "schema_json is not valid JSON"@),
        outcome matches Ok(found) ==> found@ == hex_digits_of(
            sha256_digest(encode_utf8(canonical_text(json_from_text(schema_json@)->0))),
        ),
{
    hex_texts_are_plain(sha256_digest(encode_utf8(canonical_text(value@))));
    hex_texts_are_plain(sha256_digest(encode_utf8(canonical_text(json_from_text(schema_json@)->0))));
}

/// A member that is put is there under its key with its value, the other keys keep theirs,
/// and the order is kept.
pub proof fn a_put_member_is_there_in_order<V>(members: Seq<(Seq<char>, V)>, key: Seq<char>, value: V, other: Seq<char>)
    requires
        sorted_members(members),
    ensures
        first_under(with_member(members, key, value), key, value),
        other != key ==> (none_under(with_member(members, key, value), other) <==> none_under(members, other)),
        other != key ==> forall|found: V|
            #[trigger] first_under(with_member(members, key, value), other, found) <==> first_under(members, other, found),
        forall|i: int|
            0 < i < with_member(members, key, value).len() ==> comes_first(
                with_member(members, key, value)[i - 1].0,
                (#[trigger] with_member(members, key, value)[i]).0,
            ),
{
    let longer = with_member(members, key, value);
    crate::json::a_put_member_is_found(members, key, value, key);
    crate::json::a_put_member_is_found(members, key, value, other);
    a_lookup_finds_the_first_under_the_key(longer, key);
    a_lookup_finds_the_first_under_the_key(longer, other);
    a_lookup_finds_the_first_under_the_key(members, other);
    crate::json::members_stay_sorted(members, key, value);
    assert forall|i: int| 0 < i < longer.len() implies comes_first(longer[i - 1].0, (#[trigger] longer[i]).0) by {
        assert(before(longer[i - 1].0, longer[i].0));
        the_order_is_that_of_the_first_difference(longer[i - 1].0, longer[i].0);
    }
}

// ---------------------------------------------------------------------------
// Registering
// ---------------------------------------------------------------------------

/// A registration is refused for the first of these reasons that holds, and else is taken.
pub proof fn a_registration_needs_an_id_a_contract_and_a_body(registration: CultNetSchemaRegistration)
    ensures
        ({
            let why = registration_violation(registration@);
            let id = filled(registration.schema_id@);
            let contracts = registration.wire_contracts@.len() > 0;
            let json = registration.schema_json matches Some(text) && json_from_text(text@) is Some;
            &&& why is None <==> id && contracts && json
            &&& !id ==> why == Some("schema_id must be non-empty"@)
            &&& id && !contracts ==> why == Some("wire_contracts must contain at least one entry"@)
            &&& id && contracts && registration.schema_json is None ==> why == Some(
                "schema_json is required so discovery can advertise canonical hashes"@,
            )
            &&& id && contracts && registration.schema_json is Some && !json ==> why == Some(
                "schema_json is not valid JSON"@,
            )
        }),
{
    filled_is_not_blank(registration.schema_id@);
}

/// A schema is advertised with everything that it was registered with, and the hash of its
/// body.
pub proof fn a_schema_is_advertised_as_it_was_registered(registration: CultNetSchemaRegistration)
    requires
        registration.schema_json is Some,
    ensures
        ({
            let shown = descriptor_of(registration@);
            &&& shown.schema_id == registration.schema_id@
            &&& shown.kind == registration.kind
            &&& registration.schema_version is None ==> shown.schema_version is None
            &&& registration.schema_version matches Some(text) ==> shown.schema_version == Some(text@)
            &&& registration.document_type is None ==> shown.document_type is None
            &&& registration.document_type matches Some(text) ==> shown.document_type == Some(text@)
            &&& registration.title is None ==> shown.title is None
            &&& registration.title matches Some(text) ==> shown.title == Some(text@)
            &&& shown.wire_contracts == registration.wire_contracts@
            &&& shown.schema_json == Some(registration.schema_json->0@)
            &&& shown.content_hash == hex_digits_of(
                sha256_digest(encode_utf8(canonical_text(json_from_text(registration.schema_json->0@)->0))),
            )
        }),
{
    hex_texts_are_plain(
        sha256_digest(encode_utf8(canonical_text(json_from_text(registration.schema_json->0@)->0))),
    );
}

/// The text of a schema makes a registration exactly if it is JSON with an id, under that id
/// and with its title, its own text as the body, and what is given.
pub proof fn a_schema_text_registers_under_its_id(
    schema_json: &str,
    kind: CultNetSchemaKind,
    wire_contracts: Vec<CultNetWireContract>,
    schema_version: Option<&str>,
    document_type: Option<&str>,
    outcome: Result<CultNetSchemaRegistration, CultNetError>,
)
    requires
        call_ensures(
            schema_registration,
            (schema_json, kind, wire_contracts, schema_version, document_type),
            outcome,
        ),
    ensures
        ({
            let json = json_from_text(schema_json@);
            let id = text_of_member(json->0, "$id"@);
            let title = text_of_member(json->0, "title"@);
            &&& outcome is Ok <==> json is Some && id is Some
            &&& json is None ==> says(outcome, "schema is not valid JSON"@)
            &&& json is Some && id is None ==> says(outcome, "schema is missing $id"@)
            &&& outcome matches Ok(made) ==> {
                &&& made.schema_id@ == id->0
                &&& made.kind == kind
                &&& made.wire_contracts@ == wire_contracts@
                &&& schema_version is None ==> made.schema_version is None
                &&& schema_version matches Some(text) ==> (made.schema_version matches Some(kept) && kept@ == text@)
                &&& document_type is None ==> made.document_type is None
                &&& document_type matches Some(text) ==> (made.document_type matches Some(kept) && kept@ == text@)
                &&& title is None ==> made.title is None
                &&& title matches Some(text) ==> (made.title matches Some(kept) && kept@ == text)
                &&& made.schema_json matches Some(kept) && kept@ == schema_json@
            }
        }),
{
    if let Ok(made) = outcome {
        assert(made@.schema_id == made.schema_id@);
        assert(made@.title == text_of_member(json_from_text(schema_json@)->0, "title"@));
        assert(made@.schema_json == Some(schema_json@));
        assert(made@.schema_version == crate::text::text_of_option(schema_version));
        assert(made@.document_type == crate::text::text_of_option(document_type));
    }
}

/// A member's text is what the first member under the key holds, if that is a text.
pub proof fn a_members_text_is_the_first_under_the_key(members: Seq<(Seq<char>, Json)>, key: Seq<char>, text: Seq<char>)
    ensures
        text_of_member(Json::Object(members), key) == Some(text) <==> first_under(members, key, Json::Text(text)),
{
    a_lookup_finds_the_first_under_the_key(members, key);
}

/// A built-in schema is for the schema contract, and for the older one too exactly if it is
/// marked so.
pub proof fn builtin_schemas_are_for_these_contracts(schema: BuiltinSchema)
    ensures
        builtin_contracts(schema).contains(CultNetWireContract::CultNetSchemaV0),
        builtin_contracts(schema).contains(CultNetWireContract::GameCultNetworkingV0) <==> schema.legacy,
        builtin_contracts(schema)[0] == CultNetWireContract::CultNetSchemaV0,
        builtin_contracts(schema).len() == (if schema.legacy { 2int } else { 1 }),
{
    assert(builtin_contracts(schema)[0] == CultNetWireContract::CultNetSchemaV0);
    if schema.legacy {
        assert(builtin_contracts(schema)[1] == CultNetWireContract::GameCultNetworkingV0);
    }
}

// ---------------------------------------------------------------------------
// Catalogs
// ---------------------------------------------------------------------------

/// The kind is among those that are asked for, where any are.
pub open spec fn kind_asked(kinds: Option<Vec<CultNetSchemaKind>>, kind: CultNetSchemaKind) -> bool {
    kinds matches Some(list) ==> exists|k: int| 0 <= k < list@.len() && #[trigger] list@[k] == kind
}

/// The descriptor shows what is advertised, with the body only if it is asked for.
pub open spec fn shows(descriptor: CultNetSchemaDescriptor, advertised: Descriptor, with_body: bool) -> bool {
    &&& descriptor.schema_id@ == advertised.schema_id
    &&& descriptor.kind == advertised.kind
    &&& shows_text(descriptor.schema_version, advertised.schema_version)
    &&& shows_text(descriptor.document_type, advertised.document_type)
    &&& shows_text(descriptor.title, advertised.title)
    &&& descriptor.wire_contracts@ == advertised.wire_contracts
    &&& descriptor.content_hash@ == advertised.content_hash
    &&& with_body ==> shows_text(descriptor.schema_json, advertised.schema_json)
    &&& !with_body ==> descriptor.schema_json is None
}

/// The text is there with the same words, or is not there.
pub open spec fn shows_text(text: Option<String>, words: Option<Seq<char>>) -> bool {
    match (text, words) {
        (Some(found), Some(wanted)) => found@ == wanted,
        (None, None) => true,
        _ => false,
    }
}

proof fn a_descriptor_shows_what_it_holds(descriptor: CultNetSchemaDescriptor, advertised: Descriptor, with_body: bool)
    requires
        descriptor@ == sanitized(advertised, with_body),
    ensures
        shows(descriptor, advertised, with_body),
{
    let held = sanitized(advertised, with_body);
    assert(held.schema_id == descriptor.schema_id@);
    assert(held.schema_version == advertised.schema_version);
    assert(descriptor@.schema_version == held.schema_version);
    assert(descriptor@.document_type == held.document_type);
    assert(descriptor@.title == held.title);
    assert(descriptor@.schema_json == held.schema_json);
}

proof fn a_kind_is_asked_for(kinds: Option<Vec<CultNetSchemaKind>>, kind: CultNetSchemaKind)
    ensures
        (opt_kinds(kinds) matches Some(found) ==> found.contains(kind)) == kind_asked(kinds, kind),
{
    if let Some(list) = kinds {
        if list@.contains(kind) {
            let k = choose|k: int| 0 <= k < list@.len() && list@[k] == kind;
            assert(list@[k] == kind);
        }
    }
}

proof fn the_catalog_is_the_asked_for(
    entries: Seq<(Seq<char>, Descriptor)>,
    schema_ids: Option<Vec<String>>,
    kinds: Option<Vec<CultNetSchemaKind>>,
    with_body: bool,
    end: nat,
)
    requires
        end <= entries.len(),
    ensures
        catalog(entries, opt_texts(schema_ids), opt_kinds(kinds), with_body, end) == entries.take(end as int).filter(
            |entry: (Seq<char>, Descriptor)| asked(schema_ids, entry.1.schema_id) && kind_asked(kinds, entry.1.kind),
        ).map_values(|entry: (Seq<char>, Descriptor)| sanitized(entry.1, with_body)),
    decreases end,
{
    reveal(Seq::filter);
    let pred = |entry: (Seq<char>, Descriptor)| asked(schema_ids, entry.1.schema_id) && kind_asked(kinds, entry.1.kind);
    let image = |entry: (Seq<char>, Descriptor)| sanitized(entry.1, with_body);
    let taken = entries.take(end as int);
    if end > 0 {
        the_catalog_is_the_asked_for(entries, schema_ids, kinds, with_body, (end - 1) as nat);
        assert(taken.drop_last() =~= entries.take(end - 1));
        assert(taken.last() == entries[end - 1]);
        let shorter = taken.drop_last().filter(pred);
        assert(shorter.push(taken.last()).map_values(image) =~= shorter.map_values(image).push(image(taken.last())));
        asked_is_requested(schema_ids, taken.last().1.schema_id);
        a_kind_is_asked_for(kinds, taken.last().1.kind);
        assert(is_asked_for(entries[end - 1].1, opt_texts(schema_ids), opt_kinds(kinds)) == pred(taken.last()));
    } else {
        assert(taken.filter(pred).map_values(image) =~= Seq::empty());
    }
}

/// The catalog is exactly the advertised schemas whose id and kind are asked for, in their
/// order, with bodies exactly if they are asked for.
pub open spec fn is_catalog(
    list: Seq<CultNetSchemaDescriptor>,
    entries: Seq<(Seq<char>, Descriptor)>,
    schema_ids: Option<Vec<String>>,
    kinds: Option<Vec<CultNetSchemaKind>>,
    with_body: bool,
) -> bool {
    let wanted = entries.filter(
        |entry: (Seq<char>, Descriptor)| asked(schema_ids, entry.1.schema_id) && kind_asked(kinds, entry.1.kind),
    );
    &&& list.len() == wanted.len()
    &&& forall|i: int| 0 <= i < list.len() ==> shows(#[trigger] list[i], wanted[i].1, with_body)
}

/// A list of what a catalog holds is the catalog.
pub proof fn a_list_is_a_catalog(
    list: Seq<CultNetSchemaDescriptor>,
    entries: Seq<(Seq<char>, Descriptor)>,
    schema_ids: Option<Vec<String>>,
    kinds: Option<Vec<CultNetSchemaKind>>,
    with_body: bool,
)
    requires
        descriptors(list) == catalog(entries, opt_texts(schema_ids), opt_kinds(kinds), with_body, entries.len()),
    ensures
        is_catalog(list, entries, schema_ids, kinds, with_body),
{
    let image = |entry: (Seq<char>, Descriptor)| sanitized(entry.1, with_body);
    let wanted = entries.filter(
        |entry: (Seq<char>, Descriptor)| asked(schema_ids, entry.1.schema_id) && kind_asked(kinds, entry.1.kind),
    );
    the_catalog_is_the_asked_for(entries, schema_ids, kinds, with_body, entries.len());
    assert(entries.take(entries.len() as int) =~= entries);
    assert(descriptors(list).len() == list.len());
    assert(wanted.map_values(image).len() == wanted.len());
    assert forall|i: int| 0 <= i < list.len() implies shows(#[trigger] list[i], wanted[i].1, with_body) by {
        assert(descriptors(list)[i] == list[i]@);
        assert(wanted.map_values(image)[i] == sanitized(wanted[i].1, with_body));
        a_descriptor_shows_what_it_holds(list[i], wanted[i].1, with_body);
    }
}

/// Listing and answering give exactly what is asked for; another message is refused; without
/// a word on bodies there are none.
pub proof fn exactly_what_is_asked_for_is_listed(
    registry: &CultNetSchemaRegistry,
    options: &CultNetSchemaCatalogOptions,
    list: Vec<CultNetSchemaDescriptor>,
    request: &CultNetMessage,
    outcome: Result<CultNetMessage, CultNetError>,
)
    requires
        call_ensures(CultNetSchemaRegistry::list, (registry, options), list),
        call_ensures(CultNetSchemaRegistry::create_catalog_response, (registry, request), outcome),
    ensures
        is_catalog(
            list@,
            registry.advertised(),
            options.schema_ids,
            options.kinds,
            options.include_schema_json,
        ),
        match *request {
            CultNetMessage::SchemaCatalogRequest { message_id, include_schema_json, schema_ids, kinds } => {
                outcome matches Ok(CultNetMessage::SchemaCatalogResponse { message_id: id, schemas }) && id@
                    == message_id@ && is_catalog(
                    schemas@,
                    registry.advertised(),
                    schema_ids,
                    kinds,
                    include_schema_json == Some(true),
                )
            },
            _ => says(outcome, "expected cultnet.schema_catalog_request.v0 for schema discovery"@),
        },
{
    a_list_is_a_catalog(
        list@,
        registry.advertised(),
        options.schema_ids,
        options.kinds,
        options.include_schema_json,
    );
    if let CultNetMessage::SchemaCatalogRequest { message_id, include_schema_json, schema_ids, kinds } = *request {
        if let Ok(CultNetMessage::SchemaCatalogResponse { message_id: id, schemas }) = outcome {
            a_list_is_a_catalog(
                schemas@,
                registry.advertised(),
                schema_ids,
                kinds,
                include_schema_json == Some(true),
            );
        }
    }
}

/// A schema is found exactly if it is advertised under the id, and shown as it is advertised.
pub proof fn a_schema_is_found_under_its_id(
    registry: &CultNetSchemaRegistry,
    schema_id: &str,
    with_body: bool,
    found: Option<CultNetSchemaDescriptor>,
)
    requires
        call_ensures(CultNetSchemaRegistry::get, (registry, schema_id, with_body), found),
    ensures
        found is None <==> none_under(registry.advertised(), schema_id@),
        found matches Some(descriptor) ==> descriptor.schema_id@ == schema_id@ && forall|advertised: Descriptor|
            #[trigger] first_under(registry.advertised(), schema_id@, advertised) ==> shows(
                descriptor,
                advertised,
                with_body,
            ),
{
    a_lookup_finds_the_first_under_the_key(registry.advertised(), schema_id@);
    if let Some(descriptor) = found {
        assert forall|advertised: Descriptor| #[trigger]
            first_under(registry.advertised(), schema_id@, advertised) implies shows(
            descriptor,
            advertised,
            with_body,
        ) by {
            assert(member_of(registry.advertised(), schema_id@) == Some(advertised));
            a_descriptor_shows_what_it_holds(descriptor, advertised, with_body);
        }
    }
}

// ---------------------------------------------------------------------------
// Built-in schemas
// ---------------------------------------------------------------------------

/// The name of a message and its version.
pub open spec fn message_name(message: CultNetMessage) -> Seq<char> {
    match message {
        CultNetMessage::Hello { .. } => "cultnet.hello.v0"@,
        CultNetMessage::Login { .. } => "cultnet.login.v0"@,
        CultNetMessage::Register { .. } => "cultnet.register.v0"@,
        CultNetMessage::Verify { .. } => "cultnet.verify.v0"@,
        CultNetMessage::LoginSuccess { .. } => "cultnet.login_success.v0"@,
        CultNetMessage::Error { .. } => "cultnet.error.v0"@,
        CultNetMessage::SampleChangeName { .. } => "cultnet.sample.change_name.v0"@,
        CultNetMessage::SampleChat { .. } => "cultnet.sample.chat.v0"@,
        CultNetMessage::DocumentPut { .. } => "cultnet.document_put.v0"@,
        CultNetMessage::DocumentPutRaw { .. } => "cultnet.document_put_raw.v0"@,
        CultNetMessage::DocumentDelete { .. } => "cultnet.document_delete.v0"@,
        CultNetMessage::SnapshotRequest { .. } => "cultnet.snapshot_request.v0"@,
        CultNetMessage::SnapshotResponse { .. } => "cultnet.snapshot_response.v0"@,
        CultNetMessage::SnapshotResponseRaw { .. } => "cultnet.snapshot_response_raw.v0"@,
        CultNetMessage::SchemaCatalogRequest { .. } => "cultnet.schema_catalog_request.v0"@,
        CultNetMessage::SchemaCatalogResponse { .. } => "cultnet.schema_catalog_response.v0"@,
    }
}

/// The text of the message's schema.
pub open spec fn message_schema(message: CultNetMessage) -> Seq<char> {
    match message {
        CultNetMessage::Hello { .. } => HELLO_SCHEMA@,
        CultNetMessage::Login { .. } => LOGIN_SCHEMA@,
        CultNetMessage::Register { .. } => REGISTER_SCHEMA@,
        CultNetMessage::Verify { .. } => VERIFY_SCHEMA@,
        CultNetMessage::LoginSuccess { .. } => LOGIN_SUCCESS_SCHEMA@,
        CultNetMessage::Error { .. } => ERROR_SCHEMA@,
        CultNetMessage::SampleChangeName { .. } => SAMPLE_CHANGE_NAME_SCHEMA@,
        CultNetMessage::SampleChat { .. } => SAMPLE_CHAT_SCHEMA@,
        CultNetMessage::DocumentPut { .. } => DOCUMENT_PUT_SCHEMA@,
        CultNetMessage::DocumentPutRaw { .. } => DOCUMENT_PUT_RAW_SCHEMA@,
        CultNetMessage::DocumentDelete { .. } => DOCUMENT_DELETE_SCHEMA@,
        CultNetMessage::SnapshotRequest { .. } => SNAPSHOT_REQUEST_SCHEMA@,
        CultNetMessage::SnapshotResponse { .. } => SNAPSHOT_RESPONSE_SCHEMA@,
        CultNetMessage::SnapshotResponseRaw { .. } => SNAPSHOT_RESPONSE_RAW_SCHEMA@,
        CultNetMessage::SchemaCatalogRequest { .. } => SCHEMA_CATALOG_REQUEST_SCHEMA@,
        CultNetMessage::SchemaCatalogResponse { .. } => SCHEMA_CATALOG_RESPONSE_SCHEMA@,
    }
}

/// The built-in schema is the one of the message, and is marked as older exactly if the
/// older contract carries such messages.
pub open spec fn describes(schema: BuiltinSchema, message: CultNetMessage) -> bool {
    &&& schema.kind == CultNetSchemaKind::WireMessage
    &&& schema.schema_version matches Some(version) && version@ == message_name(message)
    &&& schema.document_type is None
    &&& schema.schema_json@ == message_schema(message)
    &&& schema.legacy <==> (message is Login || message is Register || message is Verify || message is LoginSuccess || message is Error || message is SampleChangeName || message is SampleChat || message is SchemaCatalogRequest || message is SchemaCatalogResponse)
}

/// Every message has a built-in schema under its name.
pub proof fn every_message_has_a_builtin_schema(schemas: Vec<BuiltinSchema>, message: CultNetMessage)
    requires
        call_ensures(builtin_schemas, (), schemas),
    ensures
        schemas@.len() == 19,
        exists|i: int| 0 <= i < schemas@.len() && describes(#[trigger] schemas@[i], message),
        message.schema_version() == message_name(message),
{
    match message {
        CultNetMessage::Hello { .. } => {
            assert(is_builtin(schemas@[0], 0));
            assert(describes(schemas@[0], message));
        },
        CultNetMessage::Login { .. } => {
            assert(is_builtin(schemas@[2], 2));
            assert(describes(schemas@[2], message));
        },
        CultNetMessage::Register { .. } => {
            assert(is_builtin(schemas@[3], 3));
            assert(describes(schemas@[3], message));
        },
        CultNetMessage::Verify { .. } => {
            assert(is_builtin(schemas@[4], 4));
            assert(describes(schemas@[4], message));
        },
        CultNetMessage::LoginSuccess { .. } => {
            assert(is_builtin(schemas@[5], 5));
            assert(describes(schemas@[5], message));
        },
        CultNetMessage::Error { .. } => {
            assert(is_builtin(schemas@[6], 6));
            assert(describes(schemas@[6], message));
        },
        CultNetMessage::SampleChangeName { .. } => {
            assert(is_builtin(schemas@[7], 7));
            assert(describes(schemas@[7], message));
        },
        CultNetMessage::SampleChat { .. } => {
            assert(is_builtin(schemas@[8], 8));
            assert(describes(schemas@[8], message));
        },
        CultNetMessage::DocumentPut { .. } => {
            assert(is_builtin(schemas@[9], 9));
            assert(describes(schemas@[9], message));
        },
        CultNetMessage::DocumentPutRaw { .. } => {
            assert(is_builtin(schemas@[12], 12));
            assert(describes(schemas@[12], message));
        },
        CultNetMessage::DocumentDelete { .. } => {
            assert(is_builtin(schemas@[10], 10));
            assert(describes(schemas@[10], message));
        },
        CultNetMessage::SnapshotRequest { .. } => {
            assert(is_builtin(schemas@[13], 13));
            assert(describes(schemas@[13], message));
        },
        CultNetMessage::SnapshotResponse { .. } => {
            assert(is_builtin(schemas@[14], 14));
            assert(describes(schemas@[14], message));
        },
        CultNetMessage::SnapshotResponseRaw { .. } => {
            assert(is_builtin(schemas@[15], 15));
            assert(describes(schemas@[15], message));
        },
        CultNetMessage::SchemaCatalogRequest { .. } => {
            assert(is_builtin(schemas@[16], 16));
            assert(describes(schemas@[16], message));
        },
        CultNetMessage::SchemaCatalogResponse { .. } => {
            assert(is_builtin(schemas@[17], 17));
            assert(describes(schemas@[17], message));
        },
    }
}

/// The other built-in schemas are those of mutation contracts, of raw documents, and of the
/// state of Ghostlight's agents.
pub proof fn shared_contracts_and_agent_states_have_builtin_schemas(schemas: Vec<BuiltinSchema>)
    requires
        call_ensures(builtin_schemas, (), schemas),
    ensures
        schemas@.len() == 19,
        ({
            let schema = schemas@[1];
            &&& schema.kind == CultNetSchemaKind::SharedContract && !schema.legacy
            &&& schema.schema_version is None && schema.document_type is None
            &&& schema.schema_json@ == DOCUMENT_MUTATION_CONTRACT_SCHEMA@
        }),
        ({
            let schema = schemas@[11];
            &&& schema.kind == CultNetSchemaKind::SharedContract && !schema.legacy
            &&& schema.schema_version is None && schema.document_type is None
            &&& schema.schema_json@ == RAW_DOCUMENT_RECORD_SCHEMA@
        }),
        ({
            let schema = schemas@[18];
            &&& schema.kind == CultNetSchemaKind::DocumentPayload && !schema.legacy
            &&& schema.schema_version matches Some(version) && version@ == "ghostlight.agent_state.v0"@
            &&& schema.document_type matches Some(kind) && kind@ == "ghostlight.agent-state"@
            &&& schema.schema_json@ == GHOSTLIGHT_AGENT_STATE_SCHEMA@
        }),
{
    assert(is_builtin(schemas@[1], 1));
    assert(is_builtin(schemas@[11], 11));
    assert(is_builtin(schemas@[18], 18));
}

}
