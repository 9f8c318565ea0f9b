//! What Idunn expects to run: the admitted incarnation, its route, and the providers
//! that it depends on.
use vstd::prelude::*;
use super::capability::{
    expected_capabilities_violation, validate_expected_capabilities, IdunnExpectedCapability,
    MAX_RUNTIME_CAPABILITIES,
};
use super::IDUNN_EXPECTED_INCARNATION_SCHEMA;
use crate::error::{ensure, first_of, refuse, reports, unless, CultNetError};
use crate::text::byte_length_is_bounded;
use crate::record::{
    accepted_list_is_sorted, canonical_digest, canonical_record_bytes, canonical_record_sha256,
    check_sorted_list, decode_canonical_record, decoded_canonically, flag_field, number_field,
    optional_record, optional_record_field, optional_text, optional_text_field, read_flag,
    read_items, read_optional_record, read_optional_text, read_record_list, read_small, read_text,
    record_list, record_list_field, record_list_is_carried, record_list_is_plain,
    same_lists_same_violation, same_optional_records, same_record_lists, sequence_field,
    sha256_reference_is_short, sorted_list_violation, text_field, CanonicalRecord, Identified,
    Record,
};
use crate::rules::{
    authority_violation, bounded_violation, check_authority, check_bounded,
    check_optional_authority, check_optional_bounded, check_optional_sha256, check_sha256,
    optional_authority_violation, optional_bounded_violation, optional_sha256_violation,
    sha256_violation,
};
use crate::text::{
    byte_length, has_prefix, hex_of_length, holds_text, is_hex_of_length, letters, opt, same_text,
    sha256_reference, split, split_text, starts_with, views,
};
use crate::wire::{carried, carried_grows, messagepack_encoding, plain, trees, Wire, WireValue};

verus! {

/// The most dependencies that one record may list.
pub const MAX_RUNTIME_DEPENDENCIES: usize = 256;

/// The longest endpoint, in bytes.
pub const ENDPOINT_LIMIT: usize = 2048;

// ---------------------------------------------------------------------------
// Shared rules
// ---------------------------------------------------------------------------

/// The kinds of dependency.
pub open spec fn dependency_kind(kind: Seq<char>) -> bool {
    ||| kind == "bootstrap"@
    ||| kind == "required"@
    ||| kind == "optional"@
    ||| kind == "shared-infrastructure"@
    ||| kind == "private"@
    ||| kind == "external-operator-binding"@
}

pub fn is_dependency_kind(kind: &str) -> (found: bool)
    ensures
        found == dependency_kind(kind@),
{
    same_text(kind, "bootstrap") || same_text(kind, "required") || same_text(kind, "optional") || same_text(
        kind,
        "shared-infrastructure",
    ) || same_text(kind, "private") || same_text(kind, "external-operator-binding")
}

pub proof fn dependency_kind_is_short(kind: Seq<char>)
    requires
        dependency_kind(kind),
    ensures
        byte_length(kind) <= 256,
{
    reveal_strlit("bootstrap");
    reveal_strlit("required");
    reveal_strlit("optional");
    reveal_strlit("shared-infrastructure");
    reveal_strlit("private");
    reveal_strlit("external-operator-binding");
    byte_length_is_bounded(kind);
}

/// Why the fields that name a dependency's provider do not fit together. They are all
/// missing; or they name a managed incarnation by its Expected digest, which an
/// external dependency never has; or they name an external binding by its endpoint,
/// which only an external dependency has.
pub open spec fn provider_binding_violation(
    kind: Seq<char>,
    provider_id: Option<Seq<char>>,
    provider_authority: Option<Seq<char>>,
    provider_expected: Option<Seq<char>>,
    provider_endpoint: Option<Seq<char>>,
    managed_external: Seq<char>,
    incoherent: Seq<char>,
) -> Option<Seq<char>> {
    if provider_id is None && provider_authority is None && provider_expected is None && provider_endpoint is None {
        None
    } else if provider_id is Some && provider_authority == Some("managed-incarnation"@) && provider_expected
        is Some {
        unless(kind != "external-operator-binding"@, managed_external)
    } else {
        unless(
            provider_id is Some && provider_authority == Some("external-operator-binding"@)
                && provider_expected is None && provider_endpoint is Some && kind
                == "external-operator-binding"@,
            incoherent,
        )
    }
}

pub fn check_provider_binding(
    kind: &str,
    provider_id: &Option<String>,
    provider_authority: &Option<String>,
    provider_expected: &Option<String>,
    provider_endpoint: &Option<String>,
    managed_external: &str,
    incoherent: &str,
) -> (outcome: Result<(), CultNetError>)
    ensures
        reports(
            outcome,
            provider_binding_violation(
                kind@,
                opt(*provider_id),
                opt(*provider_authority),
                opt(*provider_expected),
                opt(*provider_endpoint),
                managed_external@,
                incoherent@,
            ),
        ),
{
    let external = same_text(kind, "external-operator-binding");
    if provider_id.is_none() && provider_authority.is_none() && provider_expected.is_none()
        && provider_endpoint.is_none() {
        Ok(())
    } else if provider_id.is_some() && holds_text(provider_authority, "managed-incarnation")
        && provider_expected.is_some() {
        ensure(!external, managed_external)
    } else {
        ensure(
            provider_id.is_some() && holds_text(provider_authority, "external-operator-binding")
                && provider_expected.is_none() && provider_endpoint.is_some() && external,
            incoherent,
        )
    }
}

/// Why the state generation and the digest of its contract do not fit together: they
/// are both missing, or both there and well-formed.
pub open spec fn state_lineage_violation(
    generation: Option<Seq<char>>,
    contract: Option<Seq<char>>,
    partial: Seq<char>,
) -> Option<Seq<char>> {
    if generation is Some && contract is Some {
        first_of(
            authority_violation(generation->0, "state schema generation"@),
            sha256_violation(contract->0, "state contract sha256"@),
        )
    } else {
        unless(generation is None && contract is None, partial)
    }
}

pub fn check_state_lineage(generation: &Option<String>, contract: &Option<String>, partial: &str) -> (outcome:
    Result<(), CultNetError>)
    ensures
        reports(outcome, state_lineage_violation(opt(*generation), opt(*contract), partial@)),
{
    match (generation, contract) {
        (Some(name), Some(digest)) => {
            check_authority(name, "state schema generation")?;
            check_sha256(digest, "state contract sha256")
        },
        (None, None) => Ok(()),
        _ => refuse(partial),
    }
}

/// The letters that a segment of a repository's name is made of.
pub open spec fn repository_letter(letter: char) -> bool {
    ||| 'a' <= letter && letter <= 'z'
    ||| 'A' <= letter && letter <= 'Z'
    ||| '0' <= letter && letter <= '9'
    ||| letter == '-'
    ||| letter == '_'
    ||| letter == '.'
}

/// A segment of a repository's name: some such letters, but not a relative path.
pub open spec fn repository_segment(segment: Seq<char>) -> bool {
    &&& segment.len() > 0
    &&& segment != "."@
    &&& segment != ".."@
    &&& forall|i: int| 0 <= i < segment.len() ==> repository_letter(#[trigger] segment[i])
}

/// A host with a dot in it, an owner, and a repository, with slashes between them;
/// further segments may follow.
pub open spec fn canonical_repository(text: Seq<char>) -> bool {
    let segments = split(text, '/');
    &&& segments.len() >= 3
    &&& segments[0].contains('.')
    &&& forall|i: int| 0 <= i < segments.len() ==> repository_segment(#[trigger] segments[i])
}

/// Why the text does not name a source repository, if it does not.
pub open spec fn source_repository_violation(text: Seq<char>) -> Option<Seq<char>> {
    first_of(
        authority_violation(text, "source repository"@),
        unless(
            canonical_repository(text),
            "source repository is not a canonical host/owner/repository identity"@,
        ),
    )
}

fn is_repository_segment(segment: &str) -> (found: bool)
    ensures
        found == repository_segment(segment@),
{
    let all = letters(segment);
    if all.len() == 0 || same_text(segment, ".") || same_text(segment, "..") {
        return false;
    }
    let mut i: usize = 0;
    while i < all.len()
        invariant
            i <= all@.len(),
            all@ == segment@,
            forall|k: int| 0 <= k < i ==> repository_letter(#[trigger] all@[k]),
        decreases all@.len() - i,
    {
        let letter = all[i];
        let lower = 'a' <= letter && letter <= 'z';
        let upper = 'A' <= letter && letter <= 'Z';
        let digit = '0' <= letter && letter <= '9';
        if !lower && !upper && !digit && letter != '-' && letter != '_' && letter != '.' {
            assert(!repository_letter(segment@[i as int]));
            return false;
        }
        i += 1;
    }
    true
}

fn has_dot(text: &str) -> (found: bool)
    ensures
        found == text@.contains('.'),
{
    let all = letters(text);
    let mut i: usize = 0;
    while i < all.len()
        invariant
            i <= all@.len(),
            all@ == text@,
            forall|k: int| 0 <= k < i ==> all@[k] != '.',
        decreases all@.len() - i,
    {
        if all[i] == '.' {
            assert(text@[i as int] == '.');
            return true;
        }
        i += 1;
    }
    false
}

pub fn validate_source_repository(text: &str) -> (outcome: Result<(), CultNetError>)
    ensures
        reports(outcome, source_repository_violation(text@)),
{
    check_authority(text, "source repository")?;
    let segments = split_text(text, '/');
    let ghost all = split(text@, '/');
    let refusal = "source repository is not a canonical host/owner/repository identity";
    assert(all.len() == segments@.len());
    if segments.len() < 3 {
        return refuse(refusal);
    }
    assert(all[0] == segments@[0]@);
    if !has_dot(&segments[0]) {
        return refuse(refusal);
    }
    let mut i: usize = 0;
    while i < segments.len()
        invariant
            i <= segments@.len(),
            views(segments@) == all,
            all == split(text@, '/'),
            refusal@ == "source repository is not a canonical host/owner/repository identity"@,
            authority_violation(text@, "source repository"@) is None,
            forall|k: int| 0 <= k < i ==> repository_segment(#[trigger] all[k]),
        decreases segments@.len() - i,
    {
        assert(all[i as int] == segments@[i as int]@);
        if !is_repository_segment(&segments[i]) {
            return refuse(refusal);
        }
        i += 1;
    }
    Ok(())
}

// ---------------------------------------------------------------------------
// Routes
// ---------------------------------------------------------------------------

/// Public route facts admitted for one incarnation. These are service-facing
/// endpoints only; actuator paths, unit files, container sockets, and runner
/// credentials do not belong in the Expected projection.
#[derive(Clone, Debug, PartialEq, Eq)]
pub struct IdunnExpectedRoute {
    pub route_id: String,
    pub transport: String,
    pub stable_endpoint: String,
    pub candidate_endpoint: String,
}

impl Record for IdunnExpectedRoute {
    open spec fn wire(self) -> Wire {
        Wire::Sequence(
            seq![
                Wire::Text(self.route_id@),
                Wire::Text(self.transport@),
                Wire::Text(self.stable_endpoint@),
                Wire::Text(self.candidate_endpoint@),
            ],
        )
    }

    open spec fn width() -> nat {
        4
    }

    open spec fn depth() -> nat {
        1
    }

    open spec fn violation(self) -> Option<Seq<char>> {
        if authority_violation(self.route_id@, "route id"@) is Some {
            authority_violation(self.route_id@, "route id"@)
        } else if bounded_violation(self.stable_endpoint@, ENDPOINT_LIMIT as int, "stable route endpoint"@) is Some {
            bounded_violation(self.stable_endpoint@, ENDPOINT_LIMIT as int, "stable route endpoint"@)
        } else if bounded_violation(self.candidate_endpoint@, ENDPOINT_LIMIT as int, "candidate route endpoint"@) is Some {
            bounded_violation(self.candidate_endpoint@, ENDPOINT_LIMIT as int, "candidate route endpoint"@)
        } else if self.stable_endpoint@ == self.candidate_endpoint@ {
            Some("stable and candidate route endpoints are identical"@)
        } else if self.transport@ == "http"@ && !self.endpoints_fit_http() {
            Some("HTTP route endpoints use an unsupported scheme"@)
        } else if self.transport@ == "tcp"@ && !self.endpoints_start_with("tcp://"@) {
            Some("TCP route endpoints use an unsupported scheme"@)
        } else if self.transport@ == "rudp"@ && !self.endpoints_start_with("rudp://"@) {
            Some("RUDP route endpoints use an unsupported scheme"@)
        } else if self.transport@ != "http"@ && self.transport@ != "tcp"@ && self.transport@ != "rudp"@ {
            Some("route transport is unsupported"@)
        } else {
            None
        }
    }

    proof fn shape(self) {
        let fields = self.wire()->Sequence_0;
        assert forall|i: int| 0 <= i < fields.len() implies plain(#[trigger] fields[i]) by {}
    }

    #[verifier::rlimit(60)]
    proof fn valid_is_carried(self) {
        byte_length_is_bounded(self.transport@);
        reveal_strlit("http");
        reveal_strlit("tcp");
        reveal_strlit("rudp");
        let fields = self.wire()->Sequence_0;
        assert forall|i: int| 0 <= i < fields.len() implies carried(#[trigger] fields[i], 0) by {}
    }

    proof fn wire_decides(self, other: Self) {
        let (a, b) = (self.wire()->Sequence_0, other.wire()->Sequence_0);
        assert(a[0] == b[0] && a[1] == b[1] && a[2] == b[2] && a[3] == b[3]);
    }

    fn to_wire(&self) -> (field: WireValue) {
        let field = sequence_field(
            vec![
                text_field(&self.route_id),
                text_field(&self.transport),
                text_field(&self.stable_endpoint),
                text_field(&self.candidate_endpoint),
            ],
        );
        assert(field@->Sequence_0 =~= self.wire()->Sequence_0);
        field
    }

    fn from_wire(field: &WireValue) -> (record: Option<Self>) {
        let items = match read_items(field, 4) {
            Some(found) => found,
            None => {
                return None;
            },
        };
        let ghost all = trees(items@);
        assert forall|any: Self| #[trigger] any.wire() == field@ implies {
            &&& all[0] is Text
            &&& all[1] is Text
            &&& all[2] is Text
            &&& all[3] is Text
        } by {
            assert(any.wire()->Sequence_0 == all);
        }
        let record = IdunnExpectedRoute {
            route_id: read_text(&items[0])?,
            transport: read_text(&items[1])?,
            stable_endpoint: read_text(&items[2])?,
            candidate_endpoint: read_text(&items[3])?,
        };
        assert(record.wire()->Sequence_0 =~= all);
        Some(record)
    }

    fn check(&self) -> (outcome: Result<(), CultNetError>) {
        self.validate()
    }
}

impl IdunnExpectedRoute {
    /// The stable endpoint is HTTP, secured or not, and the candidate plain HTTP.
    pub open spec fn endpoints_fit_http(self) -> bool {
        &&& starts_with(self.stable_endpoint@, "http://"@) || starts_with(self.stable_endpoint@, "https://"@)
        &&& starts_with(self.candidate_endpoint@, "http://"@)
    }

    /// Both endpoints start with the scheme.
    pub open spec fn endpoints_start_with(self, scheme: Seq<char>) -> bool {
        starts_with(self.stable_endpoint@, scheme) && starts_with(self.candidate_endpoint@, scheme)
    }

    fn both_start_with(&self, scheme: &str) -> (found: bool)
        ensures
            found == self.endpoints_start_with(scheme@),
    {
        has_prefix(&self.stable_endpoint, scheme) && has_prefix(&self.candidate_endpoint, scheme)
    }

    pub fn validate(&self) -> (outcome: Result<(), CultNetError>)
        ensures
            reports(outcome, self.violation()),
    {
        check_authority(&self.route_id, "route id")?;
        check_bounded(&self.stable_endpoint, ENDPOINT_LIMIT, "stable route endpoint")?;
        check_bounded(&self.candidate_endpoint, ENDPOINT_LIMIT, "candidate route endpoint")?;
        ensure(
            !same_text(&self.stable_endpoint, &self.candidate_endpoint),
            "stable and candidate route endpoints are identical",
        )?;
        proof {
            reveal_strlit("http");
            reveal_strlit("tcp");
            reveal_strlit("rudp");
            assert("http"@[0] == 'h' && "rudp"@[0] == 'r' && "tcp"@[0] == 't');
        }
        if same_text(&self.transport, "http") {
            ensure(
                (has_prefix(&self.stable_endpoint, "http://") || has_prefix(
                    &self.stable_endpoint,
                    "https://",
                )) && has_prefix(&self.candidate_endpoint, "http://"),
                "HTTP route endpoints use an unsupported scheme",
            )
        } else if same_text(&self.transport, "tcp") {
            ensure(
                self.both_start_with("tcp://"),
                "TCP route endpoints use an unsupported scheme",
            )
        } else if same_text(&self.transport, "rudp") {
            ensure(
                self.both_start_with("rudp://"),
                "RUDP route endpoints use an unsupported scheme",
            )
        } else {
            refuse("route transport is unsupported")
        }
    }
}

// ---------------------------------------------------------------------------
// Dependencies
// ---------------------------------------------------------------------------

/// One capability requirement and Idunn's exact admitted provider selection.
/// Provider fields are all absent while unresolved. Managed providers bind an
/// Expected digest; external operator bindings instead bind an endpoint.
#[derive(Clone, Debug, PartialEq, Eq)]
pub struct IdunnExpectedDependency {
    pub kind: String,
    pub capability: String,
    pub schema: String,
    pub compatibility: String,
    pub minimum_capacity: u32,
    pub startup: String,
    pub provider_id: Option<String>,
    pub provider_authority: Option<String>,
    pub provider_expected_projection_sha256: Option<String>,
    pub provider_endpoint: Option<String>,
}

impl Record for IdunnExpectedDependency {
    open spec fn wire(self) -> Wire {
        Wire::Sequence(
            seq![
                Wire::Text(self.kind@),
                Wire::Text(self.capability@),
                Wire::Text(self.schema@),
                Wire::Text(self.compatibility@),
                Wire::Unsigned(self.minimum_capacity as u64),
                Wire::Text(self.startup@),
                optional_text(opt(self.provider_id)),
                optional_text(opt(self.provider_authority)),
                optional_text(opt(self.provider_expected_projection_sha256)),
                optional_text(opt(self.provider_endpoint)),
            ],
        )
    }

    open spec fn width() -> nat {
        10
    }

    open spec fn depth() -> nat {
        1
    }

    open spec fn violation(self) -> Option<Seq<char>> {
        if !dependency_kind(self.kind@) {
            Some("dependency kind is unsupported"@)
        } else if authority_violation(self.capability@, "dependency capability"@) is Some {
            authority_violation(self.capability@, "dependency capability"@)
        } else if authority_violation(self.schema@, "dependency schema"@) is Some {
            authority_violation(self.schema@, "dependency schema"@)
        } else if authority_violation(self.compatibility@, "dependency compatibility"@) is Some {
            authority_violation(self.compatibility@, "dependency compatibility"@)
        } else if self.minimum_capacity == 0 || (self.startup@ != "before-start"@ && self.startup@ != "before-promotion"@) {
            Some("dependency capacity or startup condition is invalid"@)
        } else if self.kind@ == "bootstrap"@ && self.startup@ != "before-start"@ {
            Some("bootstrap dependency must be satisfied before start"@)
        } else if optional_authority_violation(opt(self.provider_id), "dependency provider id"@) is Some {
            optional_authority_violation(opt(self.provider_id), "dependency provider id"@)
        } else if optional_authority_violation(opt(self.provider_authority), "dependency provider authority"@) is Some {
            optional_authority_violation(opt(self.provider_authority), "dependency provider authority"@)
        } else if optional_sha256_violation(opt(self.provider_expected_projection_sha256), "dependency provider expected projection sha256"@) is Some {
            optional_sha256_violation(opt(self.provider_expected_projection_sha256), "dependency provider expected projection sha256"@)
        } else if optional_bounded_violation(opt(self.provider_endpoint), ENDPOINT_LIMIT as int, "dependency provider endpoint"@) is Some {
            optional_bounded_violation(opt(self.provider_endpoint), ENDPOINT_LIMIT as int, "dependency provider endpoint"@)
        } else if provider_binding_violation(self.kind@, opt(self.provider_id), opt(self.provider_authority), opt(self.provider_expected_projection_sha256), opt(self.provider_endpoint), "external operator dependency cannot select a managed incarnation"@, "dependency provider binding is partial or authority-incoherent"@) is Some {
            provider_binding_violation(self.kind@, opt(self.provider_id), opt(self.provider_authority), opt(self.provider_expected_projection_sha256), opt(self.provider_endpoint), "external operator dependency cannot select a managed incarnation"@, "dependency provider binding is partial or authority-incoherent"@)
        } else {
            None
        }
    }

    proof fn shape(self) {
        let fields = self.wire()->Sequence_0;
        assert forall|i: int| 0 <= i < fields.len() implies plain(#[trigger] fields[i]) by {}
    }

    #[verifier::rlimit(60)]
    proof fn valid_is_carried(self) {
        broadcast use sha256_reference_is_short;

        dependency_kind_is_short(self.kind@);
        byte_length_is_bounded(self.startup@);
        reveal_strlit("before-start");
        reveal_strlit("before-promotion");
        let fields = self.wire()->Sequence_0;
        assert forall|i: int| 0 <= i < fields.len() implies carried(#[trigger] fields[i], 0) by {}
    }

    proof fn wire_decides(self, other: Self) {
        let (a, b) = (self.wire()->Sequence_0, other.wire()->Sequence_0);
        assert(a[0] == b[0] && a[1] == b[1] && a[2] == b[2] && a[3] == b[3] && a[4] == b[4] && a[5] == b[5]);
        assert(a[6] == b[6] && a[7] == b[7] && a[8] == b[8] && a[9] == b[9]);
    }

    fn to_wire(&self) -> (field: WireValue) {
        let field = sequence_field(
            vec![
                text_field(&self.kind),
                text_field(&self.capability),
                text_field(&self.schema),
                text_field(&self.compatibility),
                number_field(self.minimum_capacity as u64),
                text_field(&self.startup),
                optional_text_field(&self.provider_id),
                optional_text_field(&self.provider_authority),
                optional_text_field(&self.provider_expected_projection_sha256),
                optional_text_field(&self.provider_endpoint),
            ],
        );
        assert(field@->Sequence_0 =~= self.wire()->Sequence_0);
        field
    }

    fn from_wire(field: &WireValue) -> (record: Option<Self>) {
        let items = match read_items(field, 10) {
            Some(found) => found,
            None => {
                return None;
            },
        };
        let ghost all = trees(items@);
        assert forall|any: Self| #[trigger] any.wire() == field@ implies {
            &&& all[0] is Text
            &&& all[1] is Text
            &&& all[2] is Text
            &&& all[3] is Text
            &&& all[4] matches Wire::Unsigned(number) && number <= u32::MAX
            &&& all[5] is Text
            &&& all[6] is Text || all[6] is Nil
            &&& all[7] is Text || all[7] is Nil
            &&& all[8] is Text || all[8] is Nil
            &&& all[9] is Text || all[9] is Nil
        } by {
            assert(any.wire()->Sequence_0 == all);
        }
        let record = IdunnExpectedDependency {
            kind: read_text(&items[0])?,
            capability: read_text(&items[1])?,
            schema: read_text(&items[2])?,
            compatibility: read_text(&items[3])?,
            minimum_capacity: read_small(&items[4])?,
            startup: read_text(&items[5])?,
            provider_id: read_optional_text(&items[6])?,
            provider_authority: read_optional_text(&items[7])?,
            provider_expected_projection_sha256: read_optional_text(&items[8])?,
            provider_endpoint: read_optional_text(&items[9])?,
        };
        assert(record.wire()->Sequence_0 =~= all);
        Some(record)
    }

    fn check(&self) -> (outcome: Result<(), CultNetError>) {
        self.validate()
    }
}

impl Identified for IdunnExpectedDependency {
    open spec fn identity(self) -> (Seq<char>, Seq<char>, Seq<char>) {
        (self.capability@, self.schema@, self.compatibility@)
    }

    proof fn wire_identifies(self, other: Self) {
        let (a, b) = (self.wire()->Sequence_0, other.wire()->Sequence_0);
        assert(a[1] == b[1] && a[2] == b[2] && a[3] == b[3]);
    }

    fn identity_texts(&self) -> (texts: (&str, &str, &str)) {
        (&self.capability, &self.schema, &self.compatibility)
    }
}

impl IdunnExpectedDependency {
    pub fn validate(&self) -> (outcome: Result<(), CultNetError>)
        ensures
            reports(outcome, self.violation()),
    {
        ensure(is_dependency_kind(&self.kind), "dependency kind is unsupported")?;
        check_authority(&self.capability, "dependency capability")?;
        check_authority(&self.schema, "dependency schema")?;
        check_authority(&self.compatibility, "dependency compatibility")?;
        let before_start = same_text(&self.startup, "before-start");
        ensure(
            self.minimum_capacity != 0 && (before_start || same_text(&self.startup, "before-promotion")),
            "dependency capacity or startup condition is invalid",
        )?;
        ensure(
            !same_text(&self.kind, "bootstrap") || before_start,
            "bootstrap dependency must be satisfied before start",
        )?;
        check_optional_authority(&self.provider_id, "dependency provider id")?;
        check_optional_authority(&self.provider_authority, "dependency provider authority")?;
        check_optional_sha256(
            &self.provider_expected_projection_sha256,
            "dependency provider expected projection sha256",
        )?;
        check_optional_bounded(
            &self.provider_endpoint,
            ENDPOINT_LIMIT,
            "dependency provider endpoint",
        )?;
        check_provider_binding(
            &self.kind,
            &self.provider_id,
            &self.provider_authority,
            &self.provider_expected_projection_sha256,
            &self.provider_endpoint,
            "external operator dependency cannot select a managed incarnation",
            "dependency provider binding is partial or authority-incoherent",
        )
    }
}

/// Why the required dependencies are refused, if they are.
pub open spec fn expected_dependencies_violation(dependencies: Seq<IdunnExpectedDependency>) -> Option<Seq<char>> {
    sorted_list_violation(
        dependencies,
        MAX_RUNTIME_DEPENDENCIES as int,
        "Expected dependency count exceeds its contract bound"@,
        "Expected dependencies are not strictly sorted and unique"@,
    )
}

pub fn validate_expected_dependencies(dependencies: &Vec<IdunnExpectedDependency>) -> (outcome: Result<
    (),
    CultNetError,
>)
    ensures
        reports(outcome, expected_dependencies_violation(dependencies@)),
{
    check_sorted_list(
        dependencies,
        MAX_RUNTIME_DEPENDENCIES,
        "Expected dependency count exceeds its contract bound",
        "Expected dependencies are not strictly sorted and unique",
    )
}

// ---------------------------------------------------------------------------
// The expected incarnation
// ---------------------------------------------------------------------------

/// Idunn-owned desired deployment identity published into CultMesh before
/// promotion. It describes the admitted incarnation and its public contracts,
/// never the private details needed to execute it on a particular host.
#[derive(Clone, Debug, PartialEq, Eq)]
pub struct IdunnExpectedIncarnationRecord {
    pub schema_version: String,
    pub target: String,
    pub plan_id: String,
    pub incarnation_id: String,
    pub sealed_release_id: String,
    pub source_repository: String,
    pub source_revision: String,
    pub recipe_sha256: String,
    pub runtime_id: String,
    pub expected_signer_identity_id: String,
    pub health_contract: String,
    pub artifact_sha256: String,
    pub state_schema_generation: Option<String>,
    pub state_contract_sha256: Option<String>,
    pub write_lease_required: bool,
    pub route: Option<IdunnExpectedRoute>,
    pub capabilities: Vec<IdunnExpectedCapability>,
    pub dependencies: Vec<IdunnExpectedDependency>,
}

impl Record for IdunnExpectedIncarnationRecord {
    open spec fn wire(self) -> Wire {
        Wire::Sequence(
            seq![
                Wire::Text(self.schema_version@),
                Wire::Text(self.target@),
                Wire::Text(self.plan_id@),
                Wire::Text(self.incarnation_id@),
                Wire::Text(self.sealed_release_id@),
                Wire::Text(self.source_repository@),
                Wire::Text(self.source_revision@),
                Wire::Text(self.recipe_sha256@),
                Wire::Text(self.runtime_id@),
                Wire::Text(self.expected_signer_identity_id@),
                Wire::Text(self.health_contract@),
                Wire::Text(self.artifact_sha256@),
                optional_text(opt(self.state_schema_generation)),
                optional_text(opt(self.state_contract_sha256)),
                Wire::Flag(self.write_lease_required),
                optional_record(self.route),
                record_list(self.capabilities@),
                record_list(self.dependencies@),
            ],
        )
    }

    open spec fn width() -> nat {
        18
    }

    open spec fn depth() -> nat {
        3
    }

    open spec fn violation(self) -> Option<Seq<char>> {
        self.rule_violation()
    }

    proof fn shape(self) {
        let fields = self.wire()->Sequence_0;
        if let Some(found) = self.route {
            found.shape();
        }
        record_list_is_plain(self.capabilities@);
        record_list_is_plain(self.dependencies@);
        assert forall|i: int| 0 <= i < fields.len() implies plain(#[trigger] fields[i]) by {}
    }

    #[verifier::rlimit(60)]
    proof fn valid_is_carried(self) {
        self.valid_fields_are_short();
        self.valid_parts_are_carried();
        let fields = self.wire()->Sequence_0;
        assert(fields[15] == optional_record(self.route));
        assert(fields[16] == record_list(self.capabilities@));
        assert(fields[17] == record_list(self.dependencies@));
        assert forall|i: int| 0 <= i < fields.len() implies carried(#[trigger] fields[i], 2) by {
            if i < 15 {
                assert(!(fields[i] is Sequence));
            }
        }
    }

    proof fn wire_decides(self, other: Self) {
        let (a, b) = (self.wire()->Sequence_0, other.wire()->Sequence_0);
        assert(a[0] == b[0] && a[1] == b[1] && a[2] == b[2] && a[3] == b[3] && a[4] == b[4] && a[5] == b[5]);
        assert(a[6] == b[6] && a[7] == b[7] && a[8] == b[8] && a[9] == b[9] && a[10] == b[10] && a[11] == b[11]);
        assert(a[12] == b[12] && a[13] == b[13] && a[14] == b[14] && a[15] == b[15] && a[16] == b[16] && a[17] == b[17]);
        same_optional_records(self.route, other.route);
        same_record_lists(self.capabilities@, other.capabilities@);
        same_record_lists(self.dependencies@, other.dependencies@);
        if self.route is Some {
            self.route->0.wire_decides(other.route->0);
        }
        same_lists_same_violation(
            self.capabilities@,
            other.capabilities@,
            MAX_RUNTIME_CAPABILITIES as int,
            "Expected capability count exceeds its contract bound"@,
            "Expected capabilities are not strictly sorted and unique"@,
        );
        same_lists_same_violation(
            self.dependencies@,
            other.dependencies@,
            MAX_RUNTIME_DEPENDENCIES as int,
            "Expected dependency count exceeds its contract bound"@,
            "Expected dependencies are not strictly sorted and unique"@,
        );
        reveal(IdunnExpectedIncarnationRecord::rule_violation);
    }

    fn to_wire(&self) -> (field: WireValue) {
        let field = sequence_field(
            vec![
                text_field(&self.schema_version),
                text_field(&self.target),
                text_field(&self.plan_id),
                text_field(&self.incarnation_id),
                text_field(&self.sealed_release_id),
                text_field(&self.source_repository),
                text_field(&self.source_revision),
                text_field(&self.recipe_sha256),
                text_field(&self.runtime_id),
                text_field(&self.expected_signer_identity_id),
                text_field(&self.health_contract),
                text_field(&self.artifact_sha256),
                optional_text_field(&self.state_schema_generation),
                optional_text_field(&self.state_contract_sha256),
                flag_field(self.write_lease_required),
                optional_record_field(&self.route),
                record_list_field(&self.capabilities),
                record_list_field(&self.dependencies),
            ],
        );
        assert(field@->Sequence_0 =~= self.wire()->Sequence_0);
        field
    }

    fn from_wire(field: &WireValue) -> (record: Option<Self>) {
        let items = match read_items(field, 18) {
            Some(found) => found,
            None => {
                return None;
            },
        };
        let ghost all = trees(items@);
        assert forall|any: Self| #[trigger] any.wire() == field@ implies {
            &&& all[0] is Text
            &&& all[1] is Text
            &&& all[2] is Text
            &&& all[3] is Text
            &&& all[4] is Text
            &&& all[5] is Text
            &&& all[6] is Text
            &&& all[7] is Text
            &&& all[8] is Text
            &&& all[9] is Text
            &&& all[10] is Text
            &&& all[11] is Text
            &&& all[12] is Text || all[12] is Nil
            &&& all[13] is Text || all[13] is Nil
            &&& all[14] is Flag
            &&& all[15] == optional_record(any.route)
            &&& all[16] == record_list(any.capabilities@)
            &&& all[17] == record_list(any.dependencies@)
        } by {
            assert(any.wire()->Sequence_0 == all);
        }
        let record = IdunnExpectedIncarnationRecord {
            schema_version: read_text(&items[0])?,
            target: read_text(&items[1])?,
            plan_id: read_text(&items[2])?,
            incarnation_id: read_text(&items[3])?,
            sealed_release_id: read_text(&items[4])?,
            source_repository: read_text(&items[5])?,
            source_revision: read_text(&items[6])?,
            recipe_sha256: read_text(&items[7])?,
            runtime_id: read_text(&items[8])?,
            expected_signer_identity_id: read_text(&items[9])?,
            health_contract: read_text(&items[10])?,
            artifact_sha256: read_text(&items[11])?,
            state_schema_generation: read_optional_text(&items[12])?,
            state_contract_sha256: read_optional_text(&items[13])?,
            write_lease_required: read_flag(&items[14])?,
            route: read_optional_record(&items[15])?,
            capabilities: read_record_list(&items[16])?,
            dependencies: read_record_list(&items[17])?,
        };
        assert(record.wire()->Sequence_0 =~= all);
        Some(record)
    }

    fn check(&self) -> (outcome: Result<(), CultNetError>) {
        self.validate()
    }
}

impl CanonicalRecord for IdunnExpectedIncarnationRecord {
    const WIDTH_REFUSAL: &'static str = "expected incarnation is not the 18-field positional contract";

    const MALFORMED_REFUSAL: &'static str = "decoding expected incarnation";

    const NONCANONICAL_REFUSAL: &'static str = "expected incarnation is not canonical positional MessagePack";

    const RULES_FIRST: bool = false;
}

impl IdunnExpectedIncarnationRecord {
    /// Why the record is refused, if it is.
    #[verifier::opaque]
    pub open spec fn rule_violation(self) -> Option<Seq<char>> {
        if self.schema_version@ != IDUNN_EXPECTED_INCARNATION_SCHEMA@ {
            Some("expected incarnation schema is unsupported"@)
        } else if authority_violation(self.target@, "target"@) is Some {
            authority_violation(self.target@, "target"@)
        } else if sha256_violation(self.plan_id@, "plan id"@) is Some {
            sha256_violation(self.plan_id@, "plan id"@)
        } else if authority_violation(self.incarnation_id@, "incarnation id"@) is Some {
            authority_violation(self.incarnation_id@, "incarnation id"@)
        } else if sha256_violation(self.sealed_release_id@, "sealed release id"@) is Some {
            sha256_violation(self.sealed_release_id@, "sealed release id"@)
        } else if source_repository_violation(self.source_repository@) is Some {
            source_repository_violation(self.source_repository@)
        } else if !hex_of_length(self.source_revision@, 40) {
            Some("source revision is not a lowercase Git object id"@)
        } else if sha256_violation(self.recipe_sha256@, "recipe sha256"@) is Some {
            sha256_violation(self.recipe_sha256@, "recipe sha256"@)
        } else if authority_violation(self.runtime_id@, "runtime id"@) is Some {
            authority_violation(self.runtime_id@, "runtime id"@)
        } else if authority_violation(self.expected_signer_identity_id@, "expected signer identity id"@) is Some {
            authority_violation(self.expected_signer_identity_id@, "expected signer identity id"@)
        } else if authority_violation(self.health_contract@, "health contract"@) is Some {
            authority_violation(self.health_contract@, "health contract"@)
        } else if sha256_violation(self.artifact_sha256@, "artifact sha256"@) is Some {
            sha256_violation(self.artifact_sha256@, "artifact sha256"@)
        } else if state_lineage_violation(opt(self.state_schema_generation), opt(self.state_contract_sha256), "expected incarnation state lineage is partial"@) is Some {
            state_lineage_violation(opt(self.state_schema_generation), opt(self.state_contract_sha256), "expected incarnation state lineage is partial"@)
        } else if self.write_lease_required && self.state_schema_generation is None {
            Some("stateless incarnation cannot require a process write lease"@)
        } else if self.route is Some && self.route->0.violation() is Some {
            self.route->0.violation()
        } else if expected_capabilities_violation(self.capabilities@) is Some {
            expected_capabilities_violation(self.capabilities@)
        } else if expected_dependencies_violation(self.dependencies@) is Some {
            expected_dependencies_violation(self.dependencies@)
        } else {
            None
        }
    }

    /// In a record that meets its rules texts are short and parts are not refused.
    proof fn valid_fields_are_short(self)
        requires
            self.violation() is None,
        ensures
            byte_length(self.schema_version@) <= u32::MAX,
            byte_length(self.target@) <= u32::MAX,
            byte_length(self.plan_id@) <= u32::MAX,
            byte_length(self.incarnation_id@) <= u32::MAX,
            byte_length(self.sealed_release_id@) <= u32::MAX,
            byte_length(self.source_repository@) <= u32::MAX,
            byte_length(self.source_revision@) <= u32::MAX,
            byte_length(self.recipe_sha256@) <= u32::MAX,
            byte_length(self.runtime_id@) <= u32::MAX,
            byte_length(self.expected_signer_identity_id@) <= u32::MAX,
            byte_length(self.health_contract@) <= u32::MAX,
            byte_length(self.artifact_sha256@) <= u32::MAX,
            opt(self.state_schema_generation) matches Some(text) ==> byte_length(text) <= u32::MAX,
            opt(self.state_contract_sha256) matches Some(text) ==> byte_length(text) <= u32::MAX,
            self.route matches Some(route) ==> route.violation() is None,
            expected_capabilities_violation(self.capabilities@) is None,
            expected_dependencies_violation(self.dependencies@) is None,
    {
        reveal(IdunnExpectedIncarnationRecord::rule_violation);
        broadcast use sha256_reference_is_short;

        byte_length_is_bounded(self.schema_version@);
        reveal_strlit("idunn.expected_incarnation.v2");
        byte_length_is_bounded(self.source_revision@);
    }

    /// In a record that meets its rules the route and the lists fit MessagePack's bounds.
    proof fn valid_parts_are_carried(self)
        requires
            self.route matches Some(route) ==> route.violation() is None,
            expected_capabilities_violation(self.capabilities@) is None,
            expected_dependencies_violation(self.dependencies@) is None,
        ensures
            carried(optional_record(self.route), 2),
            carried(record_list(self.capabilities@), 2),
            carried(record_list(self.dependencies@), 2),
    {
        accepted_list_is_sorted(
            self.capabilities@,
            MAX_RUNTIME_CAPABILITIES as int,
            "Expected capability count exceeds its contract bound"@,
            "Expected capabilities are not strictly sorted and unique"@,
        );
        accepted_list_is_sorted(
            self.dependencies@,
            MAX_RUNTIME_DEPENDENCIES as int,
            "Expected dependency count exceeds its contract bound"@,
            "Expected dependencies are not strictly sorted and unique"@,
        );
        if let Some(found) = self.route {
            found.valid_is_carried();
            carried_grows(found.wire(), IdunnExpectedRoute::depth(), 2);
        }
        record_list_is_carried(self.capabilities@);
        record_list_is_carried(self.dependencies@);
    }

    pub fn decode_canonical(payload: &[u8]) -> (outcome: Result<Self, CultNetError>)
        ensures
            decoded_canonically(payload@, outcome),
    {
        decode_canonical_record(payload, 18)
    }

    pub fn canonical_bytes(&self) -> (outcome: Result<Vec<u8>, CultNetError>)
        ensures
            reports(outcome, self.violation()),
            outcome matches Ok(bytes) ==> bytes@ == messagepack_encoding(self.wire()),
    {
        canonical_record_bytes(self)
    }

    pub fn canonical_sha256(&self) -> (outcome: Result<String, CultNetError>)
        ensures
            reports(outcome, self.violation()),
            outcome matches Ok(digest) ==> digest@ == canonical_digest(*self) && sha256_reference(digest@),
    {
        canonical_record_sha256(self)
    }

    pub fn validate(&self) -> (outcome: Result<(), CultNetError>)
        ensures
            reports(outcome, self.violation()),
    {
        reveal(IdunnExpectedIncarnationRecord::rule_violation);
        ensure(
            same_text(&self.schema_version, IDUNN_EXPECTED_INCARNATION_SCHEMA),
            "expected incarnation schema is unsupported",
        )?;
        check_authority(&self.target, "target")?;
        check_sha256(&self.plan_id, "plan id")?;
        check_authority(&self.incarnation_id, "incarnation id")?;
        check_sha256(&self.sealed_release_id, "sealed release id")?;
        validate_source_repository(&self.source_repository)?;
        ensure(
            is_hex_of_length(&self.source_revision, 40),
            "source revision is not a lowercase Git object id",
        )?;
        check_sha256(&self.recipe_sha256, "recipe sha256")?;
        check_authority(&self.runtime_id, "runtime id")?;
        check_authority(&self.expected_signer_identity_id, "expected signer identity id")?;
        check_authority(&self.health_contract, "health contract")?;
        check_sha256(&self.artifact_sha256, "artifact sha256")?;
        check_state_lineage(
            &self.state_schema_generation,
            &self.state_contract_sha256,
            "expected incarnation state lineage is partial",
        )?;
        ensure(
            !(self.write_lease_required && self.state_schema_generation.is_none()),
            "stateless incarnation cannot require a process write lease",
        )?;
        if let Some(route) = &self.route {
            route.validate()?;
        }
        validate_expected_capabilities(&self.capabilities)?;
        validate_expected_dependencies(&self.dependencies)
    }
}

}
