//! Rules on single fields that several records share, each with the words in which
//! a record that breaks it is refused.
use vstd::prelude::*;
use crate::error::{ensure, reports, unless, CultNetError};
use crate::text::{
    bounded, identifier, is_bounded, is_identifier, is_sha256_reference, joined, opt,
    sha256_reference,
};

verus! {

/// The longest name, in bytes, that an authority-bearing field may hold.
pub const AUTHORITY_LIMIT: usize = 256;

/// Why the text is no name, if it is none.
pub open spec fn identifier_violation(text: Seq<char>, label: Seq<char>) -> Option<Seq<char>> {
    unless(
        identifier(text),
        label + " is empty, oversized, or contains control characters"@,
    )
}

pub open spec fn optional_identifier_violation(text: Option<Seq<char>>, label: Seq<char>) -> Option<Seq<char>> {
    match text {
        Some(found) => identifier_violation(found, label),
        None => None,
    }
}

/// Why the text is not within the limit, unpadded and free of control characters.
pub open spec fn bounded_violation(text: Seq<char>, limit: int, label: Seq<char>) -> Option<Seq<char>> {
    unless(
        bounded(text, limit),
        label + " is empty, oversized, padded, or contains control characters"@,
    )
}

pub open spec fn optional_bounded_violation(text: Option<Seq<char>>, limit: int, label: Seq<char>) -> Option<
    Seq<char>,
> {
    match text {
        Some(found) => bounded_violation(found, limit, label),
        None => None,
    }
}

/// Why the text is no authority-bearing name.
pub open spec fn authority_violation(text: Seq<char>, label: Seq<char>) -> Option<Seq<char>> {
    bounded_violation(text, AUTHORITY_LIMIT as int, label)
}

pub open spec fn optional_authority_violation(text: Option<Seq<char>>, label: Seq<char>) -> Option<Seq<char>> {
    optional_bounded_violation(text, AUTHORITY_LIMIT as int, label)
}

/// Why the text is no reference to a digest.
pub open spec fn sha256_violation(text: Seq<char>, label: Seq<char>) -> Option<Seq<char>> {
    unless(sha256_reference(text), label + " is malformed"@)
}

pub open spec fn optional_sha256_violation(text: Option<Seq<char>>, label: Seq<char>) -> Option<Seq<char>> {
    match text {
        Some(found) => sha256_violation(found, label),
        None => None,
    }
}

pub fn check_identifier(text: &str, label: &str) -> (outcome: Result<(), CultNetError>)
    ensures
        reports(outcome, identifier_violation(text@, label@)),
{
    ensure(
        is_identifier(text),
        &joined(label, " is empty, oversized, or contains control characters"),
    )
}

pub fn check_optional_identifier(text: &Option<String>, label: &str) -> (outcome: Result<(), CultNetError>)
    ensures
        reports(outcome, optional_identifier_violation(opt(*text), label@)),
{
    match text {
        Some(found) => check_identifier(found, label),
        None => Ok(()),
    }
}

pub fn check_bounded(text: &str, limit: usize, label: &str) -> (outcome: Result<(), CultNetError>)
    ensures
        reports(outcome, bounded_violation(text@, limit as int, label@)),
{
    ensure(
        is_bounded(text, limit),
        &joined(label, " is empty, oversized, padded, or contains control characters"),
    )
}

pub fn check_optional_bounded(text: &Option<String>, limit: usize, label: &str) -> (outcome: Result<
    (),
    CultNetError,
>)
    ensures
        reports(outcome, optional_bounded_violation(opt(*text), limit as int, label@)),
{
    match text {
        Some(found) => check_bounded(found, limit, label),
        None => Ok(()),
    }
}

pub fn check_authority(text: &str, label: &str) -> (outcome: Result<(), CultNetError>)
    ensures
        reports(outcome, authority_violation(text@, label@)),
{
    check_bounded(text, AUTHORITY_LIMIT, label)
}

pub fn check_optional_authority(text: &Option<String>, label: &str) -> (outcome: Result<(), CultNetError>)
    ensures
        reports(outcome, optional_authority_violation(opt(*text), label@)),
{
    check_optional_bounded(text, AUTHORITY_LIMIT, label)
}

pub fn check_sha256(text: &str, label: &str) -> (outcome: Result<(), CultNetError>)
    ensures
        reports(outcome, sha256_violation(text@, label@)),
{
    ensure(is_sha256_reference(text), &joined(label, " is malformed"))
}

pub fn check_optional_sha256(text: &Option<String>, label: &str) -> (outcome: Result<(), CultNetError>)
    ensures
        reports(outcome, optional_sha256_violation(opt(*text), label@)),
{
    match text {
        Some(found) => check_sha256(found, label),
        None => Ok(()),
    }
}

}
