//! The error that every fallible operation of the library returns.
use vstd::prelude::*;

verus! {

/// A refused operation, with the reason in words.
#[derive(Clone, Debug, PartialEq, Eq)]
pub struct CultNetError {
    pub message: String,
}

impl View for CultNetError {
    type V = Seq<char>;

    open spec fn view(&self) -> Seq<char> {
        self.message@
    }
}

impl CultNetError {
    pub fn new(message: &str) -> (error: CultNetError)
        ensures
            error@ == message@,
    {
        CultNetError { message: message.to_owned() }
    }

    /// The reason in words.
    pub fn message(&self) -> (message: &str)
        ensures
            message@ == self@,
    {
        &self.message
    }
}

/// `reports(outcome, reason)`: the outcome is a success exactly if there is no
/// reason against it, and otherwise an error that gives this reason.
pub open spec fn reports<T>(outcome: Result<T, CultNetError>, reason: Option<Seq<char>>) -> bool {
    match reason {
        None => outcome is Ok,
        Some(message) => outcome is Err && outcome->Err_0@ == message,
    }
}

/// The first of two reasons that is there.
pub open spec fn first_of(first: Option<Seq<char>>, second: Option<Seq<char>>) -> Option<Seq<char>> {
    if first is Some {
        first
    } else {
        second
    }
}

/// The first reason among those at the positions before `end`.
pub open spec fn first_among(reasons: spec_fn(int) -> Option<Seq<char>>, end: nat) -> Option<
    Seq<char>,
>
    decreases end,
{
    if end == 0 {
        None
    } else {
        first_of(first_among(reasons, (end - 1) as nat), reasons(end - 1))
    }
}

/// The given message as a reason, if the rule is broken.
pub open spec fn unless(rule: bool, message: Seq<char>) -> Option<Seq<char>> {
    if rule {
        None
    } else {
        Some(message)
    }
}

/// An error with the given message.
pub fn refuse<T>(message: &str) -> (outcome: Result<T, CultNetError>)
    ensures
        outcome is Err,
        outcome->Err_0@ == message@,
{
    Err(CultNetError::new(message))
}

/// Success if the rule holds, and otherwise an error with the given message.
pub fn ensure(rule: bool, message: &str) -> (outcome: Result<(), CultNetError>)
    ensures
        reports(outcome, unless(rule, message@)),
{
    if rule {
        Ok(())
    } else {
        refuse(message)
    }
}

/// There is no reason among several exactly if there is none at any position.
pub proof fn none_among(reasons: spec_fn(int) -> Option<Seq<char>>, end: nat)
    ensures
        first_among(reasons, end) is None <==> forall|i: int| 0 <= i < end ==> #[trigger] reasons(i) is None,
    decreases end,
{
    if end > 0 {
        none_among(reasons, (end - 1) as nat);
    }
}

/// A reason among the earlier positions stays the first one.
pub proof fn first_among_stays(reasons: spec_fn(int) -> Option<Seq<char>>, start: nat, end: nat)
    requires
        start <= end,
        first_among(reasons, start) is Some,
    ensures
        first_among(reasons, end) == first_among(reasons, start),
    decreases end,
{
    if start < end {
        first_among_stays(reasons, start, (end - 1) as nat);
    }
}

/// Reasons that agree at every position have the same first one.
pub proof fn same_reasons(
    a: spec_fn(int) -> Option<Seq<char>>,
    b: spec_fn(int) -> Option<Seq<char>>,
    end: nat,
)
    requires
        forall|i: int| 0 <= i < end ==> #[trigger] a(i) == b(i),
    ensures
        first_among(a, end) == first_among(b, end),
    decreases end,
{
    if end > 0 {
        same_reasons(a, b, (end - 1) as nat);
    }
}

}
