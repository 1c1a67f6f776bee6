use vstd::prelude::*;
use crate::config::{
    config_of, config_problem, entry_problem, lemma_keys_distinct, first_problem, key_of, seen_before, value_in,
    value_of, Clause, RawOption, Style,
};
use crate::expand::{expansion_of, CheckModel, ExpansionModel};
use crate::text::{contains, lemma_fresh_from, RESULT_NAME};

verus! {

/// How the body of a marked block ends when it runs.
pub enum BodyRun {
    /// It completes normally with this value.
    Completes(int),
    /// It leaves early (`return`, `?`, `break`) carrying this value.
    Exits(int),
}

/// One run of the code at a marked block's place.
pub struct Execution {
    /// Whether the build has debug assertions on.
    pub debug: bool,
    /// The value of the precondition just before the body.
    pub pre_holds: bool,
    pub body: BodyRun,
    /// The value of the postcondition just after the body completes.
    pub post_holds: bool,
}

/// What the code at a marked block's place does.
pub enum Outcome {
    Yields(int),
    Exits(int),
    /// A debug assertion fails with this message.
    Fails(Seq<char>),
}

/// The message that a failed check reports: the reason in quotes, then a
/// phrase that tells a precondition from a postcondition.
pub open spec fn failure_message(c: CheckModel) -> Seq<char> {
    "\""@ + c.reason + "\" is invalid because the "@ + (if c.clause.is_before() {
        "required"@
    } else {
        "ensured"@
    }) + " condition failed"@
}

/// A `debug_assert!` passes in a release build, when absent, or when it holds.
pub open spec fn passes(c: Option<CheckModel>, debug: bool, holds: bool) -> bool {
    !debug || c is None || holds
}

/// Whether the body of an expansion runs.
pub open spec fn body_runs(e: ExpansionModel, x: Execution) -> bool {
    passes(e.pre, x.debug, x.pre_holds)
}

/// What the code of an expansion does: the precondition's check, then the
/// body; on normal completion of an `unsafe` block the postcondition's check,
/// then the captured value.
pub open spec fn run(e: ExpansionModel, x: Execution) -> Outcome {
    if !body_runs(e, x) {
        Outcome::Fails(failure_message(e.pre->0))
    } else {
        match x.body {
            BodyRun::Exits(v) => Outcome::Exits(v),
            BodyRun::Completes(v) => if e.style is Contract && !passes(
                e.post,
                x.debug,
                x.post_holds,
            ) {
                Outcome::Fails(failure_message(e.post->0))
            } else {
                Outcome::Yields(v)
            },
        }
    }
}

/// What the marked block does without the attribute.
pub open spec fn run_unmarked(x: Execution) -> Outcome {
    match x.body {
        BodyRun::Completes(v) => Outcome::Yields(v),
        BodyRun::Exits(v) => Outcome::Exits(v),
    }
}

/// An outcome with the text of a failure message left out.
pub open spec fn flow(o: Outcome) -> Outcome {
    match o {
        Outcome::Fails(_) => Outcome::Fails(Seq::empty()),
        _ => o,
    }
}

/// The two option lists are equal but for the text given to `reason`.
pub open spec fn same_but_reason(a: Seq<RawOption>, b: Seq<RawOption>) -> bool {
    a.len() == b.len() && forall|i: int|
        0 <= i < a.len() ==> #[trigger] a[i] == b[i] || (a[i] is Text && b[i] is Text
            && a[i]->Text_0@ == "reason"@ && b[i]->Text_0@ == "reason"@)
}

/// With `reason` alone, no check is added and the replacement behaves as the
/// unmarked block, in debug and in release builds.
pub proof fn reason_alone_is_transparent(opts: Seq<RawOption>, item: Seq<char>, x: Execution)
    requires
        expansion_of(opts, item) is Ok,
        value_of(opts, Clause::Requires.key()) is None,
        value_of(opts, Clause::Ensures.key()) is None,
        value_of(opts, Clause::Precondition.key()) is None,
    ensures
        expansion_of(opts, item)->Ok_0.pre is None,
        expansion_of(opts, item)->Ok_0.post is None,
        run(expansion_of(opts, item)->Ok_0, x) == run_unmarked(x),
{
}

/// In a debug build, a precondition that is false stops the block before its
/// body runs, with a failure that names the reason.
pub proof fn false_precondition_stops_body(opts: Seq<RawOption>, item: Seq<char>, x: Execution)
    requires
        expansion_of(opts, item) is Ok,
        value_of(opts, Clause::Requires.key()) is Some || value_of(
            opts,
            Clause::Precondition.key(),
        ) is Some,
        x.debug,
        !x.pre_holds,
    ensures
        !body_runs(expansion_of(opts, item)->Ok_0, x),
        run(expansion_of(opts, item)->Ok_0, x) == Outcome::Fails(
            failure_message(
                CheckModel {
                    clause: expansion_of(opts, item)->Ok_0.pre->0.clause,
                    condition: expansion_of(opts, item)->Ok_0.pre->0.condition,
                    reason: value_of(opts, "reason"@)->0,
                },
            ),
        ),
        expansion_of(opts, item)->Ok_0.pre->0.clause.is_before(),
{
}

/// In a debug build, a postcondition that is false after the body completes
/// normally is reported before the block's value is handed on.
pub proof fn false_postcondition_is_caught(opts: Seq<RawOption>, item: Seq<char>, x: Execution)
    requires
        expansion_of(opts, item) is Ok,
        value_of(opts, Clause::Ensures.key()) is Some,
        x.debug,
        body_runs(expansion_of(opts, item)->Ok_0, x),
        x.body is Completes,
        !x.post_holds,
    ensures
        run(expansion_of(opts, item)->Ok_0, x) == Outcome::Fails(
            failure_message(
                CheckModel {
                    clause: Clause::Ensures,
                    condition: value_of(opts, Clause::Ensures.key())->0,
                    reason: value_of(opts, "reason"@)->0,
                },
            ),
        ),
{
}

/// When every condition that is given holds at its point, the replacement
/// behaves as the unmarked block, in debug and in release builds.
pub proof fn holding_conditions_change_nothing(
    opts: Seq<RawOption>,
    item: Seq<char>,
    x: Execution,
)
    requires
        expansion_of(opts, item) is Ok,
        expansion_of(opts, item)->Ok_0.pre is Some ==> x.pre_holds,
        expansion_of(opts, item)->Ok_0.post is Some ==> x.post_holds,
    ensures
        run(expansion_of(opts, item)->Ok_0, x) == run_unmarked(x),
{
}

/// In a release build no condition is evaluated: the body always runs and
/// the replacement behaves as the unmarked block, whatever the conditions.
pub proof fn release_build_is_unchecked(opts: Seq<RawOption>, item: Seq<char>, x: Execution)
    requires
        expansion_of(opts, item) is Ok,
        !x.debug,
    ensures
        body_runs(expansion_of(opts, item)->Ok_0, x),
        run(expansion_of(opts, item)->Ok_0, x) == run_unmarked(x),
{
}

/// The name that captures the body's value occurs nowhere in the
/// postcondition, so it shadows nothing that the postcondition reads.
pub proof fn result_name_is_fresh(opts: Seq<RawOption>, item: Seq<char>)
    requires
        expansion_of(opts, item) is Ok,
        value_of(opts, Clause::Ensures.key()) is Some,
    ensures
        !contains(
            value_of(opts, Clause::Ensures.key())->0,
            expansion_of(opts, item)->Ok_0.result_name,
        ),
{
    lemma_fresh_from(RESULT_NAME@, value_of(opts, Clause::Ensures.key())->0);
}

proof fn lemma_same_keys(a: Seq<RawOption>, b: Seq<RawOption>)
    requires
        same_but_reason(a, b),
    ensures
        forall|i: int| 0 <= i < a.len() ==> #[trigger] key_of(a[i]) == key_of(b[i]),
        forall|i: int, k: Seq<char>| 0 <= i <= a.len() ==> #[trigger] seen_before(a, i, k)
            == seen_before(b, i, k),
        forall|i: int| 0 <= i < a.len() ==> #[trigger] entry_problem(a, i) == entry_problem(b, i),
{
    assert forall|i: int| 0 <= i < a.len() implies #[trigger] key_of(a[i]) == key_of(b[i]) by {
        assert(a[i] == b[i] || (a[i] is Text && b[i] is Text));
    }
    assert forall|i: int, k: Seq<char>| 0 <= i <= a.len() implies #[trigger] seen_before(a, i, k)
        == seen_before(b, i, k) by {
        if seen_before(a, i, k) {
            let j = choose|j: int| 0 <= j < i && #[trigger] key_of(a[j]) == Some(k);
            assert(key_of(b[j]) == Some(k));
        }
        if seen_before(b, i, k) {
            let j = choose|j: int| 0 <= j < i && #[trigger] key_of(b[j]) == Some(k);
            assert(key_of(a[j]) == Some(k));
        }
    }
    assert forall|i: int| 0 <= i < a.len() implies #[trigger] entry_problem(a, i)
        == entry_problem(b, i) by {
        assert(a[i] == b[i] || (a[i] is Text && b[i] is Text));
        assert(seen_before(a, i, "reason"@) == seen_before(b, i, "reason"@));
    }
}

proof fn lemma_same_problems(a: Seq<RawOption>, b: Seq<RawOption>, n: int)
    requires
        same_but_reason(a, b),
        n <= a.len(),
    ensures
        first_problem(a, n) == first_problem(b, n),
    decreases n,
{
    if n > 0 {
        lemma_same_problems(a, b, n - 1);
        lemma_same_keys(a, b);
    }
}

proof fn lemma_same_values(a: Seq<RawOption>, b: Seq<RawOption>, k: Seq<char>, n: int)
    requires
        same_but_reason(a, b),
        k != "reason"@,
        n <= a.len(),
    ensures
        value_in(a, k, n) == value_in(b, k, n),
    decreases n,
{
    if n > 0 {
        lemma_same_values(a, b, k, n - 1);
        assert(a[n - 1] == b[n - 1] || (a[n - 1] is Text && b[n - 1] is Text
            && a[n - 1]->Text_0@ == "reason"@ && b[n - 1]->Text_0@ == "reason"@));
    }
}

/// The text of `reason` changes nothing but failure messages: two option
/// lists that differ only there give the same checks on the same code, and
/// every run takes the same course.
pub proof fn reason_only_documents(
    a: Seq<RawOption>,
    b: Seq<RawOption>,
    item: Seq<char>,
    x: Execution,
)
    requires
        same_but_reason(a, b),
        expansion_of(a, item) is Ok,
        expansion_of(b, item) is Ok,
    ensures
        expansion_of(a, item)->Ok_0.style == expansion_of(b, item)->Ok_0.style,
        expansion_of(a, item)->Ok_0.body == expansion_of(b, item)->Ok_0.body,
        expansion_of(a, item)->Ok_0.result_name == expansion_of(b, item)->Ok_0.result_name,
        expansion_of(a, item)->Ok_0.pre is Some == expansion_of(b, item)->Ok_0.pre is Some,
        expansion_of(a, item)->Ok_0.post is Some == expansion_of(b, item)->Ok_0.post is Some,
        flow(run(expansion_of(a, item)->Ok_0, x)) == flow(run(expansion_of(b, item)->Ok_0, x)),
{
    lemma_keys_distinct();
    lemma_same_problems(a, b, a.len() as int);
    lemma_same_values(a, b, Clause::Requires.key(), a.len() as int);
    lemma_same_values(a, b, Clause::Ensures.key(), a.len() as int);
    lemma_same_values(a, b, Clause::Precondition.key(), a.len() as int);
    assert(config_problem(a) is None);
    let ca = config_of(a);
    let cb = config_of(b);
    assert(ca.style == cb.style);
    assert(ca.precondition == cb.precondition);
    assert(ca.postcondition == cb.postcondition);
}

} // verus!
