use crate::registry::{Options, TestInfo};
use vstd::prelude::*;

verus! {

/// `needle` occurs in `hay` as a contiguous run of characters.
pub open spec fn is_infix(needle: Seq<char>, hay: Seq<char>) -> bool {
    exists|i: int|
        0 <= i && i + needle.len() <= hay.len() && #[trigger] hay.subrange(i, i + needle.len())
            == needle
}

/// Relies on `str::contains` with a `&str` pattern: true exactly when the
/// pattern occurs in the string as a contiguous run of characters.
#[verifier::external_body]
pub(crate) fn name_contains(name: &str, pattern: &str) -> (r: bool)
    ensures
        r == is_infix(pattern@, name@),
{
    name.contains(pattern)
}

/// The ignored-state policy: with `include_ignored` every test is kept;
/// otherwise `ignored` keeps the ignored tests only, and its absence the others only.
pub open spec fn keeps_ignored(o: Options, t: TestInfo) -> bool {
    if o.include_ignored {
        true
    } else if o.ignored {
        t.ignored
    } else {
        !t.ignored
    }
}

/// The name policy: without a filter string every name is kept; with one, a name
/// is kept when it equals the filter (exact mode) or contains it.
pub open spec fn keeps_name(o: Options, t: TestInfo) -> bool {
    match o.filter {
        None => true,
        Some(f) => if o.filter_exact {
            t.name@ == f@
        } else {
            is_infix(f@, t.name@)
        },
    }
}

/// A test survives the filter when both policies keep it.
pub open spec fn keeps(o: Options, t: TestInfo) -> bool {
    keeps_ignored(o, t) && keeps_name(o, t)
}

/// The tests of `s` that survive the filter, in their order in `s`.
pub open spec fn kept(o: Options, s: Seq<TestInfo>) -> Seq<TestInfo>
    decreases s.len(),
{
    if s.len() == 0 {
        Seq::empty()
    } else {
        let rest = kept(o, s.drop_last());
        if keeps(o, s.last()) {
            rest.push(s.last())
        } else {
            rest
        }
    }
}

/// The filter keeps nothing but tests that it selects.
pub proof fn lemma_kept_selected(o: Options, s: Seq<TestInfo>)
    ensures
        forall|i: int| 0 <= i < kept(o, s).len() ==> keeps(o, #[trigger] kept(o, s)[i]),
        kept(o, s).len() <= s.len(),
    decreases s.len(),
{
    if s.len() > 0 {
        lemma_kept_selected(o, s.drop_last());
    }
}

/// Filtering a concatenation filters each part.
pub proof fn lemma_kept_concat(o: Options, a: Seq<TestInfo>, b: Seq<TestInfo>)
    ensures
        kept(o, a + b) == kept(o, a) + kept(o, b),
    decreases b.len(),
{
    if b.len() == 0 {
        assert(a + b =~= a);
        assert(kept(o, a) + kept(o, b) =~= kept(o, a));
    } else {
        lemma_kept_concat(o, a, b.drop_last());
        assert((a + b).drop_last() =~= a + b.drop_last());
        assert((a + b).last() == b.last());
        if keeps(o, b.last()) {
            assert(kept(o, a) + kept(o, b) =~= (kept(o, a) + kept(o, b.drop_last())).push(b.last()));
        }
    }
}

/// Filtering is idempotent: the tests that survive the filter survive it again.
pub proof fn lemma_kept_idempotent(o: Options, s: Seq<TestInfo>)
    ensures
        kept(o, kept(o, s)) == kept(o, s),
    decreases s.len(),
{
    if s.len() > 0 {
        lemma_kept_idempotent(o, s.drop_last());
        let rest = kept(o, s.drop_last());
        if keeps(o, s.last()) {
            assert(rest.push(s.last()).drop_last() =~= rest);
        }
    }
}

} // verus!
