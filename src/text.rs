use vstd::prelude::*;

verus! {

/// The name first tried for the captured result of a marked block.
pub const RESULT_NAME: &'static str = "__safe_result";

/// `needle` occurs in `hay` as a contiguous run of characters.
pub open spec fn contains(hay: Seq<char>, needle: Seq<char>) -> bool {
    exists|i: int|
        0 <= i && i + needle.len() <= hay.len() && #[trigger] hay.subrange(i, i + needle.len())
            == needle
}

/// The first of `cand`, `cand_`, `cand__`, ... that does not occur in `avoid`.
pub open spec fn fresh_from(cand: Seq<char>, avoid: Seq<char>) -> Seq<char>
    decreases avoid.len() + 1 - cand.len(),
{
    if cand.len() > avoid.len() || !contains(avoid, cand) {
        cand
    } else {
        fresh_from(cand.push('_'), avoid)
    }
}

/// The chosen name is clear of `avoid` and extends the first candidate.
pub proof fn lemma_fresh_from(cand: Seq<char>, avoid: Seq<char>)
    ensures
        !contains(avoid, fresh_from(cand, avoid)),
        fresh_from(cand, avoid).len() >= cand.len(),
        fresh_from(cand, avoid).subrange(0, cand.len() as int) == cand,
    decreases avoid.len() + 1 - cand.len(),
{
    if cand.len() > avoid.len() {
        assert(fresh_from(cand, avoid).subrange(0, cand.len() as int) =~= cand);
    } else if !contains(avoid, cand) {
        assert(fresh_from(cand, avoid).subrange(0, cand.len() as int) =~= cand);
    } else {
        let next = cand.push('_');
        lemma_fresh_from(next, avoid);
        let r = fresh_from(next, avoid);
        assert(r.subrange(0, cand.len() as int) =~= next.subrange(0, next.len() as int).subrange(
            0,
            cand.len() as int,
        ));
        assert(next.subrange(0, cand.len() as int) =~= cand);
    }
}

/// Whether the characters of `needle` start at position `at` of `hay`.
fn occurs_at(hay: &str, needle: &str, at: usize) -> (r: bool)
    requires
        at + needle@.len() <= hay@.len() <= usize::MAX,
    ensures
        r == (hay@.subrange(at as int, at + needle@.len()) == needle@),
{
    let n = needle.unicode_len();
    let mut j: usize = 0;
    while j < n
        invariant
            n == needle@.len(),
            at + n <= hay@.len() <= usize::MAX,
            j <= n,
            forall|k: int| 0 <= k < j ==> hay@[at + k] == needle@[k],
        decreases n - j,
    {
        if hay.get_char(at + j) != needle.get_char(j) {
            assert(hay@.subrange(at as int, at + n)[j as int] != needle@[j as int]);
            return false;
        }
        j = j + 1;
    }
    assert(hay@.subrange(at as int, at + n) =~= needle@);
    true
}

/// Whether `needle` occurs anywhere in `hay`.
pub fn text_contains(hay: &str, needle: &str) -> (r: bool)
    ensures
        r == contains(hay@, needle@),
{
    let h = hay.unicode_len();
    let n = needle.unicode_len();
    if n == 0 {
        assert(hay@.subrange(0, 0 + needle@.len() as int) =~= needle@);
        return true;
    }
    if n > h {
        return false;
    }
    let mut i: usize = 0;
    while i < h - n + 1
        invariant
            h == hay@.len(),
            n == needle@.len(),
            0 < n <= h,
            i <= h - n + 1,
            forall|k: int| 0 <= k < i ==> #[trigger] hay@.subrange(k, k + n) != needle@,
        decreases h - n + 1 - i,
    {
        if occurs_at(hay, needle, i) {
            return true;
        }
        i = i + 1;
    }
    false
}

/// A name for the captured result that occurs nowhere in `avoid`: the
/// default name, with underscores added until it is fresh.
pub fn fresh_name(avoid: &str) -> (r: String)
    ensures
        r@ == fresh_from(RESULT_NAME@, avoid@),
        !contains(avoid@, r@),
{
    let mut cand = String::from_str(RESULT_NAME);
    let alen = avoid.unicode_len();
    proof {
        lemma_fresh_from(RESULT_NAME@, avoid@);
    }
    loop
        invariant
            alen == avoid@.len(),
            fresh_from(cand@, avoid@) == fresh_from(RESULT_NAME@, avoid@),
        decreases avoid@.len() + 1 - cand@.len(),
    {
        let clen = cand.as_str().unicode_len();
        if clen > alen || !text_contains(avoid, cand.as_str()) {
            proof {
                lemma_fresh_from(cand@, avoid@);
            }
            return cand;
        }
        let ghost before = cand@;
        cand.append("_");
        proof {
            reveal_strlit("_");
            assert(cand@ =~= before.push('_'));
        }
    }
}

} // verus!
