//! The text operations of std that the decision logic relies on, with what they compute.
use vstd::prelude::*;
use vstd::utf8::{decode_utf8, valid_utf8};

verus! {

/// The characters that `char::is_whitespace` accepts (Unicode `White_Space`).
pub open spec fn is_white_space(c: char) -> bool {
    let n = c as u32;
    ||| 0x09 <= n <= 0x0d
    ||| n == 0x20
    ||| n == 0x85
    ||| n == 0xa0
    ||| n == 0x1680
    ||| 0x2000 <= n <= 0x200a
    ||| n == 0x2028
    ||| n == 0x2029
    ||| n == 0x202f
    ||| n == 0x205f
    ||| n == 0x3000
}

/// No character of `t` is whitespace.
pub open spec fn no_white_space(t: Seq<char>) -> bool {
    forall|k: int| 0 <= k < t.len() ==> !is_white_space(#[trigger] t[k])
}

/// `t` stands in `s` at index `i` as a maximal nonempty run of non-whitespace characters.
pub open spec fn token_at(s: Seq<char>, i: int, t: Seq<char>) -> bool {
    &&& 0 < t.len()
    &&& 0 <= i
    &&& i + t.len() <= s.len()
    &&& s.subrange(i, i + t.len()) == t
    &&& no_white_space(t)
    &&& (i == 0 || is_white_space(s[i - 1]))
    &&& (i + t.len() == s.len() || is_white_space(s[i + t.len()]))
}

/// `t` is one of the whitespace-separated tokens of `s`.
pub open spec fn is_token_of(s: Seq<char>, t: Seq<char>) -> bool {
    exists|i: int| token_at(s, i, t)
}

/// `s` without its leading whitespace.
pub open spec fn trim_start(s: Seq<char>) -> Seq<char>
    decreases s.len(),
{
    if s.len() > 0 && is_white_space(s[0]) {
        trim_start(s.drop_first())
    } else {
        s
    }
}

/// `s` without its trailing whitespace.
pub open spec fn trim_end(s: Seq<char>) -> Seq<char>
    decreases s.len(),
{
    if s.len() > 0 && is_white_space(s.last()) {
        trim_end(s.drop_last())
    } else {
        s
    }
}

/// `s` without leading and trailing whitespace.
pub open spec fn trimmed(s: Seq<char>) -> Seq<char> {
    trim_end(trim_start(s))
}

/// Every character of `s` is whitespace.
pub open spec fn all_white_space(s: Seq<char>) -> bool {
    forall|k: int| 0 <= k < s.len() ==> is_white_space(#[trigger] s[k])
}

/// The code of `c` after ASCII lowercasing: `A`..`Z` become `a`..`z`, all else is kept.
pub open spec fn ascii_lower(c: char) -> u32 {
    let n = c as u32;
    if 0x41 <= n <= 0x5a {
        (n + 0x20) as u32
    } else {
        n
    }
}

/// `a` and `b` are equal up to ASCII case.
pub open spec fn eq_ascii_case_insensitive(a: Seq<char>, b: Seq<char>) -> bool {
    &&& a.len() == b.len()
    &&& forall|k: int| 0 <= k < a.len() ==> #[trigger] ascii_lower(a[k]) == ascii_lower(b[k])
}

/// Calls `str::split_whitespace`, which yields the maximal runs of non-whitespace
/// characters of `s`. Stated: each token returned is such a run, and each such run is
/// among the tokens returned (their order and multiplicity are left unsaid).
#[verifier::external_body]
pub(crate) fn whitespace_tokens(s: &str) -> (tokens: Vec<String>)
    ensures
        forall|k: int| 0 <= k < tokens@.len() ==> is_token_of(s@, #[trigger] tokens@[k]@),
        forall|t: Seq<char>|
            #[trigger] is_token_of(s@, t) ==> exists|k: int|
                0 <= k < tokens@.len() && #[trigger] tokens@[k]@ == t,
{
    s.split_whitespace().map(|t| t.to_string()).collect()
}

/// Calls `str::trim`, which removes leading and trailing whitespace.
#[verifier::external_body]
pub(crate) fn trim(s: &str) -> (r: String)
    ensures
        r@ == trimmed(s@),
{
    s.trim().to_string()
}

/// Calls `str::eq_ignore_ascii_case`: equal lengths and equal characters after ASCII
/// lowercasing.
#[verifier::external_body]
pub(crate) fn eq_ignore_ascii_case(a: &str, b: &str) -> (r: bool)
    ensures
        r == eq_ascii_case_insensitive(a@, b@),
{
    a.eq_ignore_ascii_case(b)
}

/// Calls `std::str::from_utf8`: text exactly when the bytes are valid UTF-8, and then
/// the characters they encode.
#[verifier::external_body]
pub(crate) fn utf8_text(bytes: &[u8]) -> (r: Option<String>)
    ensures
        r is Some <==> valid_utf8(bytes@),
        r matches Some(s) ==> s@ == decode_utf8(bytes@),
{
    std::str::from_utf8(bytes).ok().map(|s| s.to_string())
}

/// Trimming leaves nothing exactly when every character is whitespace.
pub proof fn lemma_trimmed_empty(s: Seq<char>)
    ensures
        trimmed(s).len() == 0 <==> all_white_space(s),
{
    lemma_trim_start(s);
    let r = trim_start(s);
    if r.len() > 0 {
        lemma_trim_end_keeps_head(r);
    }
}

/// `trim_start` leaves an empty sequence, or one whose first character is not
/// whitespace, and the former exactly when `s` is all whitespace.
proof fn lemma_trim_start(s: Seq<char>)
    ensures
        trim_start(s).len() == 0 <==> all_white_space(s),
        trim_start(s).len() > 0 ==> !is_white_space(trim_start(s)[0]),
    decreases s.len(),
{
    if s.len() > 0 && is_white_space(s[0]) {
        lemma_trim_start(s.drop_first());
        if all_white_space(s.drop_first()) {
            assert forall|k: int| 0 <= k < s.len() implies is_white_space(#[trigger] s[k]) by {
                if k > 0 {
                    assert(s[k] == s.drop_first()[k - 1]);
                }
            }
        }
        if all_white_space(s) {
            assert forall|k: int| 0 <= k < s.drop_first().len() implies is_white_space(
                #[trigger] s.drop_first()[k],
            ) by {
                assert(s.drop_first()[k] == s[k + 1]);
            }
        }
    } else if s.len() > 0 {
        assert(!is_white_space(s[0]));
    }
}

/// `trim_end` keeps a first character that is not whitespace.
proof fn lemma_trim_end_keeps_head(s: Seq<char>)
    requires
        s.len() > 0,
        !is_white_space(s[0]),
    ensures
        trim_end(s).len() > 0,
    decreases s.len(),
{
    if is_white_space(s.last()) {
        assert(s.len() > 1);
        assert(s.drop_last()[0] == s[0]);
        lemma_trim_end_keeps_head(s.drop_last());
    }
}

/// Dropping a leading whitespace character keeps the tokens of a sequence.
proof fn lemma_tokens_without_first(s: Seq<char>, t: Seq<char>)
    requires
        s.len() > 0,
        is_white_space(s[0]),
    ensures
        is_token_of(s, t) == is_token_of(s.drop_first(), t),
{
    let r = s.drop_first();
    if is_token_of(s, t) {
        let i = choose|i: int| token_at(s, i, t);
        if i == 0 {
            assert(t[0] == s.subrange(0, t.len() as int)[0]);
            assert(!is_white_space(t[0]));
        }
        assert(r.subrange(i - 1, i - 1 + t.len()) =~= s.subrange(i, i + t.len()));
        if i - 1 > 0 {
            assert(r[i - 2] == s[i - 1]);
        }
        if i - 1 + t.len() < r.len() {
            assert(r[i - 1 + t.len()] == s[i + t.len()]);
        }
        assert(token_at(r, i - 1, t));
    }
    if is_token_of(r, t) {
        let j = choose|j: int| token_at(r, j, t);
        assert(s.subrange(j + 1, j + 1 + t.len()) =~= r.subrange(j, j + t.len()));
        if j > 0 {
            assert(s[j] == r[j - 1]);
        }
        if j + 1 + t.len() < s.len() {
            assert(s[j + 1 + t.len()] == r[j + t.len()]);
        }
        assert(token_at(s, j + 1, t));
    }
}

/// Dropping a trailing whitespace character keeps the tokens of a sequence.
proof fn lemma_tokens_without_last(s: Seq<char>, t: Seq<char>)
    requires
        s.len() > 0,
        is_white_space(s.last()),
    ensures
        is_token_of(s, t) == is_token_of(s.drop_last(), t),
{
    let r = s.drop_last();
    if is_token_of(s, t) {
        let i = choose|i: int| token_at(s, i, t);
        if i + t.len() == s.len() {
            let k = t.len() - 1;
            assert(t[k] == s.subrange(i, i + t.len())[k]);
            assert(!is_white_space(t[k]));
        }
        assert(r.subrange(i, i + t.len()) =~= s.subrange(i, i + t.len()));
        if i > 0 {
            assert(r[i - 1] == s[i - 1]);
        }
        if i + t.len() < r.len() {
            assert(r[i + t.len()] == s[i + t.len()]);
        }
        assert(token_at(r, i, t));
    }
    if is_token_of(r, t) {
        let j = choose|j: int| token_at(r, j, t);
        assert(s.subrange(j, j + t.len()) =~= r.subrange(j, j + t.len()));
        if j > 0 {
            assert(s[j - 1] == r[j - 1]);
        }
        if j + t.len() < r.len() {
            assert(s[j + t.len()] == r[j + t.len()]);
        }
        assert(token_at(s, j, t));
    }
}

/// Removing leading whitespace keeps the tokens.
proof fn lemma_trim_start_keeps_tokens(s: Seq<char>, t: Seq<char>)
    ensures
        is_token_of(trim_start(s), t) == is_token_of(s, t),
    decreases s.len(),
{
    if s.len() > 0 && is_white_space(s[0]) {
        lemma_tokens_without_first(s, t);
        lemma_trim_start_keeps_tokens(s.drop_first(), t);
    }
}

/// Removing trailing whitespace keeps the tokens.
proof fn lemma_trim_end_keeps_tokens(s: Seq<char>, t: Seq<char>)
    ensures
        is_token_of(trim_end(s), t) == is_token_of(s, t),
    decreases s.len(),
{
    if s.len() > 0 && is_white_space(s.last()) {
        lemma_tokens_without_last(s, t);
        lemma_trim_end_keeps_tokens(s.drop_last(), t);
    }
}

/// Trimming a text never changes which tokens it holds.
pub proof fn lemma_trimmed_keeps_tokens(s: Seq<char>, t: Seq<char>)
    ensures
        is_token_of(trimmed(s), t) == is_token_of(s, t),
{
    lemma_trim_start_keeps_tokens(s, t);
    lemma_trim_end_keeps_tokens(trim_start(s), t);
}

} // verus!
