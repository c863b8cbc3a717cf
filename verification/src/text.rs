//! Character-level helpers on strings, stated over `Seq<char>` views: equality,
//! suffixes, the lexicographic order that `str`'s `Ord` uses, and the few
//! Unicode case and whitespace functions of std that the commands need.

use vstd::prelude::*;

verus! {

/// Whether `a` and `b` hold the same characters.
pub fn str_eq(a: &str, b: &str) -> (r: bool)
    ensures
        r == (a@ == b@),
{
    let n = a.unicode_len();
    if n != b.unicode_len() {
        return false;
    }
    let mut i: usize = 0;
    while i < n
        invariant
            n == a@.len(),
            n == b@.len(),
            i <= n,
            forall|j: int| 0 <= j < i ==> a@[j] == b@[j],
        decreases n - i,
    {
        if a.get_char(i) != b.get_char(i) {
            return false;
        }
        i += 1;
    }
    assert(a@ =~= b@);
    true
}

/// `a` followed by `b`.
pub fn concat2(a: &str, b: &str) -> (r: String)
    ensures
        r@ == a@ + b@,
{
    let mut s = String::from_str(a);
    s.append(b);
    s
}

/// `a`, `b` and `c` one after the other.
pub fn concat3(a: &str, b: &str, c: &str) -> (r: String)
    ensures
        r@ == a@ + b@ + c@,
{
    let mut s = String::from_str(a);
    s.append(b);
    s.append(c);
    s
}

/// `a` to `e` one after the other.
pub fn concat5(a: &str, b: &str, c: &str, d: &str, e: &str) -> (r: String)
    ensures
        r@ == a@ + b@ + c@ + d@ + e@,
{
    let mut s = String::from_str(a);
    s.append(b);
    s.append(c);
    s.append(d);
    s.append(e);
    s
}

/// Whether `s` ends with the characters of `suffix`.
pub fn ends_with(s: &str, suffix: &str) -> (r: bool)
    ensures
        r == suffix@.is_suffix_of(s@),
{
    let n = s.unicode_len();
    let k = suffix.unicode_len();
    if k > n {
        return false;
    }
    let off = n - k;
    let mut i: usize = 0;
    while i < k
        invariant
            n == s@.len(),
            k == suffix@.len(),
            off == n - k,
            i <= k,
            forall|j: int| 0 <= j < i ==> suffix@[j] == s@[off + j],
        decreases k - i,
    {
        if s.get_char(off + i) != suffix.get_char(i) {
            assert(suffix@[i as int] != s@.subrange(off as int, n as int)[i as int]);
            return false;
        }
        i += 1;
    }
    assert(suffix@ =~= s@.subrange(off as int, n as int));
    true
}

/// The order of `str`'s `Ord`: lexicographic, character by character, by
/// code point, with a proper prefix before any longer string.  (UTF-8 keeps
/// the code-point order of characters, so this is also the byte order.)
pub open spec fn lex_le(a: Seq<char>, b: Seq<char>) -> bool
    decreases a.len(),
{
    if a.len() == 0 {
        true
    } else if b.len() == 0 {
        false
    } else if a[0] != b[0] {
        (a[0] as int) < (b[0] as int)
    } else {
        lex_le(a.drop_first(), b.drop_first())
    }
}

/// `lex_le` as a relation, for `sorted_by`.
pub open spec fn lex_order() -> spec_fn(Seq<char>, Seq<char>) -> bool {
    |a: Seq<char>, b: Seq<char>| lex_le(a, b)
}

/// Any two strings are ordered one way or the other.
pub proof fn lemma_lex_total(a: Seq<char>, b: Seq<char>)
    ensures
        lex_le(a, b) || lex_le(b, a),
    decreases a.len(),
{
    if a.len() > 0 && b.len() > 0 {
        if a[0] == b[0] {
            lemma_lex_total(a.drop_first(), b.drop_first());
        } else {
            assert((a[0] as int) != (b[0] as int));
        }
    }
}

/// Strings ordered both ways are equal.
pub proof fn lemma_lex_antisymmetric(a: Seq<char>, b: Seq<char>)
    requires
        lex_le(a, b),
        lex_le(b, a),
    ensures
        a == b,
    decreases a.len(),
{
    if a.len() == 0 {
        assert(b.len() == 0);
        assert(a =~= b);
    } else {
        lemma_lex_antisymmetric(a.drop_first(), b.drop_first());
        assert(a =~= seq![a[0]] + a.drop_first());
        assert(b =~= seq![b[0]] + b.drop_first());
    }
}

/// The order is transitive.
pub proof fn lemma_lex_transitive(a: Seq<char>, b: Seq<char>, c: Seq<char>)
    requires
        lex_le(a, b),
        lex_le(b, c),
    ensures
        lex_le(a, c),
    decreases a.len(),
{
    if a.len() > 0 && b.len() > 0 && c.len() > 0 && a[0] == b[0] && b[0] == c[0] {
        lemma_lex_transitive(a.drop_first(), b.drop_first(), c.drop_first());
    }
}

/// Every string is ordered before itself.
pub proof fn lemma_lex_reflexive(a: Seq<char>)
    ensures
        lex_le(a, a),
    decreases a.len(),
{
    if a.len() > 0 {
        lemma_lex_reflexive(a.drop_first());
    }
}

/// `lex_le` is a total order.
pub proof fn lemma_lex_total_ordering()
    ensures
        vstd::relations::total_ordering(lex_order()),
{
    assert forall|a: Seq<char>| #[trigger] lex_order()(a, a) by {
        lemma_lex_reflexive(a);
    }
    assert forall|a: Seq<char>, b: Seq<char>|
        #[trigger] lex_order()(a, b) && #[trigger] lex_order()(b, a) implies a == b by {
        lemma_lex_antisymmetric(a, b);
    }
    assert forall|a: Seq<char>, b: Seq<char>, c: Seq<char>|
        #[trigger] lex_order()(a, b) && #[trigger] lex_order()(b, c) implies lex_order()(a, c) by {
        lemma_lex_transitive(a, b, c);
    }
    assert forall|a: Seq<char>, b: Seq<char>|
        #[trigger] lex_order()(a, b) || #[trigger] lex_order()(b, a) by {
        lemma_lex_total(a, b);
    }
}

proof fn lemma_lex_skip_step(a: Seq<char>, b: Seq<char>, i: int)
    requires
        0 <= i < a.len(),
        i < b.len(),
        a[i] == b[i],
    ensures
        lex_le(a.skip(i), b.skip(i)) == lex_le(a.skip(i + 1), b.skip(i + 1)),
{
    assert(a.skip(i).drop_first() =~= a.skip(i + 1));
    assert(b.skip(i).drop_first() =~= b.skip(i + 1));
}

/// Whether `a` comes no later than `b` in `str`'s order.
pub fn str_le(a: &str, b: &str) -> (r: bool)
    ensures
        r == lex_le(a@, b@),
{
    let na = a.unicode_len();
    let nb = b.unicode_len();
    let mut i: usize = 0;
    assert(a@.skip(0) =~= a@);
    assert(b@.skip(0) =~= b@);
    while i < na && i < nb
        invariant
            na == a@.len(),
            nb == b@.len(),
            i <= na,
            i <= nb,
            lex_le(a@, b@) == lex_le(a@.skip(i as int), b@.skip(i as int)),
        decreases na - i,
    {
        let ca = a.get_char(i);
        let cb = b.get_char(i);
        if ca != cb {
            assert(a@.skip(i as int)[0] == ca);
            assert(b@.skip(i as int)[0] == cb);
            return (ca as u32) < (cb as u32);
        }
        proof {
            lemma_lex_skip_step(a@, b@, i as int);
        }
        i += 1;
    }
    i == na
}

/// The characters of `s` without leading and trailing whitespace, as
/// `str::trim` gives them.
pub uninterp spec fn str_trim(s: Seq<char>) -> Seq<char>;

/// The lowercase form of `s`, as `str::to_lowercase` gives it.
pub uninterp spec fn str_to_lowercase(s: Seq<char>) -> Seq<char>;

/// The uppercase form of `s`, as `str::to_uppercase` gives it.
pub uninterp spec fn str_to_uppercase(s: Seq<char>) -> Seq<char>;

/// Calls `str::trim`, which removes the leading and trailing characters that
/// have the Unicode White_Space property.  Its result is claimed to depend on
/// `s` alone and is named `str_trim`; which characters go is not stated.
#[verifier::external_body]
pub fn trim(s: &str) -> (r: &str)
    ensures
        r@ == str_trim(s@),
{
    s.trim()
}

/// Calls `str::to_lowercase` (Unicode lowercase mapping).  Its result is
/// claimed to depend on `s` alone and is named `str_to_lowercase`; the
/// mapping itself is not stated.
#[verifier::external_body]
pub fn to_lowercase(s: &str) -> (r: String)
    ensures
        r@ == str_to_lowercase(s@),
{
    s.to_lowercase()
}

/// Whether every character of `s` is ASCII.
pub open spec fn all_ascii(s: Seq<char>) -> bool {
    forall|i: int| 0 <= i < s.len() ==> (s[i] as u32) < 128
}

/// `c` in upper case where it is an ASCII lower-case letter, else `c`.
pub open spec fn ascii_upper_char(c: char) -> char {
    if 'a' <= c && c <= 'z' {
        ((c as u32) - 32) as char
    } else {
        c
    }
}

/// `s` with its ASCII lower-case letters in upper case.
pub open spec fn ascii_upper(s: Seq<char>) -> Seq<char> {
    s.map_values(|c: char| ascii_upper_char(c))
}

/// Calls `str::to_uppercase` (Unicode uppercase mapping).  Its result is
/// claimed to depend on `s` alone and is named `str_to_uppercase`.  Of the
/// mapping, only what it does to ASCII text is stated: the letters `a` to
/// `z` become `A` to `Z` and every other ASCII character stays (as in the
/// documentation's example, `"hello"` gives `"HELLO"`); what it does to
/// other characters is not stated.
#[verifier::external_body]
pub fn to_uppercase(s: &str) -> (r: String)
    ensures
        r@ == str_to_uppercase(s@),
        all_ascii(s@) ==> r@ == ascii_upper(s@),
{
    s.to_uppercase()
}

} // verus!
