//! The listing of keys: of the file names in the keys directory, the ones
//! that are not public keys, in ascending order.

use vstd::prelude::*;
use crate::text::{
    ends_with, lemma_lex_total, lemma_lex_total_ordering, lemma_lex_transitive, lex_le, lex_order,
    str_le,
};

verus! {

broadcast use vstd::seq_lib::group_to_multiset_ensures;

/// The strings of `v` as character sequences.
pub open spec fn string_views(v: Seq<String>) -> Seq<Seq<char>> {
    v.map_values(|s: String| s@)
}

/// Whether a file name is that of a public key, i.e. ends in `.pub`.
pub open spec fn is_public_key_file(name: Seq<char>) -> bool {
    ".pub"@.is_suffix_of(name)
}

/// The names among `names` that are not those of public keys, in their order.
pub open spec fn key_file_names(names: Seq<Seq<char>>) -> Seq<Seq<char>> {
    names.filter(|n: Seq<char>| !is_public_key_file(n))
}

/// The names among `names` that are not those of public keys, in ascending
/// order.
pub open spec fn sorted_key_names(names: Seq<Seq<char>>) -> Seq<Seq<char>> {
    key_file_names(names).sort_by(lex_order())
}

/// Whether `s` is in ascending order.
pub open spec fn lex_sorted(s: Seq<Seq<char>>) -> bool {
    forall|i: int, j: int| 0 <= i < j < s.len() ==> lex_le(s[i], s[j])
}

proof fn lemma_insert_sorted(s: Seq<Seq<char>>, p: int, x: Seq<char>)
    requires
        lex_sorted(s),
        0 <= p <= s.len(),
        forall|k: int| 0 <= k < p ==> lex_le(s[k], x),
        forall|k: int| p <= k < s.len() ==> lex_le(x, s[k]),
    ensures
        lex_sorted(s.insert(p, x)),
{
    let t = s.insert(p, x);
    assert forall|i: int, j: int| 0 <= i < j < t.len() implies lex_le(t[i], t[j]) by {
        if i < p {
            if j < p {
                assert(t[i] == s[i] && t[j] == s[j]);
            } else if j == p {
                assert(t[i] == s[i]);
            } else {
                assert(t[i] == s[i] && t[j] == s[j - 1]);
            }
        } else if i == p {
            assert(t[j] == s[j - 1]);
        } else {
            assert(t[i] == s[i - 1] && t[j] == s[j - 1]);
        }
    }
}

/// The keys to list, given the names of the files in the keys directory:
/// every name that does not end in `.pub`, each as often as it is given,
/// in ascending order (the order of `str`).
pub fn list_keys(names: &Vec<String>) -> (r: Vec<String>)
    ensures
        string_views(r@) == sorted_key_names(string_views(names@)),
        lex_sorted(string_views(r@)),
        string_views(r@).to_multiset() == key_file_names(string_views(names@)).to_multiset(),
        forall|i: int| 0 <= i < r.len() ==> !is_public_key_file(#[trigger] r@[i]@),
        forall|n: Seq<char>|
            string_views(names@).contains(n) && !is_public_key_file(n) ==> string_views(
                r@,
            ).contains(n),
{
    let ghost pred = |n: Seq<char>| !is_public_key_file(n);
    let mut keys: Vec<String> = Vec::new();
    let count = names.len();
    let mut i: usize = 0;
    assert(string_views(names@).take(0) =~= Seq::<Seq<char>>::empty());
    proof {
        reveal(Seq::filter);
    }
    assert(string_views(keys@) =~= Seq::<Seq<char>>::empty());
    while i < count
        invariant
            count == names.len(),
            i <= count,
            pred == (|n: Seq<char>| !is_public_key_file(n)),
            lex_sorted(string_views(keys@)),
            string_views(keys@).to_multiset() == string_views(names@).take(i as int).filter(
                pred,
            ).to_multiset(),
            forall|k: int| 0 <= k < keys.len() ==> !is_public_key_file(#[trigger] keys@[k]@),
        decreases count - i,
    {
        let name = names[i].clone();
        let ghost before = string_views(names@).take(i as int);
        assert(string_views(names@).take(i + 1) =~= before.push(name@));
        proof {
            before.lemma_filter_push(name@, pred);
        }
        if !ends_with(name.as_str(), ".pub") {
            let mut p: usize = 0;
            while p < keys.len() && str_le(keys[p].as_str(), name.as_str())
                invariant
                    p <= keys.len(),
                    forall|k: int| 0 <= k < p ==> lex_le(keys@[k]@, name@),
                decreases keys.len() - p,
            {
                p += 1;
            }
            let ghost old_views = string_views(keys@);
            proof {
                if p < keys.len() {
                    lemma_lex_total(keys@[p as int]@, name@);
                    assert forall|k: int| p <= k < old_views.len() implies lex_le(
                        name@,
                        old_views[k],
                    ) by {
                        if k > p {
                            assert(lex_le(old_views[p as int], old_views[k]));
                            lemma_lex_transitive(name@, old_views[p as int], old_views[k]);
                        }
                    }
                }
                lemma_insert_sorted(old_views, p as int, name@);
            }
            keys.insert(p, name);
            assert(string_views(keys@) =~= old_views.insert(p as int, keys@[p as int]@));
        }
        i += 1;
    }
    assert(string_views(names@).take(count as int) =~= string_views(names@));
    proof {
        let out = string_views(keys@);
        let all = string_views(names@);
        assert forall|n: Seq<char>| all.contains(n) && !is_public_key_file(n) implies out.contains(
            n,
        ) by {
            let idx = choose|idx: int| 0 <= idx < all.len() && all[idx] == n;
            all.lemma_filter_contains(pred, idx);
            assert(all.filter(pred).to_multiset().count(n) > 0);
        }
        let filtered = all.filter(pred);
        lemma_lex_total_ordering();
        filtered.lemma_sort_by_ensures(lex_order());
        assert(vstd::relations::sorted_by(out, lex_order()));
        vstd::seq_lib::lemma_sorted_unique(out, filtered.sort_by(lex_order()), lex_order());
    }
    keys
}

/// What the listing prints: each key on a line of its own, in the order
/// given.
pub open spec fn key_lines(keys: Seq<Seq<char>>) -> Seq<char>
    decreases keys.len(),
{
    if keys.len() == 0 {
        Seq::empty()
    } else {
        key_lines(keys.drop_last()) + keys.last() + "\n"@
    }
}

/// What the listing prints for `keys`: `No keys found.` for none, else one
/// line per key.
pub open spec fn listing_text(keys: Seq<Seq<char>>) -> Seq<char> {
    if keys.len() == 0 {
        "No keys found.\n"@
    } else {
        key_lines(keys)
    }
}

/// The text that the listing of `keys` prints.
pub fn listing_output(keys: &Vec<String>) -> (r: String)
    ensures
        r@ == listing_text(string_views(keys@)),
{
    if keys.len() == 0 {
        return String::from_str("No keys found.\n");
    }
    let mut out = String::new();
    let mut i: usize = 0;
    while i < keys.len()
        invariant
            i <= keys.len(),
            out@ == key_lines(string_views(keys@).take(i as int)),
        decreases keys.len() - i,
    {
        assert(string_views(keys@).take(i + 1).drop_last() =~= string_views(keys@).take(
            i as int,
        ));
        out.append(keys[i].as_str());
        out.append("\n");
        i += 1;
    }
    assert(string_views(keys@).take(keys.len() as int) =~= string_views(keys@));
    out
}

} // verus!
