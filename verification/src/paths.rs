//! Paths are held as strings.  A further component is joined on by std's
//! `Path::join`, whose result on Unix is stated here; the public key that
//! `ssh-keygen` writes for a key is the key's path with `.pub` appended.

use vstd::prelude::*;
use crate::text::concat2;

verus! {

/// The path that `Path::join` gives on Unix for `base` followed by `part`:
/// an absolute `part` (one that starts with `/`) replaces `base`; otherwise
/// `part` is appended, after a `/` where `base` is not empty and does not
/// already end in one.
pub open spec fn path_join(base: Seq<char>, part: Seq<char>) -> Seq<char> {
    if part.len() > 0 && part[0] == '/' {
        part
    } else if base.len() > 0 && base.last() != '/' {
        base + seq!['/'] + part
    } else {
        base + part
    }
}

/// Calls `Path::join` on `base` and `part`, and turns the result back into a
/// string.  Both inputs are UTF-8 and the join only adds a separator or
/// replaces `base`, so the conversion loses nothing.  The contract states
/// what `PathBuf::push` documents for Unix targets: an absolute `part`
/// replaces the path, and a separator is added where one is needed.
#[verifier::external_body]
pub fn join(base: &str, part: &str) -> (r: String)
    ensures
        r@ == path_join(base@, part@),
{
    std::path::Path::new(base).join(part).to_string_lossy().into_owned()
}

/// The file in which `ssh-keygen -f path` writes the public key: `path`
/// with `.pub` appended.
pub open spec fn public_key_path_of(path: Seq<char>) -> Seq<char> {
    path + ".pub"@
}

/// A public key's path is never the private key's path.
pub proof fn lemma_public_key_path_differs(path: Seq<char>)
    ensures
        public_key_path_of(path) != path,
{
    reveal_strlit(".pub");
    assert(public_key_path_of(path).len() == path.len() + 4);
}

/// The path of the public key that goes with the private key at `path`.
pub fn public_key_path(path: &str) -> (r: String)
    ensures
        r@ == public_key_path_of(path@),
{
    concat2(path, ".pub")
}

} // verus!
