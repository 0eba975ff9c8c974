//! Which usernames are accepted, and the form in which they are stored.

use vstd::prelude::*;
use vstd::std_specs::iter::IteratorSpec;

verus! {

/// The characters that no username may hold.
pub open spec fn is_forbidden(c: char) -> bool {
    c == ' ' || c == '@'
}

/// A username is allowed when it holds neither a space nor an `@`.
pub open spec fn username_allowed(name: Seq<char>) -> bool {
    forall|i: int| 0 <= i < name.len() ==> !is_forbidden(#[trigger] name[i])
}

/// Decides whether `name` is allowed, in one pass over its characters.
pub fn username_is_allowed(name: &str) -> (ok: bool)
    ensures
        ok == username_allowed(name@),
{
    broadcast use vstd::string::group_string_axioms;

    let mut rest = name.chars();
    let ghost mut seen: int = 0;
    loop
        invariant
            0 <= seen <= name@.len(),
            rest.remaining() == name@.subrange(seen, name@.len() as int),
            forall|i: int| 0 <= i < seen ==> !is_forbidden(#[trigger] name@[i]),
        decreases name@.len() - seen,
    {
        match rest.next() {
            Some(c) => {
                assert(c == name@[seen]);
                if c == ' ' || c == '@' {
                    return false;
                }
                proof {
                    assert(name@.subrange(seen, name@.len() as int).drop_first()
                        =~= name@.subrange(seen + 1, name@.len() as int));
                    seen = seen + 1;
                }
            },
            None => {
                return true;
            },
        }
    }
}

/// The lower-case form of a text, as `str::to_lowercase` computes it.
pub uninterp spec fn lowercase_of(text: Seq<char>) -> Seq<char>;

/// Calls `str::to_lowercase`. The result is a function of the text alone and
/// is known here only by its name, `lowercase_of`.
#[verifier::external_body]
pub(crate) fn lowercase(text: &str) -> (out: String)
    ensures
        out@ == lowercase_of(text@),
{
    text.to_lowercase()
}

/// The form in which a username is stored: lower case.
pub fn stored_username(name: &str) -> (out: String)
    ensures
        out@ == lowercase_of(name@),
{
    lowercase(name)
}

} // verus!
