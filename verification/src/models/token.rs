//! The tokens that give each worker's directory and each transient archive a name of
//! its own.

use crate::models::working_tree::{archive_name, is_segment};
use vstd::prelude::*;

verus! {

pub open spec fn is_lower_hex(c: char) -> bool {
    ('0' <= c && c <= '9') || ('a' <= c && c <= 'f')
}

pub open spec fn is_hyphen_position(at: int) -> bool {
    at == 8 || at == 13 || at == 18 || at == 23
}

/// The shape of a token: 36 characters, lower-case hexadecimal digits in five groups
/// that hyphens separate.
pub open spec fn is_token(text: Seq<char>) -> bool {
    &&& text.len() == 36
    &&& forall|at: int|
        0 <= at < 36 ==> if is_hyphen_position(at) {
            #[trigger] text[at] == '-'
        } else {
            is_lower_hex(text[at])
        }
}

/// Draws a token from `uuid::Uuid::new_v4` and renders it with the `to_string` that
/// the type's `Display` gives. Trusted: the text is the hyphenated lower-case form,
/// which is all that is claimed of it; two draws may well differ.
#[verifier::external_body]
pub(crate) fn fresh_token() -> (token: String)
    ensures
        is_token(token@),
{
    uuid::Uuid::new_v4().to_string()
}

/// An archive named after a token stands for one level of a path, so that it lies
/// directly in the directory it is put in.
pub proof fn lemma_archive_name_is_segment(token: Seq<char>, extension: Seq<char>)
    requires
        is_token(token),
        !extension.contains('/'),
        !extension.contains('\0'),
    ensures
        is_segment(archive_name(token, extension)),
{
    reveal_strlit(".");
    reveal_strlit("..");
    let name = archive_name(token, extension);
    assert forall|at: int| 0 <= at < name.len() implies name[at] != '/' && name[at] != '\0' by {}
}

/// Two archives of the same extension bear the same name only if their tokens are the
/// same.
pub proof fn lemma_archive_name_tells_tokens_apart(
    first: Seq<char>,
    second: Seq<char>,
    extension: Seq<char>,
)
    requires
        archive_name(first, extension) == archive_name(second, extension),
    ensures
        first == second,
{
    // Both tokens are followed by the same text, so they are equally long, and each is
    // the start of the one name.
    let name = archive_name(first, extension);
    assert(name.len() == first.len() + "."@.len() + extension.len());
    assert(name.len() == second.len() + "."@.len() + extension.len());
    assert(first =~= name.subrange(0, first.len() as int));
    assert(second =~= name.subrange(0, second.len() as int));
}

} // verus!
