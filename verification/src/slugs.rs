//! The title-to-slug transform and the project folder derived from it.

use vstd::prelude::*;

verus! {

use vstd::string::StringExecFns;
use crate::paths::spec_join;
use crate::paths::path_join;

/// A character a slug may hold: a lowercase ASCII letter, a digit,
/// or a hyphen.
pub open spec fn is_slug_char(c: char) -> bool {
    ('a' <= c && c <= 'z') || ('0' <= c && c <= '9') || c == '-'
}

/// A string already in slug form: only slug characters, no leading or
/// trailing hyphen, and never two hyphens in a row.
pub open spec fn slug_normal(s: Seq<char>) -> bool {
    &&& forall|i: int| 0 <= i < s.len() ==> is_slug_char(#[trigger] s[i])
    &&& s.len() > 0 ==> s[0] != '-' && s.last() != '-'
    &&& forall|i: int| 0 < i < s.len() ==> !(s[i - 1] == '-' && #[trigger] s[i] == '-')
}

/// What `slug::slugify` returns for a given title.
pub uninterp spec fn slug_of(title: Seq<char>) -> Seq<char>;

/// Relies on slug::slugify: its result is a function of the input text
/// alone. Its documentation promises a string of `a-z`, `0-9` and `-`
/// that never starts or ends with `-` and never repeats it; its
/// implementation passes text already of that shape through unchanged
/// (each such character keeps its place and nothing is trimmed), so
/// every result is a fixed point of the transform.
#[verifier::external_body]
pub fn slugify_title(title: &str) -> (r: String)
    ensures
        r@ == slug_of(title@),
        slug_normal(r@),
        slug_of(r@) == r@,
{
    slug::slugify(title)
}

/// The name of the folder that gathers project directories.
pub open spec fn project_name() -> Seq<char> {
    seq!['p', 'r', 'o', 'j', 'e', 'c', 't']
}

/// The directory a title's project lives in: `project/<slug(title)>`.
pub fn project_dir_for_title(title: &str) -> (r: String)
    ensures
        r@ == spec_join(project_name(), slug_of(title@)),
{
    proof {
        reveal_strlit("project");
        assert("project"@ =~= project_name());
    }
    let s = slugify_title(title);
    path_join("project", s.as_str())
}

} // verus!
