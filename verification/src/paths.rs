//! A pure model of `/`-separated paths, with the two archive-folder
//! derivations built on it.
//!
//! A path here is a plain string. Callers hand in normalized paths
//! (no trailing slash, no repeated slashes), the form a canonicalized
//! absolute path always has; the functions are nevertheless total.

use vstd::prelude::*;

verus! {

use vstd::string::StrSliceExecFns;
use vstd::string::StringExecFns;

/// The name of the folder that accumulates archived items.
pub open spec fn archive_name() -> Seq<char> {
    seq!['a', 'r', 'c', 'h', 'i', 'v', 'e']
}

/// Joining a directory and a relative entry name, as `PathBuf::join`
/// does on normalized paths: a `/` goes between them unless the
/// directory is empty or already ends with one.
pub open spec fn spec_join(dir: Seq<char>, name: Seq<char>) -> Seq<char> {
    if dir.len() == 0 {
        name
    } else if dir.last() == '/' {
        dir + name
    } else {
        dir + seq!['/'] + name
    }
}

/// Index of the last `/` of `s`, or `-1` when `s` holds none.
pub open spec fn spec_last_slash(s: Seq<char>) -> int
    decreases s.len(),
{
    if s.len() == 0 {
        -1
    } else if s.last() == '/' {
        s.len() - 1
    } else {
        spec_last_slash(s.drop_last())
    }
}

/// `spec_last_slash` indeed points at the last slash: it is in range,
/// it holds a `/`, and nothing after it does.
pub proof fn lemma_last_slash(s: Seq<char>)
    ensures
        -1 <= spec_last_slash(s) < s.len(),
        spec_last_slash(s) >= 0 ==> s[spec_last_slash(s)] == '/',
        forall|j: int| spec_last_slash(s) < j < s.len() ==> s[j] != '/',
    decreases s.len(),
{
    if s.len() == 0 {
    } else if s.last() == '/' {
    } else {
        lemma_last_slash(s.drop_last());
        assert forall|j: int| spec_last_slash(s) < j < s.len() implies s[j] != '/' by {
            if j < s.len() - 1 {
                assert(s.drop_last()[j] == s[j]);
            }
        }
    }
}

/// The parent of a normalized path: the text before the final `/`,
/// `/` itself for a top-level entry, the empty string for a bare name,
/// and nothing at all for the root or the empty string.
pub open spec fn spec_parent(s: Seq<char>) -> Option<Seq<char>> {
    if s.len() == 0 || s == seq!['/'] {
        None
    } else if spec_last_slash(s) == -1 {
        Some(Seq::empty())
    } else if spec_last_slash(s) == 0 {
        Some(seq!['/'])
    } else {
        Some(s.subrange(0, spec_last_slash(s)))
    }
}

/// The parent where there is one, the path itself where there is none.
pub open spec fn spec_parent_or_self(p: Seq<char>) -> Seq<char> {
    match spec_parent(p) {
        Some(q) => q,
        None => p,
    }
}

/// The final component of a path: the text after its last `/`, or the
/// whole path when it holds no `/` at all.
pub open spec fn spec_base_name(s: Seq<char>) -> Seq<char> {
    s.subrange(spec_last_slash(s) + 1, s.len() as int)
}

/// The archive folder that sits beside a file: `<parent>/archive`.
pub open spec fn spec_archive_dir_for_file(parent: Seq<char>) -> Seq<char> {
    spec_join(parent, archive_name())
}

/// The archive folder for a directory target sits one level higher:
/// beside the given directory's own parent, falling back to
/// `<parent>/archive` when the path has no parent.
pub open spec fn spec_archive_dir_for_dir(parent: Seq<char>) -> Seq<char> {
    spec_join(spec_parent_or_self(parent), archive_name())
}

/// Index of the last `/` of `p`, scanning from the end.
fn last_slash_index(p: &str) -> (r: Option<usize>)
    ensures
        match r {
            Some(i) => i as int == spec_last_slash(p@) && i < p@.len(),
            None => spec_last_slash(p@) == -1,
        },
{
    let n = p.unicode_len();
    proof {
        assert(p@.subrange(0, n as int) =~= p@);
    }
    let mut i = n;
    while i > 0
        invariant
            i <= n,
            n == p@.len(),
            spec_last_slash(p@) == spec_last_slash(p@.subrange(0, i as int)),
        decreases i,
    {
        i = i - 1;
        let c = p.get_char(i);
        proof {
            assert(p@.subrange(0, i + 1).last() == p@[i as int]);
            assert(p@.subrange(0, i + 1).drop_last() =~= p@.subrange(0, i as int));
        }
        if c == '/' {
            return Some(i);
        }
    }
    proof {
        assert(p@.subrange(0, 0) =~= Seq::<char>::empty());
    }
    None
}

/// Join a directory and a relative entry name with `/`.
pub fn path_join(dir: &str, name: &str) -> (r: String)
    ensures
        r@ == spec_join(dir@, name@),
{
    proof {
        reveal_strlit("/");
        assert("/"@ =~= seq!['/']);
    }
    let n = dir.unicode_len();
    if n == 0 {
        String::from_str(name)
    } else if dir.get_char(n - 1) == '/' {
        String::from_str(dir).concat(name)
    } else {
        let mut s = String::from_str(dir);
        s.append("/");
        s.concat(name)
    }
}

/// The parent of a path, as `spec_parent` defines it.
pub fn path_parent(p: &str) -> (r: Option<String>)
    ensures
        match r {
            Some(q) => spec_parent(p@) == Some(q@),
            None => spec_parent(p@) is None,
        },
{
    proof {
        reveal_strlit("/");
        assert("/"@ =~= seq!['/']);
    }
    let n = p.unicode_len();
    if n == 0 {
        return None;
    }
    if n == 1 && p.get_char(0) == '/' {
        proof {
            assert(p@ =~= seq!['/']);
        }
        return None;
    }
    proof {
        if p@ == seq!['/'] {
            assert(p@.len() == 1 && p@[0] == '/');
        }
    }
    match last_slash_index(p) {
        None => Some(String::new()),
        Some(i) => {
            if i == 0 {
                Some(String::from_str("/"))
            } else {
                Some(String::from_str(p.substring_char(0, i)))
            }
        },
    }
}

/// The final component of a path.
pub fn base_name_of(p: &str) -> (r: String)
    ensures
        r@ == spec_base_name(p@),
{
    let n = p.unicode_len();
    match last_slash_index(p) {
        None => {
            proof {
                assert(p@.subrange(0, n as int) =~= p@);
            }
            String::from_str(p)
        },
        Some(i) => String::from_str(p.substring_char(i + 1, n)),
    }
}

/// The archive directory that accompanies a file of the given parent
/// directory: always `<parent>/archive`.
pub fn archive_dir_for_file_pure(parent: &str) -> (r: String)
    ensures
        r@ == spec_archive_dir_for_file(parent@),
{
    proof {
        reveal_strlit("archive");
        assert("archive"@ =~= archive_name());
    }
    path_join(parent, "archive")
}

/// The archive directory for a directory target of the given parent:
/// the parent's own parent joined with `archive`, or `<parent>/archive`
/// when the parent has no parent of its own. The extra level keeps an
/// archived directory from nesting inside itself.
pub fn archive_dir_for_dir_pure(parent: &str) -> (r: String)
    ensures
        r@ == spec_archive_dir_for_dir(parent@),
{
    proof {
        reveal_strlit("archive");
        assert("archive"@ =~= archive_name());
    }
    match path_parent(parent) {
        Some(q) => path_join(q.as_str(), "archive"),
        None => path_join(parent, "archive"),
    }
}

} // verus!
