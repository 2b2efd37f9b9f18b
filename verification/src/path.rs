//! Paths as text, with `/` between their components.

use vstd::prelude::*;
use crate::text::{followed, last_position};

verus! {

/// `rel` placed under `base`: the two with exactly one `/` between them, or `rel`
/// alone where `base` is empty.
pub open spec fn joined(base: Seq<char>, rel: Seq<char>) -> Seq<char> {
    if base.len() == 0 {
        rel
    } else if base.last() == '/' {
        base + rel
    } else {
        base + seq!['/'] + rel
    }
}

/// The directory that holds `path`: what stands before its last `/`. For a path
/// whose only `/` is the first character it is `/`; for one without a `/` it is
/// empty.
pub open spec fn directory(path: Seq<char>) -> Seq<char>
    decreases path.len(),
{
    if path.len() == 0 {
        path
    } else if path.last() == '/' {
        if path.len() == 1 {
            path
        } else {
            path.drop_last()
        }
    } else {
        directory(path.drop_last())
    }
}

/// Where the last `/` of `path` stands at `i`, the directory is what stands before
/// it, or `/` itself where `i` is 0.
pub proof fn lemma_directory_at_last_separator(path: Seq<char>, i: int)
    requires
        0 <= i < path.len(),
        path[i] == '/',
        forall|j: int| i < j < path.len() ==> path[j] != '/',
    ensures
        directory(path) == if i == 0 {
            path.subrange(0, 1)
        } else {
            path.subrange(0, i)
        },
    decreases path.len(),
{
    if path.last() == '/' {
        assert(i == path.len() - 1);
        if path.len() == 1 {
            assert(path.subrange(0, 1) =~= path);
        }
    } else {
        let shorter = path.drop_last();
        assert(shorter[i] == path[i]);
        lemma_directory_at_last_separator(shorter, i);
        if i == 0 {
            assert(shorter.subrange(0, 1) =~= path.subrange(0, 1));
        } else {
            assert(shorter.subrange(0, i) =~= path.subrange(0, i));
        }
    }
}

/// A path without a `/` has no directory.
pub proof fn lemma_directory_without_separator(path: Seq<char>)
    requires
        !path.contains('/'),
    ensures
        directory(path) == Seq::<char>::empty(),
    decreases path.len(),
{
    if path.len() > 0 {
        assert(path.last() == path[path.len() - 1]);
        let shorter = path.drop_last();
        assert forall|j: int| 0 <= j < shorter.len() implies shorter[j] != '/' by {
            assert(shorter[j] == path[j]);
        }
        lemma_directory_without_separator(shorter);
    } else {
        assert(path =~= Seq::<char>::empty());
    }
}

/// `rel` placed under `base`.
pub fn join(base: &str, rel: &str) -> (r: String)
    ensures
        r@ == joined(base@, rel@),
{
    let len = base.unicode_len();
    if len == 0 {
        rel.to_owned()
    } else if base.get_char(len - 1) == '/' {
        followed(base, rel)
    } else {
        proof {
            reveal_strlit("/");
            assert("/"@ =~= seq!['/']);
        }
        let with_separator = followed(base, "/");
        followed(with_separator.as_str(), rel)
    }
}

/// The directory that holds `path`.
pub fn parent(path: &str) -> (r: String)
    ensures
        r@ == directory(path@),
{
    match last_position(path, '/') {
        Some(i) => {
            proof {
                lemma_directory_at_last_separator(path@, i as int);
            }
            if i == 0 {
                path.substring_char(0, 1).to_owned()
            } else {
                path.substring_char(0, i).to_owned()
            }
        },
        None => {
            proof {
                lemma_directory_without_separator(path@);
            }
            String::new()
        },
    }
}

} // verus!
