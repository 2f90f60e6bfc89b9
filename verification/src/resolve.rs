//! Path resolution: derive the target file path from the launch arguments,
//! the current working directory and an optional filename suffix.
//!
//! The launch argument at position 1, when present, is the user-supplied file
//! path. Joining follows Unix path semantics: an absolute raw path replaces
//! the working directory, a relative one is appended behind a `/` separator.
//! The suffix is appended to the joined path as plain text, so that a suffix
//! like `.bak` names a sibling file.

use vstd::prelude::*;

verus! {

/// Whether a path is absolute: it starts with the path separator.
pub open spec fn is_absolute(path: Seq<char>) -> bool {
    path.len() > 0 && path[0] == '/'
}

/// The join of a directory and a raw path, under Unix path semantics:
/// an absolute path stands alone; an empty directory contributes nothing;
/// otherwise the path is appended, behind a separator unless the directory
/// already ends in one.
pub open spec fn joined(dir: Seq<char>, path: Seq<char>) -> Seq<char> {
    if is_absolute(path) {
        path
    } else if dir.len() == 0 {
        path
    } else if dir.last() == '/' {
        dir + path
    } else {
        dir + seq!['/'] + path
    }
}

/// The resolved target path: empty when no file path was supplied (fewer than
/// two launch arguments), otherwise the working directory joined with the raw
/// path at argument position 1, with the suffix appended as text.
pub open spec fn resolved(args: Seq<Seq<char>>, cwd: Seq<char>, suffix: Seq<char>) -> Seq<char> {
    if args.len() < 2 {
        Seq::<char>::empty()
    } else {
        joined(cwd, args[1]) + suffix
    }
}

/// Whether a path string is absolute, as `is_absolute` says.
pub fn path_is_absolute(path: &str) -> (r: bool)
    ensures
        r == is_absolute(path@),
{
    let n = path.unicode_len();
    if n == 0 {
        false
    } else {
        path.get_char(0) == '/'
    }
}

/// Joins a directory and a raw path, as `joined` says.
pub fn join(dir: &str, path: &str) -> (r: String)
    ensures
        r@ == joined(dir@, path@),
{
    proof {
        reveal_strlit("/");
    }
    if path_is_absolute(path) {
        String::from_str(path)
    } else {
        let dir_len = dir.unicode_len();
        if dir_len == 0 {
            String::from_str(path)
        } else {
            let mut r = String::from_str(dir);
            if dir.get_char(dir_len - 1) != '/' {
                r.append("/");
                proof {
                    assert(r@ =~= dir@ + seq!['/']);
                }
            }
            r.append(path);
            proof {
                assert(r@ =~= joined(dir@, path@));
            }
            r
        }
    }
}

/// Resolves the target file path from the launch arguments, the working
/// directory and the filename suffix, as `resolved` says. The empty result
/// is the designed "no target" signal, not an error.
pub fn resolve(args: &Vec<String>, cwd: &str, suffix: &str) -> (r: String)
    ensures
        r@ == resolved(args.deep_view(), cwd@, suffix@),
{
    if args.len() < 2 {
        String::new()
    } else {
        let joined_path = join(cwd, args[1].as_str());
        let r = joined_path.concat(suffix);
        proof {
            assert(args.deep_view()[1] == args[1]@);
        }
        r
    }
}

/// With fewer than two launch arguments there is no target file: resolution
/// yields the empty path, whatever the working directory and the suffix.
pub proof fn lemma_resolve_no_target(args: Seq<Seq<char>>, cwd: Seq<char>, suffix: Seq<char>)
    requires
        args.len() < 2,
    ensures
        resolved(args, cwd, suffix) == Seq::<char>::empty(),
{
}

/// An absolute raw path discards the working directory: resolution is the raw
/// path with the suffix appended as text.
pub proof fn lemma_resolve_absolute(args: Seq<Seq<char>>, cwd: Seq<char>, suffix: Seq<char>)
    requires
        args.len() >= 2,
        is_absolute(args[1]),
    ensures
        resolved(args, cwd, suffix) == args[1] + suffix,
{
}

/// A relative raw path is joined onto the working directory: resolution is
/// that join with the suffix appended as text.
pub proof fn lemma_resolve_relative(args: Seq<Seq<char>>, cwd: Seq<char>, suffix: Seq<char>)
    requires
        args.len() >= 2,
        !is_absolute(args[1]),
    ensures
        resolved(args, cwd, suffix) == joined(cwd, args[1]) + suffix,
{
}

/// Resolution holds no hidden state: any two results obtained from the same
/// launch arguments, working directory and suffix are the same string. This is
/// what `resolve`'s postcondition pins down for every call.
pub proof fn lemma_resolve_deterministic(
    args: Seq<Seq<char>>,
    cwd: Seq<char>,
    suffix: Seq<char>,
    r1: Seq<char>,
    r2: Seq<char>,
)
    requires
        r1 == resolved(args, cwd, suffix),
        r2 == resolved(args, cwd, suffix),
    ensures
        r1 == r2,
{
}

} // verus!
