//! Reading what the container runtime's `inspect` prints, and the decisions
//! of image resolution: inspect, pull once on a miss, inspect again.

use vstd::prelude::*;
use crate::error::{AvatarError, ErrorKind};
use crate::text::{concat, join_texts, join_with, same_text, split_at_char, split_spec, views};

verus! {

pub const ERROR_MSG_DOCKER_INSPECT_OUTPUT: &'static str =
    "The command `docker inspect` returned an unexpected output";

/// Whether a character has Unicode's White_Space property.
pub open spec fn is_white_space(c: char) -> bool {
    ||| ('\t' <= c && c <= '\r')
    ||| c == ' '
    ||| c == '\u{85}'
    ||| c == '\u{a0}'
    ||| c == '\u{1680}'
    ||| ('\u{2000}' <= c && c <= '\u{200a}')
    ||| c == '\u{2028}'
    ||| c == '\u{2029}'
    ||| c == '\u{202f}'
    ||| c == '\u{205f}'
    ||| c == '\u{3000}'
}

/// A text without its leading white space.
pub open spec fn trim_start_of(s: Seq<char>) -> Seq<char>
    decreases s.len(),
{
    if s.len() > 0 && is_white_space(s[0]) {
        trim_start_of(s.drop_first())
    } else {
        s
    }
}

/// A text without its trailing white space.
pub open spec fn trim_end_of(s: Seq<char>) -> Seq<char>
    decreases s.len(),
{
    if s.len() > 0 && is_white_space(s.last()) {
        trim_end_of(s.drop_last())
    } else {
        s
    }
}

/// A text without white space at either end.
pub open spec fn trimmed(s: Seq<char>) -> Seq<char> {
    trim_end_of(trim_start_of(s))
}

/// Whether a character has Unicode's White_Space property.
fn white_space(c: char) -> (r: bool)
    ensures
        r == is_white_space(c),
{
    ('\t' <= c && c <= '\r') || c == ' ' || c == '\u{85}' || c == '\u{a0}' || c == '\u{1680}' || ('\u{2000}' <= c
        && c <= '\u{200a}') || c == '\u{2028}' || c == '\u{2029}' || c == '\u{202f}' || c == '\u{205f}' || c
        == '\u{3000}'
}

/// A text without white space at either end.
pub fn trim(s: &str) -> (r: String)
    ensures
        r@ == trimmed(s@),
{
    let n = s.unicode_len();
    let mut i: usize = 0;
    let mut stop = false;
    assert(s@.subrange(0, n as int) == s@);
    while i < n && !stop
        invariant
            n == s@.len(),
            i <= n,
            stop ==> i < n && !is_white_space(s@[i as int]),
            trim_start_of(s@) == trim_start_of(s@.subrange(i as int, n as int)),
        decreases n - i + (if stop { 0int } else { 1int }),
    {
        if white_space(s.get_char(i)) {
            proof {
                let x = s@.subrange(i as int, n as int);
                assert(x[0] == s@[i as int]);
                assert(x.drop_first() == s@.subrange(i + 1, n as int));
            }
            i = i + 1;
        } else {
            stop = true;
        }
    }
    proof {
        let x = s@.subrange(i as int, n as int);
        if i < n {
            assert(x[0] == s@[i as int]);
        }
        assert(trim_start_of(s@) == x);
    }
    let mut j: usize = n;
    let mut stop_end = false;
    while j > i && !stop_end
        invariant
            n == s@.len(),
            i <= j <= n,
            stop_end ==> j > i && !is_white_space(s@[j - 1]),
            trim_end_of(s@.subrange(i as int, n as int)) == trim_end_of(s@.subrange(i as int, j as int)),
        decreases j - i + (if stop_end { 0int } else { 1int }),
    {
        if white_space(s.get_char(j - 1)) {
            proof {
                let x = s@.subrange(i as int, j as int);
                assert(x.last() == s@[j - 1]);
                assert(x.drop_last() == s@.subrange(i as int, j - 1));
            }
            j = j - 1;
        } else {
            stop_end = true;
        }
    }
    proof {
        let x = s@.subrange(i as int, j as int);
        if j > i {
            assert(x.last() == s@[j - 1]);
        }
        assert(trim_end_of(x) == x);
    }
    s.substring_char(i, j).to_owned()
}

/// The lines of an output, white space around it removed.
pub open spec fn lines_of(s: Seq<char>) -> Seq<Seq<char>> {
    split_spec(trimmed(s), '\n')
}

/// The repository name of a `name@sha256:hex` digest line.
pub open spec fn repo_name(line: Seq<char>) -> Seq<char> {
    split_spec(line, '@')[0]
}

/// What stands between the first and the second `:` of a digest line.
pub open spec fn digest_field(line: Seq<char>) -> Option<Seq<char>> {
    let p = split_spec(line, ':');
    if p.len() >= 2 {
        Some(p[1])
    } else {
        None
    }
}

/// The first line that names the image decides: its digest, or none.
/// `None` when no line names the image.
pub open spec fn select_digest(lines: Seq<Seq<char>>, image_name: Seq<char>) -> Option<Option<Seq<char>>>
    decreases lines.len(),
{
    if lines.len() == 0 {
        None
    } else if repo_name(lines[0]) == image_name {
        Some(digest_field(lines[0]))
    } else {
        select_digest(lines.drop_first(), image_name)
    }
}

fn inspect_output_error() -> (e: AvatarError)
    ensures
        e.kind == ErrorKind::Protocol,
{
    AvatarError::new(ErrorKind::Protocol, ERROR_MSG_DOCKER_INSPECT_OUTPUT.to_owned())
}

/// The content digest of an image from the `RepoDigests` the runtime printed,
/// one per line: the first line whose name is the image's gives it; a
/// protocol error when there is none or it has no digest.
pub fn get_hash_from_repo_digests_str(repo_digests_str: &str, image_name: &str) -> (r: Result<String, AvatarError>)
    ensures
        match select_digest(lines_of(repo_digests_str@), image_name@) {
            Some(Some(h)) => r matches Ok(x) && x@ == h,
            _ => r matches Err(e) && e.kind == ErrorKind::Protocol,
        },
{
    let t = trim(repo_digests_str);
    let lines = split_at_char(t.as_str(), '\n');
    let ghost all = views(lines@);
    assert(all.subrange(0, all.len() as int) == all);
    let mut i: usize = 0;
    while i < lines.len()
        invariant
            all == views(lines@),
            all == lines_of(repo_digests_str@),
            i <= lines@.len(),
            select_digest(all, image_name@) == select_digest(all.subrange(i as int, all.len() as int), image_name@),
        decreases lines@.len() - i,
    {
        let line = lines[i].as_str();
        let ghost rest = all.subrange(i as int, all.len() as int);
        assert(rest[0] == line@);
        assert(rest.drop_first() == all.subrange(i + 1, all.len() as int));
        let names = split_at_char(line, '@');
        if same_text(names[0].as_str(), image_name) {
            let fields = split_at_char(line, ':');
            if fields.len() >= 2 {
                return Ok(fields[1].clone());
            }
            return Err(inspect_output_error());
        }
        i = i + 1;
    }
    Err(inspect_output_error())
}

/// The name of a `NAME=value` definition: what precedes the first `=`.
pub open spec fn var_name_of(line: Seq<char>) -> Seq<char> {
    split_spec(line, '=')[0]
}

/// The value of a `NAME=value` definition: all after the first `=`.
pub open spec fn var_value_of(line: Seq<char>) -> Option<Seq<char>> {
    let p = split_spec(line, '=');
    if p.len() >= 2 {
        Some(join_with(p.drop_first(), "="@))
    } else {
        None
    }
}

/// The value of the first `PATH=...` line.
pub open spec fn select_path(lines: Seq<Seq<char>>) -> Option<Seq<char>>
    decreases lines.len(),
{
    if lines.len() == 0 {
        None
    } else if var_name_of(lines[0]) == "PATH"@ && var_value_of(lines[0]) is Some {
        var_value_of(lines[0])
    } else {
        select_path(lines.drop_first())
    }
}

/// The image's own `PATH` from the environment the runtime printed, one
/// `NAME=value` per line.
pub fn path_from_image_env(env_output: &str) -> (r: Option<String>)
    ensures
        match select_path(lines_of(env_output@)) {
            Some(p) => r matches Some(x) && x@ == p,
            None => r is None,
        },
{
    let t = trim(env_output);
    let lines = split_at_char(t.as_str(), '\n');
    let ghost all = views(lines@);
    assert(all.subrange(0, all.len() as int) == all);
    let mut i: usize = 0;
    while i < lines.len()
        invariant
            all == views(lines@),
            all == lines_of(env_output@),
            i <= lines@.len(),
            select_path(all) == select_path(all.subrange(i as int, all.len() as int)),
        decreases lines@.len() - i,
    {
        let line = lines[i].as_str();
        let ghost rest = all.subrange(i as int, all.len() as int);
        assert(rest[0] == line@);
        assert(rest.drop_first() == all.subrange(i + 1, all.len() as int));
        let parts = split_at_char(line, '=');
        if parts.len() >= 2 && same_text(parts[0].as_str(), "PATH") {
            let mut tail: Vec<String> = Vec::new();
            let mut k: usize = 1;
            while k < parts.len()
                invariant
                    1 <= k <= parts@.len(),
                    views(tail@) == views(parts@).subrange(1, k as int),
                decreases parts@.len() - k,
            {
                let ghost before = views(tail@);
                tail.push(parts[k].clone());
                assert(views(tail@) == before.push(parts@[k as int]@));
                assert(views(parts@).subrange(1, k + 1) == views(parts@).subrange(1, k as int).push(parts@[k as int]@));
                k = k + 1;
            }
            assert(views(parts@).drop_first() == views(parts@).subrange(1, parts@.len() as int));
            return Some(join_texts(&tail, "="));
        }
        i = i + 1;
    }
    None
}

/// What to do next while resolving an image tag to its digest.
#[derive(Clone, Debug, PartialEq, Eq)]
pub enum ResolveStep {
    /// Pull the image, then inspect it again.
    Pull,
    /// The tag resolved to this digest.
    Resolved(String),
    /// Resolution failed.
    Failed(AvatarError),
}

/// The decision after an `inspect` of `image_name:tag`: `inspect_stdout` is
/// what it printed when it succeeded, `None` when it failed; `pulled` tells
/// whether a pull was made already. A miss is pulled once; a second miss is
/// fatal.
pub fn after_inspect(pulled: bool, inspect_stdout: &Option<String>, image_name: &str) -> (r: ResolveStep)
    ensures
        match inspect_stdout {
            Some(out) => match select_digest(lines_of(out@), image_name@) {
                Some(Some(h)) => r matches ResolveStep::Resolved(x) && x@ == h,
                _ => r matches ResolveStep::Failed(e) && e.kind == ErrorKind::Protocol,
            },
            None => if pulled {
                r matches ResolveStep::Failed(e) && e.kind == ErrorKind::Unavailable
            } else {
                r is Pull
            },
        },
{
    match inspect_stdout {
        Some(out) => match get_hash_from_repo_digests_str(out.as_str(), image_name) {
            Ok(h) => ResolveStep::Resolved(h),
            Err(e) => ResolveStep::Failed(e),
        },
        None => if pulled {
            ResolveStep::Failed(
                AvatarError::new(
                    ErrorKind::Unavailable,
                    concat("Unable to find the OCI image after pulling it: ", image_name),
                ),
            )
        } else {
            ResolveStep::Pull
        },
    }
}

/// The decision after a pull: inspect again, or fail when it failed.
pub fn after_pull(succeeded: bool, image_fqn: &str) -> (r: Result<(), AvatarError>)
    ensures
        succeeded <==> r is Ok,
        r matches Err(e) ==> e.kind == ErrorKind::Unavailable,
{
    if succeeded {
        Ok(())
    } else {
        Err(AvatarError::new(ErrorKind::Unavailable, concat("Unable to pull OCI image ", image_fqn)))
    }
}

} // verus!
