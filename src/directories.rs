//! The project's on-disk layout, and paths inside the project.

use vstd::prelude::*;
use crate::text::{concat, concat3, has_prefix, starts_with};

verus! {

pub const AVATARFILE_NAME: &'static str = "Avatarfile";
pub const AVATARFILE_LOCK_NAME: &'static str = "Avatarfile.lock";
pub const CONFIG_DIR_NAME: &'static str = ".avatar-cli";
pub const CONTAINER_HOME_PATH: &'static str = "/home/avatar-cli";
pub const STATEFILE_NAME: &'static str = "state.yml";
pub const VOLATILE_DIR_NAME: &'static str = "volatile";

/// `base/name`.
pub open spec fn joined(base: Seq<char>, name: Seq<char>) -> Seq<char> {
    base + "/"@ + name
}

/// `base/name`.
pub fn join_path(base: &str, name: &str) -> (r: String)
    ensures
        r@ == joined(base@, name@),
{
    concat3(base, "/", name)
}

/// Whether `candidate` is `root` or lies below it: `root` is among its
/// ancestors.
pub open spec fn inside(root: Seq<char>, candidate: Seq<char>) -> bool {
    ||| candidate == root
    ||| starts_with(candidate, root + "/"@)
    ||| (root.len() > 0 && root.last() == '/' && starts_with(candidate, root))
}

/// The part of `candidate` below `root` (empty for `root` itself).
pub open spec fn relative_part(root: Seq<char>, candidate: Seq<char>) -> Seq<char> {
    if candidate == root {
        Seq::empty()
    } else if starts_with(candidate, root + "/"@) {
        candidate.subrange(root.len() as int + 1, candidate.len() as int)
    } else {
        candidate.subrange(root.len() as int, candidate.len() as int)
    }
}

/// Whether `candidate` is the project directory or lies below it.
pub fn is_inside_project_dir(project_path: &str, candidate: &str) -> (r: bool)
    ensures
        r == inside(project_path@, candidate@),
{
    if crate::text::same_text(candidate, project_path) {
        return true;
    }
    let with_sep = concat(project_path, "/");
    if has_prefix(candidate, with_sep.as_str()) {
        return true;
    }
    let n = project_path.unicode_len();
    n > 0 && project_path.get_char(n - 1) == '/' && has_prefix(candidate, project_path)
}

/// The path of `candidate` relative to the project directory, when it lies
/// inside it.
pub fn to_relative(project_path: &str, candidate: &str) -> (r: Option<String>)
    ensures
        match r {
            Some(x) => inside(project_path@, candidate@) && x@ == relative_part(project_path@, candidate@),
            None => !inside(project_path@, candidate@),
        },
{
    if !is_inside_project_dir(project_path, candidate) {
        return None;
    }
    if crate::text::same_text(candidate, project_path) {
        return Some(String::new());
    }
    let with_sep = concat(project_path, "/");
    let n = candidate.unicode_len();
    if has_prefix(candidate, with_sep.as_str()) {
        let k = with_sep.unicode_len();
        proof { reveal_strlit("/"); }
        return Some(candidate.substring_char(k, n).to_owned());
    }
    let k = project_path.unicode_len();
    Some(candidate.substring_char(k, n).to_owned())
}

/// Fails with a usage error when the working directory is outside the
/// project.
pub fn check_if_inside_project_dir(project_path: &str, current_dir: &str) -> (r: Result<(), crate::error::AvatarError>)
    ensures
        r is Ok <==> inside(project_path@, current_dir@),
        r matches Err(e) ==> e.kind == crate::error::ErrorKind::Usage,
{
    if is_inside_project_dir(project_path, current_dir) {
        return Ok(());
    }
    let mut m = concat3("The configured project directory is '", project_path, "', but you are in '");
    m.append(current_dir);
    m.append("'");
    Err(crate::error::AvatarError::new(crate::error::ErrorKind::Usage, m))
}

/// The last component of a path: what follows its last `/`.
pub open spec fn file_name_of(path: Seq<char>) -> Seq<char> {
    crate::text::split_spec(path, '/').last()
}

/// The last component of a path.
pub fn file_name(path: &str) -> (r: String)
    ensures
        r@ == file_name_of(path@),
{
    let parts = crate::text::split_at_char(path, '/');
    let k = parts.len() - 1;
    assert(crate::text::views(parts@)[k as int] == parts@[k as int]@);
    parts[k].clone()
}

} // verus!
