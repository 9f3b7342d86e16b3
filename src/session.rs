//! Sessions: identity dispatch, the nested-session rule, the shim's binary
//! lookup, the environment a shell session publishes, and project set-up.

use vstd::prelude::*;
use crate::config::{declares_binary, Entry, ImageBinaryConfigLock, ProjectConfigLock};
use crate::directories::{
    file_name, file_name_of, join_path, joined, AVATARFILE_LOCK_NAME, AVATARFILE_NAME, CONFIG_DIR_NAME,
    STATEFILE_NAME, VOLATILE_DIR_NAME,
};
use crate::error::{AvatarError, ErrorKind};
use crate::invocation::{lemma_views_push, volatile_dir};
use crate::text::{lemma_occurs_between, concat, concat3, contains_text, join_texts, join_with, occurs_in, same_text, starts_with, views};

verus! {

pub const CONFIG_LOCK_PATH: &'static str = "AVATAR_CLI_CONFIG_LOCK_PATH";
pub const CONFIG_PATH: &'static str = "AVATAR_CLI_CONFIG_PATH";
pub const PROJECT_PATH: &'static str = "AVATAR_CLI_PROJECT_PATH";
pub const STATE_PATH: &'static str = "AVATAR_CLI_STATE_PATH";

/// How the program was invoked.
#[derive(Clone, Debug, PartialEq, Eq)]
pub enum Invocation {
    /// As the tool itself: parse a subcommand.
    Subcommand,
    /// Through a shim: run the declared binary of this name.
    Shim(String),
}

/// The name the program was invoked by: the last component of `argv[0]`.
pub fn get_used_program_name(arg0: &str) -> (r: String)
    ensures
        r@ == file_name_of(arg0@),
{
    file_name(arg0)
}

/// Classifies an invocation by the last component of `argv[0]`: `avatar`
/// and `avatar-cli` are the tool; any other name is a shim.
pub fn dispatch(arg0: &str) -> (r: Invocation)
    ensures
        (file_name_of(arg0@) == "avatar"@ || file_name_of(arg0@) == "avatar-cli"@) ==> r is Subcommand,
        !(file_name_of(arg0@) == "avatar"@ || file_name_of(arg0@) == "avatar-cli"@) ==> (r matches Invocation::Shim(n)
            && n@ == file_name_of(arg0@)),
{
    let name = get_used_program_name(arg0);
    if same_text(name.as_str(), "avatar") || same_text(name.as_str(), "avatar-cli") {
        Invocation::Subcommand
    } else {
        Invocation::Shim(name)
    }
}

/// Refuses to start a session inside another one: a usage error naming the
/// outer session's token.
pub fn check_not_in_session(session_token: &Option<String>) -> (r: Result<(), AvatarError>)
    ensures
        r is Ok <==> session_token is None,
        r matches Err(e) ==> e.kind == ErrorKind::Usage && occurs_in(e.message@, session_token.unwrap()@),
{
    match session_token {
        None => Ok(()),
        Some(t) => {
            let head = "You are already in an Avatar CLI session (with token '";
            let mut m = concat(head, t.as_str());
            m.append("').\nIf the environment changed, consider typing 'exit' and trying again.");
            proof {
                let k = head@.len() as int;
                assert(m@.subrange(k, k + t@.len()) =~= t@);
            }
            Err(AvatarError::new(ErrorKind::Usage, m))
        },
    }
}

/// The locked binary a shim runs; a usage error when the State does not
/// declare it.
pub fn select_binary<'a>(project_state: &'a ProjectConfigLock, used_program_name: &str, state_path: &str) -> (r: Result<&'a ImageBinaryConfigLock, AvatarError>)
    ensures
        r is Err <==> !declares_binary(project_state.binaries@, used_program_name@),
        r matches Err(e) ==> e.kind == ErrorKind::Usage && occurs_in(e.message@, "not properly configured"@)
            && occurs_in(e.message@, used_program_name@),
        r matches Ok(c) ==> exists|i: int|
            0 <= i < project_state.binaries@.len() && project_state.binaries@[i].name@ == used_program_name@
                && c == &(#[trigger] project_state.binaries@[i]).config,
{
    match project_state.get_binary_configuration(used_program_name) {
        Some(c) => Ok(c),
        None => {
            let mut m = concat3("Binary '", used_program_name, "' ");
            m.append("not properly configured");
            m.append(" in lock file '");
            m.append(state_path);
            m.append("'");
            proof {
                let tail = " in lock file '"@ + state_path@ + "'"@;
                assert(m@ =~= ("Binary '"@ + used_program_name@ + "' "@) + "not properly configured"@ + tail);
                lemma_occurs_between("Binary '"@ + used_program_name@ + "' "@, "not properly configured"@, tail);
                assert(m@ =~= "Binary '"@ + used_program_name@ + ("' "@ + "not properly configured"@ + tail));
                lemma_occurs_between("Binary '"@, used_program_name@, "' "@ + "not properly configured"@ + tail);
            }
            Err(AvatarError::new(ErrorKind::Usage, m))
        },
    }
}

/// The paths of a project's documents.
pub open spec fn config_path_of(project: Seq<char>) -> Seq<char> {
    joined(joined(project, CONFIG_DIR_NAME@), AVATARFILE_NAME@)
}

pub open spec fn config_lock_path_of(project: Seq<char>) -> Seq<char> {
    joined(joined(project, CONFIG_DIR_NAME@), AVATARFILE_LOCK_NAME@)
}

pub open spec fn state_path_of(project: Seq<char>) -> Seq<char> {
    joined(volatile_dir(project), STATEFILE_NAME@)
}

pub open spec fn bin_dir_of(project: Seq<char>) -> Seq<char> {
    joined(volatile_dir(project), "bin"@)
}

/// The Manifest's path.
pub fn config_path(project_path: &str) -> (r: String)
    ensures
        r@ == config_path_of(project_path@),
{
    join_path(join_path(project_path, CONFIG_DIR_NAME).as_str(), AVATARFILE_NAME)
}

/// The Lock's path.
pub fn config_lock_path(project_path: &str) -> (r: String)
    ensures
        r@ == config_lock_path_of(project_path@),
{
    join_path(join_path(project_path, CONFIG_DIR_NAME).as_str(), AVATARFILE_LOCK_NAME)
}

/// The volatile directory's path.
pub fn volatile_path(project_path: &str) -> (r: String)
    ensures
        r@ == volatile_dir(project_path@),
{
    join_path(join_path(project_path, CONFIG_DIR_NAME).as_str(), VOLATILE_DIR_NAME)
}

/// The State's path.
pub fn state_path(project_path: &str) -> (r: String)
    ensures
        r@ == state_path_of(project_path@),
{
    join_path(volatile_path(project_path).as_str(), STATEFILE_NAME)
}

/// The shim directory's path.
pub fn bin_path(project_path: &str) -> (r: String)
    ensures
        r@ == bin_dir_of(project_path@),
{
    join_path(volatile_path(project_path).as_str(), "bin")
}

/// The environment a session publishes.
pub open spec fn session_env_of(project: Seq<char>, internal_id: Seq<char>, token: Seq<char>) -> Seq<(Seq<char>, Seq<char>)> {
    seq![
        (CONFIG_PATH@, config_path_of(project)),
        (CONFIG_LOCK_PATH@, config_lock_path_of(project)),
        (PROJECT_PATH@, project),
        (crate::invocation::PROJECT_INTERNAL_ID@, internal_id),
        (crate::invocation::SESSION_TOKEN@, token),
        (STATE_PATH@, state_path_of(project)),
    ]
}

pub open spec fn entry_views(e: Seq<Entry>) -> Seq<(Seq<char>, Seq<char>)> {
    e.map_values(|x: Entry| (x.key@, x.value@))
}

/// The variables a session publishes: the documents' paths, the project's
/// path and id, and the session token.
pub fn session_env(project_path: &str, project_internal_id: &str, session_token: &str) -> (r: Vec<Entry>)
    ensures
        entry_views(r@) == session_env_of(project_path@, project_internal_id@, session_token@),
{
    let mut r: Vec<Entry> = Vec::new();
    r.push(Entry::new(CONFIG_PATH.to_owned(), config_path(project_path)));
    r.push(Entry::new(CONFIG_LOCK_PATH.to_owned(), config_lock_path(project_path)));
    r.push(Entry::new(PROJECT_PATH.to_owned(), project_path.to_owned()));
    r.push(Entry::new(crate::invocation::PROJECT_INTERNAL_ID.to_owned(), project_internal_id.to_owned()));
    r.push(Entry::new(crate::invocation::SESSION_TOKEN.to_owned(), session_token.to_owned()));
    r.push(Entry::new(STATE_PATH.to_owned(), state_path(project_path)));
    assert(entry_views(r@) =~= session_env_of(project_path@, project_internal_id@, session_token@));
    r
}

/// A shell extra path as the host sees it: absolute ones kept, relative
/// ones joined onto the project directory.
pub open spec fn host_extra_path(project: Seq<char>, p: Seq<char>) -> Seq<char> {
    if starts_with(p, "/"@) {
        p
    } else {
        joined(project, p)
    }
}

/// The `PATH` of a shell session: the shim directory, the shell's extra
/// paths, then the host's `PATH`.
pub open spec fn shell_path_of(project: Seq<char>, extra: Seq<Seq<char>>, host_path: Seq<char>) -> Seq<char> {
    bin_dir_of(project) + ":"@ + join_with(extra.map_values(|p: Seq<char>| host_extra_path(project, p)), ":"@) + ":"@
        + host_path
}

/// The `PATH` of a shell session.
pub fn shell_path_var(project_path: &str, shell_extra_paths: &Vec<String>, host_path: &str) -> (r: String)
    ensures
        r@ == shell_path_of(project_path@, views(shell_extra_paths@), host_path@),
{
    let mut parts: Vec<String> = Vec::new();
    let mut i: usize = 0;
    while i < shell_extra_paths.len()
        invariant
            i <= shell_extra_paths@.len(),
            views(parts@) == views(shell_extra_paths@.take(i as int)).map_values(
                |p: Seq<char>| host_extra_path(project_path@, p),
            ),
        decreases shell_extra_paths@.len() - i,
    {
        let p = shell_extra_paths[i].as_str();
        let q = if crate::text::has_prefix(p, "/") {
            p.to_owned()
        } else {
            join_path(project_path, p)
        };
        let ghost before = parts@;
        parts.push(q);
        proof {
            lemma_views_push(before, q);
            assert(views(shell_extra_paths@.take(i + 1)) == views(shell_extra_paths@.take(i as int)).push(p@));
            assert(views(parts@) =~= views(shell_extra_paths@.take(i + 1)).map_values(
                |p: Seq<char>| host_extra_path(project_path@, p),
            ));
        }
        i = i + 1;
    }
    assert(shell_extra_paths@.take(shell_extra_paths@.len() as int) == shell_extra_paths@);
    let joined_extra = join_texts(&parts, ":");
    let b = bin_path(project_path);
    let mut r = concat3(b.as_str(), ":", joined_extra.as_str());
    r.append(":");
    r.append(host_path);
    r
}

/// The `PATH` that `export-env` publishes: the shim directory before the
/// host's `PATH`.
pub fn export_path_var(project_path: &str, host_path: &str) -> (r: String)
    ensures
        r@ == bin_dir_of(project_path@) + ":"@ + host_path@,
{
    let b = bin_path(project_path);
    concat3(b.as_str(), ":", host_path)
}

/// `export K="V"`.
pub open spec fn export_line_of(k: Seq<char>, v: Seq<char>) -> Seq<char> {
    "export "@ + k + "=\""@ + v + "\""@
}

/// A shell line that exports a variable.
pub fn export_line(k: &str, v: &str) -> (r: String)
    ensures
        r@ == export_line_of(k@, v@),
{
    let mut r = concat3("export ", k, "=\"");
    r.append(v);
    r.append("\"");
    r
}

/// The lines `export-env` prints: `PATH`, then each session variable.
pub fn export_env_lines(path_var: &str, env: &Vec<Entry>) -> (r: Vec<String>)
    ensures
        r@.len() == env@.len() + 1,
        r@[0]@ == export_line_of("PATH"@, path_var@),
        forall|i: int| 0 <= i < env@.len() ==> (#[trigger] r@[i + 1])@ == export_line_of(env@[i].key@, env@[i].value@),
{
    let mut r: Vec<String> = Vec::new();
    r.push(export_line("PATH", path_var));
    let mut i: usize = 0;
    while i < env.len()
        invariant
            i <= env@.len(),
            r@.len() == i + 1,
            r@[0]@ == export_line_of("PATH"@, path_var@),
            forall|k: int| 0 <= k < i ==> (#[trigger] r@[k + 1])@ == export_line_of(env@[k].key@, env@[k].value@),
        decreases env@.len() - i,
    {
        r.push(export_line(env[i].key.as_str(), env[i].value.as_str()));
        i = i + 1;
    }
    r
}

/// What `init` does to `.gitignore`.
#[derive(Clone, Debug, PartialEq, Eq)]
pub enum GitignorePlan {
    /// Nothing.
    Leave,
    /// Append this text to the existing file.
    Append(String),
    /// Create the file with this text.
    Create(String),
}

pub const GITIGNORE_MARKER: &'static str = ".avatar-cli/volatile";
pub const GITIGNORE_BLOCK: &'static str = "# Avatar-CLI\n.avatar-cli/volatile/\n";

/// The `.gitignore` change of `init`: an existing file that does not ignore
/// the volatile directory gets a block appended; a repository without the
/// file gets one; anything else is left alone.
pub fn patch_gitignore(existing: &Option<String>, has_git_dir: bool) -> (r: GitignorePlan)
    ensures
        match existing {
            Some(text) => if occurs_in(text@, GITIGNORE_MARKER@) {
                r is Leave
            } else {
                r matches GitignorePlan::Append(a) && a@ == "\n"@ + GITIGNORE_BLOCK@
            },
            None => if has_git_dir {
                r matches GitignorePlan::Create(c) && c@ == GITIGNORE_BLOCK@
            } else {
                r is Leave
            },
        },
{
    match existing {
        Some(text) => {
            if contains_text(text.as_str(), GITIGNORE_MARKER) {
                GitignorePlan::Leave
            } else {
                GitignorePlan::Append(concat("\n", GITIGNORE_BLOCK))
            }
        },
        None => {
            if has_git_dir {
                GitignorePlan::Create(GITIGNORE_BLOCK.to_owned())
            } else {
                GitignorePlan::Leave
            }
        },
    }
}

/// The checks of `init` before it writes: no project above the target, and
/// no file where the configuration directory goes. Ok tells whether an old
/// configuration directory is to be removed first.
pub fn check_init_target(
    existing_project: &Option<String>,
    config_dir_exists: bool,
    config_dir_is_file: bool,
    config_dir: &str,
) -> (r: Result<bool, AvatarError>)
    ensures
        r is Err <==> (existing_project is Some || (config_dir_exists && config_dir_is_file)),
        r matches Err(e) ==> e.kind == ErrorKind::Usage,
        r matches Ok(remove) ==> remove == config_dir_exists,
{
    if let Some(p) = existing_project {
        return Err(AvatarError::new(
            ErrorKind::Usage,
            concat("avatar init cannot create a new project over an existing one, in ", p.as_str()),
        ));
    }
    if config_dir_exists && config_dir_is_file {
        return Err(AvatarError::new(
            ErrorKind::Usage,
            concat3("The path ", config_dir, " must point to a directory, found something else"),
        ));
    }
    Ok(config_dir_exists)
}

/// How many leading arguments a shim skips: its own name.
pub const SHIM_SKIP_ARGS: usize = 1;

/// How many leading arguments `avatar run <binary> ...` skips.
pub const RUN_SKIP_ARGS: usize = 4;

/// The length of session and process tokens.
pub const TOKEN_LEN: usize = 16;

/// A fresh session or process token: sixteen ASCII letters and digits.
pub fn new_token() -> (r: String)
    ensures
        r@.len() == TOKEN_LEN,
        forall|i: int| 0 <= i < r@.len() ==> crate::primitives::is_alphanumeric(#[trigger] r@[i]),
{
    crate::primitives::random_alphanumeric(TOKEN_LEN)
}

/// What a shim learns of its session from the environment.
#[derive(Clone, Debug, PartialEq, Eq)]
pub struct AvatarEnv {
    project_path: String,
    session_token: String,
}

impl AvatarEnv {
    /// The session of a shim, from the values of `AVATAR_CLI_PROJECT_PATH`
    /// and `AVATAR_CLI_SESSION_TOKEN` (absent when unset): a configuration
    /// error names the first one missing.
    pub fn read(project_path: Option<String>, session_token: Option<String>) -> (r: Result<AvatarEnv, AvatarError>)
        ensures
            r is Ok <==> (project_path is Some && session_token is Some),
            r matches Ok(e) ==> e.project_path() == project_path.unwrap() && e.session_token()
                == session_token.unwrap(),
            r matches Err(e) ==> e.kind == ErrorKind::Config,
            r matches Err(e) ==> (project_path is None ==> occurs_in(e.message@, PROJECT_PATH@)),
            r matches Err(e) ==> (project_path is Some ==> occurs_in(e.message@, crate::invocation::SESSION_TOKEN@)),
    {
        let p = match project_path {
            Some(p) => p,
            None => return Err(Self::missing(PROJECT_PATH)),
        };
        let t = match session_token {
            Some(t) => t,
            None => return Err(Self::missing(crate::invocation::SESSION_TOKEN)),
        };
        Ok(AvatarEnv { project_path: p, session_token: t })
    }

    fn missing(var_name: &str) -> (e: AvatarError)
        ensures
            e.kind == ErrorKind::Config,
            occurs_in(e.message@, var_name@),
    {
        let m = concat3("The '", var_name, "' environment variable is not defined");
        proof {
            lemma_occurs_between("The '"@, var_name@, "' environment variable is not defined"@);
        }
        AvatarError::new(ErrorKind::Config, m)
    }

    pub closed spec fn project_path(&self) -> String {
        self.project_path
    }

    pub closed spec fn session_token(&self) -> String {
        self.session_token
    }

    pub fn get_project_path(&self) -> (r: &String)
        ensures
            *r == self.project_path(),
    {
        &self.project_path
    }

    pub fn get_session_token(&self) -> (r: &String)
        ensures
            *r == self.session_token(),
    {
        &self.session_token
    }
}

} // verus!
