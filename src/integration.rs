//! Host-integration arguments of a launch: terminal, user name, agent
//! sockets, the user's ssh and gnupg settings, the per-image passwd file and
//! the git identity.

use vstd::prelude::*;
use crate::directories::{joined, join_path, CONTAINER_HOME_PATH};
use crate::error::{AvatarError, ErrorKind};
use crate::invocation::{assignment, bind_mount, lemma_views_push, volatile_dir};
use crate::text::{concat3, join_texts, join_with, split_at_char, split_spec, views};

verus! {

/// Where the runtime for macOS exposes the host's ssh agent.
pub const MACOS_SSH_AUTH_SOCK: &'static str = "/run/host-services/ssh-auth.sock";

/// What the caller learned of the host for one launch.
#[derive(Clone, Debug, PartialEq, Eq)]
pub struct HostFacts {
    pub term: Option<String>,
    /// The name of the current user.
    pub user_name: Option<String>,
    pub ssh_auth_sock: Option<String>,
    pub gpg_agent_info: Option<String>,
    /// Whether the host is macOS (its runtime forwards the ssh agent itself).
    pub macos: bool,
    pub home_dir: Option<String>,
    /// Whether `~/.ssh` is a directory.
    pub ssh_dir_present: bool,
    /// Whether `~/.gnupg` is a directory.
    pub gnupg_dir_present: bool,
    /// Whether the image's passwd file exists, and whether it is a regular file.
    pub passwd_exists: bool,
    pub passwd_is_file: bool,
    pub git_user_name: Option<String>,
    pub git_user_email: Option<String>,
}

/// The directory that holds a path: all before its last `/` (`/` for a
/// path right below the root); none for an empty path or the root itself.
pub open spec fn parent_of(p: Seq<char>) -> Option<Seq<char>> {
    let parts = split_spec(p, '/');
    if p.len() == 0 || p == "/"@ {
        None
    } else if parts.len() == 2 && parts[0].len() == 0 {
        Some("/"@)
    } else {
        Some(join_with(parts.drop_last(), "/"@))
    }
}

/// The directory that holds a path.
pub fn parent_dir(p: &str) -> (r: Option<String>)
    ensures
        match parent_of(p@) {
            Some(x) => r matches Some(y) && y@ == x,
            None => r is None,
        },
{
    if p.unicode_len() == 0 || crate::text::same_text(p, "/") {
        return None;
    }
    let parts = split_at_char(p, '/');
    if parts.len() == 2 && parts[0].unicode_len() == 0 {
        return Some("/".to_owned());
    }
    let mut head: Vec<String> = Vec::new();
    let mut i: usize = 0;
    while i < parts.len() - 1
        invariant
            i + 1 <= parts@.len(),
            views(head@) == views(parts@).take(i as int),
        decreases parts@.len() - i,
    {
        let ghost before = head@;
        head.push(parts[i].clone());
        proof {
            lemma_views_push(before, parts@[i as int]);
            assert(views(parts@).take(i + 1) == views(parts@).take(i as int).push(parts@[i as int]@));
        }
        i = i + 1;
    }
    assert(views(parts@).drop_last() == views(parts@).take(i as int));
    Some(join_texts(&head, "/"))
}

pub open spec fn opt_flags(cond: bool, flags: Seq<Seq<char>>) -> Seq<Seq<char>> {
    if cond {
        flags
    } else {
        Seq::empty()
    }
}

/// The flags that forward an agent socket: its directory mounted onto
/// itself, and the variable.
pub open spec fn socket_flags(var: Seq<char>, value: Option<String>) -> Seq<Seq<char>> {
    match value {
        Some(v) => match parent_of(v@) {
            Some(d) => seq!["--mount"@, bind_mount(d, d), "--env"@, assignment(var, v@)],
            None => Seq::empty(),
        },
        None => Seq::empty(),
    }
}

/// The flags that mount a configuration directory of the user's home.
pub open spec fn home_config_flags(home: Option<String>, present: bool, name: Seq<char>) -> Seq<Seq<char>> {
    match home {
        Some(h) => opt_flags(present, seq!["--mount"@, bind_mount(joined(h@, name), joined(CONTAINER_HOME_PATH@, name))]),
        None => Seq::empty(),
    }
}

pub open spec fn git_flags(name: Option<String>, email: Option<String>) -> Seq<Seq<char>> {
    (match name {
        Some(n) => seq![
            "--env"@, assignment("GIT_AUTHOR_NAME"@, n@),
            "--env"@, assignment("GIT_COMMITTER_NAME"@, n@),
        ],
        None => Seq::empty(),
    }) + (match email {
        Some(m) => seq![
            "--env"@, assignment("GIT_AUTHOR_EMAIL"@, m@),
            "--env"@, assignment("GIT_COMMITTER_EMAIL"@, m@),
        ],
        None => Seq::empty(),
    })
}

/// `<project>/.avatar-cli/volatile/images/<image ref>/passwd`.
pub open spec fn passwd_path_of(project: Seq<char>, image_ref: Seq<char>) -> Seq<char> {
    joined(joined(joined(volatile_dir(project), "images"@), image_ref), "passwd"@)
}

/// The passwd file generated for an image.
pub fn passwd_path(project_path: &str, image_ref: &str) -> (r: String)
    ensures
        r@ == passwd_path_of(project_path@, image_ref@),
{
    let c = join_path(project_path, crate::directories::CONFIG_DIR_NAME);
    let v = join_path(c.as_str(), crate::directories::VOLATILE_DIR_NAME);
    let i = join_path(v.as_str(), "images");
    let d = join_path(i.as_str(), image_ref);
    join_path(d.as_str(), "passwd")
}

/// All the integration flags, in order.
pub open spec fn integration_flags(f: HostFacts, project: Seq<char>, image_ref: Seq<char>) -> Seq<Seq<char>> {
    term_user_flags(f) + agent_flags(f) + home_config_flags(f.home_dir, f.ssh_dir_present, ".ssh"@) + home_config_flags(
        f.home_dir,
        f.gnupg_dir_present,
        ".gnupg"@,
    ) + opt_flags(f.passwd_exists, seq!["--mount"@, bind_mount(passwd_path_of(project, image_ref), "/etc/passwd"@)])
        + git_flags(f.git_user_name, f.git_user_email)
}

fn push_two(args: &mut Vec<String>, a: String, b: String)
    ensures
        views(final(args)@) == views(old(args)@) + seq![a@, b@],
{
    let ghost s = args@;
    args.push(a);
    let ghost t = args@;
    args.push(b);
    proof {
        lemma_views_push(s, t[s.len() as int]);
        lemma_views_push(t, args@[t.len() as int]);
        assert(views(args@) =~= views(s) + seq![a@, b@]);
    }
}

/// Forwards an agent socket: its directory mounted onto itself, and the variable.
pub fn push_socket_dir_args(args: &mut Vec<String>, var: &str, value: &Option<String>)
    ensures
        views(final(args)@) == views(old(args)@) + socket_flags(var@, *value),
{
    if let Some(v) = value {
        if let Some(d) = parent_dir(v.as_str()) {
            let mut m = concat3("type=bind,source=", d.as_str(), ",target=");
            m.append(d.as_str());
            push_two(args, "--mount".to_owned(), m);
            push_two(args, "--env".to_owned(), concat3(var, "=", v.as_str()));
            assert(views(args@) =~= views(old(args)@) + socket_flags(var@, *value));
            return;
        }
    }
    assert(views(args@) =~= views(old(args)@) + socket_flags(var@, *value));
}

/// Mounts a configuration directory of the user's home into the container home.
pub fn push_home_config_args(args: &mut Vec<String>, home: &Option<String>, present: bool, name: &str)
    ensures
        views(final(args)@) == views(old(args)@) + home_config_flags(*home, present, name@),
{
    if let Some(h) = home {
        if present {
            let src = join_path(h.as_str(), name);
            let dst = join_path(CONTAINER_HOME_PATH, name);
            let mut m = concat3("type=bind,source=", src.as_str(), ",target=");
            m.append(dst.as_str());
            push_two(args, "--mount".to_owned(), m);
            return;
        }
    }
    assert(views(args@) =~= views(old(args)@) + home_config_flags(*home, present, name@));
}

pub open spec fn term_user_flags(f: HostFacts) -> Seq<Seq<char>> {
    (match f.term {
        Some(t) => seq!["--env"@, assignment("TERM"@, t@)],
        None => Seq::empty(),
    }) + (match f.user_name {
        Some(u) => seq!["--env"@, assignment("USER"@, u@), "--env"@, assignment("USERNAME"@, u@)],
        None => Seq::empty(),
    })
}

pub open spec fn agent_flags(f: HostFacts) -> Seq<Seq<char>> {
    if f.macos {
        opt_flags(
            f.ssh_auth_sock is Some,
            seq![
                "--env"@, assignment("SSH_AUTH_SOCK"@, MACOS_SSH_AUTH_SOCK@),
                "-v"@, MACOS_SSH_AUTH_SOCK@ + ":"@ + MACOS_SSH_AUTH_SOCK@,
            ],
        )
    } else {
        socket_flags("SSH_AUTH_SOCK"@, f.ssh_auth_sock) + socket_flags("GPG_AGENT_INFO"@, f.gpg_agent_info)
    }
}

fn term_user_args(args: &mut Vec<String>, facts: &HostFacts)
    ensures
        views(final(args)@) == views(old(args)@) + term_user_flags(*facts),
{
    if let Some(t) = &facts.term {
        push_two(args, "--env".to_owned(), concat3("TERM", "=", t.as_str()));
    }
    let ghost mid = views(args@);
    if let Some(u) = &facts.user_name {
        push_two(args, "--env".to_owned(), concat3("USER", "=", u.as_str()));
        push_two(args, "--env".to_owned(), concat3("USERNAME", "=", u.as_str()));
    }
    assert(views(args@) =~= views(old(args)@) + term_user_flags(*facts));
}

fn agent_args(args: &mut Vec<String>, facts: &HostFacts)
    ensures
        views(final(args)@) == views(old(args)@) + agent_flags(*facts),
{
    if facts.macos {
        if facts.ssh_auth_sock.is_some() {
            push_two(args, "--env".to_owned(), concat3("SSH_AUTH_SOCK", "=", MACOS_SSH_AUTH_SOCK));
            push_two(args, "-v".to_owned(), concat3(MACOS_SSH_AUTH_SOCK, ":", MACOS_SSH_AUTH_SOCK));
        }
    } else {
        push_socket_dir_args(args, "SSH_AUTH_SOCK", &facts.ssh_auth_sock);
        push_socket_dir_args(args, "GPG_AGENT_INFO", &facts.gpg_agent_info);
    }
    assert(views(args@) =~= views(old(args)@) + agent_flags(*facts));
}

/// Forwards the git identity as author and committer.
pub fn push_git_args(args: &mut Vec<String>, name: &Option<String>, email: &Option<String>)
    ensures
        views(final(args)@) == views(old(args)@) + git_flags(*name, *email),
{
    if let Some(n) = name {
        push_two(args, "--env".to_owned(), concat3("GIT_AUTHOR_NAME", "=", n.as_str()));
        push_two(args, "--env".to_owned(), concat3("GIT_COMMITTER_NAME", "=", n.as_str()));
    }
    if let Some(m) = email {
        push_two(args, "--env".to_owned(), concat3("GIT_AUTHOR_EMAIL", "=", m.as_str()));
        push_two(args, "--env".to_owned(), concat3("GIT_COMMITTER_EMAIL", "=", m.as_str()));
    }
    assert(views(args@) =~= views(old(args)@) + git_flags(*name, *email));
}

/// Mounts the image's passwd file onto `/etc/passwd`.
pub fn push_passwd_args(args: &mut Vec<String>, exists: bool, passwd: &str)
    ensures
        views(final(args)@) == views(old(args)@) + opt_flags(exists, seq!["--mount"@, bind_mount(passwd@, "/etc/passwd"@)]),
{
    if exists {
        let mut m = concat3("type=bind,source=", passwd, ",target=");
        m.append("/etc/passwd");
        push_two(args, "--mount".to_owned(), m);
    } else {
        assert(views(args@) =~= views(old(args)@) + Seq::<Seq<char>>::empty());
    }
}

/// The user-integration arguments of a launch of the image `image_ref`
/// (`<name>@sha256:<digest>`): terminal type, user name, agent sockets (the
/// socket's directory mounted onto itself; on macOS the runtime's own
/// socket), `~/.ssh` and `~/.gnupg`, the image's passwd file, and the git
/// identity. Fails with a usage error when something other than a regular
/// file stands where the passwd file goes.
pub fn get_user_integration_args(facts: &HostFacts, project_path: &str, image_ref: &str) -> (r: Result<Vec<String>, AvatarError>)
    ensures
        r is Err <==> (facts.passwd_exists && !facts.passwd_is_file),
        r matches Err(e) ==> e.kind == ErrorKind::Usage,
        r matches Ok(args) ==> views(args@) == integration_flags(*facts, project_path@, image_ref@),
{
    let passwd = passwd_path(project_path, image_ref);
    if facts.passwd_exists && !facts.passwd_is_file {
        return Err(AvatarError::new(
            ErrorKind::Usage,
            concat3("The path ", passwd.as_str(), " must point to a regular file, found something else"),
        ));
    }
    let mut args: Vec<String> = Vec::new();
    term_user_args(&mut args, facts);
    agent_args(&mut args, facts);
    push_home_config_args(&mut args, &facts.home_dir, facts.ssh_dir_present, ".ssh");
    push_home_config_args(&mut args, &facts.home_dir, facts.gnupg_dir_present, ".gnupg");
    push_passwd_args(&mut args, facts.passwd_exists, passwd.as_str());
    push_git_args(&mut args, &facts.git_user_name, &facts.git_user_email);
    assert(views(args@) =~= integration_flags(*facts, project_path@, image_ref@));
    Ok(args)
}

} // verus!
