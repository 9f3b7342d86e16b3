//! The invocation builder: the container-launch argument vector of a shim,
//! and the identity dispatch on the name a program was invoked by.

use vstd::prelude::*;
use crate::config::{Entry, ImageBinaryConfigLock, OCIContainerRunConfigLock, VolumeConfigLock};
use crate::directories::{
    file_name, file_name_of, inside, join_path, joined, relative_part, to_relative, CONFIG_DIR_NAME, CONTAINER_HOME_PATH, VOLATILE_DIR_NAME,
};
use crate::error::{AvatarError, ErrorKind};
use crate::merge::{opt_seq, CONTAINER_PROJECT_MOUNT};
use crate::runconfig::{env_sets_path, hosts_pass_path, seq_or_empty};
use crate::text::{concat, concat3, same_text, starts_with, views};

verus! {

pub const PROCESS_ID: &'static str = "AVATAR_CLI_PROCESS_ID";
pub const PROJECT_INTERNAL_ID: &'static str = "AVATAR_CLI_PROJECT_INTERNAL_ID";
pub const SESSION_TOKEN: &'static str = "AVATAR_CLI_SESSION_TOKEN";

pub proof fn lemma_views_concat(a: Seq<String>, b: Seq<String>)
    ensures
        views(a + b) == views(a) + views(b),
{
    assert(views(a + b) =~= views(a) + views(b));
}

pub proof fn lemma_views_push(a: Seq<String>, x: String)
    ensures
        views(a.push(x)) == views(a).push(x@),
{
    assert(views(a.push(x)) =~= views(a).push(x@));
}

/// Appends `flag` and `value`.
fn push_flag(args: &mut Vec<String>, flag: &str, value: String)
    ensures
        views(final(args)@) == views(old(args)@) + seq![flag@, value@],
{
    let ghost a = args@;
    args.push(flag.to_owned());
    args.push(value);
    proof {
        lemma_views_push(a, args@[a.len() as int]);
        lemma_views_push(a.push(args@[a.len() as int]), args@[a.len() as int + 1]);
        assert(args@ == a.push(args@[a.len() as int]).push(args@[a.len() as int + 1]));
    }
}

/// `K=V`.
pub open spec fn assignment(k: Seq<char>, v: Seq<char>) -> Seq<char> {
    k + "="@ + v
}

/// `--env K=V` for each entry, in order.
pub open spec fn env_flags(e: Seq<Entry>) -> Seq<Seq<char>>
    decreases e.len(),
{
    if e.len() == 0 {
        Seq::empty()
    } else {
        env_flags(e.drop_last()) + seq!["--env"@, assignment(e.last().key@, e.last().value@)]
    }
}

/// The first value of `name` in a host environment.
pub open spec fn lookup(env: Seq<Entry>, name: Seq<char>) -> Option<Seq<char>>
    decreases env.len(),
{
    if env.len() == 0 {
        None
    } else if env[0].key@ == name {
        Some(env[0].value@)
    } else {
        lookup(env.drop_first(), name)
    }
}

/// `--env NAME=value` for each pass-through name that the host sets.
pub open spec fn host_flags(names: Seq<String>, host_env: Seq<Entry>) -> Seq<Seq<char>>
    decreases names.len(),
{
    if names.len() == 0 {
        Seq::empty()
    } else {
        let rest = host_flags(names.drop_last(), host_env);
        match lookup(host_env, names.last()@) {
            Some(v) => rest + seq!["--env"@, assignment(names.last()@, v)],
            None => rest,
        }
    }
}

/// `--volume name:path` for each frozen volume.
pub open spec fn volume_flags(v: Seq<VolumeConfigLock>) -> Seq<Seq<char>>
    decreases v.len(),
{
    if v.len() == 0 {
        Seq::empty()
    } else {
        volume_flags(v.drop_last()) + seq!["--volume"@, v.last().volume_name@ + ":"@ + v.last().container_path@]
    }
}

/// `type=bind,source=<host>,target=<container>`.
pub open spec fn bind_mount(host: Seq<char>, container: Seq<char>) -> Seq<char> {
    "type=bind,source="@ + host + ",target="@ + container
}

/// `--mount type=bind,...` for each binding (container path -> host path).
pub open spec fn binding_flags(b: Seq<Entry>) -> Seq<Seq<char>>
    decreases b.len(),
{
    if b.len() == 0 {
        Seq::empty()
    } else {
        binding_flags(b.drop_last()) + seq!["--mount"@, bind_mount(b.last().value@, b.last().key@)]
    }
}

/// The value of an environment variable in a host environment.
pub fn lookup_env<'a>(env: &'a Vec<Entry>, name: &str) -> (r: Option<&'a String>)
    ensures
        match lookup(env@, name@) {
            Some(v) => r matches Some(x) && x@ == v,
            None => r is None,
        },
{
    let mut i: usize = 0;
    assert(env@.subrange(0, env@.len() as int) == env@);
    while i < env.len()
        invariant
            i <= env@.len(),
            lookup(env@, name@) == lookup(env@.subrange(i as int, env@.len() as int), name@),
        decreases env@.len() - i,
    {
        let ghost rest = env@.subrange(i as int, env@.len() as int);
        assert(rest[0] == env@[i as int]);
        assert(rest.drop_first() == env@.subrange(i + 1, env@.len() as int));
        if same_text(env[i].key.as_str(), name) {
            return Some(&env[i].value);
        }
        i = i + 1;
    }
    None
}

/// `--env K=V` for each entry.
pub fn env_args(e: &Vec<Entry>) -> (r: Vec<String>)
    ensures
        views(r@) == env_flags(e@),
{
    let mut r: Vec<String> = Vec::new();
    let mut i: usize = 0;
    while i < e.len()
        invariant
            i <= e@.len(),
            views(r@) == env_flags(e@.take(i as int)),
        decreases e@.len() - i,
    {
        assert(e@.take(i + 1).drop_last() == e@.take(i as int));
        push_flag(&mut r, "--env", concat3(e[i].key.as_str(), "=", e[i].value.as_str()));
        i = i + 1;
    }
    assert(e@.take(e@.len() as int) == e@);
    r
}

/// `--env NAME=value` for each pass-through name the host sets.
pub fn host_env_args(names: &Vec<String>, host_env: &Vec<Entry>) -> (r: Vec<String>)
    ensures
        views(r@) == host_flags(names@, host_env@),
{
    let mut r: Vec<String> = Vec::new();
    let mut i: usize = 0;
    while i < names.len()
        invariant
            i <= names@.len(),
            views(r@) == host_flags(names@.take(i as int), host_env@),
        decreases names@.len() - i,
    {
        assert(names@.take(i + 1).drop_last() == names@.take(i as int));
        match lookup_env(host_env, names[i].as_str()) {
            Some(v) => push_flag(&mut r, "--env", concat3(names[i].as_str(), "=", v.as_str())),
            None => {},
        }
        i = i + 1;
    }
    assert(names@.take(names@.len() as int) == names@);
    r
}

/// `--volume name:path` for each frozen volume.
pub fn volume_args(v: &Vec<VolumeConfigLock>) -> (r: Vec<String>)
    ensures
        views(r@) == volume_flags(v@),
{
    let mut r: Vec<String> = Vec::new();
    let mut i: usize = 0;
    while i < v.len()
        invariant
            i <= v@.len(),
            views(r@) == volume_flags(v@.take(i as int)),
        decreases v@.len() - i,
    {
        assert(v@.take(i + 1).drop_last() == v@.take(i as int));
        push_flag(&mut r, "--volume", concat3(v[i].volume_name.as_str(), ":", v[i].container_path.as_str()));
        i = i + 1;
    }
    assert(v@.take(v@.len() as int) == v@);
    r
}

fn bind_mount_arg(host: &str, container: &str) -> (r: String)
    ensures
        r@ == bind_mount(host@, container@),
{
    let mut r = concat3("type=bind,source=", host, ",target=");
    r.append(container);
    r
}

/// `--mount type=bind,...` for each binding.
pub fn binding_args(b: &Vec<Entry>) -> (r: Vec<String>)
    ensures
        views(r@) == binding_flags(b@),
{
    let mut r: Vec<String> = Vec::new();
    let mut i: usize = 0;
    while i < b.len()
        invariant
            i <= b@.len(),
            views(r@) == binding_flags(b@.take(i as int)),
        decreases b@.len() - i,
    {
        assert(b@.take(i + 1).drop_last() == b@.take(i as int));
        push_flag(&mut r, "--mount", bind_mount_arg(b[i].value.as_str(), b[i].key.as_str()));
        i = i + 1;
    }
    assert(b@.take(b@.len() as int) == b@);
    r
}

/// What a launch needs beyond the State: facts of the host and of this
/// process, read by the caller.
#[derive(Clone, Debug, PartialEq, Eq)]
pub struct LaunchContext {
    /// The container runtime's executable.
    pub runtime: String,
    pub current_dir: String,
    pub project_path: String,
    pub project_internal_id: String,
    pub session_token: String,
    /// A fresh token of this process.
    pub process_id: String,
    /// `<uid>:<gid>` of the current user.
    pub user: String,
    /// Whether both stdin and stdout are terminals.
    pub tty: bool,
    /// The host's environment.
    pub host_env: Vec<Entry>,
    /// The user-integration arguments (see `get_user_integration_args`).
    pub integration_args: Vec<String>,
    /// The user's arguments, those before them skipped already.
    pub user_args: Vec<String>,
}

/// `/playground/<path of cwd below the project>`.
pub open spec fn working_dir(project: Seq<char>, cwd: Seq<char>) -> Seq<char> {
    CONTAINER_PROJECT_MOUNT@ + "/"@ + relative_part(project, cwd)
}

/// The project's volatile directory.
pub open spec fn volatile_dir(project: Seq<char>) -> Seq<char> {
    joined(joined(project, CONFIG_DIR_NAME@), VOLATILE_DIR_NAME@)
}

/// `<project>_<program>_<project id>_<session>_<process>`.
pub open spec fn container_name(ctx: LaunchContext, program_path: Seq<char>) -> Seq<char> {
    file_name_of(ctx.project_path@) + "_"@ + file_name_of(program_path) + "_"@ + ctx.project_internal_id@ + "_"@
        + ctx.session_token@ + "_"@ + ctx.process_id@
}

/// A user argument as the container sees it: an absolute path inside the
/// project is rewritten below the project mount; anything else is kept.
pub open spec fn transformed_arg(project: Seq<char>, arg: Seq<char>) -> Seq<char> {
    if starts_with(arg, "/"@) && inside(project, arg) {
        CONTAINER_PROJECT_MOUNT@ + "/"@ + relative_part(project, arg)
    } else {
        arg
    }
}

/// An argument rewritten for the container.
pub fn transform_command_arg(project_path: &str, arg: &str) -> (r: String)
    ensures
        r@ == transformed_arg(project_path@, arg@),
{
    if crate::text::has_prefix(arg, "/") {
        match to_relative(project_path, arg) {
            Some(rel) => {
                return concat3(CONTAINER_PROJECT_MOUNT, "/", rel.as_str());
            },
            None => {},
        }
    }
    arg.to_owned()
}

/// The user's arguments after the first `skip_args`, rewritten for the
/// container.
pub fn transform_command_args(skip_args: usize, project_path: &str, args: &Vec<String>) -> (r: Vec<String>)
    ensures
        r@.len() == if skip_args <= args@.len() { args@.len() - skip_args } else { 0 },
        forall|i: int|
            0 <= i < r@.len() ==> (#[trigger] r@[i])@ == transformed_arg(project_path@, args@[i + skip_args]@),
{
    let mut r: Vec<String> = Vec::new();
    let mut i: usize = skip_args;
    while i < args.len()
        invariant
            skip_args <= i,
            i <= args@.len() || (r@.len() == 0 && i == skip_args),
            r@.len() == i - skip_args,
            forall|k: int|
                0 <= k < r@.len() ==> (#[trigger] r@[k])@ == transformed_arg(project_path@, args@[k + skip_args]@),
        decreases args@.len() - i,
    {
        r.push(transform_command_arg(project_path, args[i].as_str()));
        i = i + 1;
    }
    r
}

/// The environment flags of a frozen configuration: its own variables, then
/// those passed through from the host.
pub open spec fn run_env_flags(rc: Option<OCIContainerRunConfigLock>, host_env: Seq<Entry>) -> Seq<Seq<char>> {
    match rc {
        Some(c) => env_flags(seq_or_empty(opt_seq(c.env))) + host_flags(seq_or_empty(opt_seq(c.env_from_host)), host_env),
        None => Seq::empty(),
    }
}

/// The mount flags of a frozen configuration: volumes, then bindings.
pub open spec fn run_mount_flags(rc: Option<OCIContainerRunConfigLock>) -> Seq<Seq<char>> {
    match rc {
        Some(c) => volume_flags(seq_or_empty(opt_seq(c.volumes))) + binding_flags(seq_or_empty(opt_seq(c.bindings))),
        None => Seq::empty(),
    }
}

/// Identity, labels, user, project mount, working directory and home.
pub open spec fn identity_flags(ctx: LaunchContext, program_path: Seq<char>) -> Seq<Seq<char>> {
    seq![
        "--name"@, container_name(ctx, program_path),
        "--label"@, "managed_tool.container_role.avatar-cli"@,
        "--label"@, ctx.project_internal_id@ + ".byid.projects.avatar-cli"@,
        "--env"@, assignment(PROCESS_ID@, ctx.process_id@),
        "--env"@, assignment(PROJECT_INTERNAL_ID@, ctx.project_internal_id@),
        "--env"@, assignment(SESSION_TOKEN@, ctx.session_token@),
        "--user"@, ctx.user@,
        "--mount"@, bind_mount(ctx.project_path@, CONTAINER_PROJECT_MOUNT@),
        "--workdir"@, working_dir(ctx.project_path@, ctx.current_dir@),
        "--mount"@, bind_mount(joined(volatile_dir(ctx.project_path@), "home"@), CONTAINER_HOME_PATH@),
        "--env"@, assignment("HOME"@, CONTAINER_HOME_PATH@),
    ]
}

/// `<image name>@sha256:<digest>`.
pub open spec fn image_ref_by_digest(name: Seq<char>, hash: Seq<char>) -> Seq<char> {
    name + "@sha256:"@ + hash
}

/// The whole argument vector of a launch.
pub open spec fn launch_argv(b: ImageBinaryConfigLock, ctx: LaunchContext) -> Seq<Seq<char>> {
    seq![ctx.runtime@, "run"@, "--rm"@, "--init"@, "-i"@] + (if ctx.tty { seq!["-t"@] } else { Seq::empty() })
        + run_env_flags(b.run_config, ctx.host_env@) + identity_flags(ctx, b.path@) + run_mount_flags(b.run_config)
        + views(ctx.integration_args@) + seq![image_ref_by_digest(b.oci_image_name@, b.oci_image_hash@), b.path@]
        + views(ctx.user_args@).map_values(|a: Seq<char>| transformed_arg(ctx.project_path@, a))
}

/// The `<image name>@sha256:<digest>` reference of an image.
pub fn image_ref_of_digest(name: &str, hash: &str) -> (r: String)
    ensures
        r@ == image_ref_by_digest(name@, hash@),
{
    concat3(name, "@sha256:", hash)
}

fn identity_args(ctx: &LaunchContext, program_path: &str) -> (r: Vec<String>)
    requires
        inside(ctx.project_path@, ctx.current_dir@),
    ensures
        views(r@) == identity_flags(*ctx, program_path@),
{
    let mut r: Vec<String> = Vec::new();
    let mut name = concat3(file_name(ctx.project_path.as_str()).as_str(), "_", file_name(program_path).as_str());
    name.append("_");
    name.append(ctx.project_internal_id.as_str());
    name.append("_");
    name.append(ctx.session_token.as_str());
    name.append("_");
    name.append(ctx.process_id.as_str());
    push_flag(&mut r, "--name", name);
    push_flag(&mut r, "--label", "managed_tool.container_role.avatar-cli".to_owned());
    push_flag(&mut r, "--label", concat(ctx.project_internal_id.as_str(), ".byid.projects.avatar-cli"));
    push_flag(&mut r, "--env", concat3(PROCESS_ID, "=", ctx.process_id.as_str()));
    push_flag(&mut r, "--env", concat3(PROJECT_INTERNAL_ID, "=", ctx.project_internal_id.as_str()));
    push_flag(&mut r, "--env", concat3(SESSION_TOKEN, "=", ctx.session_token.as_str()));
    push_flag(&mut r, "--user", ctx.user.clone());
    push_flag(&mut r, "--mount", bind_mount_arg(ctx.project_path.as_str(), CONTAINER_PROJECT_MOUNT));
    let rel = match to_relative(ctx.project_path.as_str(), ctx.current_dir.as_str()) {
        Some(x) => x,
        None => String::new(),
    };
    push_flag(&mut r, "--workdir", concat3(CONTAINER_PROJECT_MOUNT, "/", rel.as_str()));
    let volatile = join_path(join_path(ctx.project_path.as_str(), CONFIG_DIR_NAME).as_str(), VOLATILE_DIR_NAME);
    let home = join_path(volatile.as_str(), "home");
    push_flag(&mut r, "--mount", bind_mount_arg(home.as_str(), CONTAINER_HOME_PATH));
    push_flag(&mut r, "--env", concat3("HOME", "=", CONTAINER_HOME_PATH));
    assert(views(r@) =~= identity_flags(*ctx, program_path@));
    r
}

/// Builds the container-launch argument vector of a locked binary: the
/// runtime with `run --rm --init -i` (and `-t` on a terminal), the binary's
/// environment and pass-through variables, identity and labels, the project
/// and home mounts with the working directory, the binary's volumes and
/// bindings, the user-integration arguments, the image by digest, the
/// program, and the user's arguments rewritten for the container. Fails
/// with a usage error when the working directory is outside the project or
/// the configuration sets or passes through `PATH`.
pub fn run_docker_command(binary_configuration: &ImageBinaryConfigLock, ctx: &LaunchContext) -> (r: Result<Vec<String>, AvatarError>)
    ensures
        r is Err <==> (!inside(ctx.project_path@, ctx.current_dir@) || (binary_configuration.run_config matches Some(c)
            && (env_sets_path(opt_seq(c.env)) || hosts_pass_path(opt_seq(c.env_from_host))))),
        r matches Err(e) ==> e.kind == ErrorKind::Usage,
        r matches Ok(argv) ==> views(argv@) == launch_argv(*binary_configuration, *ctx),
{
    crate::directories::check_if_inside_project_dir(ctx.project_path.as_str(), ctx.current_dir.as_str())?;
    let mut argv: Vec<String> = Vec::new();
    argv.push(ctx.runtime.clone());
    argv.push("run".to_owned());
    argv.push("--rm".to_owned());
    argv.push("--init".to_owned());
    argv.push("-i".to_owned());
    if ctx.tty {
        argv.push("-t".to_owned());
    }
    let ghost head = views(argv@);
    assert(head =~= seq![ctx.runtime@, "run"@, "--rm"@, "--init"@, "-i"@] + (if ctx.tty { seq!["-t"@] } else { Seq::<Seq<char>>::empty() }));
    let mut env_part: Vec<String> = Vec::new();
    let mut mount_part: Vec<String> = Vec::new();
    if let Some(rc) = &binary_configuration.run_config {
        crate::runconfig::check_frozen_env(rc)?;
        if let Some(e) = &rc.env {
            env_part = env_args(e);
        }
        if let Some(h) = &rc.env_from_host {
            let mut more = host_env_args(h, &ctx.host_env);
            proof { lemma_views_concat(env_part@, more@); }
            env_part.append(&mut more);
        } else {
            proof { assert(env_part@ + Seq::<String>::empty() == env_part@); }
        }
        if let Some(v) = &rc.volumes {
            mount_part = volume_args(v);
        }
        if let Some(b) = &rc.bindings {
            let mut more = binding_args(b);
            proof { lemma_views_concat(mount_part@, more@); }
            mount_part.append(&mut more);
        }
        assert(views(env_part@) =~= run_env_flags(binary_configuration.run_config, ctx.host_env@));
        assert(views(mount_part@) =~= run_mount_flags(binary_configuration.run_config));
    } else {
        assert(views(env_part@) =~= run_env_flags(binary_configuration.run_config, ctx.host_env@));
        assert(views(mount_part@) =~= run_mount_flags(binary_configuration.run_config));
    }
    let mut ident = identity_args(ctx, binary_configuration.path.as_str());
    let mut integration = crate::merge::copy_texts(&ctx.integration_args);
    let mut tail: Vec<String> = Vec::new();
    tail.push(image_ref_of_digest(binary_configuration.oci_image_name.as_str(), binary_configuration.oci_image_hash.as_str()));
    tail.push(binary_configuration.path.clone());
    let mut user = transform_command_args(0, ctx.project_path.as_str(), &ctx.user_args);
    proof {
        lemma_views_concat(argv@, env_part@);
        lemma_views_concat(argv@ + env_part@, ident@);
        lemma_views_concat(argv@ + env_part@ + ident@, mount_part@);
        lemma_views_concat(argv@ + env_part@ + ident@ + mount_part@, integration@);
        lemma_views_concat(argv@ + env_part@ + ident@ + mount_part@ + integration@, tail@);
        lemma_views_concat(argv@ + env_part@ + ident@ + mount_part@ + integration@ + tail@, user@);
        assert(views(tail@) =~= seq![
            image_ref_by_digest(binary_configuration.oci_image_name@, binary_configuration.oci_image_hash@),
            binary_configuration.path@,
        ]);
        assert(views(user@) =~= views(ctx.user_args@).map_values(|a: Seq<char>| transformed_arg(ctx.project_path@, a)));
    }
    argv.append(&mut env_part);
    argv.append(&mut ident);
    argv.append(&mut mount_part);
    argv.append(&mut integration);
    argv.append(&mut tail);
    argv.append(&mut user);
    Ok(argv)
}

} // verus!
