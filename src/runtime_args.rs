//! The argument vectors of the container runtime's commands that the
//! installer runs (the runtime's executable comes first when run).

use vstd::prelude::*;
use crate::invocation::lemma_views_push;
use crate::text::{concat, concat3, views};

verus! {

/// The label that marks the objects of one project.
pub open spec fn project_label_of(pid: Seq<char>) -> Seq<char> {
    pid + ".byid.projects.avatar-cli"@
}

/// `<project id>.byid.projects.avatar-cli`.
pub fn project_label(project_internal_id: &str) -> (r: String)
    ensures
        r@ == project_label_of(project_internal_id@),
{
    concat(project_internal_id, ".byid.projects.avatar-cli")
}

fn push_text(args: &mut Vec<String>, t: String)
    ensures
        views(final(args)@) == views(old(args)@).push(t@),
{
    let ghost before = args@;
    args.push(t);
    proof {
        lemma_views_push(before, t);
    }
}

/// `inspect` of an image's repository digests.
pub fn inspect_digests_args(image_fqn: &str) -> (r: Vec<String>)
    ensures
        views(r@) == seq!["inspect"@, "--format={{range .RepoDigests}}{{println .}}{{end}}"@, image_fqn@],
{
    let mut r: Vec<String> = Vec::new();
    push_text(&mut r, "inspect".to_owned());
    push_text(&mut r, "--format={{range .RepoDigests}}{{println .}}{{end}}".to_owned());
    push_text(&mut r, image_fqn.to_owned());
    assert(views(r@) =~= seq!["inspect"@, "--format={{range .RepoDigests}}{{println .}}{{end}}"@, image_fqn@]);
    r
}

/// `inspect` of an image's environment.
pub fn inspect_env_args(image_ref: &str) -> (r: Vec<String>)
    ensures
        views(r@) == seq!["inspect"@, "--format={{range .ContainerConfig.Env}}{{println .}}{{end}}"@, image_ref@],
{
    let mut r: Vec<String> = Vec::new();
    push_text(&mut r, "inspect".to_owned());
    push_text(&mut r, "--format={{range .ContainerConfig.Env}}{{println .}}{{end}}".to_owned());
    push_text(&mut r, image_ref.to_owned());
    assert(views(r@) =~= seq!["inspect"@, "--format={{range .ContainerConfig.Env}}{{println .}}{{end}}"@, image_ref@]);
    r
}

/// `volume create` of a managed volume, labelled with its project.
pub fn volume_create_args(volume_name: &str, project_internal_id: &str) -> (r: Vec<String>)
    ensures
        views(r@) == seq![
            "volume"@, "create"@, volume_name@, "--label"@, "avatar_cli"@, "--label"@,
            project_label_of(project_internal_id@),
        ],
{
    let mut r: Vec<String> = Vec::new();
    push_text(&mut r, "volume".to_owned());
    push_text(&mut r, "create".to_owned());
    push_text(&mut r, volume_name.to_owned());
    push_text(&mut r, "--label".to_owned());
    push_text(&mut r, "avatar_cli".to_owned());
    push_text(&mut r, "--label".to_owned());
    push_text(&mut r, project_label(project_internal_id));
    assert(views(r@) =~= seq![
        "volume"@, "create"@, volume_name@, "--label"@, "avatar_cli"@, "--label"@,
        project_label_of(project_internal_id@),
    ]);
    r
}

/// The one-shot container that hands a new volume to the host user.
pub fn change_volume_permissions_args(volume_name: &str, container_path: &str, uid: &str, gid: &str) -> (r: Vec<String>)
    ensures
        views(r@) == seq![
            "run"@, "--rm"@, "--volume"@, volume_name@ + ":"@ + container_path@, "alpine:3.12"@, "sh"@, "-c"@,
            "chown -R "@ + uid@ + ":"@ + gid@ + " "@ + container_path@,
        ],
{
    let mut r: Vec<String> = Vec::new();
    push_text(&mut r, "run".to_owned());
    push_text(&mut r, "--rm".to_owned());
    push_text(&mut r, "--volume".to_owned());
    push_text(&mut r, concat3(volume_name, ":", container_path));
    push_text(&mut r, "alpine:3.12".to_owned());
    push_text(&mut r, "sh".to_owned());
    push_text(&mut r, "-c".to_owned());
    let mut c = concat3("chown -R ", uid, ":");
    c.append(gid);
    c.append(" ");
    c.append(container_path);
    push_text(&mut r, c);
    assert(views(r@) =~= seq![
        "run"@, "--rm"@, "--volume"@, volume_name@ + ":"@ + container_path@, "alpine:3.12"@, "sh"@, "-c"@,
        "chown -R "@ + uid@ + ":"@ + gid@ + " "@ + container_path@,
    ]);
    r
}

/// `create` of the helper container that exposes an image's files.
pub fn helper_create_args(helper_name: &str, project_internal_id: &str, image_ref: &str) -> (r: Vec<String>)
    ensures
        views(r@) == seq![
            "create"@, "--name"@, helper_name@, "--label"@, "avatar_cli"@, "--label"@,
            project_label_of(project_internal_id@), "--label"@, "install_helper.container_role.avatar-cli"@,
            image_ref@,
        ],
{
    let mut r: Vec<String> = Vec::new();
    push_text(&mut r, "create".to_owned());
    push_text(&mut r, "--name".to_owned());
    push_text(&mut r, helper_name.to_owned());
    push_text(&mut r, "--label".to_owned());
    push_text(&mut r, "avatar_cli".to_owned());
    push_text(&mut r, "--label".to_owned());
    push_text(&mut r, project_label(project_internal_id));
    push_text(&mut r, "--label".to_owned());
    push_text(&mut r, "install_helper.container_role.avatar-cli".to_owned());
    push_text(&mut r, image_ref.to_owned());
    assert(views(r@) =~= seq![
        "create"@, "--name"@, helper_name@, "--label"@, "avatar_cli"@, "--label"@,
        project_label_of(project_internal_id@), "--label"@, "install_helper.container_role.avatar-cli"@,
        image_ref@,
    ]);
    r
}

/// `container prune` of a project's helper containers.
pub fn prune_helpers_args(project_internal_id: &str) -> (r: Vec<String>)
    ensures
        views(r@) == seq![
            "container"@, "prune"@, "--force"@, "--filter"@, "label="@ + project_label_of(project_internal_id@),
            "--filter"@, "label=install_helper.container_role.avatar-cli"@,
        ],
{
    let mut r: Vec<String> = Vec::new();
    push_text(&mut r, "container".to_owned());
    push_text(&mut r, "prune".to_owned());
    push_text(&mut r, "--force".to_owned());
    push_text(&mut r, "--filter".to_owned());
    let l = project_label(project_internal_id);
    push_text(&mut r, concat("label=", l.as_str()));
    push_text(&mut r, "--filter".to_owned());
    push_text(&mut r, "label=install_helper.container_role.avatar-cli".to_owned());
    assert(views(r@) =~= seq![
        "container"@, "prune"@, "--force"@, "--filter"@, "label="@ + project_label_of(project_internal_id@),
        "--filter"@, "label=install_helper.container_role.avatar-cli"@,
    ]);
    r
}

} // verus!
