use avatar_cli::directories::{check_if_inside_project_dir, file_name};
use avatar_cli::error::ErrorKind;
use avatar_cli::integration::{push_git_args, push_home_config_args, push_passwd_args, push_socket_dir_args};
use avatar_cli::runtime_args::{
    change_volume_permissions_args, helper_create_args, inspect_digests_args, inspect_env_args, prune_helpers_args,
    volume_create_args,
};
use avatar_cli::session::{new_token, AvatarEnv};
use avatar_cli::text::{join_texts, split_at_char};

fn strings(v: &[&str]) -> Vec<String> {
    v.iter().map(|s| s.to_string()).collect()
}

#[test]
fn session_env_of_a_shim() {
    let env = AvatarEnv::read(Some("/p".to_string()), Some("tok".to_string())).unwrap();
    assert_eq!(env.get_project_path(), "/p");
    assert_eq!(env.get_session_token(), "tok");
    let err = AvatarEnv::read(None, Some("tok".to_string())).unwrap_err();
    assert_eq!(err.get_kind(), ErrorKind::Config);
    assert!(err.get_message().contains("AVATAR_CLI_PROJECT_PATH"));
    let err = AvatarEnv::read(Some("/p".to_string()), None).unwrap_err();
    assert!(err.get_message().contains("AVATAR_CLI_SESSION_TOKEN"));
}

#[test]
fn tokens_are_fresh() {
    let a = new_token();
    assert_eq!(a.len(), 16);
    assert!(a.chars().all(|c| c.is_ascii_alphanumeric()));
    assert_ne!(a, new_token());
}

#[test]
fn working_directory_check() {
    assert!(check_if_inside_project_dir("/p", "/p/x").is_ok());
    assert_eq!(check_if_inside_project_dir("/p", "/x").unwrap_err().get_kind(), ErrorKind::Usage);
    assert_eq!(file_name("/a/b/c"), "c");
    assert_eq!(file_name("c"), "c");
}

#[test]
fn runtime_argument_vectors() {
    assert_eq!(
        inspect_digests_args("alpine:3.18"),
        strings(&["inspect", "--format={{range .RepoDigests}}{{println .}}{{end}}", "alpine:3.18"])
    );
    assert_eq!(
        inspect_env_args("alpine@sha256:abc"),
        strings(&["inspect", "--format={{range .ContainerConfig.Env}}{{println .}}{{end}}", "alpine@sha256:abc"])
    );
    assert_eq!(
        volume_create_args("v1", "P1"),
        strings(&["volume", "create", "v1", "--label", "avatar_cli", "--label", "P1.byid.projects.avatar-cli"])
    );
    assert_eq!(
        change_volume_permissions_args("v1", "/data", "1000", "100"),
        strings(&["run", "--rm", "--volume", "v1:/data", "alpine:3.12", "sh", "-c", "chown -R 1000:100 /data"])
    );
    assert_eq!(
        helper_create_args("h", "P1", "alpine@sha256:abc"),
        strings(&[
            "create", "--name", "h", "--label", "avatar_cli", "--label", "P1.byid.projects.avatar-cli", "--label",
            "install_helper.container_role.avatar-cli", "alpine@sha256:abc",
        ])
    );
    assert_eq!(
        prune_helpers_args("P1"),
        strings(&[
            "container", "prune", "--force", "--filter", "label=P1.byid.projects.avatar-cli", "--filter",
            "label=install_helper.container_role.avatar-cli",
        ])
    );
}

#[test]
fn integration_pieces() {
    let mut args = Vec::new();
    push_socket_dir_args(&mut args, "GPG_AGENT_INFO", &Some("/run/gpg/S.agent".to_string()));
    assert_eq!(
        args,
        strings(&["--mount", "type=bind,source=/run/gpg,target=/run/gpg", "--env", "GPG_AGENT_INFO=/run/gpg/S.agent"])
    );
    let mut args = Vec::new();
    push_home_config_args(&mut args, &Some("/home/a".to_string()), false, ".gnupg");
    assert!(args.is_empty());
    push_home_config_args(&mut args, &Some("/home/a".to_string()), true, ".gnupg");
    assert_eq!(args, strings(&["--mount", "type=bind,source=/home/a/.gnupg,target=/home/avatar-cli/.gnupg"]));
    let mut args = Vec::new();
    push_git_args(&mut args, &None, &Some("a@b.c".to_string()));
    assert_eq!(
        args,
        strings(&["--env", "GIT_AUTHOR_EMAIL=a@b.c", "--env", "GIT_COMMITTER_EMAIL=a@b.c"])
    );
    let mut args = Vec::new();
    push_passwd_args(&mut args, false, "/x/passwd");
    assert!(args.is_empty());
}

#[test]
fn split_and_join() {
    assert_eq!(split_at_char("a::b", ':'), strings(&["a", "", "b"]));
    assert_eq!(split_at_char("", ':'), strings(&[""]));
    assert_eq!(join_texts(&strings(&["a", "b", "c"]), "--"), "a--b--c");
    assert_eq!(join_texts(&Vec::new(), ":"), "");
}
