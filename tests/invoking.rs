use avatar_cli::config::{
    Entry, ImageBinaryConfigLock, LockedBinary, LockedImage, LockedTag, OCIContainerRunConfigLock,
    OCIImageTagConfigLock, ProjectConfig, ProjectConfigLock, VolumeConfigLock,
};
use avatar_cli::directories::{is_inside_project_dir, to_relative};
use avatar_cli::error::ErrorKind;
use avatar_cli::integration::{get_user_integration_args, parent_dir, HostFacts};
use avatar_cli::invocation::{run_docker_command, transform_command_arg, transform_command_args, LaunchContext};
use avatar_cli::passwd::{new_passwd, read_listing, rewrite_passwd};
use avatar_cli::session::{
    check_init_target, check_not_in_session, dispatch, export_env_lines, export_line, patch_gitignore,
    session_env, shell_path_var, GitignorePlan, Invocation,
};
use avatar_cli::workspace::{ancestors, installed_images, managed_volumes};

fn ctx(cwd: &str, user_args: Vec<&str>) -> LaunchContext {
    LaunchContext {
        runtime: "docker".to_string(),
        current_dir: cwd.to_string(),
        project_path: "/home/u/project".to_string(),
        project_internal_id: "P1".to_string(),
        session_token: "S1".to_string(),
        process_id: "X1".to_string(),
        user: "1000:1000".to_string(),
        tty: false,
        host_env: vec![Entry::new("LANG".to_string(), "C".to_string())],
        integration_args: vec![],
        user_args: user_args.into_iter().map(|s| s.to_string()).collect(),
    }
}

fn sh_binary(run_config: Option<OCIContainerRunConfigLock>) -> ImageBinaryConfigLock {
    ImageBinaryConfigLock::new("alpine".to_string(), "abc".to_string(), "/bin/sh".to_string(), run_config)
}

#[test]
fn shim_dispatch_by_program_name() {
    assert_eq!(dispatch("/p/.avatar-cli/volatile/bin/sh"), Invocation::Shim("sh".to_string()));
    assert_eq!(dispatch("/usr/local/bin/avatar"), Invocation::Subcommand);
    assert_eq!(dispatch("avatar-cli"), Invocation::Subcommand);
}

#[test]
fn shim_launch_argv() {
    let argv = run_docker_command(&sh_binary(None), &ctx("/home/u/project/src", vec!["-c", "echo hi"])).unwrap();
    let expected: Vec<String> = vec![
        "docker", "run", "--rm", "--init", "-i",
        "--name", "project_sh_P1_S1_X1",
        "--label", "managed_tool.container_role.avatar-cli",
        "--label", "P1.byid.projects.avatar-cli",
        "--env", "AVATAR_CLI_PROCESS_ID=X1",
        "--env", "AVATAR_CLI_PROJECT_INTERNAL_ID=P1",
        "--env", "AVATAR_CLI_SESSION_TOKEN=S1",
        "--user", "1000:1000",
        "--mount", "type=bind,source=/home/u/project,target=/playground",
        "--workdir", "/playground/src",
        "--mount", "type=bind,source=/home/u/project/.avatar-cli/volatile/home,target=/home/avatar-cli",
        "--env", "HOME=/home/avatar-cli",
        "alpine@sha256:abc", "/bin/sh", "-c", "echo hi",
    ]
    .into_iter()
    .map(|s| s.to_string())
    .collect();
    assert_eq!(argv, expected);
}

#[test]
fn launch_with_run_config_and_tty() {
    let rc = OCIContainerRunConfigLock {
        env: Some(vec![Entry::new("A".to_string(), "1".to_string())]),
        env_from_host: Some(vec!["LANG".to_string(), "MISSING".to_string()]),
        extra_paths: None,
        volumes: Some(vec![VolumeConfigLock { container_path: "/data".to_string(), volume_name: "vol".to_string() }]),
        bindings: Some(vec![Entry::new("/c".to_string(), "/h".to_string())]),
    };
    let mut c = ctx("/home/u/project", vec!["/home/u/project/a.txt", "/etc/hosts"]);
    c.tty = true;
    let argv = run_docker_command(&sh_binary(Some(rc)), &c).unwrap();
    assert_eq!(&argv[..8], &["docker", "run", "--rm", "--init", "-i", "-t", "--env", "A=1"]);
    assert_eq!(&argv[8..10], &["--env", "LANG=C"]);
    assert!(argv.windows(2).any(|w| w[0] == "--volume" && w[1] == "vol:/data"));
    assert!(argv.windows(2).any(|w| w[0] == "--mount" && w[1] == "type=bind,source=/h,target=/c"));
    assert!(argv.windows(2).any(|w| w[0] == "--workdir" && w[1] == "/playground/"));
    let n = argv.len();
    assert_eq!(&argv[n - 2..], &["/playground/a.txt", "/etc/hosts"]);
}

#[test]
fn launch_refuses_outside_project_and_path() {
    let err = run_docker_command(&sh_binary(None), &ctx("/tmp", vec![])).unwrap_err();
    assert_eq!(err.get_kind(), ErrorKind::Usage);
    let rc = OCIContainerRunConfigLock {
        env: Some(vec![Entry::new("PATH".to_string(), "/x".to_string())]),
        env_from_host: None,
        extra_paths: None,
        volumes: None,
        bindings: None,
    };
    let err = run_docker_command(&sh_binary(Some(rc)), &ctx("/home/u/project", vec![])).unwrap_err();
    assert_eq!(err.get_kind(), ErrorKind::Usage);
}

#[test]
fn user_args_outside_project_pass_unchanged() {
    assert_eq!(transform_command_arg("/home/u/project", "/etc/passwd"), "/etc/passwd");
    assert_eq!(transform_command_arg("/home/u/project", "/home/u/projectX/f"), "/home/u/projectX/f");
    assert_eq!(transform_command_arg("/home/u/project", "/home/u/project/f"), "/playground/f");
    assert_eq!(transform_command_arg("/home/u/project", "relative/f"), "relative/f");
    let args: Vec<String> = vec!["avatar", "run", "sh", "x", "/home/u/project/y"].into_iter().map(|s| s.to_string()).collect();
    assert_eq!(transform_command_args(3, "/home/u/project", &args), vec!["x".to_string(), "/playground/y".to_string()]);
}

#[test]
fn project_relative_paths() {
    assert!(is_inside_project_dir("/p", "/p"));
    assert!(is_inside_project_dir("/p", "/p/src"));
    assert!(!is_inside_project_dir("/p", "/pq"));
    assert!(is_inside_project_dir("/", "/anything"));
    assert_eq!(to_relative("/p", "/p/src/x"), Some("src/x".to_string()));
    assert_eq!(to_relative("/p", "/p"), Some(String::new()));
    assert_eq!(to_relative("/p", "/q"), None);
}

#[test]
fn nested_session_is_refused() {
    assert!(check_not_in_session(&None).is_ok());
    let err = check_not_in_session(&Some("tok123".to_string())).unwrap_err();
    assert_eq!(err.get_kind(), ErrorKind::Usage);
    assert!(err.get_message().contains("tok123"));
}

#[test]
fn integration_args_from_host_facts() {
    let facts = HostFacts {
        term: Some("xterm".to_string()),
        user_name: Some("ana".to_string()),
        ssh_auth_sock: Some("/tmp/ssh-1/agent.2".to_string()),
        gpg_agent_info: None,
        macos: false,
        home_dir: Some("/home/ana".to_string()),
        ssh_dir_present: true,
        gnupg_dir_present: false,
        passwd_exists: true,
        passwd_is_file: true,
        git_user_name: Some("Ana".to_string()),
        git_user_email: None,
    };
    let args = get_user_integration_args(&facts, "/p", "alpine@sha256:abc").unwrap();
    let expected: Vec<String> = vec![
        "--env", "TERM=xterm",
        "--env", "USER=ana", "--env", "USERNAME=ana",
        "--mount", "type=bind,source=/tmp/ssh-1,target=/tmp/ssh-1", "--env", "SSH_AUTH_SOCK=/tmp/ssh-1/agent.2",
        "--mount", "type=bind,source=/home/ana/.ssh,target=/home/avatar-cli/.ssh",
        "--mount", "type=bind,source=/p/.avatar-cli/volatile/images/alpine@sha256:abc/passwd,target=/etc/passwd",
        "--env", "GIT_AUTHOR_NAME=Ana", "--env", "GIT_COMMITTER_NAME=Ana",
    ]
    .into_iter()
    .map(|s| s.to_string())
    .collect();
    assert_eq!(args, expected);
    let mut bad = facts.clone();
    bad.passwd_is_file = false;
    assert_eq!(get_user_integration_args(&bad, "/p", "x").unwrap_err().get_kind(), ErrorKind::Usage);
}

#[test]
fn parent_directories() {
    assert_eq!(parent_dir("/tmp/x/sock"), Some("/tmp/x".to_string()));
    assert_eq!(parent_dir("/sock"), Some("/".to_string()));
    assert_eq!(parent_dir("sock"), Some(String::new()));
    assert_eq!(parent_dir("/"), None);
    assert_eq!(parent_dir(""), None);
}

#[test]
fn init_creates_manifest_with_fresh_id() {
    let m = ProjectConfig::new();
    assert_eq!(m.get_project_internal_id().len(), 16);
    assert!(m.get_project_internal_id().chars().all(|c| c.is_ascii_alphanumeric()));
    assert!(m.get_images().is_none());
    let other = ProjectConfig::new();
    assert_ne!(m.get_project_internal_id(), other.get_project_internal_id());
    assert_eq!(check_init_target(&None, false, false, "/tmp/p/.avatar-cli").unwrap(), false);
    assert_eq!(check_init_target(&None, true, false, "/tmp/p/.avatar-cli").unwrap(), true);
    assert_eq!(
        check_init_target(&Some("/tmp".to_string()), false, false, "/tmp/p/.avatar-cli").unwrap_err().get_kind(),
        ErrorKind::Usage
    );
}

#[test]
fn gitignore_patching() {
    assert_eq!(patch_gitignore(&None, false), GitignorePlan::Leave);
    assert_eq!(
        patch_gitignore(&None, true),
        GitignorePlan::Create("# Avatar-CLI\n.avatar-cli/volatile/\n".to_string())
    );
    assert_eq!(patch_gitignore(&Some("target\n.avatar-cli/volatile/\n".to_string()), true), GitignorePlan::Leave);
    assert_eq!(
        patch_gitignore(&Some("target\n".to_string()), true),
        GitignorePlan::Append("\n# Avatar-CLI\n.avatar-cli/volatile/\n".to_string())
    );
}

#[test]
fn shell_session_environment() {
    let env = session_env("/p", "P1", "S1");
    assert_eq!(env[0].key, "AVATAR_CLI_CONFIG_PATH");
    assert_eq!(env[0].value, "/p/.avatar-cli/Avatarfile");
    assert_eq!(env[1].value, "/p/.avatar-cli/Avatarfile.lock");
    assert_eq!(env[5].value, "/p/.avatar-cli/volatile/state.yml");
    let extra: Vec<String> = vec!["tools".to_string(), "/opt/bin".to_string()];
    assert_eq!(
        shell_path_var("/p", &extra, "/usr/bin"),
        "/p/.avatar-cli/volatile/bin:/p/tools:/opt/bin:/usr/bin"
    );
    assert_eq!(export_line("K", "V"), "export K=\"V\"");
    let lines = export_env_lines("/b:/usr/bin", &env);
    assert_eq!(lines[0], "export PATH=\"/b:/usr/bin\"");
    assert_eq!(lines.len(), 7);
}

#[test]
fn image_listing_and_passwd() {
    let listing = read_listing("etc/passwd\nbin/zsh\n bin/bash \nbin/sh\n");
    assert!(listing.has_passwd);
    assert_eq!(listing.shell, "/bin/bash");
    let bare = read_listing("bin/ksh\n");
    assert!(!bare.has_passwd);
    assert_eq!(bare.shell, "/bin/ksh");
    assert_eq!(read_listing("").shell, "/bin/sh");
    assert_eq!(new_passwd("ana", "1000", "100", "/bin/sh"), "ana:x:1000:100::/home/avatar-cli:/bin/sh\n");
    let src = "root:x:0:0:root:/root:/bin/ash\nnode:x:1000:1000::/home/node:/bin/bash\n";
    assert_eq!(
        rewrite_passwd(src, "ana", "1000", "100", "/bin/sh", "img").unwrap(),
        "root:x:0:0:root:/root:/bin/ash\nana:x:1000:100::/home/avatar-cli:/bin/bash\n"
    );
    assert_eq!(
        rewrite_passwd("root:x:0:0:root:/root:/bin/ash\n", "ana", "1000", "100", "/bin/sh", "img").unwrap(),
        "root:x:0:0:root:/root:/bin/ash\nana:x:1000:100::/home/avatar-cli:/bin/sh\n"
    );
    let err = rewrite_passwd("broken\n", "ana", "1000", "100", "/bin/sh", "img").unwrap_err();
    assert_eq!(err.get_kind(), ErrorKind::Io);
}

#[test]
fn project_locator_ancestors() {
    assert_eq!(
        ancestors("/a/b"),
        vec!["/a/b".to_string(), "/a".to_string(), "/".to_string()]
    );
    assert_eq!(ancestors("/"), vec!["/".to_string()]);
}

#[test]
fn workspace_walks_state() {
    let rc = OCIContainerRunConfigLock {
        env: None,
        env_from_host: None,
        extra_paths: None,
        volumes: Some(vec![VolumeConfigLock { container_path: "/data".to_string(), volume_name: "v1".to_string() }]),
        bindings: None,
    };
    let state = ProjectConfigLock::new(
        vec![],
        "P1".to_string(),
        None,
        vec![LockedImage {
            name: "foo/bar".to_string(),
            tags: vec![LockedTag { tag: "1".to_string(), config: OCIImageTagConfigLock::new("h".to_string(), None) }],
        }],
        vec![LockedBinary { name: "b".to_string(), config: sh_binary(Some(rc)) }],
    );
    let images = installed_images(&state);
    assert_eq!(images.len(), 1);
    assert_eq!(images[0].hash, "h");
    assert_eq!(
        avatar_cli::workspace::passwd_helper_name("P1", &images[0]),
        "P1_foo.bar_1_h_passwd"
    );
    let vols = managed_volumes(&state);
    assert_eq!(vols.len(), 1);
    assert_eq!(vols[0].get_name(), "v1");
}
