//! Layered run-configurations: tag level overlaid by binary level, then by the
//! project's shell configuration, frozen for the Lock.

use vstd::prelude::*;
use crate::config::{Entry, OCIContainerRunConfig, OCIContainerRunConfigLock, ShellConfig, VolumeEntry};
use crate::error::{AvatarError, ErrorKind};
use crate::merge::{
    contains_key, contains_text_item, has_key, has_text, kept_under, merge_bindings, merge_entries, merge_envs, merge_envs_from_host, merge_extra_paths, merge_opt_entries, opt_seq, union_opt_texts, CONTAINER_PROJECT_MOUNT, ERROR_MSG_FORBIDDEN_PATH_ENV_VAR, PATH_VAR,
};
use crate::text::{concat3, join_texts, join_with, views};
use crate::merge::{lemma_merge_entries_unique, lemma_union_texts_unique, opt_unique_by, unique_by};
use crate::volumes::{image_ref, image_ref_of, locks_of, merge_volume_entries, merge_volumes};

verus! {

broadcast use vstd::seq_lib::group_filter_ensures;

pub open spec fn env_of(c: Option<OCIContainerRunConfig>) -> Option<Seq<Entry>> {
    match c {
        Some(x) => opt_seq(x.env),
        None => None,
    }
}

pub open spec fn hosts_of(c: Option<OCIContainerRunConfig>) -> Option<Seq<String>> {
    match c {
        Some(x) => opt_seq(x.env_from_host),
        None => None,
    }
}

pub open spec fn paths_of(c: Option<OCIContainerRunConfig>) -> Option<Seq<String>> {
    match c {
        Some(x) => opt_seq(x.extra_paths),
        None => None,
    }
}

pub open spec fn binds_of(c: Option<OCIContainerRunConfig>) -> Option<Seq<Entry>> {
    match c {
        Some(x) => opt_seq(x.bindings),
        None => None,
    }
}

pub open spec fn vols_of(c: Option<OCIContainerRunConfig>) -> Option<Seq<VolumeEntry>> {
    match c {
        Some(x) => opt_seq(x.volumes),
        None => None,
    }
}

pub open spec fn merge_opt_volumes(
    b: Option<Seq<VolumeEntry>>,
    o: Option<Seq<VolumeEntry>>,
) -> Option<Seq<VolumeEntry>> {
    match (b, o) {
        (Some(x), Some(y)) => Some(merge_volume_entries(x, y)),
        (Some(x), None) => Some(x),
        (None, y) => y,
    }
}

/// Whether the frozen volumes are the declared ones, named.
pub open spec fn volumes_frozen(
    v: Option<Seq<VolumeEntry>>,
    l: Option<Vec<crate::config::VolumeConfigLock>>,
    project_internal_id: Seq<char>,
    image_ref: Seq<char>,
    binary_name: Seq<char>,
) -> bool {
    match (v, l) {
        (Some(v), Some(l)) => locks_of(v, l@, project_internal_id, image_ref, binary_name),
        (None, None) => true,
        _ => false,
    }
}

/// Whether `r` is the two layers merged: mappings merged with the overlay
/// winning, sets united, volumes merged by container path and named.
pub open spec fn is_layered(
    r: OCIContainerRunConfigLock,
    base: Option<OCIContainerRunConfig>,
    overlay: Option<OCIContainerRunConfig>,
    project_internal_id: Seq<char>,
    image_name: Seq<char>,
    image_tag: Seq<char>,
    binary_name: Seq<char>,
) -> bool {
    &&& opt_seq(r.env) == merge_opt_entries(env_of(base), env_of(overlay))
    &&& opt_seq(r.env_from_host) == union_opt_texts(hosts_of(base), hosts_of(overlay))
    &&& opt_seq(r.extra_paths) == union_opt_texts(paths_of(base), paths_of(overlay))
    &&& opt_seq(r.bindings) == merge_opt_entries(binds_of(base), binds_of(overlay))
    &&& volumes_frozen(
        merge_opt_volumes(vols_of(base), vols_of(overlay)),
        r.volumes,
        project_internal_id,
        image_ref_of(image_name, image_tag),
        binary_name,
    )
}

/// Merges a tag's run-configuration with a binary's: absent when both are.
pub fn merge_run_configs(
    base_config: &Option<OCIContainerRunConfig>,
    new_config: &Option<OCIContainerRunConfig>,
    project_internal_id: &str,
    image_name: &str,
    image_tag: &str,
    binary_name: &str,
) -> (r: Option<OCIContainerRunConfigLock>)
    ensures
        (base_config is None && new_config is None) <==> r is None,
        r matches Some(c) ==> is_layered(
            c,
            *base_config,
            *new_config,
            project_internal_id@,
            image_name@,
            image_tag@,
            binary_name@,
        ),
{
    let iref = image_ref(image_name, image_tag);
    let none_env: Option<Vec<Entry>> = None;
    let none_texts: Option<Vec<String>> = None;
    let none_vols: Option<Vec<VolumeEntry>> = None;
    match base_config {
        Some(b) => match new_config {
            Some(o) => Some(OCIContainerRunConfigLock {
                env: merge_envs(&b.env, &o.env),
                env_from_host: merge_envs_from_host(&b.env_from_host, &o.env_from_host),
                extra_paths: merge_extra_paths(&b.extra_paths, &o.extra_paths),
                volumes: merge_volumes(&b.volumes, &o.volumes, project_internal_id, iref.as_str(), binary_name),
                bindings: merge_bindings(&b.bindings, &o.bindings),
            }),
            None => Some(OCIContainerRunConfigLock {
                env: merge_envs(&b.env, &none_env),
                env_from_host: merge_envs_from_host(&b.env_from_host, &none_texts),
                extra_paths: merge_extra_paths(&b.extra_paths, &none_texts),
                volumes: merge_volumes(&b.volumes, &none_vols, project_internal_id, iref.as_str(), binary_name),
                bindings: merge_bindings(&b.bindings, &none_env),
            }),
        },
        None => match new_config {
            Some(o) => Some(OCIContainerRunConfigLock {
                env: merge_envs(&none_env, &o.env),
                env_from_host: merge_envs_from_host(&none_texts, &o.env_from_host),
                extra_paths: merge_extra_paths(&none_texts, &o.extra_paths),
                volumes: merge_volumes(&none_vols, &o.volumes, project_internal_id, iref.as_str(), binary_name),
                bindings: merge_bindings(&none_env, &o.bindings),
            }),
            None => None,
        },
    }
}

/// Whether a container path is relative (does not begin with `/`).
pub open spec fn is_relative(p: Seq<char>) -> bool {
    !crate::text::starts_with(p, "/"@)
}

/// The relative paths, in order, each rebased onto the project mount.
pub open spec fn rebased(ps: Seq<Seq<char>>) -> Seq<Seq<char>>
    decreases ps.len(),
{
    if ps.len() == 0 {
        Seq::empty()
    } else {
        let r = rebased(ps.drop_last());
        if is_relative(ps.last()) {
            r.push(CONTAINER_PROJECT_MOUNT@ + "/"@ + ps.last())
        } else {
            r
        }
    }
}

/// The `PATH` a binary gets from the shell's extra paths and the image's own
/// `PATH`: the rebased relative paths, colon-joined, before the image's.
pub open spec fn customized_path(image_path: Seq<char>, extra: Seq<Seq<char>>) -> Seq<char> {
    join_with(rebased(extra), ":"@) + ":"@ + image_path
}

/// The `PATH` variable for a container: the relative extra paths rebased onto
/// the project mount, colon-joined, then the image's own `PATH`; absolute
/// extra paths refer to the host and are left out.
pub fn customize_oci_image_path_env_var(oci_image_path: &str, extra_paths: &Vec<String>) -> (r: String)
    ensures
        r@ == customized_path(oci_image_path@, views(extra_paths@)),
{
    let mut parts: Vec<String> = Vec::new();
    let mut i: usize = 0;
    while i < extra_paths.len()
        invariant
            i <= extra_paths@.len(),
            views(parts@) == rebased(views(extra_paths@.take(i as int))),
        decreases extra_paths@.len() - i,
    {
        let p = extra_paths[i].as_str();
        proof {
            assert(views(extra_paths@.take(i + 1)).drop_last() == views(extra_paths@.take(i as int)));
            assert(views(extra_paths@.take(i + 1)).last() == p@);
        }
        if !crate::text::has_prefix(p, "/") {
            let ghost before = views(parts@);
            let q = concat3(CONTAINER_PROJECT_MOUNT, "/", p);
            parts.push(q);
            assert(views(parts@) == before.push(q@));
        }
        i = i + 1;
    }
    assert(extra_paths@.take(extra_paths@.len() as int) == extra_paths@);
    let joined = join_texts(&parts, ":");
    concat3(joined.as_str(), ":", oci_image_path)
}

/// Whether an environment mapping sets `PATH`.
pub open spec fn env_sets_path(e: Option<Seq<Entry>>) -> bool {
    e matches Some(x) && has_key(x, PATH_VAR@)
}

/// Whether a pass-through set names `PATH`.
pub open spec fn hosts_pass_path(h: Option<Seq<String>>) -> bool {
    h matches Some(x) && has_text(x, PATH_VAR@)
}

fn forbidden_path_error() -> (e: AvatarError)
    ensures
        e.kind == ErrorKind::Usage,
        e.message@ == ERROR_MSG_FORBIDDEN_PATH_ENV_VAR@,
{
    AvatarError::new(ErrorKind::Usage, ERROR_MSG_FORBIDDEN_PATH_ENV_VAR.to_owned())
}

/// Fails when a frozen configuration sets or passes through `PATH`.
pub fn check_frozen_env(run_config_lock: &OCIContainerRunConfigLock) -> (r: Result<(), AvatarError>)
    ensures
        r is Err <==> (env_sets_path(opt_seq(run_config_lock.env)) || hosts_pass_path(
            opt_seq(run_config_lock.env_from_host),
        )),
        r matches Err(e) ==> e.kind == ErrorKind::Usage && e.message@ == ERROR_MSG_FORBIDDEN_PATH_ENV_VAR@,
{
    if let Some(env) = &run_config_lock.env {
        if contains_key(env, PATH_VAR) {
            return Err(forbidden_path_error());
        }
    }
    if let Some(hosts) = &run_config_lock.env_from_host {
        if contains_text_item(hosts, PATH_VAR) {
            return Err(forbidden_path_error());
        }
    }
    Ok(())
}

/// Fails when the shell's environment, or the frozen configuration's, sets
/// `PATH`, or when the frozen configuration passes it through.
pub fn check_against_forbidden_path_var(
    shell_config: &ShellConfig,
    run_config_lock: &OCIContainerRunConfigLock,
) -> (r: Result<(), AvatarError>)
    ensures
        r is Err <==> (env_sets_path(opt_seq(shell_config.env)) || env_sets_path(
            opt_seq(run_config_lock.env),
        ) || hosts_pass_path(opt_seq(run_config_lock.env_from_host))),
        r matches Err(e) ==> e.kind == ErrorKind::Usage && e.message@ == ERROR_MSG_FORBIDDEN_PATH_ENV_VAR@,
{
    if let Some(env) = &shell_config.env {
        if contains_key(env, PATH_VAR) {
            return Err(forbidden_path_error());
        }
    }
    check_frozen_env(run_config_lock)
}

/// The merged environment of the two layers.
pub open spec fn merged_env(b: Option<OCIContainerRunConfig>, o: Option<OCIContainerRunConfig>) -> Option<Seq<Entry>> {
    merge_opt_entries(env_of(b), env_of(o))
}

pub open spec fn merged_hosts(b: Option<OCIContainerRunConfig>, o: Option<OCIContainerRunConfig>) -> Option<Seq<String>> {
    union_opt_texts(hosts_of(b), hosts_of(o))
}

/// Whether the layers, with the shell, set or pass through `PATH`.
pub open spec fn forbidden(
    b: Option<OCIContainerRunConfig>,
    o: Option<OCIContainerRunConfig>,
    shell: Option<ShellConfig>,
) -> bool {
    ||| (shell matches Some(s) && env_sets_path(opt_seq(s.env)))
    ||| env_sets_path(merged_env(b, o))
    ||| hosts_pass_path(merged_hosts(b, o))
}

/// Whether the shell overlay synthesizes a `PATH`: the shell has extra
/// paths and the image has a `PATH` of its own.
pub open spec fn synthesizes(shell: Option<ShellConfig>, image_path: Option<String>) -> bool {
    &&& shell matches Some(s)
    &&& s.extra_paths matches Some(ps)
    &&& ps@.len() > 0
    &&& image_path is Some
}

/// Whether compiling needs each image's own `PATH`: the shell has extra paths.
pub fn shell_wants_image_path(shell_config: &Option<ShellConfig>) -> (r: bool)
    ensures
        r == (shell_config matches Some(s) && s.extra_paths matches Some(ps) && ps@.len() > 0),
{
    match shell_config {
        Some(s) => match &s.extra_paths {
            Some(ps) => ps.len() > 0,
            None => false,
        },
        None => false,
    }
}

/// The environment under the shell overlay: the shell's beneath the
/// binary's, which wins.
pub open spec fn overlaid_env(
    b: Option<OCIContainerRunConfig>,
    o: Option<OCIContainerRunConfig>,
    shell: Option<ShellConfig>,
) -> Option<Seq<Entry>> {
    match shell {
        Some(s) => merge_opt_entries(opt_seq(s.env), merged_env(b, o)),
        None => merged_env(b, o),
    }
}

pub open spec fn seq_or_empty<T>(s: Option<Seq<T>>) -> Seq<T> {
    match s {
        Some(x) => x,
        None => Seq::empty(),
    }
}

/// Keys of a mapping-merge: those of either side.
pub proof fn lemma_merge_keys(b: Seq<Entry>, o: Seq<Entry>, k: Seq<char>)
    ensures
        has_key(merge_entries(b, o), k) <==> (has_key(b, k) || has_key(o, k)),
{
    let f = b.filter(kept_under(o));
    let m = merge_entries(b, o);
    if has_key(m, k) {
        let i = choose|i: int| 0 <= i < m.len() && (#[trigger] m[i]).key@ == k;
        if i < f.len() {
            assert(f.contains(m[i]));
            b.lemma_filter_contains_rev(kept_under(o), m[i]);
            let j = choose|j: int| 0 <= j < b.len() && b[j] == m[i];
            assert(b[j].key@ == k);
        } else {
            assert(o[i - f.len()] == m[i]);
        }
    }
    if has_key(o, k) {
        let j = choose|j: int| 0 <= j < o.len() && (#[trigger] o[j]).key@ == k;
        assert(m[f.len() + j] == o[j]);
    } else if has_key(b, k) {
        let j = choose|j: int| 0 <= j < b.len() && (#[trigger] b[j]).key@ == k;
        b.lemma_filter_contains(kept_under(o), j);
        let i = choose|i: int| 0 <= i < f.len() && f[i] == b[j];
        assert(m[i] == f[i]);
    }
}

proof fn lemma_merge_opt_keys(b: Option<Seq<Entry>>, o: Option<Seq<Entry>>, k: Seq<char>)
    ensures
        (merge_opt_entries(b, o) matches Some(m) && has_key(m, k)) ==> ((b matches Some(x) && has_key(x, k))
            || (o matches Some(y) && has_key(y, k))),
{
    if let (Some(x), Some(y)) = (b, o) {
        lemma_merge_keys(x, y, k);
    }
}

/// Whether `r` is the frozen configuration of the layers under the shell
/// overlay: absent only when every layer is; the sets, bindings and volumes
/// of the merged layers; the overlaid environment, plus a synthesized `PATH`
/// last when the shell has extra paths and the image a `PATH`, and no other
/// `PATH`.
pub open spec fn is_frozen(
    r: Option<OCIContainerRunConfigLock>,
    base: Option<OCIContainerRunConfig>,
    overlay: Option<OCIContainerRunConfig>,
    shell: Option<ShellConfig>,
    project_internal_id: Seq<char>,
    image_name: Seq<char>,
    image_tag: Seq<char>,
    binary_name: Seq<char>,
    image_path: Option<String>,
) -> bool {
    &&& !forbidden(base, overlay, shell)
    &&& match r {
        None => base is None && overlay is None && shell is None,
        Some(c) => {
            &&& opt_seq(c.env_from_host) == merged_hosts(base, overlay)
            &&& opt_seq(c.extra_paths) == union_opt_texts(paths_of(base), paths_of(overlay))
            &&& opt_seq(c.bindings) == merge_opt_entries(binds_of(base), binds_of(overlay))
            &&& volumes_frozen(
                merge_opt_volumes(vols_of(base), vols_of(overlay)),
                c.volumes,
                project_internal_id,
                image_ref_of(image_name, image_tag),
                binary_name,
            )
            &&& if synthesizes(shell, image_path) {
                &&& c.env matches Some(e)
                &&& e@.len() >= 1
                &&& e@.drop_last() == seq_or_empty(overlaid_env(base, overlay, shell))
                &&& e@.last().key@ == PATH_VAR@
                &&& e@.last().value@ == customized_path(
                    image_path.unwrap()@,
                    views(shell.unwrap().extra_paths.unwrap()@),
                )
            } else {
                opt_seq(c.env) == overlaid_env(base, overlay, shell)
            }
            &&& (c.env matches Some(e) && has_key(e@, PATH_VAR@)) ==> synthesizes(shell, image_path)
        },
    }
}

/// The frozen configuration of a binary: its tag's and its own layers
/// merged, then the shell overlay (when there is a shell configuration): the
/// shell's environment beneath the binary's, and, when the shell has extra
/// paths and the image a `PATH` (`image_path`), a synthesized `PATH`.
/// Fails with a usage error when any layer sets or passes through `PATH`.
pub fn merge_run_and_shell_configs(
    base_config: &Option<OCIContainerRunConfig>,
    new_config: &Option<OCIContainerRunConfig>,
    shell_config: &Option<ShellConfig>,
    project_internal_id: &str,
    image_name: &str,
    image_tag: &str,
    binary_name: &str,
    image_path: &Option<String>,
) -> (r: Result<Option<OCIContainerRunConfigLock>, AvatarError>)
    ensures
        r is Err <==> forbidden(*base_config, *new_config, *shell_config),
        r matches Err(e) ==> e.kind == ErrorKind::Usage && e.message@ == ERROR_MSG_FORBIDDEN_PATH_ENV_VAR@,
        r matches Ok(x) ==> is_frozen(
            x,
            *base_config,
            *new_config,
            *shell_config,
            project_internal_id@,
            image_name@,
            image_tag@,
            binary_name@,
            *image_path,
        ),
        !forbidden(*base_config, *new_config, *shell_config) && (base_config is Some || new_config is Some
            || shell_config is Some) ==> r matches Ok(Some(_)),
{
    let merged = merge_run_configs(base_config, new_config, project_internal_id, image_name, image_tag, binary_name);
    if let Some(m) = &merged {
        check_frozen_env(m)?;
    }
    match shell_config {
        None => Ok(merged),
        Some(s) => {
            if let Some(env) = &s.env {
                if contains_key(env, PATH_VAR) {
                    return Err(forbidden_path_error());
                }
            }
            let mut m = match merged {
                Some(m) => m,
                None => OCIContainerRunConfigLock {
                    env: None,
                    env_from_host: None,
                    extra_paths: None,
                    volumes: None,
                    bindings: None,
                },
            };
            let env1 = merge_envs(&s.env, &m.env);
            proof {
                lemma_merge_opt_keys(opt_seq(s.env), opt_seq(m.env), PATH_VAR@);
            }
            m.env = env1;
            if let Some(ps) = &s.extra_paths {
                if ps.len() > 0 {
                    if let Some(ip) = image_path {
                        let cp = customize_oci_image_path_env_var(ip.as_str(), ps);
                        let mut e = match m.env {
                            Some(e) => e,
                            None => Vec::new(),
                        };
                        let ghost before = e@;
                        e.push(Entry::new(PATH_VAR.to_owned(), cp));
                        assert(e@.drop_last() == before);
                        m.env = Some(e);
                    }
                }
            }
            Ok(Some(m))
        },
    }
}

/// Whether every layer is well formed: no key, name or volume path twice.
pub open spec fn layers_well_formed(
    base: Option<OCIContainerRunConfig>,
    overlay: Option<OCIContainerRunConfig>,
    shell: Option<ShellConfig>,
) -> bool {
    &&& opt_unique_by(env_of(base), |e: Entry| e.key@)
    &&& opt_unique_by(env_of(overlay), |e: Entry| e.key@)
    &&& opt_unique_by(binds_of(base), |e: Entry| e.key@)
    &&& opt_unique_by(binds_of(overlay), |e: Entry| e.key@)
    &&& opt_unique_by(hosts_of(base), |x: String| x@)
    &&& opt_unique_by(hosts_of(overlay), |x: String| x@)
    &&& opt_unique_by(paths_of(base), |x: String| x@)
    &&& opt_unique_by(paths_of(overlay), |x: String| x@)
    &&& opt_unique_by(vols_of(base), |v: VolumeEntry| v.container_path@)
    &&& opt_unique_by(vols_of(overlay), |v: VolumeEntry| v.container_path@)
    &&& (shell matches Some(s) ==> opt_unique_by(opt_seq(s.env), |e: Entry| e.key@))
}

proof fn lemma_opt_entries_unique(b: Option<Seq<Entry>>, o: Option<Seq<Entry>>)
    requires
        opt_unique_by(b, |e: Entry| e.key@),
        opt_unique_by(o, |e: Entry| e.key@),
    ensures
        opt_unique_by(merge_opt_entries(b, o), |e: Entry| e.key@),
{
    if let (Some(x), Some(y)) = (b, o) {
        lemma_merge_entries_unique(x, y);
    }
}

proof fn lemma_opt_texts_unique(b: Option<Seq<String>>, o: Option<Seq<String>>)
    requires
        opt_unique_by(b, |x: String| x@),
        opt_unique_by(o, |x: String| x@),
    ensures
        opt_unique_by(union_opt_texts(b, o), |x: String| x@),
{
    if let (Some(x), Some(y)) = (b, o) {
        lemma_union_texts_unique(x, y);
    }
}

/// A frozen configuration of well-formed layers is well formed: its
/// environment, pass-through names, extra paths, bindings and volumes each
/// hold a key at most once.
pub proof fn lemma_frozen_well_formed(
    c: OCIContainerRunConfigLock,
    base: Option<OCIContainerRunConfig>,
    overlay: Option<OCIContainerRunConfig>,
    shell: Option<ShellConfig>,
    project_internal_id: Seq<char>,
    image_name: Seq<char>,
    image_tag: Seq<char>,
    binary_name: Seq<char>,
    image_path: Option<String>,
)
    requires
        is_frozen(Some(c), base, overlay, shell, project_internal_id, image_name, image_tag, binary_name, image_path),
        layers_well_formed(base, overlay, shell),
    ensures
        opt_unique_by(opt_seq(c.env), |e: Entry| e.key@),
        opt_unique_by(opt_seq(c.env_from_host), |x: String| x@),
        opt_unique_by(opt_seq(c.extra_paths), |x: String| x@),
        opt_unique_by(opt_seq(c.bindings), |e: Entry| e.key@),
        opt_unique_by(opt_seq(c.volumes), |x: crate::config::VolumeConfigLock| x.container_path@),
{
    let ke = |e: Entry| e.key@;
    lemma_opt_texts_unique(hosts_of(base), hosts_of(overlay));
    lemma_opt_texts_unique(paths_of(base), paths_of(overlay));
    lemma_opt_entries_unique(binds_of(base), binds_of(overlay));
    let mv = merge_opt_volumes(vols_of(base), vols_of(overlay));
    if let (Some(x), Some(y)) = (vols_of(base), vols_of(overlay)) {
        crate::volumes::lemma_merge_volume_entries_unique(x, y);
    }
    if mv is Some && c.volumes is Some {
        crate::volumes::lemma_locks_unique(
            mv.unwrap(),
            c.volumes.unwrap()@,
            project_internal_id,
            image_ref_of(image_name, image_tag),
            binary_name,
        );
    }
    let m = merged_env(base, overlay);
    lemma_opt_entries_unique(env_of(base), env_of(overlay));
    let ov = overlaid_env(base, overlay, shell);
    if let Some(s) = shell {
        lemma_opt_entries_unique(opt_seq(s.env), m);
        lemma_merge_opt_keys(opt_seq(s.env), m, PATH_VAR@);
    }
    assert(opt_unique_by(ov, ke));
    if synthesizes(shell, image_path) {
        let e = c.env.unwrap()@;
        let d = seq_or_empty(ov);
        assert(e == d.push(e.last()));
        assert(!has_key(d, PATH_VAR@));
        assert(unique_by(d, ke));
        assert forall|i: int, k: int| 0 <= i < k < e.len() implies ke(#[trigger] e[i]) != ke(#[trigger] e[k]) by {
            if k == e.len() - 1 {
                assert(e[i] == d[i]);
                if d[i].key@ == PATH_VAR@ {
                    assert(has_key(d, PATH_VAR@));
                }
            } else {
                assert(e[i] == d[i] && e[k] == d[k]);
            }
        }
    }
}

} // verus!
