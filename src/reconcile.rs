//! Drift detection between the Manifest, the Lock and the State, and the
//! decisions that keep the volatile workspace in step with them.

use vstd::prelude::*;
use crate::config::ProjectConfigLock;
use crate::error::{AvatarError, ErrorKind};
use crate::lock::{is_lock_of, ResolvedTag};
use crate::primitives::{sha256, sha256_of};
use crate::text::{concat3, lemma_occurs_between, occurs_in};

verus! {

/// Whether two byte strings are equal.
pub fn bytes_equal(a: &[u8], b: &[u8]) -> (r: bool)
    ensures
        r == (a@ == b@),
{
    if a.len() != b.len() {
        return false;
    }
    let mut i: usize = 0;
    while i < a.len()
        invariant
            a@.len() == b@.len(),
            i <= a@.len(),
            forall|j: int| 0 <= j < i ==> a@[j] == b@[j],
        decreases a@.len() - i,
    {
        if a[i] != b[i] {
            return false;
        }
        i = i + 1;
    }
    assert(a@ == b@);
    true
}

/// Whether a stored hash is the SHA-256 of these bytes.
pub fn hash_matches(stored: &Vec<u8>, bytes: &[u8]) -> (r: bool)
    ensures
        r == (stored@ == sha256_of(bytes@)),
        sha256_of(bytes@).len() == 32,
{
    let h = sha256(bytes);
    bytes_equal(stored.as_slice(), h.as_slice())
}

/// Whether a document stamped with a hash must be generated again: it is
/// missing, or its hash is not that of the bytes it was made from.
pub open spec fn needs_regeneration(source_bytes: Seq<u8>, doc: Option<ProjectConfigLock>) -> bool {
    match doc {
        None => true,
        Some(d) => d.project_config_hash@ != sha256_of(source_bytes),
    }
}

/// Whether the Lock (from the Manifest's bytes) or the State (from the
/// Lock's bytes) must be generated again.
pub fn must_regenerate(source_bytes: &[u8], doc: &Option<ProjectConfigLock>) -> (r: bool)
    ensures
        r == needs_regeneration(source_bytes@, *doc),
        sha256_of(source_bytes@).len() == 32,
{
    match doc {
        None => {
            let _ = sha256(source_bytes);
            true
        },
        Some(d) => !hash_matches(&d.project_config_hash, source_bytes),
    }
}

/// The State for a Lock: the same document, stamped with the SHA-256 of the
/// Lock's bytes.
pub fn update_project_state(project_state: ProjectConfigLock, config_lock_bytes: &[u8]) -> (r: ProjectConfigLock)
    ensures
        r.project_config_hash@ == sha256_of(config_lock_bytes@),
        r.project_config_hash@.len() == 32,
        r.project_internal_id == project_state.project_internal_id,
        r.shell_config == project_state.shell_config,
        r.images == project_state.images,
        r.binaries == project_state.binaries,
{
    let h = sha256(config_lock_bytes);
    project_state.update_project_config_hash(h.as_slice())
}

/// The State to install for a Lock: the existing State when it was stamped
/// from these Lock bytes, else the Lock stamped anew; and whether it changed.
pub fn settle_project_state(
    config_lock: ProjectConfigLock,
    config_lock_bytes: &[u8],
    existing_state: Option<ProjectConfigLock>,
) -> (r: (ProjectConfigLock, bool))
    ensures
        r.1 == needs_regeneration(config_lock_bytes@, existing_state),
        r.0.project_config_hash@ == sha256_of(config_lock_bytes@),
        r.0.project_config_hash@.len() == 32,
        !r.1 ==> existing_state == Some(r.0),
        r.1 ==> {
            &&& r.0.project_internal_id == config_lock.project_internal_id
            &&& r.0.shell_config == config_lock.shell_config
            &&& r.0.images == config_lock.images
            &&& r.0.binaries == config_lock.binaries
        },
{
    let regenerate = must_regenerate(config_lock_bytes, &existing_state);
    match existing_state {
        Some(state) if !regenerate => (state, false),
        _ => (update_project_state(config_lock, config_lock_bytes), true),
    }
}

/// A path that must hold a regular file: whether it exists; a data error when
/// something else stands there.
pub fn check_regular_file(exists: bool, is_file: bool, path: &str) -> (r: Result<bool, AvatarError>)
    ensures
        r is Err <==> (exists && !is_file),
        r matches Ok(x) ==> x == exists,
        r matches Err(e) ==> e.kind == ErrorKind::Data,
{
    if exists && !is_file {
        return Err(AvatarError::new(
            ErrorKind::Data,
            concat3("The path ", path, " must point to a regular file, found something else"),
        ));
    }
    Ok(exists)
}

/// The message that tells the user that a hash chain is broken.
fn drift_error(newer: &str, older: &str) -> (e: AvatarError)
    ensures
        e.kind == ErrorKind::Data,
        occurs_in(e.message@, "does not match"@),
        occurs_in(e.message@, newer@),
        occurs_in(e.message@, older@),
{
    let mut m = concat3("The hash for the file '", newer, "' ");
    m.append("does not match");
    m.append(" with the one in '");
    m.append(older);
    m.append("', considering exiting the avatar subshell and entering again");
    proof {
        let tail = "', considering exiting the avatar subshell and entering again"@;
        let pre = "The hash for the file '"@ + newer@ + "' "@;
        assert(m@ =~= pre + "does not match"@ + (" with the one in '"@ + older@ + tail));
        lemma_occurs_between(pre, "does not match"@, " with the one in '"@ + older@ + tail);
        assert(m@ =~= "The hash for the file '"@ + newer@ + ("' "@ + "does not match"@ + " with the one in '"@ + older@ + tail));
        lemma_occurs_between("The hash for the file '"@, newer@, "' "@ + "does not match"@ + " with the one in '"@ + older@ + tail);
        assert(m@ =~= (pre + "does not match"@ + " with the one in '"@) + older@ + tail);
        lemma_occurs_between(pre + "does not match"@ + " with the one in '"@, older@, tail);
    }
    AvatarError::new(ErrorKind::Data, m)
}

/// The check a shim makes before it runs anything: the Lock was made from
/// these Manifest bytes, and the State from these Lock bytes. It repairs
/// nothing.
pub fn verify_hash_chain(
    config_bytes: &[u8],
    config_lock: &ProjectConfigLock,
    config_lock_bytes: &[u8],
    project_state: &ProjectConfigLock,
    config_path: &str,
    config_lock_path: &str,
    project_state_path: &str,
) -> (r: Result<(), AvatarError>)
    ensures
        r is Ok <==> (config_lock.project_config_hash@ == sha256_of(config_bytes@)
            && project_state.project_config_hash@ == sha256_of(config_lock_bytes@)),
        r matches Err(e) ==> e.kind == ErrorKind::Data && occurs_in(e.message@, "does not match"@),
        r matches Err(e) ==> (config_lock.project_config_hash@ != sha256_of(config_bytes@) ==> occurs_in(
            e.message@,
            config_path@,
        ) && occurs_in(e.message@, config_lock_path@)),
        r matches Err(e) ==> (config_lock.project_config_hash@ == sha256_of(config_bytes@) ==> occurs_in(
            e.message@,
            config_lock_path@,
        ) && occurs_in(e.message@, project_state_path@)),
{
    if !hash_matches(&config_lock.project_config_hash, config_bytes) {
        return Err(drift_error(config_path, config_lock_path));
    }
    if !hash_matches(&project_state.project_config_hash, config_lock_bytes) {
        return Err(drift_error(config_lock_path, project_state_path));
    }
    Ok(())
}

/// What to do with a volatile subdirectory (`bin`, `home`, `images`).
#[derive(Clone, Copy, Debug, PartialEq, Eq, Structural)]
pub enum SubdirAction {
    /// Leave it as it is.
    Keep,
    /// Delete it, create it again and fill it.
    Recreate,
    /// Create it and fill it.
    Create,
}

/// The action for a subdirectory; `None` when something that is not a
/// directory stands in its place.
pub open spec fn subdir_decision(exists: bool, is_dir: bool, changed: bool) -> Option<SubdirAction> {
    if !exists {
        Some(SubdirAction::Create)
    } else if !is_dir {
        None
    } else if changed {
        Some(SubdirAction::Recreate)
    } else {
        Some(SubdirAction::Keep)
    }
}

/// Decides for a volatile subdirectory: rebuilt when the workspace changed,
/// created when missing, kept otherwise; a usage error when something that
/// is not a directory stands there.
pub fn recreate_volatile_subdir(exists: bool, is_dir: bool, changed_state: bool, subdir_path: &str) -> (r: Result<SubdirAction, AvatarError>)
    ensures
        match subdir_decision(exists, is_dir, changed_state) {
            Some(a) => r == Ok::<SubdirAction, AvatarError>(a),
            None => r matches Err(e) && e.kind == ErrorKind::Usage,
        },
{
    if !exists {
        Ok(SubdirAction::Create)
    } else if !is_dir {
        Err(AvatarError::new(
            ErrorKind::Usage,
            concat3("The path ", subdir_path, " must be a directory, but found something else"),
        ))
    } else if changed_state {
        Ok(SubdirAction::Recreate)
    } else {
        Ok(SubdirAction::Keep)
    }
}

/// Whether the workspace is to be rebuilt: the State was regenerated or an
/// image was pulled.
pub fn workspace_changed(changed_state: bool, pulled_any_image: bool) -> (r: bool)
    ensures
        r == (changed_state || pulled_any_image),
{
    changed_state || pulled_any_image
}

/// A second install with no Manifest change and no image pulled changes
/// nothing: the Lock compiled from the Manifest's bytes and the State stamped
/// from the Lock's bytes are both current, and every existing volatile
/// subdirectory is kept.
pub proof fn lemma_second_install_is_noop(
    config: crate::config::ProjectConfig,
    config_bytes: Seq<u8>,
    resolved: Seq<ResolvedTag>,
    lock: ProjectConfigLock,
    lock_bytes: Seq<u8>,
    state: ProjectConfigLock,
)
    requires
        is_lock_of(lock, config, config_bytes, resolved),
        state.project_config_hash@ == sha256_of(lock_bytes),
    ensures
        !needs_regeneration(config_bytes, Some(lock)),
        !needs_regeneration(lock_bytes, Some(state)),
        subdir_decision(true, true, false || false) == Some(SubdirAction::Keep),
{
}

/// A volatile subdirectory that was deleted is created again, whether or not
/// the documents changed.
pub proof fn lemma_deleted_subdir_is_recreated(is_dir: bool, changed: bool)
    ensures
        subdir_decision(false, is_dir, changed) == Some(SubdirAction::Create),
{
}

} // verus!
