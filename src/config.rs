//! The three documents: the Manifest (`ProjectConfig`), the Lock and the
//! State (both `ProjectConfigLock`). Mappings are kept as vectors of entries
//! in document order; a key stands at most once in a well-formed mapping.

use vstd::prelude::*;

verus! {

/// One `key: value` pair of a string mapping (environment, bindings).
#[derive(Clone, Debug, PartialEq, Eq)]
pub struct Entry {
    pub key: String,
    pub value: String,
}

impl Entry {
    pub fn new(key: String, value: String) -> (r: Entry)
        ensures
            r.key == key,
            r.value == value,
    {
        Entry { key, value }
    }

    pub fn duplicate(&self) -> (r: Entry)
        ensures
            r == *self,
    {
        Entry { key: self.key.clone(), value: self.value.clone() }
    }
}

/// How widely a named volume is shared.
#[derive(Clone, Copy, Debug, PartialEq, Eq, Structural)]
pub enum VolumeScope {
    Project,
    OCIImage,
    Binary,
}

impl VolumeScope {
    /// The scope of a volume that names none.
    pub fn default() -> (r: VolumeScope)
        ensures
            r == VolumeScope::Project,
    {
        VolumeScope::Project
    }
}

/// A declared volume: an explicit name, or one synthesized from its scope.
#[derive(Clone, Debug, PartialEq, Eq)]
pub struct VolumeConfig {
    pub name: Option<String>,
    pub scope: VolumeScope,
}

impl VolumeConfig {
    pub fn duplicate(&self) -> (r: VolumeConfig)
        ensures
            r == *self,
    {
        VolumeConfig {
            name: match &self.name {
                Some(n) => Some(n.clone()),
                None => None,
            },
            scope: self.scope,
        }
    }
}

/// A volume declared at a container path.
#[derive(Clone, Debug, PartialEq, Eq)]
pub struct VolumeEntry {
    pub container_path: String,
    pub config: VolumeConfig,
}

impl VolumeEntry {
    pub fn duplicate(&self) -> (r: VolumeEntry)
        ensures
            r == *self,
    {
        VolumeEntry { container_path: self.container_path.clone(), config: self.config.duplicate() }
    }
}

/// A volume of a frozen run-configuration: its name is fixed.
#[derive(Clone, Debug, PartialEq, Eq)]
pub struct VolumeConfigLock {
    pub container_path: String,
    pub volume_name: String,
}

impl VolumeConfigLock {
    pub fn get_container_path(&self) -> (r: &String)
        ensures
            r == &self.container_path,
    {
        &self.container_path
    }

    pub fn get_name(&self) -> (r: &String)
        ensures
            r == &self.volume_name,
    {
        &self.volume_name
    }
}

/// A declarative run-configuration, as written in the Manifest.
#[derive(Clone, Debug, PartialEq, Eq)]
pub struct OCIContainerRunConfig {
    pub env: Option<Vec<Entry>>,
    pub env_from_host: Option<Vec<String>>,
    pub extra_paths: Option<Vec<String>>,
    /// container path -> volume
    pub volumes: Option<Vec<VolumeEntry>>,
    /// container path -> host path
    pub bindings: Option<Vec<Entry>>,
}

impl OCIContainerRunConfig {
    pub fn get_env(&self) -> (r: &Option<Vec<Entry>>)
        ensures
            r == &self.env,
    {
        &self.env
    }

    pub fn get_env_from_host(&self) -> (r: &Option<Vec<String>>)
        ensures
            r == &self.env_from_host,
    {
        &self.env_from_host
    }

    pub fn get_extra_paths(&self) -> (r: &Option<Vec<String>>)
        ensures
            r == &self.extra_paths,
    {
        &self.extra_paths
    }

    pub fn get_volumes(&self) -> (r: &Option<Vec<VolumeEntry>>)
        ensures
            r == &self.volumes,
    {
        &self.volumes
    }

    pub fn get_bindings(&self) -> (r: &Option<Vec<Entry>>)
        ensures
            r == &self.bindings,
    {
        &self.bindings
    }
}

/// A frozen run-configuration, as written in the Lock: volume names are
/// materialized.
#[derive(Clone, Debug, PartialEq, Eq)]
pub struct OCIContainerRunConfigLock {
    pub env: Option<Vec<Entry>>,
    pub env_from_host: Option<Vec<String>>,
    pub extra_paths: Option<Vec<String>>,
    pub volumes: Option<Vec<VolumeConfigLock>>,
    pub bindings: Option<Vec<Entry>>,
}

impl OCIContainerRunConfigLock {
    pub fn get_env(&self) -> (r: &Option<Vec<Entry>>)
        ensures
            r == &self.env,
    {
        &self.env
    }

    pub fn get_env_from_host(&self) -> (r: &Option<Vec<String>>)
        ensures
            r == &self.env_from_host,
    {
        &self.env_from_host
    }

    pub fn get_volumes(&self) -> (r: &Option<Vec<VolumeConfigLock>>)
        ensures
            r == &self.volumes,
    {
        &self.volumes
    }

    pub fn get_bindings(&self) -> (r: &Option<Vec<Entry>>)
        ensures
            r == &self.bindings,
    {
        &self.bindings
    }
}

/// A binary declared under an image tag.
#[derive(Clone, Debug, PartialEq, Eq)]
pub struct ImageBinaryConfig {
    pub path: Option<String>,
    pub run_config: Option<OCIContainerRunConfig>,
}

impl ImageBinaryConfig {
    pub fn get_path(&self) -> (r: &Option<String>)
        ensures
            r == &self.path,
    {
        &self.path
    }

    pub fn get_run_config(&self) -> (r: &Option<OCIContainerRunConfig>)
        ensures
            r == &self.run_config,
    {
        &self.run_config
    }
}

#[derive(Clone, Debug, PartialEq, Eq)]
pub struct BinaryEntry {
    pub name: String,
    pub config: ImageBinaryConfig,
}

/// One tag of an image: its binaries and its run-configuration.
#[derive(Clone, Debug, PartialEq, Eq)]
pub struct OCIImageTagConfig {
    pub binaries: Option<Vec<BinaryEntry>>,
    pub run_config: Option<OCIContainerRunConfig>,
}

impl OCIImageTagConfig {
    pub fn get_binaries(&self) -> (r: &Option<Vec<BinaryEntry>>)
        ensures
            r == &self.binaries,
    {
        &self.binaries
    }

    pub fn get_run_config(&self) -> (r: &Option<OCIContainerRunConfig>)
        ensures
            r == &self.run_config,
    {
        &self.run_config
    }
}

#[derive(Clone, Debug, PartialEq, Eq)]
pub struct TagEntry {
    pub tag: String,
    pub config: OCIImageTagConfig,
}

/// An image of the Manifest: its tags.
#[derive(Clone, Debug, PartialEq, Eq)]
pub struct OCIImageConfig {
    pub tags: Vec<TagEntry>,
    pub run_config: Option<OCIContainerRunConfig>,
}

impl OCIImageConfig {
    pub fn get_tags(&self) -> (r: &Vec<TagEntry>)
        ensures
            r == &self.tags,
    {
        &self.tags
    }
}

#[derive(Clone, Debug, PartialEq, Eq)]
pub struct ImageEntry {
    pub name: String,
    pub config: OCIImageConfig,
}

/// The shell session's configuration.
#[derive(Clone, Debug, PartialEq, Eq)]
pub struct ShellConfig {
    pub env: Option<Vec<Entry>>,
    pub extra_paths: Option<Vec<String>>,
}

impl ShellConfig {
    pub fn get_env(&self) -> (r: &Option<Vec<Entry>>)
        ensures
            r == &self.env,
    {
        &self.env
    }

    pub fn get_extra_paths(&self) -> (r: &Option<Vec<String>>)
        ensures
            r == &self.extra_paths,
    {
        &self.extra_paths
    }
}

/// The Manifest.
#[derive(Clone, Debug, PartialEq, Eq)]
pub struct ProjectConfig {
    pub avatar_version: String,
    pub project_internal_id: String,
    pub run_config: Option<OCIContainerRunConfig>,
    pub shell_config: Option<ShellConfig>,
    /// image name -> image
    pub images: Option<Vec<ImageEntry>>,
}

/// The version written into new Manifests.
pub const AVATAR_CLI_VERSION: &'static str = "0.1.0";

/// The length of a project's internal id.
pub const INTERNAL_ID_LEN: usize = 16;

impl ProjectConfig {
    /// A fresh Manifest: this version, a new random id, nothing declared.
    pub fn new() -> (r: ProjectConfig)
        ensures
            r.avatar_version@ == AVATAR_CLI_VERSION@,
            r.project_internal_id@.len() == INTERNAL_ID_LEN,
            forall|i: int|
                0 <= i < INTERNAL_ID_LEN ==> crate::primitives::is_alphanumeric(
                    #[trigger] r.project_internal_id@[i],
                ),
            r.run_config is None,
            r.shell_config is None,
            r.images is None,
    {
        ProjectConfig {
            avatar_version: AVATAR_CLI_VERSION.to_owned(),
            project_internal_id: crate::primitives::random_alphanumeric(INTERNAL_ID_LEN),
            run_config: None,
            shell_config: None,
            images: None,
        }
    }

    pub fn get_shell_config(&self) -> (r: &Option<ShellConfig>)
        ensures
            r == &self.shell_config,
    {
        &self.shell_config
    }

    pub fn get_project_internal_id(&self) -> (r: &String)
        ensures
            r == &self.project_internal_id,
    {
        &self.project_internal_id
    }

    pub fn get_images(&self) -> (r: &Option<Vec<ImageEntry>>)
        ensures
            r == &self.images,
    {
        &self.images
    }
}

/// A resolved tag: its content digest and run-configuration.
#[derive(Clone, Debug, PartialEq, Eq)]
pub struct OCIImageTagConfigLock {
    pub hash: String,
    pub run_config: Option<OCIContainerRunConfig>,
}

impl OCIImageTagConfigLock {
    pub fn new(hash: String, run_config: Option<OCIContainerRunConfig>) -> (r: OCIImageTagConfigLock)
        ensures
            r.hash == hash,
            r.run_config == run_config,
    {
        OCIImageTagConfigLock { hash, run_config }
    }

    pub fn get_hash(&self) -> (r: &String)
        ensures
            r == &self.hash,
    {
        &self.hash
    }

    pub fn get_run_config(&self) -> (r: &Option<OCIContainerRunConfig>)
        ensures
            r == &self.run_config,
    {
        &self.run_config
    }
}

#[derive(Clone, Debug, PartialEq, Eq)]
pub struct LockedTag {
    pub tag: String,
    pub config: OCIImageTagConfigLock,
}

#[derive(Clone, Debug, PartialEq, Eq)]
pub struct LockedImage {
    pub name: String,
    pub tags: Vec<LockedTag>,
}

/// A binary of the Lock: the image it runs in, by digest, and its frozen
/// run-configuration.
#[derive(Clone, Debug, PartialEq, Eq)]
pub struct ImageBinaryConfigLock {
    pub oci_image_name: String,
    pub oci_image_hash: String,
    pub path: String,
    pub run_config: Option<OCIContainerRunConfigLock>,
}

impl ImageBinaryConfigLock {
    pub fn new(
        oci_image_name: String,
        oci_image_hash: String,
        path: String,
        run_config: Option<OCIContainerRunConfigLock>,
    ) -> (r: ImageBinaryConfigLock)
        ensures
            r.oci_image_name == oci_image_name,
            r.oci_image_hash == oci_image_hash,
            r.path == path,
            r.run_config == run_config,
    {
        ImageBinaryConfigLock { oci_image_name, oci_image_hash, path, run_config }
    }

    pub fn get_oci_image_name(&self) -> (r: &String)
        ensures
            r == &self.oci_image_name,
    {
        &self.oci_image_name
    }

    pub fn get_oci_image_hash(&self) -> (r: &String)
        ensures
            r == &self.oci_image_hash,
    {
        &self.oci_image_hash
    }

    pub fn get_path(&self) -> (r: &String)
        ensures
            r == &self.path,
    {
        &self.path
    }

    pub fn get_run_config(&self) -> (r: &Option<OCIContainerRunConfigLock>)
        ensures
            r == &self.run_config,
    {
        &self.run_config
    }
}

#[derive(Clone, Debug, PartialEq, Eq)]
pub struct LockedBinary {
    pub name: String,
    pub config: ImageBinaryConfigLock,
}

/// Whether a binary of this name is in the sequence.
pub open spec fn declares_binary(bins: Seq<LockedBinary>, name: Seq<char>) -> bool {
    exists|i: int| 0 <= i < bins.len() && (#[trigger] bins[i]).name@ == name
}

/// The Lock, and the State (which has the same shape).
#[derive(Clone, Debug, PartialEq, Eq)]
pub struct ProjectConfigLock {
    pub project_config_hash: Vec<u8>,
    pub project_internal_id: String,
    pub shell_config: Option<ShellConfig>,
    /// image name -> tag -> resolved tag
    pub images: Vec<LockedImage>,
    /// binary name -> locked binary
    pub binaries: Vec<LockedBinary>,
}

impl ProjectConfigLock {
    pub fn new(
        project_config_hash: Vec<u8>,
        project_internal_id: String,
        shell_config: Option<ShellConfig>,
        images: Vec<LockedImage>,
        binaries: Vec<LockedBinary>,
    ) -> (r: ProjectConfigLock)
        ensures
            r.project_config_hash == project_config_hash,
            r.project_internal_id == project_internal_id,
            r.shell_config == shell_config,
            r.images == images,
            r.binaries == binaries,
    {
        ProjectConfigLock { project_config_hash, project_internal_id, shell_config, images, binaries }
    }

    pub fn get_project_config_hash(&self) -> (r: &Vec<u8>)
        ensures
            r == &self.project_config_hash,
    {
        &self.project_config_hash
    }

    /// The same document, stamped with another hash.
    pub fn update_project_config_hash(self, new_hash: &[u8]) -> (r: ProjectConfigLock)
        ensures
            r.project_config_hash@ == new_hash@,
            r.project_internal_id == self.project_internal_id,
            r.shell_config == self.shell_config,
            r.images == self.images,
            r.binaries == self.binaries,
    {
        let mut s = self;
        s.project_config_hash = vstd::slice::slice_to_vec(new_hash);
        s
    }

    pub fn get_project_internal_id(&self) -> (r: &String)
        ensures
            r == &self.project_internal_id,
    {
        &self.project_internal_id
    }

    pub fn get_shell_config(&self) -> (r: &Option<ShellConfig>)
        ensures
            r == &self.shell_config,
    {
        &self.shell_config
    }

    pub fn get_images(&self) -> (r: &Vec<LockedImage>)
        ensures
            r == &self.images,
    {
        &self.images
    }

    /// The first binary declared under this name, if any.
    pub fn get_binary_configuration(&self, binary_name: &str) -> (r: Option<&ImageBinaryConfigLock>)
        ensures
            match r {
                Some(c) => exists|i: int|
                    0 <= i < self.binaries@.len() && self.binaries@[i].name@ == binary_name@
                        && c == &(#[trigger] self.binaries@[i]).config,
                None => !declares_binary(self.binaries@, binary_name@),
            },
    {
        let mut i: usize = 0;
        while i < self.binaries.len()
            invariant
                i <= self.binaries@.len(),
                forall|j: int| 0 <= j < i ==> (#[trigger] self.binaries@[j]).name@ != binary_name@,
            decreases self.binaries@.len() - i,
        {
            if crate::text::same_text(self.binaries[i].name.as_str(), binary_name) {
                return Some(&self.binaries[i].config);
            }
            i = i + 1;
        }
        None
    }

    /// The names of the declared binaries, in order.
    pub fn get_binary_names(&self) -> (r: Vec<String>)
        ensures
            r@.len() == self.binaries@.len(),
            forall|i: int| 0 <= i < r@.len() ==> #[trigger] r@[i] == self.binaries@[i].name,
    {
        let mut r: Vec<String> = Vec::new();
        let mut i: usize = 0;
        while i < self.binaries.len()
            invariant
                i <= self.binaries@.len(),
                r@.len() == i,
                forall|j: int| 0 <= j < i ==> #[trigger] r@[j] == self.binaries@[j].name,
            decreases self.binaries@.len() - i,
        {
            r.push(self.binaries[i].name.clone());
            i = i + 1;
        }
        r
    }

    pub fn get_binaries_configs(&self) -> (r: &Vec<LockedBinary>)
        ensures
            r == &self.binaries,
    {
        &self.binaries
    }
}

} // verus!
