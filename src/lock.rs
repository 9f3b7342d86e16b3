//! The Lock compiler: a Manifest and the digests its tags resolved to become
//! the Lock, stamped with the SHA-256 of the Manifest's bytes.

use vstd::prelude::*;
use crate::config::{
    declares_binary, BinaryEntry, ImageBinaryConfigLock, ImageEntry, LockedBinary, LockedImage,
    LockedTag, OCIContainerRunConfig, OCIImageTagConfigLock, ProjectConfig, ProjectConfigLock,
    VolumeEntry,
};
use crate::error::{AvatarError, ErrorKind};
use crate::merge::{unique_by, copy_opt_entries, copy_opt_texts, opt_seq};
use crate::primitives::{sha256, sha256_of};
use crate::runconfig::{is_frozen, merge_run_and_shell_configs};
use crate::text::{concat, concat3, same_text};

verus! {

/// The digest a tag resolved to, and the image's own `PATH` when it has one.
#[derive(Clone, Debug, PartialEq, Eq)]
pub struct ResolvedTag {
    pub image_name: String,
    pub tag: String,
    pub hash: String,
    pub image_path: Option<String>,
}

/// Whether two run-configurations hold the same settings.
pub open spec fn same_run_config(a: OCIContainerRunConfig, b: OCIContainerRunConfig) -> bool {
    &&& opt_seq(a.env) == opt_seq(b.env)
    &&& opt_seq(a.env_from_host) == opt_seq(b.env_from_host)
    &&& opt_seq(a.extra_paths) == opt_seq(b.extra_paths)
    &&& opt_seq(a.volumes) == opt_seq(b.volumes)
    &&& opt_seq(a.bindings) == opt_seq(b.bindings)
}

pub open spec fn same_opt_run_config(a: Option<OCIContainerRunConfig>, b: Option<OCIContainerRunConfig>) -> bool {
    match (a, b) {
        (Some(x), Some(y)) => same_run_config(x, y),
        (None, None) => true,
        _ => false,
    }
}

fn copy_volumes(s: &Vec<VolumeEntry>) -> (r: Vec<VolumeEntry>)
    ensures
        r@ == s@,
{
    let mut r: Vec<VolumeEntry> = Vec::new();
    let mut i: usize = 0;
    while i < s.len()
        invariant
            i <= s@.len(),
            r@ == s@.take(i as int),
        decreases s@.len() - i,
    {
        r.push(s[i].duplicate());
        assert(s@.take(i + 1) == s@.take(i as int).push(s@[i as int]));
        i = i + 1;
    }
    assert(s@.take(s@.len() as int) == s@);
    r
}

/// A copy of a run-configuration.
pub fn copy_run_config(c: &Option<OCIContainerRunConfig>) -> (r: Option<OCIContainerRunConfig>)
    ensures
        same_opt_run_config(r, *c),
{
    match c {
        Some(x) => Some(OCIContainerRunConfig {
            env: copy_opt_entries(&x.env),
            env_from_host: copy_opt_texts(&x.env_from_host),
            extra_paths: copy_opt_texts(&x.extra_paths),
            volumes: match &x.volumes {
                Some(v) => Some(copy_volumes(v)),
                None => None,
            },
            bindings: copy_opt_entries(&x.bindings),
        }),
        None => None,
    }
}

/// Whether the resolved digests hold one for `image_name:tag` that equals `hash`.
pub open spec fn resolved_to(resolved: Seq<ResolvedTag>, image_name: Seq<char>, tag: Seq<char>, hash: Seq<char>) -> bool {
    exists|k: int|
        0 <= k < resolved.len() && (#[trigger] resolved[k]).image_name@ == image_name && resolved[k].tag@ == tag
            && resolved[k].hash@ == hash
}

pub open spec fn has_resolution(resolved: Seq<ResolvedTag>, image_name: Seq<char>, tag: Seq<char>) -> bool {
    exists|k: int|
        0 <= k < resolved.len() && (#[trigger] resolved[k]).image_name@ == image_name && resolved[k].tag@ == tag
}

/// The image `PATH` of the first resolution of `image_name:tag`; none when
/// there is no resolution.
pub open spec fn path_for(resolved: Seq<ResolvedTag>, image_name: Seq<char>, tag: Seq<char>) -> Option<String>
    decreases resolved.len(),
{
    if resolved.len() == 0 {
        None
    } else if resolved[0].image_name@ == image_name && resolved[0].tag@ == tag {
        resolved[0].image_path
    } else {
        path_for(resolved.drop_first(), image_name, tag)
    }
}

/// The first resolution of `image_name:tag`, if there is one.
pub fn find_resolved<'a>(resolved: &'a Vec<ResolvedTag>, image_name: &str, tag: &str) -> (r: Option<&'a ResolvedTag>)
    ensures
        match r {
            Some(x) => exists|k: int|
                0 <= k < resolved@.len() && x == &(#[trigger] resolved@[k]) && x.image_name@ == image_name@
                    && x.tag@ == tag@,
            None => !has_resolution(resolved@, image_name@, tag@),
        },
        match r {
            Some(x) => x.image_path == path_for(resolved@, image_name@, tag@),
            None => path_for(resolved@, image_name@, tag@) is None,
        },
{
    let mut i: usize = 0;
    assert(resolved@.subrange(0, resolved@.len() as int) == resolved@);
    while i < resolved.len()
        invariant
            i <= resolved@.len(),
            path_for(resolved@, image_name@, tag@) == path_for(
                resolved@.subrange(i as int, resolved@.len() as int),
                image_name@,
                tag@,
            ),
            forall|j: int|
                0 <= j < i ==> !((#[trigger] resolved@[j]).image_name@ == image_name@ && resolved@[j].tag@ == tag@),
        decreases resolved@.len() - i,
    {
        let ghost rest = resolved@.subrange(i as int, resolved@.len() as int);
        assert(rest[0] == resolved@[i as int]);
        assert(rest.drop_first() == resolved@.subrange(i + 1, resolved@.len() as int));
        if same_text(resolved[i].image_name.as_str(), image_name) && same_text(resolved[i].tag.as_str(), tag) {
            return Some(&resolved[i]);
        }
        i = i + 1;
    }
    None
}

/// Whether `l` is image `e` of the Manifest with each tag resolved.
pub open spec fn image_locked(l: LockedImage, e: ImageEntry, resolved: Seq<ResolvedTag>) -> bool {
    &&& l.name == e.name
    &&& l.tags@.len() == e.config.tags@.len()
    &&& forall|t: int|
        0 <= t < l.tags@.len() ==> {
            &&& (#[trigger] l.tags@[t]).tag == e.config.tags@[t].tag
            &&& resolved_to(resolved, e.name@, l.tags@[t].tag@, l.tags@[t].config.hash@)
            &&& same_opt_run_config(l.tags@[t].config.run_config, e.config.tags@[t].config.run_config)
        }
}

/// One image of the Manifest with its tags resolved. Fails when the image has
/// no tag (a data error) or a tag has no resolution.
pub fn compile_image_configs(image: &ImageEntry, resolved: &Vec<ResolvedTag>) -> (r: Result<LockedImage, AvatarError>)
    ensures
        match r {
            Ok(l) => image_locked(l, *image, resolved@),
            Err(e) => image.config.tags@.len() == 0 && e.kind == ErrorKind::Data || e.kind == ErrorKind::Software
                && exists|t: int|
                0 <= t < image.config.tags@.len() && !has_resolution(
                    resolved@,
                    image.name@,
                    (#[trigger] image.config.tags@[t]).tag@,
                ),
        },
        image.config.tags@.len() > 0 && (forall|t: int|
            0 <= t < image.config.tags@.len() ==> has_resolution(
                resolved@,
                image.name@,
                (#[trigger] image.config.tags@[t]).tag@,
            )) ==> r is Ok,
        image.config.tags@.len() == 0 ==> (r matches Err(e) && e.kind == ErrorKind::Data),
        r is Ok ==> image.config.tags@.len() > 0,
{
    let tags = &image.config.tags;
    if tags.len() == 0 {
        return Err(AvatarError::new(ErrorKind::Data, concat("No tags are defined for image ", image.name.as_str())));
    }
    let mut out: Vec<LockedTag> = Vec::new();
    let mut t: usize = 0;
    while t < tags.len()
        invariant
            t <= tags@.len(),
            out@.len() == t,
            tags == &image.config.tags,
            forall|u: int|
                0 <= u < t ==> {
                    &&& (#[trigger] out@[u]).tag == tags@[u].tag
                    &&& resolved_to(resolved@, image.name@, out@[u].tag@, out@[u].config.hash@)
                    &&& same_opt_run_config(out@[u].config.run_config, tags@[u].config.run_config)
                },
        decreases tags@.len() - t,
    {
        let entry = &tags[t];
        match find_resolved(resolved, image.name.as_str(), entry.tag.as_str()) {
            Some(res) => {
                out.push(LockedTag {
                    tag: entry.tag.clone(),
                    config: OCIImageTagConfigLock::new(res.hash.clone(), copy_run_config(&entry.config.run_config)),
                });
            },
            None => {
                return Err(AvatarError::new(
                    ErrorKind::Software,
                    concat3("No digest was resolved for image ", image.name.as_str(), entry.tag.as_str()),
                ));
            },
        }
        t = t + 1;
    }
    Ok(LockedImage { name: image.name.clone(), tags: out })
}

/// The declared images of a Manifest, none when it declares none.
pub open spec fn images_of(config: ProjectConfig) -> Seq<ImageEntry> {
    match config.images {
        Some(v) => v@,
        None => Seq::empty(),
    }
}

/// Whether some image of the Manifest declares no tag.
pub open spec fn has_tagless_image(config: ProjectConfig) -> bool {
    exists|j: int| 0 <= j < images_of(config).len() && (#[trigger] images_of(config)[j]).config.tags@.len() == 0
}

/// Whether each tag of the Manifest has a resolution.
pub open spec fn tags_resolved(config: ProjectConfig, resolved: Seq<ResolvedTag>) -> bool {
    forall|j: int, t: int|
        0 <= j < images_of(config).len() && 0 <= t < images_of(config)[j].config.tags@.len() ==> has_resolution(
            resolved,
            images_of(config)[j].name@,
            (#[trigger] images_of(config)[j].config.tags@[t]).tag@,
        )
}

/// Whether each image of the Manifest has a tag, and each tag a resolution.
pub open spec fn all_resolved(config: ProjectConfig, resolved: Seq<ResolvedTag>) -> bool {
    !has_tagless_image(config) && tags_resolved(config, resolved)
}

/// Every image of the Manifest, its tags resolved, in order.
pub fn get_image_compiled_configs(config: &ProjectConfig, resolved: &Vec<ResolvedTag>) -> (r: Result<Vec<LockedImage>, AvatarError>)
    ensures
        r matches Ok(l) ==> l@.len() == images_of(*config).len() && forall|j: int|
            0 <= j < l@.len() ==> image_locked(#[trigger] l@[j], images_of(*config)[j], resolved@),
        r matches Err(e) ==> e.kind == ErrorKind::Data || e.kind == ErrorKind::Software,
        all_resolved(*config, resolved@) ==> r is Ok,
        has_tagless_image(*config) ==> r is Err,
        r matches Err(e) ==> (e.kind == ErrorKind::Data ==> has_tagless_image(*config)),
        r matches Err(e) ==> (e.kind == ErrorKind::Software ==> !tags_resolved(*config, resolved@)),
        tags_resolved(*config, resolved@) && has_tagless_image(*config) ==> (r matches Err(e) && e.kind
            == ErrorKind::Data),
{
    let mut out: Vec<LockedImage> = Vec::new();
    match &config.images {
        None => Ok(out),
        Some(images) => {
            let mut j: usize = 0;
            while j < images.len()
                invariant
                    j <= images@.len(),
                    images@ == images_of(*config),
                    out@.len() == j,
                    forall|u: int| 0 <= u < j ==> image_locked(#[trigger] out@[u], images@[u], resolved@),
                    forall|u: int| 0 <= u < j ==> (#[trigger] images@[u]).config.tags@.len() > 0,
                decreases images@.len() - j,
            {
                proof {
                    assert(images_of(*config)[j as int] == images@[j as int]);
                    if tags_resolved(*config, resolved@) {
                        assert forall|t: int| 0 <= t < images@[j as int].config.tags@.len() implies has_resolution(
                            resolved@,
                            images@[j as int].name@,
                            (#[trigger] images@[j as int].config.tags@[t]).tag@,
                        ) by {
                            assert(images_of(*config)[j as int].config.tags@[t] == images@[j as int].config.tags@[t]);
                        }
                    }
                }
                let l = match compile_image_configs(&images[j], resolved) {
                    Ok(l) => l,
                    Err(e) => {
                        proof {
                            if e.kind == ErrorKind::Software {
                                let t = choose|t: int|
                                    0 <= t < images@[j as int].config.tags@.len() && !has_resolution(
                                        resolved@,
                                        images@[j as int].name@,
                                        (#[trigger] images@[j as int].config.tags@[t]).tag@,
                                    );
                                assert(images_of(*config)[j as int].config.tags@[t] == images@[j as int].config.tags@[t]);
                            }
                        }
                        return Err(e);
                    },
                };
                out.push(l);
                j = j + 1;
            }
            proof {
                assert forall|u: int| 0 <= u < images_of(*config).len() implies (#[trigger] images_of(*config)[u]).config.tags@.len() != 0 by {
                    assert(images_of(*config)[u] == images@[u]);
                }
            }
            Ok(out)
        },
    }
}

/// Binary `b` runs in one of the locked images, by a digest that one of
/// that image's tags holds.
pub open spec fn anchored(b: LockedBinary, images: Seq<LockedImage>) -> bool {
    exists|j: int, t: int|
        #![trigger images[j].tags@[t]]
        0 <= j < images.len() && 0 <= t < images[j].tags@.len() && images[j].name@ == b.config.oci_image_name@
            && images[j].tags@[t].config.hash@ == b.config.oci_image_hash@
}

pub open spec fn all_anchored(bins: Seq<LockedBinary>, images: Seq<LockedImage>) -> bool {
    forall|i: int| 0 <= i < bins.len() ==> anchored(#[trigger] bins[i], images)
}

/// No binary name is declared twice.
pub open spec fn names_unique(bins: Seq<LockedBinary>) -> bool {
    forall|i: int, k: int| 0 <= i < k < bins.len() ==> (#[trigger] bins[i]).name@ != (#[trigger] bins[k]).name@
}

/// `new` keeps `old` as its beginning.
pub open spec fn extends<T>(new: Seq<T>, old: Seq<T>) -> bool {
    new.len() >= old.len() && forall|i: int| 0 <= i < old.len() ==> #[trigger] new[i] == old[i]
}

/// The path of a declared binary: its own, else its name.
pub open spec fn path_of(d: BinaryEntry) -> Seq<char> {
    match d.config.path {
        Some(p) => p@,
        None => d.name@,
    }
}

/// Whether `b` is `d`, declared under `image_name:tag`, locked: its name,
/// the image it runs in, the digest `hash` of that tag, its path, and its
/// frozen run-configuration over the tag's layer `tag_rc`.
pub open spec fn binary_locked_as(
    b: LockedBinary,
    image_name: Seq<char>,
    tag: Seq<char>,
    hash: Seq<char>,
    tag_rc: Option<OCIContainerRunConfig>,
    config: ProjectConfig,
    image_path: Option<String>,
    d: BinaryEntry,
) -> bool {
    &&& b.name@ == d.name@
    &&& b.config.oci_image_name@ == image_name
    &&& b.config.oci_image_hash@ == hash
    &&& b.config.path@ == path_of(d)
    &&& is_frozen(
        b.config.run_config,
        tag_rc,
        d.config.run_config,
        config.shell_config,
        config.project_internal_id@,
        image_name,
        tag,
        d.name@,
        image_path,
    )
}

/// Whether a binary of `bins` is `d` locked as above.
pub open spec fn locks_declared(
    bins: Seq<LockedBinary>,
    image_name: Seq<char>,
    tag: Seq<char>,
    hash: Seq<char>,
    tag_rc: Option<OCIContainerRunConfig>,
    config: ProjectConfig,
    image_path: Option<String>,
    d: BinaryEntry,
) -> bool {
    exists|i: int| 0 <= i < bins.len() && binary_locked_as(#[trigger] bins[i], image_name, tag, hash, tag_rc, config, image_path, d)
}

/// Whether `d`, declared under tag `t` of image `e` (locked as `l`), is
/// locked in `bins` with the digest of that tag and the image `PATH` of its
/// resolution.
pub open spec fn locks_at_tag(
    bins: Seq<LockedBinary>,
    e: ImageEntry,
    l: LockedImage,
    t: int,
    config: ProjectConfig,
    resolved: Seq<ResolvedTag>,
    d: BinaryEntry,
) -> bool {
    locks_declared(
        bins,
        e.name@,
        e.config.tags@[t].tag@,
        l.tags@[t].config.hash@,
        e.config.tags@[t].config.run_config,
        config,
        path_for(resolved, e.name@, e.config.tags@[t].tag@),
        d,
    )
}

proof fn lemma_locks_declared_extends(
    new: Seq<LockedBinary>,
    old: Seq<LockedBinary>,
    image_name: Seq<char>,
    tag: Seq<char>,
    hash: Seq<char>,
    tag_rc: Option<OCIContainerRunConfig>,
    config: ProjectConfig,
    image_path: Option<String>,
    d: BinaryEntry,
)
    requires
        extends(new, old),
        locks_declared(old, image_name, tag, hash, tag_rc, config, image_path, d),
    ensures
        locks_declared(new, image_name, tag, hash, tag_rc, config, image_path, d),
{
    let i = choose|i: int|
        0 <= i < old.len() && binary_locked_as(#[trigger] old[i], image_name, tag, hash, tag_rc, config, image_path, d);
    assert(new[i] == old[i]);
}

proof fn lemma_locks_at_tag_extends(
    new: Seq<LockedBinary>,
    old: Seq<LockedBinary>,
    e: ImageEntry,
    l: LockedImage,
    t: int,
    config: ProjectConfig,
    resolved: Seq<ResolvedTag>,
    d: BinaryEntry,
)
    requires
        extends(new, old),
        locks_at_tag(old, e, l, t, config, resolved, d),
    ensures
        locks_at_tag(new, e, l, t, config, resolved, d),
{
    lemma_locks_declared_extends(
        new,
        old,
        e.name@,
        e.config.tags@[t].tag@,
        l.tags@[t].config.hash@,
        e.config.tags@[t].config.run_config,
        config,
        path_for(resolved, e.name@, e.config.tags@[t].tag@),
        d,
    );
}

/// Layers with the same settings freeze alike.
proof fn lemma_locks_declared_same_layer(
    bins: Seq<LockedBinary>,
    image_name: Seq<char>,
    tag: Seq<char>,
    hash: Seq<char>,
    a: Option<OCIContainerRunConfig>,
    b: Option<OCIContainerRunConfig>,
    config: ProjectConfig,
    image_path: Option<String>,
    d: BinaryEntry,
)
    requires
        same_opt_run_config(a, b),
        locks_declared(bins, image_name, tag, hash, a, config, image_path, d),
    ensures
        locks_declared(bins, image_name, tag, hash, b, config, image_path, d),
{
    let i = choose|i: int|
        0 <= i < bins.len() && binary_locked_as(#[trigger] bins[i], image_name, tag, hash, a, config, image_path, d);
    assert(binary_locked_as(bins[i], image_name, tag, hash, b, config, image_path, d));
}

/// One declared binary locked: the image it runs in, the digest of its tag,
/// its path, and its frozen run-configuration (the tag's layer, its own,
/// then the shell overlay).
pub fn lock_binary(
    image_name: &str,
    image_tag: &str,
    locked_tag: &OCIImageTagConfigLock,
    declared: &BinaryEntry,
    config: &ProjectConfig,
    image_path: &Option<String>,
) -> (r: Result<ImageBinaryConfigLock, AvatarError>)
    ensures
        r is Err <==> crate::runconfig::forbidden(
            locked_tag.run_config,
            declared.config.run_config,
            config.shell_config,
        ),
        r matches Err(e) ==> e.kind == ErrorKind::Usage,
        r matches Ok(b) ==> {
            &&& b.oci_image_name@ == image_name@
            &&& b.oci_image_hash == locked_tag.hash
            &&& b.path@ == path_of(*declared)
            &&& is_frozen(
                b.run_config,
                locked_tag.run_config,
                declared.config.run_config,
                config.shell_config,
                config.project_internal_id@,
                image_name@,
                image_tag@,
                declared.name@,
                *image_path,
            )
        },
{
    let run_config = merge_run_and_shell_configs(
        &locked_tag.run_config,
        &declared.config.run_config,
        &config.shell_config,
        config.project_internal_id.as_str(),
        image_name,
        image_tag,
        declared.name.as_str(),
        image_path,
    )?;
    let path = match &declared.config.path {
        Some(p) => p.clone(),
        None => declared.name.clone(),
    };
    Ok(ImageBinaryConfigLock::new(image_name.to_owned(), locked_tag.hash.clone(), path, run_config))
}

/// Whether a binary of this name is already locked.
fn contains_binary(bins: &Vec<LockedBinary>, name: &str) -> (r: bool)
    ensures
        r == declares_binary(bins@, name@),
{
    let mut i: usize = 0;
    while i < bins.len()
        invariant
            i <= bins@.len(),
            forall|j: int| 0 <= j < i ==> (#[trigger] bins@[j]).name@ != name@,
        decreases bins@.len() - i,
    {
        if same_text(bins[i].name.as_str(), name) {
            return true;
        }
        i = i + 1;
    }
    false
}

/// The binaries declared under a tag, none when it declares none.
pub open spec fn binaries_of(e: crate::config::TagEntry) -> Seq<BinaryEntry> {
    match e.config.binaries {
        Some(v) => v@,
        None => Seq::empty(),
    }
}

/// Whether every binary the Manifest declares is locked under its image and
/// tag, with the digest of that tag in `images` and its frozen configuration.
pub open spec fn declares_all(
    bins: Seq<LockedBinary>,
    config: ProjectConfig,
    images: Seq<LockedImage>,
    resolved: Seq<ResolvedTag>,
) -> bool {
    forall|j: int, t: int, k: int|
        0 <= j < images_of(config).len() && 0 <= t < images_of(config)[j].config.tags@.len() && 0 <= k
            < binaries_of(images_of(config)[j].config.tags@[t]).len() ==> locks_at_tag(
            bins,
            images_of(config)[j],
            images[j],
            t,
            config,
            resolved,
            #[trigger] binaries_of(images_of(config)[j].config.tags@[t])[k],
        )
}

/// The names of locked binaries, in order.
pub open spec fn bin_names(bins: Seq<LockedBinary>) -> Seq<Seq<char>> {
    bins.map_values(|b: LockedBinary| b.name@)
}

/// The names of declared binaries, in order.
pub open spec fn src_names(src: Seq<BinaryEntry>) -> Seq<Seq<char>> {
    src.map_values(|d: BinaryEntry| d.name@)
}

/// The names of the binaries declared under the tags, tag by tag.
pub open spec fn tags_names(tags: Seq<crate::config::TagEntry>) -> Seq<Seq<char>>
    decreases tags.len(),
{
    if tags.len() == 0 {
        Seq::empty()
    } else {
        tags_names(tags.drop_last()) + src_names(binaries_of(tags.last()))
    }
}

/// The names of the binaries a Manifest declares, image by image.
pub open spec fn images_names(images: Seq<ImageEntry>) -> Seq<Seq<char>>
    decreases images.len(),
{
    if images.len() == 0 {
        Seq::empty()
    } else {
        images_names(images.drop_last()) + tags_names(images.last().config.tags@)
    }
}

/// Whether no binary declared under the tag sets or passes through `PATH`.
pub open spec fn tag_allowed(tag: crate::config::TagEntry, shell: Option<crate::config::ShellConfig>) -> bool {
    forall|k: int|
        0 <= k < binaries_of(tag).len() ==> !crate::runconfig::forbidden(
            tag.config.run_config,
            (#[trigger] binaries_of(tag)[k]).config.run_config,
            shell,
        )
}

proof fn lemma_forbidden_same(
    a: Option<OCIContainerRunConfig>,
    b: Option<OCIContainerRunConfig>,
    o: Option<OCIContainerRunConfig>,
    shell: Option<crate::config::ShellConfig>,
)
    requires
        same_opt_run_config(a, b),
    ensures
        crate::runconfig::forbidden(a, o, shell) == crate::runconfig::forbidden(b, o, shell),
{
}

proof fn lemma_no_dup_prefix(s: Seq<Seq<char>>, n: int)
    requires
        s.no_duplicates(),
        0 <= n <= s.len(),
    ensures
        s.take(n).no_duplicates(),
{
}

/// The message of a binary name declared twice.
pub open spec fn dup_message(name: Seq<char>) -> Seq<char> {
    "Duplicated binary definition for '"@ + name + "'"@
}

/// Whether a name stands twice in `s`, and `m` is the message naming it.
pub open spec fn names_dup_at(s: Seq<Seq<char>>, m: Seq<char>) -> bool {
    exists|i1: int, i2: int|
        #![trigger s[i1], s[i2]]
        0 <= i1 < i2 < s.len() && s[i1] == s[i2] && m == dup_message(s[i2])
}

proof fn lemma_dup_prefix(s: Seq<Seq<char>>, n: int, m: Seq<char>)
    requires
        0 <= n <= s.len(),
        names_dup_at(s.take(n), m),
    ensures
        names_dup_at(s, m),
{
    let p = s.take(n);
    let (i1, i2) = choose|i1: int, i2: int|
        #![trigger p[i1], p[i2]]
        0 <= i1 < i2 < p.len() && p[i1] == p[i2] && m == dup_message(p[i2]);
    assert(s[i1] == p[i1] && s[i2] == p[i2]);
}

proof fn lemma_unique_names_no_dup(bins: Seq<LockedBinary>)
    requires
        names_unique(bins),
    ensures
        bin_names(bins).no_duplicates(),
{
    let n = bin_names(bins);
    assert forall|i: int, k: int| 0 <= i < n.len() && 0 <= k < n.len() && i != k implies n[i] != n[k] by {
        if i < k {
            assert(bins[i].name@ != bins[k].name@);
        } else {
            assert(bins[k].name@ != bins[i].name@);
        }
    }
}

/// Locks the binaries declared under tag `t` of locked image `j`, appending
/// them to `dst`. Fails on a name locked before (a data error) or on a
/// forbidden `PATH` (a usage error).
fn set_binaries_settings_from_binaries_defs(
    dst_binaries: &mut Vec<LockedBinary>,
    image_name: &String,
    image_tag: &str,
    src_binaries: &Vec<BinaryEntry>,
    config: &ProjectConfig,
    images: &Vec<LockedImage>,
    j: usize,
    t: usize,
    image_path: &Option<String>,
) -> (r: Result<(), AvatarError>)
    requires
        j < images@.len(),
        t < images@[j as int].tags@.len(),
        images@[j as int].name@ == image_name@,
        images@[j as int].tags@[t as int].tag@ == image_tag@,
        names_unique(old(dst_binaries)@),
        all_anchored(old(dst_binaries)@, images@),
    ensures
        r matches Err(e) ==> e.kind == ErrorKind::Data || e.kind == ErrorKind::Usage,
        r is Ok ==> {
            &&& extends(final(dst_binaries)@, old(dst_binaries)@)
            &&& names_unique(final(dst_binaries)@)
            &&& all_anchored(final(dst_binaries)@, images@)
            &&& bin_names(final(dst_binaries)@) == bin_names(old(dst_binaries)@) + src_names(src_binaries@)
            &&& forall|k: int|
                0 <= k < src_binaries@.len() ==> locks_declared(
                    final(dst_binaries)@,
                    image_name@,
                    image_tag@,
                    images@[j as int].tags@[t as int].config.hash@,
                    images@[j as int].tags@[t as int].config.run_config,
                    *config,
                    *image_path,
                    #[trigger] src_binaries@[k],
                )
        },
        (bin_names(old(dst_binaries)@) + src_names(src_binaries@)).no_duplicates() && (forall|k: int|
            0 <= k < src_binaries@.len() ==> !crate::runconfig::forbidden(
                images@[j as int].tags@[t as int].config.run_config,
                (#[trigger] src_binaries@[k]).config.run_config,
                config.shell_config,
            )) ==> r is Ok,
        r matches Err(e) ==> (e.kind == ErrorKind::Usage ==> exists|k: int|
            0 <= k < src_binaries@.len() && crate::runconfig::forbidden(
                images@[j as int].tags@[t as int].config.run_config,
                (#[trigger] src_binaries@[k]).config.run_config,
                config.shell_config,
            )),
        r matches Err(e) ==> (e.kind == ErrorKind::Data ==> names_dup_at(
            bin_names(old(dst_binaries)@) + src_names(src_binaries@),
            e.message@,
        )),
{
    let ghost start = dst_binaries@;
    let ghost all_names = bin_names(start) + src_names(src_binaries@);
    let mut k: usize = 0;
    while k < src_binaries.len()
        invariant
            k <= src_binaries@.len(),
            j < images@.len(),
            t < images@[j as int].tags@.len(),
            images@[j as int].name@ == image_name@,
            all_names == bin_names(start) + src_names(src_binaries@),
            start == old(dst_binaries)@,
            extends(dst_binaries@, start),
            names_unique(dst_binaries@),
            all_anchored(dst_binaries@, images@),
            bin_names(dst_binaries@) == bin_names(start) + src_names(src_binaries@.take(k as int)),
            images@[j as int].tags@[t as int].tag@ == image_tag@,
            forall|u: int|
                0 <= u < k ==> locks_declared(
                    dst_binaries@,
                    image_name@,
                    image_tag@,
                    images@[j as int].tags@[t as int].config.hash@,
                    images@[j as int].tags@[t as int].config.run_config,
                    *config,
                    *image_path,
                    #[trigger] src_binaries@[u],
                ),
        decreases src_binaries@.len() - k,
    {
        let declared = &src_binaries[k];
        proof {
            assert(src_names(src_binaries@.take(k as int)) == src_names(src_binaries@).take(k as int));
            assert(bin_names(dst_binaries@) == all_names.take(start.len() + k));
            assert(all_names[start.len() + k] == declared.name@);
        }
        if contains_binary(dst_binaries, declared.name.as_str()) {
            let msg = concat3("Duplicated binary definition for '", declared.name.as_str(), "'");
            proof {
                let i = choose|i: int| 0 <= i < dst_binaries@.len() && (#[trigger] dst_binaries@[i]).name@ == declared.name@;
                assert(bin_names(dst_binaries@).len() == dst_binaries@.len());
                assert(bin_names(dst_binaries@)[i] == dst_binaries@[i].name@);
                assert(all_names.take(start.len() + k)[i] == all_names[i]);
                assert(all_names[i] == all_names[start.len() + k]);
                assert(msg@ == dup_message(all_names[start.len() + k]));
                assert(names_dup_at(all_names, msg@));
            }
            return Err(AvatarError::new(ErrorKind::Data, msg));
        }
        let locked_tag = &images[j].tags[t].config;
        let b = lock_binary(image_name.as_str(), image_tag, locked_tag, declared, config, image_path)?;
        let ghost before = dst_binaries@;
        let entry = LockedBinary { name: declared.name.clone(), config: b };
        dst_binaries.push(entry);
        proof {
            assert(dst_binaries@[before.len() as int] == entry);
            assert(images@[j as int].tags@[t as int].config.hash@ == entry.config.oci_image_hash@);
            assert(anchored(entry, images@));
            assert forall|i: int| 0 <= i < dst_binaries@.len() implies anchored(#[trigger] dst_binaries@[i], images@) by {
                if i < before.len() {
                    assert(dst_binaries@[i] == before[i]);
                }
            }
            assert forall|i: int, m: int| 0 <= i < m < dst_binaries@.len() implies (#[trigger] dst_binaries@[i]).name@
                != (#[trigger] dst_binaries@[m]).name@ by {
                if m == before.len() {
                    assert(dst_binaries@[i] == before[i]);
                    if before[i].name@ == entry.name@ {
                        assert(declares_binary(before, declared.name@));
                    }
                } else {
                    assert(dst_binaries@[i] == before[i]);
                    assert(dst_binaries@[m] == before[m]);
                }
            }
            assert(extends(dst_binaries@, before));
            assert(src_binaries@.take(k + 1) == src_binaries@.take(k as int).push(*declared));
            assert(bin_names(dst_binaries@) =~= bin_names(before).push(declared.name@));
            assert(src_names(src_binaries@.take(k + 1)) =~= src_names(src_binaries@.take(k as int)).push(declared.name@));
            assert forall|u: int| 0 <= u < k + 1 implies locks_declared(
                dst_binaries@,
                image_name@,
                image_tag@,
                images@[j as int].tags@[t as int].config.hash@,
                images@[j as int].tags@[t as int].config.run_config,
                *config,
                *image_path,
                #[trigger] src_binaries@[u],
            ) by {
                if u < k {
                    lemma_locks_declared_extends(
                        dst_binaries@,
                        before,
                        image_name@,
                        image_tag@,
                        images@[j as int].tags@[t as int].config.hash@,
                        images@[j as int].tags@[t as int].config.run_config,
                        *config,
                        *image_path,
                        src_binaries@[u],
                    );
                } else {
                    assert(binary_locked_as(
                        dst_binaries@[before.len() as int],
                        image_name@,
                        image_tag@,
                        images@[j as int].tags@[t as int].config.hash@,
                        images@[j as int].tags@[t as int].config.run_config,
                        *config,
                        *image_path,
                        src_binaries@[u],
                    ));
                }
            }
        }
        k = k + 1;
    }
    assert(src_binaries@.take(src_binaries@.len() as int) == src_binaries@);
    Ok(())
}

proof fn lemma_tags_names_take(tags: Seq<crate::config::TagEntry>, t: int)
    requires
        0 <= t < tags.len(),
    ensures
        tags_names(tags.take(t + 1)) == tags_names(tags.take(t)) + src_names(binaries_of(tags[t])),
{
    assert(tags.take(t + 1).drop_last() == tags.take(t));
}

proof fn lemma_tags_names_prefix(tags: Seq<crate::config::TagEntry>, t: int)
    requires
        0 <= t <= tags.len(),
    ensures
        tags_names(tags.take(t)).len() <= tags_names(tags).len(),
        tags_names(tags) == tags_names(tags.take(t)) + tags_names(tags).subrange(
            tags_names(tags.take(t)).len() as int,
            tags_names(tags).len() as int,
        ),
    decreases tags.len() - t,
{
    if t < tags.len() {
        lemma_tags_names_prefix(tags, t + 1);
        lemma_tags_names_take(tags, t);
        let a = tags_names(tags.take(t));
        let b = tags_names(tags.take(t + 1));
        let all = tags_names(tags);
        assert(all == a + all.subrange(a.len() as int, all.len() as int));
    } else {
        assert(tags.take(t) == tags);
        assert(tags_names(tags) == tags_names(tags) + Seq::<Seq<char>>::empty());
    }
}

/// Locks the binaries of every tag of image `j`, appending them to `dst`.
fn set_binaries_settings_from_image_tags(
    dst_binaries: &mut Vec<LockedBinary>,
    image: &ImageEntry,
    config: &ProjectConfig,
    images: &Vec<LockedImage>,
    j: usize,
    resolved: &Vec<ResolvedTag>,
) -> (r: Result<(), AvatarError>)
    requires
        j < images@.len(),
        image_locked(images@[j as int], *image, resolved@),
        names_unique(old(dst_binaries)@),
        all_anchored(old(dst_binaries)@, images@),
    ensures
        r matches Err(e) ==> e.kind == ErrorKind::Data || e.kind == ErrorKind::Usage,
        r is Ok ==> {
            &&& extends(final(dst_binaries)@, old(dst_binaries)@)
            &&& names_unique(final(dst_binaries)@)
            &&& all_anchored(final(dst_binaries)@, images@)
            &&& bin_names(final(dst_binaries)@) == bin_names(old(dst_binaries)@) + tags_names(image.config.tags@)
            &&& forall|t: int, k: int|
                0 <= t < image.config.tags@.len() && 0 <= k < binaries_of(image.config.tags@[t]).len()
                    ==> locks_at_tag(
                    final(dst_binaries)@,
                    *image,
                    images@[j as int],
                    t,
                    *config,
                    resolved@,
                    #[trigger] binaries_of(image.config.tags@[t])[k],
                )
        },
        (bin_names(old(dst_binaries)@) + tags_names(image.config.tags@)).no_duplicates() && (forall|t: int|
            0 <= t < image.config.tags@.len() ==> tag_allowed(#[trigger] image.config.tags@[t], config.shell_config))
            ==> r is Ok,
        r matches Err(e) ==> (e.kind == ErrorKind::Usage ==> exists|t: int|
            0 <= t < image.config.tags@.len() && !tag_allowed(#[trigger] image.config.tags@[t], config.shell_config)),
        r matches Err(e) ==> (e.kind == ErrorKind::Data ==> names_dup_at(
            bin_names(old(dst_binaries)@) + tags_names(image.config.tags@),
            e.message@,
        )),
{
    let ghost start = dst_binaries@;
    let ghost all_names = bin_names(start) + tags_names(image.config.tags@);
    let tags = &image.config.tags;
    let mut t: usize = 0;
    while t < tags.len()
        invariant
            tags == &image.config.tags,
            j < images@.len(),
            image_locked(images@[j as int], *image, resolved@),
            all_names == bin_names(start) + tags_names(tags@),
            start == old(dst_binaries)@,
            t <= tags@.len(),
            extends(dst_binaries@, start),
            names_unique(dst_binaries@),
            all_anchored(dst_binaries@, images@),
            bin_names(dst_binaries@) == bin_names(start) + tags_names(tags@.take(t as int)),
            forall|u: int, k: int|
                0 <= u < t && 0 <= k < binaries_of(tags@[u]).len() ==> locks_at_tag(
                    dst_binaries@,
                    *image,
                    images@[j as int],
                    u,
                    *config,
                    resolved@,
                    #[trigger] binaries_of(tags@[u])[k],
                ),
        decreases tags@.len() - t,
    {
        let entry = &tags[t];
        proof {
            lemma_tags_names_take(tags@, t as int);
            lemma_tags_names_prefix(tags@, t + 1);
        }
        let ghost before = dst_binaries@;
        if let Some(src) = &entry.config.binaries {
            let image_path = match find_resolved(resolved, image.name.as_str(), entry.tag.as_str()) {
                Some(res) => match &res.image_path {
                    Some(p) => Some(p.clone()),
                    None => None,
                },
                None => None,
            };
            proof {
                assert(images@[j as int].tags@[t as int].tag == entry.tag);
                assert(images@[j as int].name == image.name);
                assert(binaries_of(tags@[t as int]) == src@);
                let upto = bin_names(before) + src_names(src@);
                assert(upto =~= bin_names(start) + tags_names(tags@.take(t + 1)));
                let whole = tags_names(tags@);
                let head = tags_names(tags@.take(t + 1));
                let rest = whole.subrange(head.len() as int, whole.len() as int);
                assert(all_names =~= upto + rest);
                assert(all_names.take(upto.len() as int) =~= upto);
                if all_names.no_duplicates() {
                    lemma_no_dup_prefix(all_names, upto.len() as int);
                }
                if forall|u: int| 0 <= u < tags@.len() ==> tag_allowed(#[trigger] tags@[u], config.shell_config) {
                    assert(tag_allowed(tags@[t as int], config.shell_config));
                    assert forall|k: int| 0 <= k < src@.len() implies !crate::runconfig::forbidden(
                        images@[j as int].tags@[t as int].config.run_config,
                        (#[trigger] src@[k]).config.run_config,
                        config.shell_config,
                    ) by {
                        assert(binaries_of(tags@[t as int])[k] == src@[k]);
                        lemma_forbidden_same(
                            images@[j as int].tags@[t as int].config.run_config,
                            tags@[t as int].config.run_config,
                            src@[k].config.run_config,
                            config.shell_config,
                        );
                    }
                }
            }
            let res = set_binaries_settings_from_binaries_defs(
                dst_binaries,
                &image.name,
                entry.tag.as_str(),
                src,
                config,
                images,
                j,
                t,
                &image_path,
            );
            if let Err(e) = res {
                proof {
                    if e.kind == ErrorKind::Usage {
                        let k = choose|k: int|
                            0 <= k < src@.len() && crate::runconfig::forbidden(
                                images@[j as int].tags@[t as int].config.run_config,
                                (#[trigger] src@[k]).config.run_config,
                                config.shell_config,
                            );
                        lemma_forbidden_same(
                            images@[j as int].tags@[t as int].config.run_config,
                            tags@[t as int].config.run_config,
                            src@[k].config.run_config,
                            config.shell_config,
                        );
                        assert(binaries_of(tags@[t as int])[k] == src@[k]);
                        assert(!tag_allowed(tags@[t as int], config.shell_config));
                    }
                    if e.kind == ErrorKind::Data {
                        let upto = bin_names(before) + src_names(src@);
                        lemma_dup_prefix(all_names, upto.len() as int, e.message@);
                    }
                }
                return Err(e);
            }
            proof {
                assert forall|u: int, k: int|
                    0 <= u < t + 1 && 0 <= k < binaries_of(tags@[u]).len() implies locks_at_tag(
                    dst_binaries@,
                    *image,
                    images@[j as int],
                    u,
                    *config,
                    resolved@,
                    #[trigger] binaries_of(tags@[u])[k],
                ) by {
                    if u < t {
                        lemma_locks_at_tag_extends(dst_binaries@, before, *image, images@[j as int], u, *config, resolved@, binaries_of(tags@[u])[k]);
                    } else {
                        assert(binaries_of(tags@[u])[k] == src@[k]);
                        lemma_locks_declared_same_layer(
                            dst_binaries@,
                            image.name@,
                            entry.tag@,
                            images@[j as int].tags@[t as int].config.hash@,
                            images@[j as int].tags@[t as int].config.run_config,
                            tags@[t as int].config.run_config,
                            *config,
                            image_path,
                            src@[k],
                        );
                    }
                }
                assert(extends(dst_binaries@, start)) by {
                    assert forall|i: int| 0 <= i < start.len() implies #[trigger] dst_binaries@[i] == start[i] by {
                        assert(before[i] == start[i]);
                    }
                }
            }
        } else {
            proof {
                assert(binaries_of(tags@[t as int]) == Seq::<BinaryEntry>::empty());
                assert(src_names(Seq::<BinaryEntry>::empty()) =~= Seq::<Seq<char>>::empty());
                assert(bin_names(dst_binaries@) =~= bin_names(start) + tags_names(tags@.take(t + 1)));
            }
        }
        t = t + 1;
    }
    assert(tags@.take(tags@.len() as int) == tags@);
    Ok(())
}

proof fn lemma_images_names_take(imgs: Seq<ImageEntry>, j: int)
    requires
        0 <= j < imgs.len(),
    ensures
        images_names(imgs.take(j + 1)) == images_names(imgs.take(j)) + tags_names(imgs[j].config.tags@),
{
    assert(imgs.take(j + 1).drop_last() == imgs.take(j));
}

proof fn lemma_images_names_prefix(imgs: Seq<ImageEntry>, j: int)
    requires
        0 <= j <= imgs.len(),
    ensures
        images_names(imgs.take(j)).len() <= images_names(imgs).len(),
        images_names(imgs) == images_names(imgs.take(j)) + images_names(imgs).subrange(
            images_names(imgs.take(j)).len() as int,
            images_names(imgs).len() as int,
        ),
    decreases imgs.len() - j,
{
    if j < imgs.len() {
        lemma_images_names_prefix(imgs, j + 1);
        lemma_images_names_take(imgs, j);
        let a = images_names(imgs.take(j));
        let all = images_names(imgs);
        assert(all == a + all.subrange(a.len() as int, all.len() as int));
    } else {
        assert(imgs.take(j) == imgs);
        assert(images_names(imgs) == images_names(imgs) + Seq::<Seq<char>>::empty());
    }
}

/// Whether no declared binary of the Manifest sets or passes through `PATH`.
pub open spec fn manifest_allowed(config: ProjectConfig) -> bool {
    forall|j: int, t: int|
        0 <= j < images_of(config).len() && 0 <= t < images_of(config)[j].config.tags@.len() ==> tag_allowed(
            #[trigger] images_of(config)[j].config.tags@[t],
            config.shell_config,
        )
}

/// The locked binaries of a Manifest, in declaration order, each in its
/// locked image by the digest of its tag. `images` are the Manifest's images,
/// resolved.
fn get_binaries_settings(
    config: &ProjectConfig,
    images: &Vec<LockedImage>,
    resolved: &Vec<ResolvedTag>,
) -> (r: Result<Vec<LockedBinary>, AvatarError>)
    requires
        images@.len() == images_of(*config).len(),
        forall|j: int| 0 <= j < images@.len() ==> image_locked(#[trigger] images@[j], images_of(*config)[j], resolved@),
    ensures
        r matches Ok(bins) ==> {
            &&& names_unique(bins@)
            &&& all_anchored(bins@, images@)
            &&& declares_all(bins@, *config, images@, resolved@)
            &&& bin_names(bins@) == images_names(images_of(*config))
        },
        r matches Err(e) ==> e.kind == ErrorKind::Data || e.kind == ErrorKind::Usage,
        images_names(images_of(*config)).no_duplicates() && manifest_allowed(*config) ==> r is Ok,
        r matches Err(e) ==> (e.kind == ErrorKind::Usage ==> !manifest_allowed(*config)),
        r matches Err(e) ==> (e.kind == ErrorKind::Data ==> names_dup_at(images_names(images_of(*config)), e.message@)),
{
    let mut dst: Vec<LockedBinary> = Vec::new();
    let ghost all_names = images_names(images_of(*config));
    assert(bin_names(dst@) =~= Seq::<Seq<char>>::empty());
    if let Some(decl) = &config.images {
        let mut j: usize = 0;
        assert(decl@.take(0) =~= Seq::<ImageEntry>::empty());
        while j < decl.len()
            invariant
                decl@ == images_of(*config),
                images@.len() == decl@.len(),
                forall|u: int| 0 <= u < images@.len() ==> image_locked(#[trigger] images@[u], decl@[u], resolved@),
                all_names == images_names(decl@),
                j <= decl@.len(),
                names_unique(dst@),
                all_anchored(dst@, images@),
                bin_names(dst@) == images_names(decl@.take(j as int)),
                forall|u: int, t: int, k: int|
                    0 <= u < j && 0 <= t < decl@[u].config.tags@.len() && 0 <= k < binaries_of(
                        decl@[u].config.tags@[t],
                    ).len() ==> locks_at_tag(
                        dst@,
                        decl@[u],
                        images@[u],
                        t,
                        *config,
                        resolved@,
                        #[trigger] binaries_of(decl@[u].config.tags@[t])[k],
                    ),
            decreases decl@.len() - j,
        {
            let ghost before = dst@;
            proof {
                lemma_images_names_take(decl@, j as int);
                lemma_images_names_prefix(decl@, j + 1);
                let upto = bin_names(before) + tags_names(decl@[j as int].config.tags@);
                assert(upto =~= images_names(decl@.take(j + 1)));
                let whole = images_names(decl@);
                let head = images_names(decl@.take(j + 1));
                let rest = whole.subrange(head.len() as int, whole.len() as int);
                assert(all_names =~= upto + rest);
                assert(all_names.take(upto.len() as int) =~= upto);
                if all_names.no_duplicates() {
                    lemma_no_dup_prefix(all_names, upto.len() as int);
                }
                if manifest_allowed(*config) {
                    assert forall|t: int| 0 <= t < decl@[j as int].config.tags@.len() implies tag_allowed(
                        #[trigger] decl@[j as int].config.tags@[t],
                        config.shell_config,
                    ) by {
                        assert(images_of(*config)[j as int] == decl@[j as int]);
                    }
                }
            }
            let res = set_binaries_settings_from_image_tags(&mut dst, &decl[j], config, images, j, resolved);
            if let Err(e) = res {
                proof {
                    if e.kind == ErrorKind::Usage {
                        let t = choose|t: int|
                            0 <= t < decl@[j as int].config.tags@.len() && !tag_allowed(
                                #[trigger] decl@[j as int].config.tags@[t],
                                config.shell_config,
                            );
                        assert(images_of(*config)[j as int] == decl@[j as int]);
                        assert(!manifest_allowed(*config));
                    }
                    if e.kind == ErrorKind::Data {
                        let upto = bin_names(before) + tags_names(decl@[j as int].config.tags@);
                        lemma_dup_prefix(all_names, upto.len() as int, e.message@);
                    }
                }
                return Err(e);
            }
            proof {
                assert forall|u: int, t: int, k: int|
                    0 <= u < j + 1 && 0 <= t < decl@[u].config.tags@.len() && 0 <= k < binaries_of(
                        decl@[u].config.tags@[t],
                    ).len() implies locks_at_tag(
                    dst@,
                    decl@[u],
                    images@[u],
                    t,
                    *config,
                    resolved@,
                    #[trigger] binaries_of(decl@[u].config.tags@[t])[k],
                ) by {
                    if u < j {
                        lemma_locks_at_tag_extends(dst@, before, decl@[u], images@[u], t, *config, resolved@, binaries_of(decl@[u].config.tags@[t])[k]);
                    }
                }
            }
            j = j + 1;
        }
        assert(decl@.take(decl@.len() as int) == decl@);
    }
    Ok(dst)
}

/// Whether two shell configurations hold the same settings.
pub open spec fn same_shell(a: Option<crate::config::ShellConfig>, b: Option<crate::config::ShellConfig>) -> bool {
    match (a, b) {
        (Some(x), Some(y)) => opt_seq(x.env) == opt_seq(y.env) && opt_seq(x.extra_paths) == opt_seq(y.extra_paths),
        (None, None) => true,
        _ => false,
    }
}

/// A copy of a shell configuration.
pub fn copy_shell_config(s: &Option<crate::config::ShellConfig>) -> (r: Option<crate::config::ShellConfig>)
    ensures
        same_shell(r, *s),
{
    match s {
        Some(x) => Some(crate::config::ShellConfig {
            env: copy_opt_entries(&x.env),
            extra_paths: copy_opt_texts(&x.extra_paths),
        }),
        None => None,
    }
}

/// Whether `l` is the Lock of the Manifest `config`, whose bytes are
/// `config_bytes`, with tags resolved as in `resolved`.
pub open spec fn is_lock_of(l: ProjectConfigLock, config: ProjectConfig, config_bytes: Seq<u8>, resolved: Seq<ResolvedTag>) -> bool {
    &&& l.project_config_hash@ == sha256_of(config_bytes)
    &&& l.project_config_hash@.len() == 32
    &&& l.project_internal_id == config.project_internal_id
    &&& same_shell(l.shell_config, config.shell_config)
    &&& l.images@.len() == images_of(config).len()
    &&& forall|j: int| 0 <= j < l.images@.len() ==> image_locked(#[trigger] l.images@[j], images_of(config)[j], resolved)
    &&& names_unique(l.binaries@)
    &&& all_anchored(l.binaries@, l.images@)
    &&& declares_all(l.binaries@, config, l.images@, resolved)
    &&& bin_names(l.binaries@) == images_names(images_of(config))
    &&& images_of(config).len() == 0 ==> l.binaries@.len() == 0
}

/// A well-formed Manifest: image names, and the tags of each image, stand
/// once.
pub open spec fn manifest_well_formed(config: ProjectConfig) -> bool {
    &&& unique_by(images_of(config), |e: ImageEntry| e.name@)
    &&& forall|j: int|
        0 <= j < images_of(config).len() ==> unique_by(
            (#[trigger] images_of(config)[j]).config.tags@,
            |t: crate::config::TagEntry| t.tag@,
        )
}

/// A well-formed Lock: image names, the tags of each image, and binary names
/// stand once.
pub open spec fn lock_well_formed(l: ProjectConfigLock) -> bool {
    &&& unique_by(l.images@, |e: LockedImage| e.name@)
    &&& forall|j: int| 0 <= j < l.images@.len() ==> unique_by((#[trigger] l.images@[j]).tags@, |t: LockedTag| t.tag@)
    &&& names_unique(l.binaries@)
}

/// The Lock of a well-formed Manifest is well formed.
pub proof fn lemma_lock_well_formed(l: ProjectConfigLock, config: ProjectConfig, config_bytes: Seq<u8>, resolved: Seq<ResolvedTag>)
    requires
        is_lock_of(l, config, config_bytes, resolved),
        manifest_well_formed(config),
    ensures
        lock_well_formed(l),
{
    let imgs = images_of(config);
    assert forall|i: int, k: int| 0 <= i < k < l.images@.len() implies (|e: LockedImage| e.name@)(
        #[trigger] l.images@[i],
    ) != (|e: LockedImage| e.name@)(#[trigger] l.images@[k]) by {
        assert(image_locked(l.images@[i], imgs[i], resolved));
        assert(image_locked(l.images@[k], imgs[k], resolved));
        assert((|e: ImageEntry| e.name@)(imgs[i]) != (|e: ImageEntry| e.name@)(imgs[k]));
    }
    assert forall|j: int| 0 <= j < l.images@.len() implies unique_by(
        (#[trigger] l.images@[j]).tags@,
        |t: LockedTag| t.tag@,
    ) by {
        let li = l.images@[j];
        assert(image_locked(li, imgs[j], resolved));
        assert(unique_by(imgs[j].config.tags@, |t: crate::config::TagEntry| t.tag@));
        assert forall|a: int, b: int| 0 <= a < b < li.tags@.len() implies (|t: LockedTag| t.tag@)(
            #[trigger] li.tags@[a],
        ) != (|t: LockedTag| t.tag@)(#[trigger] li.tags@[b]) by {
            assert(li.tags@[a].tag == imgs[j].config.tags@[a].tag);
            assert(li.tags@[b].tag == imgs[j].config.tags@[b].tag);
            assert((|t: crate::config::TagEntry| t.tag@)(imgs[j].config.tags@[a]) != (|t: crate::config::TagEntry| t.tag@)(
                imgs[j].config.tags@[b],
            ));
        }
    }
}

/// Compiles the Lock of a Manifest: its images with their tags resolved, its
/// binaries locked, stamped with the SHA-256 of the Manifest's bytes.
pub fn generate_config_lock(
    config: &ProjectConfig,
    config_bytes: &[u8],
    resolved: &Vec<ResolvedTag>,
) -> (r: Result<ProjectConfigLock, AvatarError>)
    ensures
        r matches Ok(l) ==> is_lock_of(l, *config, config_bytes@, resolved@),
        r matches Ok(l) ==> (manifest_well_formed(*config) ==> lock_well_formed(l)),
        r matches Err(e) ==> e.kind == ErrorKind::Data || e.kind == ErrorKind::Usage || e.kind == ErrorKind::Software,
        all_resolved(*config, resolved@) && images_names(images_of(*config)).no_duplicates() && manifest_allowed(*config)
            ==> r is Ok,
        has_tagless_image(*config) ==> r is Err,
        tags_resolved(*config, resolved@) && has_tagless_image(*config) ==> (r matches Err(e) && e.kind
            == ErrorKind::Data),
        all_resolved(*config, resolved@) && manifest_allowed(*config) && !images_names(
            images_of(*config),
        ).no_duplicates() ==> (r matches Err(e) && e.kind == ErrorKind::Data && names_dup_at(
            images_names(images_of(*config)),
            e.message@,
        )),
        r matches Err(e) ==> (e.kind == ErrorKind::Software ==> !tags_resolved(*config, resolved@)),
        r matches Err(e) ==> (e.kind == ErrorKind::Usage ==> !manifest_allowed(*config)),
        r matches Err(e) ==> (e.kind == ErrorKind::Data ==> has_tagless_image(*config) || names_dup_at(
            images_names(images_of(*config)),
            e.message@,
        )),
{
    let images = match get_image_compiled_configs(config, resolved) {
        Ok(i) => i,
        Err(e) => return Err(e),
    };
    let binaries = match get_binaries_settings(config, &images, resolved) {
        Ok(b) => b,
        Err(e) => return Err(e),
    };
    proof {
        lemma_unique_names_no_dup(binaries@);
    }
    assert(bin_names(binaries@).len() == binaries@.len());
    assert(images_of(*config).len() == 0 ==> images_names(images_of(*config)).len() == 0);
    let hash = sha256(config_bytes);
    let l = ProjectConfigLock::new(
        hash,
        config.project_internal_id.clone(),
        copy_shell_config(&config.shell_config),
        images,
        binaries,
    );
    proof {
        if manifest_well_formed(*config) {
            lemma_lock_well_formed(l, *config, config_bytes@, resolved@);
        }
    }
    Ok(l)
}

/// Two Locks compiled from the same Manifest bytes carry the same stamp, the
/// same project id, the same images and tags in the same order, and the same
/// binary names in the same order.
pub proof fn lemma_same_manifest_same_stamp_and_tags(
    config: ProjectConfig,
    config_bytes: Seq<u8>,
    resolved: Seq<ResolvedTag>,
    a: ProjectConfigLock,
    b: ProjectConfigLock,
)
    requires
        is_lock_of(a, config, config_bytes, resolved),
        is_lock_of(b, config, config_bytes, resolved),
    ensures
        a.project_config_hash@ == b.project_config_hash@,
        a.project_internal_id == b.project_internal_id,
        bin_names(a.binaries@) == bin_names(b.binaries@),
        a.images@.len() == b.images@.len(),
        forall|j: int| 0 <= j < a.images@.len() ==> (#[trigger] a.images@[j]).name == b.images@[j].name
            && a.images@[j].tags@.len() == b.images@[j].tags@.len(),
        forall|j: int, t: int|
            #![trigger a.images@[j].tags@[t]]
            0 <= j < a.images@.len() && 0 <= t < a.images@[j].tags@.len() ==> a.images@[j].tags@[t].tag
                == b.images@[j].tags@[t].tag,
{
    assert forall|j: int, t: int|
        #![trigger a.images@[j].tags@[t]]
        0 <= j < a.images@.len() && 0 <= t < a.images@[j].tags@.len() implies a.images@[j].tags@[t].tag
            == b.images@[j].tags@[t].tag by {
        assert(image_locked(a.images@[j], images_of(config)[j], resolved));
        assert(image_locked(b.images@[j], images_of(config)[j], resolved));
    }
    assert forall|j: int| 0 <= j < a.images@.len() implies (#[trigger] a.images@[j]).name == b.images@[j].name
        && a.images@[j].tags@.len() == b.images@[j].tags@.len() by {
        assert(image_locked(a.images@[j], images_of(config)[j], resolved));
        assert(image_locked(b.images@[j], images_of(config)[j], resolved));
    }
}

} // verus!
