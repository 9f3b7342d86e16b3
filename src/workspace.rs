//! What the workspace installer walks: the images and tags of the State, its
//! named volumes, and the ancestors searched for a project root.

use vstd::prelude::*;
use crate::config::{LockedBinary, LockedImage, ProjectConfigLock, VolumeConfigLock};
use crate::invocation::lemma_views_push;
use crate::text::{concat3, join_texts, join_with, split_at_char, split_spec, views};
use crate::volumes::{dot_slashes, dotted};

verus! {

/// An image of the State by its tag and digest.
#[derive(Clone, Debug, PartialEq, Eq)]
pub struct InstalledImage {
    pub image_name: String,
    pub tag: String,
    pub hash: String,
}

pub open spec fn installed_view(r: Seq<InstalledImage>) -> Seq<(Seq<char>, Seq<char>, Seq<char>)> {
    r.map_values(|x: InstalledImage| (x.image_name@, x.tag@, x.hash@))
}

/// (image, tag, digest) of each tag of an image, in order.
pub open spec fn tag_items(name: Seq<char>, tags: Seq<crate::config::LockedTag>) -> Seq<(Seq<char>, Seq<char>, Seq<char>)>
    decreases tags.len(),
{
    if tags.len() == 0 {
        Seq::empty()
    } else {
        tag_items(name, tags.drop_last()).push((name, tags.last().tag@, tags.last().config.hash@))
    }
}

/// (image, tag, digest) of each tag of each image, in order.
pub open spec fn image_items(images: Seq<LockedImage>) -> Seq<(Seq<char>, Seq<char>, Seq<char>)>
    decreases images.len(),
{
    if images.len() == 0 {
        Seq::empty()
    } else {
        image_items(images.drop_last()) + tag_items(images.last().name@, images.last().tags@)
    }
}

/// Every (image, tag, digest) of the State, image by image.
pub fn installed_images(project_state: &ProjectConfigLock) -> (r: Vec<InstalledImage>)
    ensures
        installed_view(r@) == image_items(project_state.images@),
{
    let images = &project_state.images;
    let mut r: Vec<InstalledImage> = Vec::new();
    let mut j: usize = 0;
    while j < images.len()
        invariant
            j <= images@.len(),
            images == &project_state.images,
            installed_view(r@) == image_items(images@.take(j as int)),
        decreases images@.len() - j,
    {
        let tags = &images[j].tags;
        let ghost start = installed_view(r@);
        let mut t: usize = 0;
        while t < tags.len()
            invariant
                j < images@.len(),
                tags == &images@[j as int].tags,
                t <= tags@.len(),
                installed_view(r@) == start + tag_items(images@[j as int].name@, tags@.take(t as int)),
            decreases tags@.len() - t,
        {
            let item = InstalledImage {
                image_name: images[j].name.clone(),
                tag: tags[t].tag.clone(),
                hash: tags[t].config.hash.clone(),
            };
            let ghost before = r@;
            r.push(item);
            proof {
                assert(tags@.take(t + 1).drop_last() == tags@.take(t as int));
                assert(installed_view(r@) =~= installed_view(before).push((item.image_name@, item.tag@, item.hash@)));
            }
            t = t + 1;
        }
        proof {
            assert(tags@.take(tags@.len() as int) == tags@);
            assert(images@.take(j + 1).drop_last() == images@.take(j as int));
        }
        j = j + 1;
    }
    assert(images@.take(images@.len() as int) == images@);
    r
}

/// The name of the helper container that extracts an image's passwd file.
pub open spec fn passwd_helper_name_of(pid: Seq<char>, image_name: Seq<char>, tag: Seq<char>, hash: Seq<char>) -> Seq<char> {
    pid + "_"@ + dotted(image_name) + "_"@ + tag + "_"@ + hash + "_passwd"@
}

/// `<project id>_<image name, / as .>_<tag>_<digest>_passwd`.
pub fn passwd_helper_name(project_internal_id: &str, image: &InstalledImage) -> (r: String)
    ensures
        r@ == passwd_helper_name_of(project_internal_id@, image.image_name@, image.tag@, image.hash@),
{
    let d = dot_slashes(image.image_name.as_str());
    let mut r = concat3(project_internal_id, "_", d.as_str());
    r.append("_");
    r.append(image.tag.as_str());
    r.append("_");
    r.append(image.hash.as_str());
    r.append("_passwd");
    r
}

/// The frozen volumes of a binary, none when it has none.
pub open spec fn volumes_of(b: LockedBinary) -> Seq<VolumeConfigLock> {
    match b.config.run_config {
        Some(c) => match c.volumes {
            Some(v) => v@,
            None => Seq::empty(),
        },
        None => Seq::empty(),
    }
}

/// All volumes of the binaries, binary by binary.
pub open spec fn all_volumes(bins: Seq<LockedBinary>) -> Seq<VolumeConfigLock>
    decreases bins.len(),
{
    if bins.len() == 0 {
        Seq::empty()
    } else {
        all_volumes(bins.drop_last()) + volumes_of(bins.last())
    }
}

/// The named volumes the State's binaries use, binary by binary.
pub fn managed_volumes(project_state: &ProjectConfigLock) -> (r: Vec<VolumeConfigLock>)
    ensures
        r@ == all_volumes(project_state.binaries@),
{
    let bins = &project_state.binaries;
    let mut r: Vec<VolumeConfigLock> = Vec::new();
    let mut i: usize = 0;
    while i < bins.len()
        invariant
            bins == &project_state.binaries,
            i <= bins@.len(),
            r@ == all_volumes(bins@.take(i as int)),
        decreases bins@.len() - i,
    {
        assert(bins@.take(i + 1).drop_last() == bins@.take(i as int));
        assert(bins@.take(i + 1).last() == bins@[i as int]);
        if let Some(c) = &bins[i].config.run_config {
            if let Some(v) = &c.volumes {
                let mut k: usize = 0;
                let ghost start = r@;
                while k < v.len()
                    invariant
                        k <= v@.len(),
                        r@ == start + v@.take(k as int),
                    decreases v@.len() - k,
                {
                    r.push(VolumeConfigLock {
                        container_path: v[k].container_path.clone(),
                        volume_name: v[k].volume_name.clone(),
                    });
                    assert(v@.take(k + 1) == v@.take(k as int).push(v@[k as int]));
                    k = k + 1;
                }
                assert(v@.take(v@.len() as int) == v@);
            } else {
                assert(r@ == r@ + Seq::<VolumeConfigLock>::empty());
            }
        } else {
            assert(r@ == r@ + Seq::<VolumeConfigLock>::empty());
        }
        i = i + 1;
    }
    assert(bins@.take(bins@.len() as int) == bins@);
    r
}

/// The ancestors of an absolute path cut at `/`, itself first, `/` last;
/// empty components (a trailing `/`, `//`) add no ancestor.
pub open spec fn ancestors_of(parts: Seq<Seq<char>>) -> Seq<Seq<char>>
    decreases parts.len(),
{
    if parts.len() <= 1 {
        seq!["/"@]
    } else if parts.last().len() == 0 {
        ancestors_of(parts.drop_last())
    } else {
        seq![join_with(parts, "/"@)] + ancestors_of(parts.drop_last())
    }
}

/// The directories searched for a project root, from `path` up to `/`.
pub fn ancestors(path: &str) -> (r: Vec<String>)
    requires
        crate::text::starts_with(path@, "/"@),
    ensures
        views(r@) == ancestors_of(split_spec(path@, '/')),
{
    let parts = split_at_char(path, '/');
    let mut r: Vec<String> = Vec::new();
    let mut n: usize = parts.len();
    let mut prefix: Vec<String> = crate::merge::copy_texts(&parts);
    assert(views(parts@).take(n as int) == views(parts@));
    assert(views(r@) =~= Seq::<Seq<char>>::empty());
    assert(views(r@) + ancestors_of(views(parts@).take(n as int)) =~= ancestors_of(views(parts@)));
    while n > 1
        invariant
            1 <= n <= parts@.len(),
            views(prefix@) == views(parts@).take(n as int),
            views(r@) + ancestors_of(views(parts@).take(n as int)) == ancestors_of(views(parts@)),
        decreases n,
    {
        let ghost before = r@;
        let ghost p = prefix@;
        assert(views(parts@).take(n as int).last() == parts@[n - 1]@);
        if parts[n - 1].unicode_len() > 0 {
            let j = join_texts(&prefix, "/");
            r.push(j);
            proof {
                lemma_views_push(before, j);
            }
        }
        prefix.pop();
        proof {
            assert(views(parts@).take(n as int).drop_last() == views(parts@).take(n - 1));
            assert(views(prefix@) =~= views(p).drop_last());
            assert(views(r@) + ancestors_of(views(parts@).take(n - 1)) =~= views(before) + ancestors_of(
                views(parts@).take(n as int),
            ));
        }
        n = n - 1;
    }
    r.push("/".to_owned());
    proof {
        assert(views(parts@).take(parts@.len() as int) == views(parts@));
    }
    assert(views(r@) =~= ancestors_of(views(parts@)));
    r
}

} // verus!
