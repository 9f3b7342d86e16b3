//! Named volumes: merging the declared volumes and synthesizing their names.

use vstd::prelude::*;
use vstd::string::*;
use vstd::utf8::encode_utf8;
use crate::config::{VolumeConfig, VolumeConfigLock, VolumeEntry, VolumeScope};
use crate::primitives::{hex_of, sha256, sha256_of, to_hex};
use crate::merge::{lemma_concat_unique_by, lemma_filter_unique_by, opt_seq, opt_unique_by, unique_by};
use crate::text::{concat3, same_text};

verus! {

broadcast use vstd::seq_lib::group_filter_ensures;

/// How many digest bytes a synthesized volume name keeps.
pub const VOLUME_HASH_BYTES: usize = 16;

/// `/` turned into `.`, so that an image reference can stand in a name.
pub open spec fn dotted(s: Seq<char>) -> Seq<char> {
    s.map_values(|c: char| if c == '/' { '.' } else { c })
}

/// `image_name:tag`.
pub open spec fn image_ref_of(image_name: Seq<char>, tag: Seq<char>) -> Seq<char> {
    image_name + ":"@ + tag
}

/// The hex of the first sixteen bytes of SHA-256 of the path's UTF-8 bytes.
pub open spec fn path_hash(container_path: Seq<char>) -> Seq<char> {
    hex_of(sha256_of(encode_utf8(container_path)).subrange(0, VOLUME_HASH_BYTES as int))
}

/// The name of a volume: the explicit one, or one built from its scope.
pub open spec fn volume_name_of(
    project_internal_id: Seq<char>,
    image_ref: Seq<char>,
    binary_name: Seq<char>,
    config: VolumeConfig,
    container_path: Seq<char>,
) -> Seq<char> {
    match config.name {
        Some(n) => n@,
        None => match config.scope {
            VolumeScope::Project => "prj_"@ + project_internal_id + "_"@ + path_hash(container_path),
            VolumeScope::OCIImage => "img_"@ + project_internal_id + "_"@ + dotted(image_ref) + "_"@
                + path_hash(container_path),
            VolumeScope::Binary => "bin_"@ + project_internal_id + "_"@ + dotted(image_ref) + "_"@
                + binary_name + "_"@ + path_hash(container_path),
        },
    }
}

/// Whether some volume of the sequence is declared at this path.
pub open spec fn has_volume_at(s: Seq<VolumeEntry>, p: Seq<char>) -> bool {
    exists|i: int| 0 <= i < s.len() && (#[trigger] s[i]).container_path@ == p
}

pub open spec fn volume_kept_under(o: Seq<VolumeEntry>) -> spec_fn(VolumeEntry) -> bool {
    |e: VolumeEntry| !has_volume_at(o, e.container_path@)
}

/// A mapping-merge keyed by container path: the overlay wins.
pub open spec fn merge_volume_entries(b: Seq<VolumeEntry>, o: Seq<VolumeEntry>) -> Seq<VolumeEntry> {
    b.filter(volume_kept_under(o)) + o
}

/// Each declared volume with its materialized name, in order.
pub open spec fn locks_of(
    v: Seq<VolumeEntry>,
    locks: Seq<VolumeConfigLock>,
    project_internal_id: Seq<char>,
    image_ref: Seq<char>,
    binary_name: Seq<char>,
) -> bool {
    &&& locks.len() == v.len()
    &&& forall|i: int|
        0 <= i < v.len() ==> (#[trigger] locks[i]).container_path == v[i].container_path
            && locks[i].volume_name@ == volume_name_of(
            project_internal_id,
            image_ref,
            binary_name,
            v[i].config,
            v[i].container_path@,
        )
}

/// `s` with each `/` turned into `.`.
pub fn dot_slashes(s: &str) -> (r: String)
    ensures
        r@ == dotted(s@),
{
    let n = s.unicode_len();
    let mut r = String::new();
    let mut i: usize = 0;
    while i < n
        invariant
            n == s@.len(),
            i <= n,
            r@ == dotted(s@.subrange(0, i as int)),
        decreases n - i,
    {
        let c = s.get_char(i);
        if c == '/' {
            r.append(".");
            proof { reveal_strlit("."); }
        } else {
            r.append(s.substring_char(i, i + 1));
        }
        assert(s@.subrange(0, i + 1) == s@.subrange(0, i as int).push(c));
        assert(dotted(s@.subrange(0, i + 1)) == dotted(s@.subrange(0, i as int)).push(
            if c == '/' { '.' } else { c },
        ));
        i = i + 1;
    }
    assert(s@.subrange(0, n as int) == s@);
    r
}

/// `image_name:tag`.
pub fn image_ref(image_name: &str, tag: &str) -> (r: String)
    ensures
        r@ == image_ref_of(image_name@, tag@),
{
    concat3(image_name, ":", tag)
}

/// The volume's name: its explicit name, else `prj_<id>_<h>`,
/// `img_<id>_<ref>_<h>` or `bin_<id>_<ref>_<binary>_<h>` by scope, where
/// `<ref>` is the image reference with `/` turned into `.` and `<h>` the hex
/// of the first sixteen bytes of SHA-256 of the container path.
pub fn generate_volume_name(
    project_internal_id: &str,
    image_ref: &str,
    binary_name: &str,
    volume_config: &VolumeConfig,
    container_path: &str,
) -> (r: String)
    ensures
        r@ == volume_name_of(project_internal_id@, image_ref@, binary_name@, *volume_config, container_path@),
{
    match &volume_config.name {
        Some(n) => n.clone(),
        None => {
            let digest = sha256(container_path.as_bytes());
            let head = vstd::slice::slice_subrange(digest.as_slice(), 0, VOLUME_HASH_BYTES);
            let h = to_hex(head);
            match volume_config.scope {
                VolumeScope::Project => {
                    let mut r = concat3("prj_", project_internal_id, "_");
                    r.append(h.as_str());
                    r
                },
                VolumeScope::OCIImage => {
                    let d = dot_slashes(image_ref);
                    let mut r = concat3("img_", project_internal_id, "_");
                    r.append(d.as_str());
                    r.append("_");
                    r.append(h.as_str());
                    r
                },
                VolumeScope::Binary => {
                    let d = dot_slashes(image_ref);
                    let mut r = concat3("bin_", project_internal_id, "_");
                    r.append(d.as_str());
                    r.append("_");
                    r.append(binary_name);
                    r.append("_");
                    r.append(h.as_str());
                    r
                },
            }
        },
    }
}

/// The declared volumes with their names materialized.
pub fn generate_volume_config_lock(
    image_volume_configs: &Option<Vec<VolumeEntry>>,
    project_internal_id: &str,
    image_ref: &str,
    binary_name: &str,
) -> (r: Option<Vec<VolumeConfigLock>>)
    ensures
        match (image_volume_configs, r) {
            (Some(v), Some(l)) => locks_of(v@, l@, project_internal_id@, image_ref@, binary_name@),
            (None, None) => true,
            _ => false,
        },
{
    match image_volume_configs {
        Some(v) => {
            let mut out: Vec<VolumeConfigLock> = Vec::new();
            let mut i: usize = 0;
            while i < v.len()
                invariant
                    i <= v@.len(),
                    locks_of(v@.take(i as int), out@, project_internal_id@, image_ref@, binary_name@),
                decreases v@.len() - i,
            {
                let name = generate_volume_name(
                    project_internal_id,
                    image_ref,
                    binary_name,
                    &v[i].config,
                    v[i].container_path.as_str(),
                );
                out.push(VolumeConfigLock { container_path: v[i].container_path.clone(), volume_name: name });
                i = i + 1;
            }
            assert(v@.take(v@.len() as int) == v@);
            Some(out)
        },
        None => None,
    }
}

/// Whether a volume of the sequence is declared at this path.
pub fn contains_volume_at(s: &Vec<VolumeEntry>, p: &str) -> (r: bool)
    ensures
        r == has_volume_at(s@, p@),
{
    let mut i: usize = 0;
    while i < s.len()
        invariant
            i <= s@.len(),
            forall|j: int| 0 <= j < i ==> (#[trigger] s@[j]).container_path@ != p@,
        decreases s@.len() - i,
    {
        if same_text(s[i].container_path.as_str(), p) {
            return true;
        }
        i = i + 1;
    }
    false
}

/// `b` overlaid by `o`, keyed by container path.
pub fn merge_volume_lists(b: &Vec<VolumeEntry>, o: &Vec<VolumeEntry>) -> (r: Vec<VolumeEntry>)
    ensures
        r@ == merge_volume_entries(b@, o@),
{
    let mut r: Vec<VolumeEntry> = Vec::new();
    let mut i: usize = 0;
    while i < b.len()
        invariant
            i <= b@.len(),
            r@ == b@.take(i as int).filter(volume_kept_under(o@)),
        decreases b@.len() - i,
    {
        proof {
            reveal(Seq::filter);
            assert(b@.take(i + 1).drop_last() == b@.take(i as int));
        }
        if !contains_volume_at(o, b[i].container_path.as_str()) {
            r.push(b[i].duplicate());
        }
        i = i + 1;
    }
    assert(b@.take(b@.len() as int) == b@);
    let ghost kept = r@;
    let mut j: usize = 0;
    while j < o.len()
        invariant
            j <= o@.len(),
            r@ == kept + o@.take(j as int),
        decreases o@.len() - j,
    {
        r.push(o[j].duplicate());
        assert(o@.take(j + 1) == o@.take(j as int).push(o@[j as int]));
        j = j + 1;
    }
    assert(o@.take(o@.len() as int) == o@);
    r
}

/// Merging two mappings of volumes, each with a volume per path at most,
/// gives one with a volume per path at most.
pub proof fn lemma_merge_volume_entries_unique(b: Seq<VolumeEntry>, o: Seq<VolumeEntry>)
    requires
        unique_by(b, |v: VolumeEntry| v.container_path@),
        unique_by(o, |v: VolumeEntry| v.container_path@),
    ensures
        unique_by(merge_volume_entries(b, o), |v: VolumeEntry| v.container_path@),
{
    let key = |v: VolumeEntry| v.container_path@;
    let f = b.filter(volume_kept_under(o));
    lemma_filter_unique_by(b, volume_kept_under(o), key);
    assert forall|i: int, k: int| 0 <= i < f.len() && 0 <= k < o.len() implies key(#[trigger] f[i]) != key(
        #[trigger] o[k],
    ) by {
        b.lemma_filter_pred(volume_kept_under(o), i);
    }
    lemma_concat_unique_by(f, o, key);
}

pub proof fn lemma_locks_unique(
    v: Seq<VolumeEntry>,
    l: Seq<VolumeConfigLock>,
    project_internal_id: Seq<char>,
    image_ref: Seq<char>,
    binary_name: Seq<char>,
)
    requires
        locks_of(v, l, project_internal_id, image_ref, binary_name),
        unique_by(v, |x: VolumeEntry| x.container_path@),
    ensures
        unique_by(l, |x: VolumeConfigLock| x.container_path@),
{
    assert forall|i: int, k: int| 0 <= i < k < l.len() implies (|x: VolumeConfigLock| x.container_path@)(
        #[trigger] l[i],
    ) != (|x: VolumeConfigLock| x.container_path@)(#[trigger] l[k]) by {
        assert(l[i].container_path == v[i].container_path && l[k].container_path == v[k].container_path);
        assert((|x: VolumeEntry| x.container_path@)(v[i]) != (|x: VolumeEntry| x.container_path@)(v[k]));
    }
}

/// The merged volumes of two layers, named.
pub fn merge_volumes(
    base_volumes: &Option<Vec<VolumeEntry>>,
    new_volumes: &Option<Vec<VolumeEntry>>,
    project_internal_id: &str,
    image_ref: &str,
    binary_name: &str,
) -> (r: Option<Vec<VolumeConfigLock>>)
    ensures
        match (base_volumes, new_volumes, r) {
            (Some(b), Some(o), Some(l)) => locks_of(
                merge_volume_entries(b@, o@),
                l@,
                project_internal_id@,
                image_ref@,
                binary_name@,
            ),
            (Some(b), None, Some(l)) => locks_of(b@, l@, project_internal_id@, image_ref@, binary_name@),
            (None, Some(o), Some(l)) => locks_of(o@, l@, project_internal_id@, image_ref@, binary_name@),
            (None, None, None) => true,
            _ => false,
        },
        opt_unique_by(opt_seq(*base_volumes), |v: VolumeEntry| v.container_path@) && opt_unique_by(
            opt_seq(*new_volumes),
            |v: VolumeEntry| v.container_path@,
        ) ==> opt_unique_by(opt_seq(r), |x: VolumeConfigLock| x.container_path@),
{
    let ghost key = |v: VolumeEntry| v.container_path@;
    let ghost merged_view: Option<Seq<VolumeEntry>> = match (opt_seq(*base_volumes), opt_seq(*new_volumes)) {
        (Some(x), Some(y)) => Some(merge_volume_entries(x, y)),
        (Some(x), None) => Some(x),
        (None, y) => y,
    };
    let res = match base_volumes {
        Some(b) => match new_volumes {
            Some(o) => {
                let merged = merge_volume_lists(b, o);
                proof {
                    if unique_by(b@, key) && unique_by(o@, key) {
                        lemma_merge_volume_entries_unique(b@, o@);
                    }
                }
                generate_volume_config_lock(&Some(merged), project_internal_id, image_ref, binary_name)
            },
            None => generate_volume_config_lock(base_volumes, project_internal_id, image_ref, binary_name),
        },
        None => generate_volume_config_lock(new_volumes, project_internal_id, image_ref, binary_name),
    };
    proof {
        if merged_view is Some && res is Some && opt_unique_by(opt_seq(*base_volumes), key) && opt_unique_by(
            opt_seq(*new_volumes),
            key,
        ) {
            if base_volumes is Some && new_volumes is Some {
                lemma_merge_volume_entries_unique(base_volumes.unwrap()@, new_volumes.unwrap()@);
            }
            lemma_locks_unique(merged_view.unwrap(), res.unwrap()@, project_internal_id@, image_ref@, binary_name@);
        }
    }
    res
}

/// A volume's name is a function of the scope, the project id, the image
/// reference, the binary name, the container path and the explicit name
/// alone: two volumes that agree on these get the same name.
pub proof fn lemma_volume_name_pure(
    project_internal_id: Seq<char>,
    image_ref: Seq<char>,
    binary_name: Seq<char>,
    a: VolumeConfig,
    b: VolumeConfig,
    container_path: Seq<char>,
)
    requires
        a.scope == b.scope,
        a.name is None <==> b.name is None,
        a.name is Some ==> a.name.unwrap()@ == b.name.unwrap()@,
    ensures
        volume_name_of(project_internal_id, image_ref, binary_name, a, container_path) == volume_name_of(
            project_internal_id,
            image_ref,
            binary_name,
            b,
            container_path,
        ),
{
}

/// Synthesized names of different scopes never meet: each scope has its own
/// prefix.
pub proof fn lemma_scopes_apart(
    project_internal_id: Seq<char>,
    image_ref: Seq<char>,
    binary_name: Seq<char>,
    a: VolumeConfig,
    b: VolumeConfig,
    container_path_a: Seq<char>,
    container_path_b: Seq<char>,
)
    requires
        a.name is None,
        b.name is None,
        a.scope != b.scope,
    ensures
        volume_name_of(project_internal_id, image_ref, binary_name, a, container_path_a) != volume_name_of(
            project_internal_id,
            image_ref,
            binary_name,
            b,
            container_path_b,
        ),
{
    reveal_strlit("prj_");
    reveal_strlit("img_");
    reveal_strlit("bin_");
    let na = volume_name_of(project_internal_id, image_ref, binary_name, a, container_path_a);
    let nb = volume_name_of(project_internal_id, image_ref, binary_name, b, container_path_b);
    assert(na[0] != nb[0]);
}

} // verus!
