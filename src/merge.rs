//! The run-configuration merger: image-level and binary-level settings,
//! overlaid by the shell configuration, become one frozen configuration per
//! binary.

use vstd::prelude::*;
use crate::config::Entry;
use crate::text::same_text;

verus! {

broadcast use vstd::seq_lib::group_filter_ensures;

/// The one environment variable that no configuration may set.
pub const PATH_VAR: &'static str = "PATH";

/// Where the project directory is mounted inside each container.
pub const CONTAINER_PROJECT_MOUNT: &'static str = "/playground";

pub const ERROR_MSG_FORBIDDEN_PATH_ENV_VAR: &'static str =
    "Passing a custom PATH environment variable is forbidden";

/// Whether some entry of the mapping has this key.
pub open spec fn has_key(s: Seq<Entry>, k: Seq<char>) -> bool {
    exists|i: int| 0 <= i < s.len() && (#[trigger] s[i]).key@ == k
}

/// Whether the entry survives an overlay: its key is not overridden.
pub open spec fn kept_under(o: Seq<Entry>) -> spec_fn(Entry) -> bool {
    |e: Entry| !has_key(o, e.key@)
}

/// A mapping-merge: the base entries whose keys the overlay does not set,
/// then the overlay's entries, which win.
pub open spec fn merge_entries(b: Seq<Entry>, o: Seq<Entry>) -> Seq<Entry> {
    b.filter(kept_under(o)) + o
}

/// The contents of an optional mapping or set.
pub open spec fn opt_seq<T>(v: Option<Vec<T>>) -> Option<Seq<T>> {
    match v {
        Some(x) => Some(x@),
        None => None,
    }
}

/// Both present: merged; one present: that one; neither: absent.
pub open spec fn merge_opt_entries(b: Option<Seq<Entry>>, o: Option<Seq<Entry>>) -> Option<Seq<Entry>> {
    match (b, o) {
        (Some(x), Some(y)) => Some(merge_entries(x, y)),
        (Some(x), None) => Some(x),
        (None, y) => y,
    }
}

/// Whether a string of the sequence holds these characters.
pub open spec fn has_text(s: Seq<String>, t: Seq<char>) -> bool {
    exists|i: int| 0 <= i < s.len() && (#[trigger] s[i])@ == t
}

pub open spec fn absent_from(b: Seq<String>) -> spec_fn(String) -> bool {
    |x: String| !has_text(b, x@)
}

/// A set-union: the base, then what the other adds.
pub open spec fn union_texts(b: Seq<String>, o: Seq<String>) -> Seq<String> {
    b + o.filter(absent_from(b))
}

pub open spec fn union_opt_texts(b: Option<Seq<String>>, o: Option<Seq<String>>) -> Option<Seq<String>> {
    match (b, o) {
        (Some(x), Some(y)) => Some(union_texts(x, y)),
        (Some(x), None) => Some(x),
        (None, y) => y,
    }
}

/// Whether no two elements of `s` share a key: what makes a sequence of
/// entries a mapping, or a sequence of names a set.
pub open spec fn unique_by<T>(s: Seq<T>, key: spec_fn(T) -> Seq<char>) -> bool {
    forall|i: int, k: int| 0 <= i < k < s.len() ==> key(#[trigger] s[i]) != key(#[trigger] s[k])
}

/// A well-formed mapping: each key stands once.
pub open spec fn keys_unique(s: Seq<Entry>) -> bool {
    unique_by(s, |e: Entry| e.key@)
}

/// A well-formed set: each text stands once.
pub open spec fn texts_unique(s: Seq<String>) -> bool {
    unique_by(s, |x: String| x@)
}

pub open spec fn opt_unique_by<T>(s: Option<Seq<T>>, key: spec_fn(T) -> Seq<char>) -> bool {
    match s {
        Some(x) => unique_by(x, key),
        None => true,
    }
}

/// What a filter keeps of a sequence without repeated keys has none either.
pub proof fn lemma_filter_unique_by<T>(s: Seq<T>, p: spec_fn(T) -> bool, key: spec_fn(T) -> Seq<char>)
    requires
        unique_by(s, key),
    ensures
        unique_by(s.filter(p), key),
    decreases s.len(),
{
    reveal(Seq::filter);
    if s.len() > 0 {
        let d = s.drop_last();
        assert forall|i: int, k: int| 0 <= i < k < d.len() implies key(#[trigger] d[i]) != key(#[trigger] d[k]) by {
            assert(d[i] == s[i] && d[k] == s[k]);
        }
        lemma_filter_unique_by(d, p, key);
        let fd = d.filter(p);
        if p(s.last()) {
            assert(s.filter(p) == fd.push(s.last()));
            assert forall|i: int, k: int| 0 <= i < k < fd.len() + 1 implies key(
                #[trigger] fd.push(s.last())[i],
            ) != key(#[trigger] fd.push(s.last())[k]) by {
                if k == fd.len() {
                    assert(fd.contains(fd[i]));
                    d.lemma_filter_contains_rev(p, fd[i]);
                    let m = choose|m: int| 0 <= m < d.len() && d[m] == fd[i];
                    assert(s[m] == fd[i]);
                    assert(key(s[m]) != key(s[s.len() - 1]));
                } else {
                    assert(fd.push(s.last())[i] == fd[i] && fd.push(s.last())[k] == fd[k]);
                }
            }
        } else {
            assert(s.filter(p) == fd);
        }
    }
}

/// Two sequences without repeated keys and without a key in common make
/// one without repeated keys.
pub proof fn lemma_concat_unique_by<T>(a: Seq<T>, b: Seq<T>, key: spec_fn(T) -> Seq<char>)
    requires
        unique_by(a, key),
        unique_by(b, key),
        forall|i: int, k: int| 0 <= i < a.len() && 0 <= k < b.len() ==> key(#[trigger] a[i]) != key(#[trigger] b[k]),
    ensures
        unique_by(a + b, key),
{
    let c = a + b;
    assert forall|i: int, k: int| 0 <= i < k < c.len() implies key(#[trigger] c[i]) != key(#[trigger] c[k]) by {
        if k < a.len() {
            assert(c[i] == a[i] && c[k] == a[k]);
        } else if i < a.len() {
            assert(c[i] == a[i] && c[k] == b[k - a.len()]);
        } else {
            assert(c[i] == b[i - a.len()] && c[k] == b[k - a.len()]);
        }
    }
}

/// Merging two well-formed mappings gives a well-formed mapping.
pub proof fn lemma_merge_entries_unique(b: Seq<Entry>, o: Seq<Entry>)
    requires
        keys_unique(b),
        keys_unique(o),
    ensures
        keys_unique(merge_entries(b, o)),
{
    let key = |e: Entry| e.key@;
    let f = b.filter(kept_under(o));
    lemma_filter_unique_by(b, kept_under(o), key);
    assert forall|i: int, k: int| 0 <= i < f.len() && 0 <= k < o.len() implies key(#[trigger] f[i]) != key(
        #[trigger] o[k],
    ) by {
        b.lemma_filter_pred(kept_under(o), i);
    }
    lemma_concat_unique_by(f, o, key);
}

/// Uniting two well-formed sets gives a well-formed set.
pub proof fn lemma_union_texts_unique(b: Seq<String>, o: Seq<String>)
    requires
        texts_unique(b),
        texts_unique(o),
    ensures
        texts_unique(union_texts(b, o)),
{
    let key = |x: String| x@;
    let f = o.filter(absent_from(b));
    lemma_filter_unique_by(o, absent_from(b), key);
    assert forall|i: int, k: int| 0 <= i < b.len() && 0 <= k < f.len() implies key(#[trigger] b[i]) != key(
        #[trigger] f[k],
    ) by {
        o.lemma_filter_pred(absent_from(b), k);
    }
    lemma_concat_unique_by(b, f, key);
}

/// Whether the mapping has this key.
pub fn contains_key(s: &Vec<Entry>, k: &str) -> (r: bool)
    ensures
        r == has_key(s@, k@),
{
    let mut i: usize = 0;
    while i < s.len()
        invariant
            i <= s@.len(),
            forall|j: int| 0 <= j < i ==> (#[trigger] s@[j]).key@ != k@,
        decreases s@.len() - i,
    {
        if same_text(s[i].key.as_str(), k) {
            return true;
        }
        i = i + 1;
    }
    false
}

/// Whether the sequence holds this string.
pub fn contains_text_item(s: &Vec<String>, t: &str) -> (r: bool)
    ensures
        r == has_text(s@, t@),
{
    let mut i: usize = 0;
    while i < s.len()
        invariant
            i <= s@.len(),
            forall|j: int| 0 <= j < i ==> (#[trigger] s@[j])@ != t@,
        decreases s@.len() - i,
    {
        if same_text(s[i].as_str(), t) {
            return true;
        }
        i = i + 1;
    }
    false
}

/// A copy of a sequence of entries.
pub fn copy_entries(s: &Vec<Entry>) -> (r: Vec<Entry>)
    ensures
        r@ == s@,
{
    let mut r: Vec<Entry> = Vec::new();
    let mut i: usize = 0;
    while i < s.len()
        invariant
            i <= s@.len(),
            r@ == s@.take(i as int),
        decreases s@.len() - i,
    {
        r.push(s[i].duplicate());
        assert(s@.take(i + 1) == s@.take(i as int).push(s@[i as int]));
        i = i + 1;
    }
    assert(s@.take(s@.len() as int) == s@);
    r
}

/// A copy of a sequence of strings.
pub fn copy_texts(s: &Vec<String>) -> (r: Vec<String>)
    ensures
        r@ == s@,
{
    let mut r: Vec<String> = Vec::new();
    let mut i: usize = 0;
    while i < s.len()
        invariant
            i <= s@.len(),
            r@ == s@.take(i as int),
        decreases s@.len() - i,
    {
        r.push(s[i].clone());
        assert(s@.take(i + 1) == s@.take(i as int).push(s@[i as int]));
        i = i + 1;
    }
    assert(s@.take(s@.len() as int) == s@);
    r
}

pub fn copy_opt_entries(s: &Option<Vec<Entry>>) -> (r: Option<Vec<Entry>>)
    ensures
        opt_seq(r) == opt_seq(*s),
{
    match s {
        Some(v) => Some(copy_entries(v)),
        None => None,
    }
}

pub fn copy_opt_texts(s: &Option<Vec<String>>) -> (r: Option<Vec<String>>)
    ensures
        opt_seq(r) == opt_seq(*s),
{
    match s {
        Some(v) => Some(copy_texts(v)),
        None => None,
    }
}

/// `b` overlaid by `o`.
pub fn merge_entry_lists(b: &Vec<Entry>, o: &Vec<Entry>) -> (r: Vec<Entry>)
    ensures
        r@ == merge_entries(b@, o@),
{
    let mut r: Vec<Entry> = Vec::new();
    let mut i: usize = 0;
    while i < b.len()
        invariant
            i <= b@.len(),
            r@ == b@.take(i as int).filter(kept_under(o@)),
        decreases b@.len() - i,
    {
        proof {
            reveal(Seq::filter);
            assert(b@.take(i + 1).drop_last() == b@.take(i as int));
        }
        if !contains_key(o, b[i].key.as_str()) {
            r.push(b[i].duplicate());
        }
        i = i + 1;
    }
    assert(b@.take(b@.len() as int) == b@);
    let ghost kept = r@;
    let mut j: usize = 0;
    while j < o.len()
        invariant
            j <= o@.len(),
            r@ == kept + o@.take(j as int),
        decreases o@.len() - j,
    {
        r.push(o[j].duplicate());
        assert(o@.take(j + 1) == o@.take(j as int).push(o@[j as int]));
        j = j + 1;
    }
    assert(o@.take(o@.len() as int) == o@);
    r
}

/// `b`, then the strings of `o` that `b` lacks.
pub fn union_text_lists(b: &Vec<String>, o: &Vec<String>) -> (r: Vec<String>)
    ensures
        r@ == union_texts(b@, o@),
{
    let mut r = copy_texts(b);
    let mut j: usize = 0;
    while j < o.len()
        invariant
            j <= o@.len(),
            r@ == b@ + o@.take(j as int).filter(absent_from(b@)),
        decreases o@.len() - j,
    {
        proof {
            reveal(Seq::filter);
            assert(o@.take(j + 1).drop_last() == o@.take(j as int));
        }
        if !contains_text_item(b, o[j].as_str()) {
            r.push(o[j].clone());
        }
        j = j + 1;
    }
    assert(o@.take(o@.len() as int) == o@);
    r
}

/// Environment mappings merged: the new one's values win.
pub fn merge_envs(base_env: &Option<Vec<Entry>>, new_env: &Option<Vec<Entry>>) -> (r: Option<Vec<Entry>>)
    ensures
        opt_seq(r) == merge_opt_entries(opt_seq(*base_env), opt_seq(*new_env)),
        opt_unique_by(opt_seq(*base_env), |e: Entry| e.key@) && opt_unique_by(opt_seq(*new_env), |e: Entry| e.key@)
            ==> opt_unique_by(opt_seq(r), |e: Entry| e.key@),
{
    match base_env {
        Some(b) => match new_env {
            Some(o) => {
                proof {
                    if keys_unique(b@) && keys_unique(o@) {
                        lemma_merge_entries_unique(b@, o@);
                    }
                }
                Some(merge_entry_lists(b, o))
            },
            None => Some(copy_entries(b)),
        },
        None => copy_opt_entries(new_env),
    }
}

/// Binding mappings (container path -> host path) merged: the new one's
/// values win.
pub fn merge_bindings(
    base_bindings: &Option<Vec<Entry>>,
    new_bindings: &Option<Vec<Entry>>,
) -> (r: Option<Vec<Entry>>)
    ensures
        opt_seq(r) == merge_opt_entries(opt_seq(*base_bindings), opt_seq(*new_bindings)),
        opt_unique_by(opt_seq(*base_bindings), |e: Entry| e.key@) && opt_unique_by(
            opt_seq(*new_bindings),
            |e: Entry| e.key@,
        ) ==> opt_unique_by(opt_seq(r), |e: Entry| e.key@),
{
    merge_envs(base_bindings, new_bindings)
}

/// Sets of host variables to pass through, united.
pub fn merge_envs_from_host(
    base_env: &Option<Vec<String>>,
    new_env: &Option<Vec<String>>,
) -> (r: Option<Vec<String>>)
    ensures
        opt_seq(r) == union_opt_texts(opt_seq(*base_env), opt_seq(*new_env)),
        opt_unique_by(opt_seq(*base_env), |x: String| x@) && opt_unique_by(opt_seq(*new_env), |x: String| x@)
            ==> opt_unique_by(opt_seq(r), |x: String| x@),
{
    match base_env {
        Some(b) => match new_env {
            Some(o) => {
                proof {
                    if texts_unique(b@) && texts_unique(o@) {
                        lemma_union_texts_unique(b@, o@);
                    }
                }
                Some(union_text_lists(b, o))
            },
            None => Some(copy_texts(b)),
        },
        None => copy_opt_texts(new_env),
    }
}

/// Sets of extra container paths, united.
pub fn merge_extra_paths(
    base_extra_paths: &Option<Vec<String>>,
    new_extra_paths: &Option<Vec<String>>,
) -> (r: Option<Vec<String>>)
    ensures
        opt_seq(r) == union_opt_texts(opt_seq(*base_extra_paths), opt_seq(*new_extra_paths)),
        opt_unique_by(opt_seq(*base_extra_paths), |x: String| x@) && opt_unique_by(
            opt_seq(*new_extra_paths),
            |x: String| x@,
        ) ==> opt_unique_by(opt_seq(r), |x: String| x@),
{
    merge_envs_from_host(base_extra_paths, new_extra_paths)
}

} // verus!
