//! Symlink-aware path shortening: a best-effort real-path resolver, an anchor
//! classifier that tags components as home or repo root, the truncation
//! decision, and the renderer that joins the surviving components.
//!
//! A path is carried as its list of components ordered root-to-leaf, the
//! filesystem root marker `/` counting as the first component of an absolute
//! path.

use vstd::prelude::*;
use vstd::string::StringExecFns;

verus! {

/// The one-character text of the filesystem root marker, which is also the
/// separator placed between joined components.
pub open spec fn slash() -> Seq<char> {
    seq!['/']
}

/// Directory-display configuration, immutable for one render.
pub struct DirectoryConfig {
    pub home_symbol: String,
    pub truncation_symbol: String,
    pub truncation_length: usize,
    /// Recognized, optional repo-anchoring policy. It is off by default and
    /// accepted for completeness; it does not alter the truncation decision.
    pub truncate_to_repo: bool,
}

/// One path component — root marker or name token — tagged with whether its
/// prefix resolves to the home directory or to the repo root.
pub struct StarshipComponent {
    pub component: String,
    pub is_repo: bool,
    pub is_home: bool,
}

impl StarshipComponent {
    /// The display text of this component.
    pub fn get(&self) -> (r: String)
        ensures
            r@ == self.component@,
    {
        self.component.clone()
    }
}

/// A target path broken into components ordered root-to-leaf, each tagged
/// with its anchor classification.
pub struct StarshipPath {
    pub components: Vec<StarshipComponent>,
}

/// Whether `text` is the root marker.
fn is_root_text(text: &String) -> (r: bool)
    ensures
        r == (text@ == slash()),
{
    let root = String::from_str("/");
    proof {
        reveal_strlit("/");
        assert("/"@ =~= slash());
    }
    *text == root
}

/// A fresh copy of a component list.
fn copy_parts(parts: &Vec<String>) -> (r: Vec<String>)
    ensures
        r@ == parts@,
{
    let mut out: Vec<String> = Vec::new();
    let mut i: usize = 0;
    while i < parts.len()
        invariant
            i <= parts@.len(),
            out@.len() == i,
            forall|j: int| 0 <= j < i ==> out@[j] == parts@[j],
        decreases parts@.len() - i,
    {
        out.push(parts[i].clone());
        i = i + 1;
    }
    proof {
        assert(out@ =~= parts@);
    }
    out
}

/// Whether two component lists spell the same path, compared text by text.
fn parts_eq(a: &Vec<String>, b: &Vec<String>) -> (r: bool)
    ensures
        r == (a.deep_view() == b.deep_view()),
{
    if a.len() != b.len() {
        proof {
            assert(a.deep_view().len() == a@.len());
            assert(b.deep_view().len() == b@.len());
        }
        return false;
    }
    let mut i: usize = 0;
    while i < a.len()
        invariant
            a@.len() == b@.len(),
            i <= a@.len(),
            forall|j: int| 0 <= j < i ==> a@[j]@ == b@[j]@,
        decreases a@.len() - i,
    {
        let x = &a[i];
        let y = &b[i];
        if !(*x == *y) {
            proof {
                assert(a.deep_view()[i as int] == a@[i as int]@);
                assert(b.deep_view()[i as int] == b@[i as int]@);
            }
            return false;
        }
        i = i + 1;
    }
    proof {
        assert(a.deep_view() =~= b.deep_view());
    }
    true
}

/// Relies on `std::path::Path::read_link`: probes whether the path spelled by
/// `parts` names a symbolic link, handing back the link target's components.
/// What comes back depends on the live filesystem, so nothing is promised of
/// the outcome.
#[verifier::external_body]
fn read_link_parts(parts: &Vec<String>) -> (r: Option<Vec<String>>) {
    let joined: std::path::PathBuf = parts.iter().collect();
    match joined.read_link() {
        Ok(target) => {
            let mut out: Vec<String> = Vec::new();
            for c in target.components() {
                out.push(c.as_os_str().to_string_lossy().into_owned());
            }
            Some(out)
        },
        Err(_) => None,
    }
}

/// Relies on `std::path::Path::canonicalize`: on success the result is the
/// canonical, absolute form of the path, so its component list starts at the
/// root marker; on failure nothing is promised.
#[verifier::external_body]
fn canonicalize_parts(parts: &Vec<String>) -> (r: Option<Vec<String>>)
    ensures
        r matches Some(c) ==> c@.len() > 0 && c@[0]@ == slash(),
{
    let joined: std::path::PathBuf = parts.iter().collect();
    match joined.canonicalize() {
        Ok(target) => {
            let mut out: Vec<String> = Vec::new();
            for c in target.components() {
                out.push(c.as_os_str().to_string_lossy().into_owned());
            }
            Some(out)
        },
        Err(_) => None,
    }
}

/// What one resolution step does to the accumulated buffer, given the link
/// probe's outcome for the buffer joined with the next component: with no
/// link the component is appended as-is; an absolute link target replaces
/// the buffer wholesale; a relative, non-empty target extends it; an empty
/// target is treated as no link.
pub open spec fn spec_resolve_step(
    buf: Seq<String>,
    component: String,
    link: Option<Vec<String>>,
) -> Seq<String> {
    match link {
        None => buf.push(component),
        Some(target) => if target@.len() == 0 {
            buf.push(component)
        } else if target@[0]@ == slash() {
            target@
        } else {
            buf + target@
        },
    }
}

/// Applies one resolution step: the decision of how `link`, the outcome of
/// probing the buffer joined with `component` for a symbolic link, rewrites
/// the buffer. The buffer never comes back empty.
pub fn resolve_step(buf: Vec<String>, component: &String, link: Option<Vec<String>>) -> (r: Vec<
    String,
>)
    ensures
        r@ == spec_resolve_step(buf@, *component, link),
        r@.len() > 0,
{
    let ghost buf0 = buf@;
    match link {
        None => {
            let mut extended = buf;
            extended.push(component.clone());
            extended
        },
        Some(target) => {
            if target.len() == 0 {
                let mut extended = buf;
                extended.push(component.clone());
                extended
            } else if is_root_text(&target[0]) {
                target
            } else {
                let mut extended = buf;
                let mut k: usize = 0;
                while k < target.len()
                    invariant
                        k <= target@.len(),
                        extended@ == buf0 + target@.take(k as int),
                    decreases target@.len() - k,
                {
                    extended.push(target[k].clone());
                    proof {
                        assert(buf0 + target@.take(k as int + 1) =~= (buf0 + target@.take(
                            k as int,
                        )).push(target@[k as int]));
                    }
                    k = k + 1;
                }
                proof {
                    assert(target@.take(target@.len() as int) =~= target@);
                }
                extended
            }
        },
    }
}

/// Canonicalizes `path` best-effort: the path is walked component by
/// component, each accumulated prefix is probed for a symbolic link, and the
/// buffer is rewritten by `resolve_step`. A final canonicalization is
/// attempted at the end; every I/O failure is absorbed, the buffer walked so
/// far standing in for the canonical path. The walk rewrites the buffer at
/// most once per component, so a cyclic link cannot cause unbounded looping,
/// and a non-empty path always yields a non-empty result.
pub fn real_path(path: &Vec<String>) -> (r: Vec<String>)
    ensures
        path@.len() > 0 ==> r@.len() > 0,
{
    let mut buf: Vec<String> = Vec::new();
    let mut idx: usize = 0;
    while idx < path.len()
        invariant
            idx <= path@.len(),
            idx > 0 ==> buf@.len() > 0,
        decreases path@.len() - idx,
    {
        let mut next = copy_parts(&buf);
        next.push(path[idx].clone());
        let link = read_link_parts(&next);
        buf = resolve_step(buf, &path[idx], link);
        idx = idx + 1;
    }
    match canonicalize_parts(&buf) {
        Some(canonical) => canonical,
        None => buf,
    }
}

/// Whether `i` is the first position at which a resolved prefix equals the
/// resolved anchor `target`.
pub open spec fn spec_first_match(
    resolved: Seq<Seq<Seq<char>>>,
    target: Seq<Seq<char>>,
    i: int,
) -> bool {
    &&& 0 <= i < resolved.len()
    &&& resolved[i] == target
    &&& forall|j: int| 0 <= j < i ==> resolved[j] != target
}

/// At most one component carries the home tag.
pub open spec fn at_most_one_home(comps: Seq<StarshipComponent>) -> bool {
    forall|i: int, j: int|
        0 <= i < comps.len() && 0 <= j < comps.len() && (#[trigger] comps[i]).is_home && (
        #[trigger] comps[j]).is_home ==> i == j
}

/// At most one component carries the repo tag.
pub open spec fn at_most_one_repo(comps: Seq<StarshipComponent>) -> bool {
    forall|i: int, j: int|
        0 <= i < comps.len() && 0 <= j < comps.len() && (#[trigger] comps[i]).is_repo && (
        #[trigger] comps[j]).is_repo ==> i == j
}

/// Tags each component of a path with its anchor classification: component
/// `i` is tagged home exactly when its resolved prefix `resolved[i]` is the
/// first to equal the resolved home directory, and tagged repo exactly when a
/// repo root was given and `resolved[i]` is the first to equal it.
pub fn classify(
    names: &Vec<String>,
    resolved: &Vec<Vec<String>>,
    home_resolved: &Vec<String>,
    repo_resolved: &Option<Vec<String>>,
) -> (r: Vec<StarshipComponent>)
    requires
        resolved@.len() == names@.len(),
    ensures
        r@.len() == names@.len(),
        forall|i: int|
            0 <= i < r@.len() ==> {
                let c = #[trigger] r@[i];
                &&& c.component@ == names@[i]@
                &&& c.is_home == spec_first_match(
                    resolved.deep_view(),
                    home_resolved.deep_view(),
                    i,
                )
                &&& c.is_repo == (match repo_resolved.deep_view() {
                    Some(t) => spec_first_match(resolved.deep_view(), t, i),
                    None => false,
                })
            },
{
    let mut out: Vec<StarshipComponent> = Vec::new();
    let mut found_home = false;
    let mut found_repo = false;
    let mut i: usize = 0;
    while i < names.len()
        invariant
            names@.len() == resolved@.len(),
            i <= names@.len(),
            out@.len() == i,
            forall|j: int|
                0 <= j < i ==> {
                    let c = #[trigger] out@[j];
                    &&& c.component@ == names@[j]@
                    &&& c.is_home == spec_first_match(
                        resolved.deep_view(),
                        home_resolved.deep_view(),
                        j,
                    )
                    &&& c.is_repo == (match repo_resolved.deep_view() {
                        Some(t) => spec_first_match(resolved.deep_view(), t, j),
                        None => false,
                    })
                },
            found_home == (exists|j: int|
                0 <= j < i && #[trigger] resolved.deep_view()[j] == home_resolved.deep_view()),
            found_repo == (match repo_resolved.deep_view() {
                Some(t) => exists|j: int| 0 <= j < i && #[trigger] resolved.deep_view()[j] == t,
                None => false,
            }),
        decreases names@.len() - i,
    {
        proof {
            assert(resolved.deep_view()[i as int] == resolved@[i as int].deep_view());
        }
        let eq_home = parts_eq(&resolved[i], home_resolved);
        let eq_repo = match repo_resolved {
            Some(target) => parts_eq(&resolved[i], target),
            None => false,
        };
        let tag_home = eq_home && !found_home;
        let tag_repo = eq_repo && !found_repo;
        out.push(
            StarshipComponent { component: names[i].clone(), is_repo: tag_repo, is_home: tag_home },
        );
        found_home = found_home || eq_home;
        found_repo = found_repo || eq_repo;
        i = i + 1;
    }
    out
}

/// The position of the first component tagged home at or after `k`.
pub open spec fn first_home_from(comps: Seq<StarshipComponent>, k: int) -> Option<int>
    decreases comps.len() - k,
{
    if k < 0 || k >= comps.len() {
        None
    } else if comps[k].is_home {
        Some(k)
    } else {
        first_home_from(comps, k + 1)
    }
}

/// The truncation decision, each rule overriding the previous one: show the
/// full path by default; when a component is tagged home, drop everything up
/// to and including it and show the home symbol; finally — the final
/// authority — when the surviving tail is still longer than the truncation
/// length, keep only that many trailing components and show the truncation
/// symbol instead.
pub open spec fn spec_truncation(comps: Seq<StarshipComponent>, config: DirectoryConfig) -> (
    int,
    Seq<char>,
) {
    let base: (int, Seq<char>) = match first_home_from(comps, 0) {
        Some(i) => (i + 1, config.home_symbol@),
        None => (0, Seq::<char>::empty()),
    };
    if comps.len() - base.0 > config.truncation_length as int {
        (comps.len() - config.truncation_length as int, config.truncation_symbol@)
    } else {
        base
    }
}

/// The surviving components joined root-to-leaf: the root marker carries no
/// separator of its own, and every other component is followed by one except
/// the last.
pub open spec fn spec_joined(parts: Seq<Seq<char>>) -> Seq<char>
    decreases parts.len(),
{
    if parts.len() == 0 {
        Seq::<char>::empty()
    } else {
        let piece = if parts[0] == slash() {
            parts[0]
        } else if parts.len() == 1 {
            parts[0]
        } else {
            parts[0] + slash()
        };
        piece + spec_joined(parts.drop_first())
    }
}

/// The display string: the prefix the truncation decision chose, one
/// separator when both the prefix and a surviving component are present,
/// then the surviving components joined.
pub open spec fn spec_display(comps: Seq<StarshipComponent>, config: DirectoryConfig) -> Seq<
    char,
> {
    let t = spec_truncation(comps, config);
    let names = comps.map_values(|c: StarshipComponent| c.component@).skip(t.0);
    if t.1.len() > 0 && names.len() > 0 {
        t.1 + slash() + spec_joined(names)
    } else {
        t.1 + spec_joined(names)
    }
}

impl StarshipPath {
    /// Classifies `path` against `home_dir` and, when given, `repo_dir`:
    /// every prefix of the path — root through the full path — is resolved
    /// through `real_path` and compared by resolved identity against the
    /// resolved anchors, so symlinked locations are recognized even when
    /// reached by a different logical route. One component is produced per
    /// path component, in path order, and at most one carries each tag.
    pub fn new(path: &Vec<String>, home_dir: &Vec<String>, repo_dir: Option<&Vec<String>>) -> (r:
        Self)
        ensures
            r.components@.len() == path@.len(),
            forall|i: int|
                0 <= i < path@.len() ==> (#[trigger] r.components@[i]).component@ == path@[i]@,
            at_most_one_home(r.components@),
            at_most_one_repo(r.components@),
    {
        let home_resolved = real_path(home_dir);
        let repo_resolved: Option<Vec<String>> = match repo_dir {
            Some(p) => Some(real_path(p)),
            None => None,
        };
        let mut resolved: Vec<Vec<String>> = Vec::new();
        let mut prefix: Vec<String> = Vec::new();
        let mut i: usize = 0;
        while i < path.len()
            invariant
                i <= path@.len(),
                prefix@.len() == i,
                resolved@.len() == i,
            decreases path@.len() - i,
        {
            prefix.push(path[i].clone());
            resolved.push(real_path(&prefix));
            i = i + 1;
        }
        let components = classify(path, &resolved, &home_resolved, &repo_resolved);
        StarshipPath { components }
    }

    /// Decides how many leading components to omit from display and what
    /// prefix text replaces them.
    pub fn truncate(&self, config: &DirectoryConfig) -> (r: (usize, String))
        ensures
            r.0 as int == spec_truncation(self.components@, *config).0,
            r.1@ == spec_truncation(self.components@, *config).1,
            r.0 <= self.components@.len(),
    {
        let n = self.components.len();
        let mut home_index: usize = 0;
        let mut has_home = false;
        let mut i: usize = 0;
        while i < n
            invariant
                n == self.components@.len(),
                i <= n,
                !has_home ==> first_home_from(self.components@, 0) == first_home_from(
                    self.components@,
                    i as int,
                ),
                has_home ==> home_index < n && first_home_from(self.components@, 0) == Some(
                    home_index as int,
                ),
            decreases n - i,
        {
            if !has_home && self.components[i].is_home {
                has_home = true;
                home_index = i;
            }
            i = i + 1;
        }
        let mut trim_index: usize = 0;
        let mut prefix: String = String::new();
        if has_home {
            trim_index = home_index + 1;
            prefix = config.home_symbol.clone();
        }
        if n - trim_index > config.truncation_length {
            trim_index = n - config.truncation_length;
            prefix = config.truncation_symbol.clone();
        }
        (trim_index, prefix)
    }

    /// Renders the path for display: the surviving components joined with
    /// separators, behind the prefix the truncation decision chose.
    pub fn display(&self, config: &DirectoryConfig) -> (r: String)
        ensures
            r@ == spec_display(self.components@, *config),
    {
        let (trim_index, prefix) = self.truncate(config);
        let n = self.components.len();
        let ghost names = self.components@.map_values(|c: StarshipComponent| c.component@).skip(
            trim_index as int,
        );
        let mut out = String::new();
        out.append(prefix.as_str());
        if !prefix.as_str().is_empty() && trim_index < n {
            proof {
                reveal_strlit("/");
                assert("/"@ =~= slash());
            }
            out.append("/");
        }
        let mut i: usize = trim_index;
        proof {
            assert(names.skip(0) =~= names);
        }
        while i < n
            invariant
                n == self.components@.len(),
                trim_index <= i <= n,
                names == self.components@.map_values(|c: StarshipComponent| c.component@).skip(
                    trim_index as int,
                ),
                spec_display(self.components@, *config) == out@ + spec_joined(
                    names.skip(i - trim_index),
                ),
            decreases n - i,
        {
            let ghost k = i - trim_index;
            proof {
                assert(names.skip(k)[0] == names[k]);
                assert(names[k] == self.components@[i as int].component@);
                assert(names.skip(k).drop_first() =~= names.skip(k + 1));
                assert(names.skip(k).len() == n - i);
                reveal_strlit("/");
                assert("/"@ =~= slash());
            }
            let c = &self.components[i];
            let root = is_root_text(&c.component);
            out.append(c.component.as_str());
            if !root && i + 1 < n {
                out.append("/");
            }
            i = i + 1;
        }
        proof {
            assert(names.skip(n - trim_index).len() == 0);
        }
        out
    }
}

} // verus!
