//! Where the app looks for its installed files: the settings page's
//! resources and the window icon. Paths are modelled as a base directory
//! and the components joined onto it; the app turns them into real paths
//! and checks which exist.

use vstd::prelude::*;

use crate::text::{spec_trim_leading_slashes, trim_leading_slashes};

verus! {

/// The directory a candidate path starts from.
#[derive(Debug, Clone, Copy, PartialEq, Eq, Structural)]
pub enum PathBase {
    /// The directory holding the running executable.
    ExeDir,
    /// The parent of that directory.
    ExeDirParent,
    /// The working directory (`.`).
    CurrentDir,
}

/// A candidate path: a base directory and the components joined onto it, in order.
#[derive(Debug, Clone)]
pub struct CandidatePath {
    pub base: PathBase,
    pub components: Vec<String>,
}

pub struct CandidatePathView {
    pub base: PathBase,
    pub components: Seq<Seq<char>>,
}

impl View for CandidatePath {
    type V = CandidatePathView;

    open spec fn view(&self) -> CandidatePathView {
        CandidatePathView { base: self.base, components: self.components.deep_view() }
    }
}

/// The views of a list of candidate paths.
pub open spec fn spec_paths(v: Seq<CandidatePath>) -> Seq<CandidatePathView> {
    v.map_values(|p: CandidatePath| p@)
}

/// `base` with `components` joined onto it.
pub open spec fn spec_at(base: PathBase, components: Seq<Seq<char>>) -> CandidatePathView {
    CandidatePathView { base, components }
}

/// `path` with `more` joined onto it.
pub open spec fn spec_join(path: CandidatePathView, more: Seq<Seq<char>>) -> CandidatePathView {
    CandidatePathView { base: path.base, components: path.components + more }
}

/// The directories searched for installed files, in order. When the
/// executable's directory is known: that directory, its parent (when it has
/// one), `<exe dir>/../Resources`, `<exe dir>/..`, and the working
/// directory; otherwise the working directory alone.
pub open spec fn spec_resource_roots(exe_dir_known: bool, exe_dir_has_parent: bool) -> Seq<CandidatePathView> {
    if !exe_dir_known {
        seq![spec_at(PathBase::CurrentDir, seq![])]
    } else if exe_dir_has_parent {
        seq![
            spec_at(PathBase::ExeDir, seq![]),
            spec_at(PathBase::ExeDirParent, seq![]),
            spec_at(PathBase::ExeDir, seq![".."@, "Resources"@]),
            spec_at(PathBase::ExeDir, seq![".."@]),
            spec_at(PathBase::CurrentDir, seq![]),
        ]
    } else {
        seq![
            spec_at(PathBase::ExeDir, seq![]),
            spec_at(PathBase::ExeDir, seq![".."@, "Resources"@]),
            spec_at(PathBase::ExeDir, seq![".."@]),
            spec_at(PathBase::CurrentDir, seq![]),
        ]
    }
}

fn path(base: PathBase, components: Vec<String>) -> (r: CandidatePath)
    ensures
        r@ == spec_at(base, components.deep_view()),
{
    CandidatePath { base, components }
}

fn no_components() -> (r: Vec<String>)
    ensures
        r.deep_view() == Seq::<Seq<char>>::empty(),
{
    let v: Vec<String> = Vec::new();
    assert(v.deep_view() =~= Seq::<Seq<char>>::empty());
    v
}

fn strings1(a: &str) -> (r: Vec<String>)
    ensures
        r.deep_view() == seq![a@],
{
    let mut v: Vec<String> = Vec::new();
    v.push(a.to_owned());
    assert(v.deep_view() =~= seq![a@]);
    v
}

fn strings2(a: &str, b: &str) -> (r: Vec<String>)
    ensures
        r.deep_view() == seq![a@, b@],
{
    let mut v: Vec<String> = Vec::new();
    v.push(a.to_owned());
    v.push(b.to_owned());
    assert(v.deep_view() =~= seq![a@, b@]);
    v
}

fn strings3(a: &str, b: &str, c: &str) -> (r: Vec<String>)
    ensures
        r.deep_view() == seq![a@, b@, c@],
{
    let mut v: Vec<String> = Vec::new();
    v.push(a.to_owned());
    v.push(b.to_owned());
    v.push(c.to_owned());
    assert(v.deep_view() =~= seq![a@, b@, c@]);
    v
}

/// The directories searched for installed files (see `spec_resource_roots`);
/// `exe_dir_known` tells whether the executable's path and its directory
/// could be determined, `exe_dir_has_parent` whether that directory has a parent.
pub fn settings_resource_roots(exe_dir_known: bool, exe_dir_has_parent: bool) -> (r: Vec<CandidatePath>)
    ensures
        spec_paths(r@) == spec_resource_roots(exe_dir_known, exe_dir_has_parent),
{
    let mut roots: Vec<CandidatePath> = Vec::new();
    if exe_dir_known {
        roots.push(path(PathBase::ExeDir, no_components()));
        if exe_dir_has_parent {
            roots.push(path(PathBase::ExeDirParent, no_components()));
        }
        roots.push(path(PathBase::ExeDir, strings2("..", "Resources")));
        roots.push(path(PathBase::ExeDir, strings1("..")));
    }
    roots.push(path(PathBase::CurrentDir, no_components()));
    proof {
        assert(spec_paths(roots@) =~= spec_resource_roots(exe_dir_known, exe_dir_has_parent));
    }
    roots
}

/// The places tried for the window icon under one directory, in order: the
/// packaged `resources/settings_window/favicon.ico`, then `assets/activity.png`
/// and `resources/activity.png`.
pub open spec fn spec_icon_paths_under(root: CandidatePathView) -> Seq<CandidatePathView> {
    seq![
        spec_join(root, seq!["resources"@, "settings_window"@, "favicon.ico"@]),
        spec_join(root, seq!["assets"@, "activity.png"@]),
        spec_join(root, seq!["resources"@, "activity.png"@]),
    ]
}

/// The places tried for the window icon under each of `roots`, root by root.
pub open spec fn spec_icon_paths(roots: Seq<CandidatePathView>) -> Seq<CandidatePathView>
    decreases roots.len(),
{
    if roots.len() == 0 {
        Seq::empty()
    } else {
        spec_icon_paths(roots.drop_last()) + spec_icon_paths_under(roots.last())
    }
}

fn joined(root: &CandidatePath, more: Vec<String>) -> (r: CandidatePath)
    ensures
        r@ == spec_join(root@, more.deep_view()),
{
    let mut components: Vec<String> = Vec::new();
    let n = root.components.len();
    for i in 0..n
        invariant
            n == root.components.len(),
            components.deep_view() == root.components.deep_view().take(i as int),
    {
        let c = root.components[i].clone();
        let ghost before = components.deep_view();
        components.push(c);
        proof {
            assert(c@ == root.components.deep_view()[i as int]);
            assert(components.deep_view() =~= before.push(c@));
            assert(components.deep_view() =~= root.components.deep_view().take(i + 1));
        }
    }
    let m = more.len();
    for i in 0..m
        invariant
            m == more.len(),
            components.deep_view() == root.components.deep_view() + more.deep_view().take(i as int),
    {
        let c = more[i].clone();
        let ghost before = components.deep_view();
        components.push(c);
        proof {
            assert(c@ == more.deep_view()[i as int]);
            assert(components.deep_view() =~= before.push(c@));
            assert(components.deep_view() =~= root.components.deep_view() + more.deep_view().take(i + 1));
        }
    }
    proof {
        assert(root.components.deep_view().take(n as int) =~= root.components.deep_view());
        assert(more.deep_view().take(m as int) =~= more.deep_view());
    }
    CandidatePath { base: root.base, components }
}

/// The window icon files tried, in order (see `spec_icon_paths` and
/// `spec_resource_roots`).
pub fn icon_candidate_paths(exe_dir_known: bool, exe_dir_has_parent: bool) -> (r: Vec<CandidatePath>)
    ensures
        spec_paths(r@) == spec_icon_paths(spec_resource_roots(exe_dir_known, exe_dir_has_parent)),
{
    let roots = settings_resource_roots(exe_dir_known, exe_dir_has_parent);
    let ghost rs = spec_paths(roots@);
    let mut candidates: Vec<CandidatePath> = Vec::new();
    let n = roots.len();
    for i in 0..n
        invariant
            n == roots.len(),
            rs == spec_paths(roots@),
            spec_paths(candidates@) == spec_icon_paths(rs.take(i as int)),
    {
        let ghost before = spec_paths(candidates@);
        candidates.push(joined(&roots[i], strings3("resources", "settings_window", "favicon.ico")));
        candidates.push(joined(&roots[i], strings2("assets", "activity.png")));
        candidates.push(joined(&roots[i], strings2("resources", "activity.png")));
        proof {
            assert(rs.take(i + 1).drop_last() =~= rs.take(i as int));
            assert(rs.take(i + 1).last() == roots@[i as int]@);
            assert(spec_paths(candidates@) =~= before + spec_icon_paths_under(roots@[i as int]@));
        }
    }
    proof {
        assert(rs.take(n as int) =~= rs);
    }
    candidates
}

/// The places where the settings page's resource `relative` may be, in
/// order: `resources/settings_window/<relative>` under each root, the leading
/// slashes of `relative` removed.
pub open spec fn spec_settings_resource_paths(roots: Seq<CandidatePathView>, relative: Seq<char>) -> Seq<CandidatePathView> {
    roots.map_values(
        |root: CandidatePathView|
            spec_join(root, seq!["resources"@, "settings_window"@, spec_trim_leading_slashes(relative)]),
    )
}

/// The places where the settings page's resource `relative` may be, in the
/// order they are tried; the first that is a file is served.
pub fn settings_resource_candidates(exe_dir_known: bool, exe_dir_has_parent: bool, relative: &str) -> (r: Vec<CandidatePath>)
    ensures
        spec_paths(r@) == spec_settings_resource_paths(
            spec_resource_roots(exe_dir_known, exe_dir_has_parent),
            relative@,
        ),
{
    let roots = settings_resource_roots(exe_dir_known, exe_dir_has_parent);
    let sanitized = trim_leading_slashes(relative);
    let ghost rs = spec_paths(roots@);
    let ghost tail = seq!["resources"@, "settings_window"@, spec_trim_leading_slashes(relative@)];
    let mut candidates: Vec<CandidatePath> = Vec::new();
    let n = roots.len();
    for i in 0..n
        invariant
            n == roots.len(),
            rs == spec_paths(roots@),
            sanitized@ == spec_trim_leading_slashes(relative@),
            tail == seq!["resources"@, "settings_window"@, spec_trim_leading_slashes(relative@)],
            spec_paths(candidates@) == spec_settings_resource_paths(rs.take(i as int), relative@),
    {
        let ghost before = spec_paths(candidates@);
        candidates.push(joined(&roots[i], strings3("resources", "settings_window", sanitized.as_str())));
        proof {
            assert(spec_paths(candidates@) =~= before.push(spec_join(rs[i as int], tail)));
            assert(spec_paths(candidates@) =~= spec_settings_resource_paths(rs.take(i + 1), relative@));
        }
    }
    proof {
        assert(rs.take(n as int) =~= rs);
    }
    candidates
}

} // verus!
