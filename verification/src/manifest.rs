//! The project manifest: two groups of declared dependencies, the lookup that
//! merges them, and the toolchain path that is derived from it.

use vstd::hash_map::StringHashMap;
use vstd::prelude::*;
use vstd::string::*;

use crate::layout::{FALLBACK_TSDK_PATH, TYPESCRIPT_PACKAGE_NAME, TYPESCRIPT_TSDK_PATH};

verus! {

/// One group of declared dependencies: package name to version string.
///
/// Version strings are kept as written; nothing checks that they are versions.
pub struct DependencyGroup {
    entries: StringHashMap<String>,
}

impl View for DependencyGroup {
    type V = Map<Seq<char>, Seq<char>>;

    closed spec fn view(&self) -> Map<Seq<char>, Seq<char>> {
        self.entries@.map_values(|version: String| version@)
    }
}

impl DependencyGroup {
    /// A group that declares nothing.
    pub fn new() -> (group: DependencyGroup)
        ensures
            group@ == Map::<Seq<char>, Seq<char>>::empty(),
    {
        let group = DependencyGroup { entries: StringHashMap::new() };
        assert(group@ =~= Map::<Seq<char>, Seq<char>>::empty());
        group
    }

    /// Declares `name` at `version`, replacing an earlier declaration of `name`.
    pub fn insert(&mut self, name: String, version: String)
        ensures
            final(self)@ == old(self)@.insert(name@, version@),
    {
        self.entries.insert(name, version);
        assert(self@ =~= old(self)@.insert(name@, version@));
    }

    /// The version declared for `name`, if any.
    pub fn version_of(&self, name: &str) -> (found: Option<&String>)
        ensures
            found.deep_view() == self@.get(name@),
    {
        self.entries.get(name)
    }

    /// Whether the group declares `name`.
    pub fn declares(&self, name: &str) -> (declared: bool)
        ensures
            declared == self@.contains_key(name@),
    {
        self.entries.contains_key(name)
    }

    /// The number of packages declared.
    pub fn len(&self) -> (n: usize)
        ensures
            n == self@.len(),
    {
        assert(self@.dom() =~= self.entries@.dom());
        self.entries.len()
    }

    /// Whether the group declares nothing.
    pub fn is_empty(&self) -> (empty: bool)
        ensures
            empty == (self@ == Map::<Seq<char>, Seq<char>>::empty()),
    {
        assert(self.entries@.is_empty() <==> self@ =~= Map::<Seq<char>, Seq<char>>::empty()) by {
            assert(self@.dom() =~= self.entries@.dom());
        }
        self.entries.is_empty()
    }

    /// Adds every declaration of `later`; where both declare a name, the
    /// version in `later` stays.
    pub fn merge(&mut self, later: DependencyGroup)
        ensures
            final(self)@ == old(self)@.union_prefer_right(later@),
    {
        self.entries.union_prefer_right(later.entries);
        assert(self@ =~= old(self)@.union_prefer_right(later@));
    }
}

/// What a manifest declares: its two dependency groups, each as a map from
/// package name to version string.
pub struct ManifestView {
    pub dependencies: Map<Seq<char>, Seq<char>>,
    pub dev_dependencies: Map<Seq<char>, Seq<char>>,
}

impl ManifestView {
    /// The manifest that declares nothing.
    pub open spec fn empty() -> ManifestView {
        ManifestView { dependencies: Map::empty(), dev_dependencies: Map::empty() }
    }

    /// The single lookup by name over both groups. The development group is
    /// merged second, so its version stays where both declare a name.
    pub open spec fn merged(self) -> Map<Seq<char>, Seq<char>> {
        self.dependencies.union_prefer_right(self.dev_dependencies)
    }

    /// Whether either group declares `name`.
    pub open spec fn declares(self, name: Seq<char>) -> bool {
        self.merged().contains_key(name)
    }
}

/// A project's declared dependencies, as read from its manifest file.
pub struct ProjectManifest {
    pub dependencies: DependencyGroup,
    pub dev_dependencies: DependencyGroup,
}

impl View for ProjectManifest {
    type V = ManifestView;

    open spec fn view(&self) -> ManifestView {
        ManifestView {
            dependencies: self.dependencies@,
            dev_dependencies: self.dev_dependencies@,
        }
    }
}

impl ProjectManifest {
    /// The manifest that declares nothing.
    pub fn empty() -> (manifest: ProjectManifest)
        ensures
            manifest@ == ManifestView::empty(),
    {
        ProjectManifest {
            dependencies: DependencyGroup::new(),
            dev_dependencies: DependencyGroup::new(),
        }
    }

    /// The version declared for `name` in the merged lookup.
    pub fn version_of(&self, name: &str) -> (found: Option<&String>)
        ensures
            found.deep_view() == self@.merged().get(name@),
    {
        match self.dev_dependencies.version_of(name) {
            Some(version) => Some(version),
            None => self.dependencies.version_of(name),
        }
    }

    /// Whether the merged lookup holds `name`.
    pub fn declares(&self, name: &str) -> (declared: bool)
        ensures
            declared == self@.declares(name@),
    {
        self.dev_dependencies.declares(name) || self.dependencies.declares(name)
    }

    /// Merges the two groups into one lookup by name.
    pub fn into_merged(self) -> (merged: DependencyGroup)
        ensures
            merged@ == self@.merged(),
    {
        let mut merged = self.dependencies;
        merged.merge(self.dev_dependencies);
        merged
    }
}

/// What reading and parsing the manifest file gave.
pub enum ManifestRead {
    /// The file was read and parsed.
    Parsed(ProjectManifest),
    /// The file is missing or could not be read.
    Unreadable,
    /// The file was read but does not have the structure of a manifest.
    Malformed,
}

/// The view of a [`ManifestRead`].
pub enum ManifestReadView {
    Parsed(ManifestView),
    Unreadable,
    Malformed,
}

impl View for ManifestRead {
    type V = ManifestReadView;

    open spec fn view(&self) -> ManifestReadView {
        match self {
            ManifestRead::Parsed(manifest) => ManifestReadView::Parsed(manifest@),
            ManifestRead::Unreadable => ManifestReadView::Unreadable,
            ManifestRead::Malformed => ManifestReadView::Malformed,
        }
    }
}

/// The manifest that a read stands for: what was parsed, or nothing at all
/// where the file was unreadable or malformed.
pub open spec fn manifest_of(outcome: ManifestReadView) -> ManifestView {
    match outcome {
        ManifestReadView::Parsed(manifest) => manifest,
        ManifestReadView::Unreadable => ManifestView::empty(),
        ManifestReadView::Malformed => ManifestView::empty(),
    }
}

/// Turns the outcome of reading the manifest file into a manifest. A missing,
/// unreadable or malformed file is not an error: it reads as the empty
/// manifest.
pub fn read_manifest(outcome: ManifestRead) -> (manifest: ProjectManifest)
    ensures
        manifest@ == manifest_of(outcome@),
        !(outcome is Parsed) ==> manifest@ == ManifestView::empty(),
{
    match outcome {
        ManifestRead::Parsed(manifest) => manifest,
        ManifestRead::Unreadable => ProjectManifest::empty(),
        ManifestRead::Malformed => ProjectManifest::empty(),
    }
}

/// The toolchain path for a manifest: the workspace's own TypeScript where the
/// manifest declares it, the fallback where it does not.
pub open spec fn toolchain_path_of(manifest: ManifestView) -> Seq<char> {
    if manifest.declares(TYPESCRIPT_PACKAGE_NAME@) {
        TYPESCRIPT_TSDK_PATH@
    } else {
        FALLBACK_TSDK_PATH@
    }
}

/// The path of the TypeScript SDK to hand to the language server.
///
/// The manifest is consulted, but today the fallback is the same place as the
/// workspace's own copy, so the answer is the same either way.
pub fn resolve_toolchain_path(manifest: &ProjectManifest) -> (path: String)
    ensures
        path@ == toolchain_path_of(manifest@),
        path@ == TYPESCRIPT_TSDK_PATH@,
{
    if manifest.declares(TYPESCRIPT_PACKAGE_NAME) {
        String::from_str(TYPESCRIPT_TSDK_PATH)
    } else {
        String::from_str(FALLBACK_TSDK_PATH)
    }
}

} // verus!
