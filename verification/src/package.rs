//! Package records as a registry returns them, and the manifest that names
//! the top-level requests.

use vstd::prelude::*;

verus! {

/// A package name with a version specifier, as characters.
pub type NameVersion = (Seq<char>, Seq<char>);

/// Where a package's source lives.
#[derive(Debug)]
pub struct Repository {
    pub repo_type: String,
    pub url: String,
}

pub struct RepositoryView {
    pub repo_type: Seq<char>,
    pub url: Seq<char>,
}

impl View for Repository {
    type V = RepositoryView;

    open spec fn view(&self) -> RepositoryView {
        RepositoryView { repo_type: self.repo_type@, url: self.url@ }
    }
}

impl DeepView for Repository {
    type V = RepositoryView;

    open spec fn deep_view(&self) -> RepositoryView {
        self@
    }
}

impl Clone for Repository {
    fn clone(&self) -> (r: Self)
        ensures
            r@ == self@,
    {
        Repository { repo_type: self.repo_type.clone(), url: self.url.clone() }
    }
}

/// What a registry knows of one package.
#[derive(Debug)]
pub struct PackageInfo {
    pub name: String,
    pub version: String,
    pub license: Option<String>,
    pub dependencies: Vec<(String, String)>,
    pub repository: Option<Repository>,
}

pub struct PackageInfoView {
    pub name: Seq<char>,
    pub version: Seq<char>,
    pub license: Option<Seq<char>>,
    pub dependencies: Seq<NameVersion>,
    pub repository: Option<RepositoryView>,
}

impl View for PackageInfo {
    type V = PackageInfoView;

    open spec fn view(&self) -> PackageInfoView {
        PackageInfoView {
            name: self.name@,
            version: self.version@,
            license: self.license.deep_view(),
            dependencies: self.dependencies.deep_view(),
            repository: self.repository.deep_view(),
        }
    }
}

impl DeepView for PackageInfo {
    type V = PackageInfoView;

    open spec fn deep_view(&self) -> PackageInfoView {
        self@
    }
}

/// Copies an optional string.
pub fn clone_optional_string(s: &Option<String>) -> (r: Option<String>)
    ensures
        r.deep_view() == s.deep_view(),
{
    match s {
        Some(t) => Some(t.clone()),
        None => None,
    }
}

/// Copies a list of name and version pairs.
pub fn clone_pairs(pairs: &Vec<(String, String)>) -> (r: Vec<(String, String)>)
    ensures
        r.deep_view() == pairs.deep_view(),
{
    let mut out: Vec<(String, String)> = Vec::new();
    let mut i: usize = 0;
    while i < pairs.len()
        invariant
            i <= pairs.len(),
            out.len() == i,
            forall|k: int| 0 <= k < i ==> out[k].deep_view() == pairs[k].deep_view(),
        decreases pairs.len() - i,
    {
        out.push((pairs[i].0.clone(), pairs[i].1.clone()));
        i += 1;
    }
    assert(out.deep_view() =~= pairs.deep_view());
    out
}

impl Clone for PackageInfo {
    fn clone(&self) -> (r: Self)
        ensures
            r@ == self@,
    {
        PackageInfo {
            name: self.name.clone(),
            version: self.version.clone(),
            license: clone_optional_string(&self.license),
            dependencies: clone_pairs(&self.dependencies),
            repository: match &self.repository {
                Some(repo) => Some(repo.clone()),
                None => None,
            },
        }
    }
}

/// The top-level requests of one job: names with their version specifiers,
/// in the order in which the manifest lists them.
#[derive(Debug)]
pub struct Manifest {
    pub dependencies: Vec<(String, String)>,
}

pub struct ManifestView {
    pub dependencies: Seq<NameVersion>,
}

impl View for Manifest {
    type V = ManifestView;

    open spec fn view(&self) -> ManifestView {
        ManifestView { dependencies: self.dependencies.deep_view() }
    }
}

/// The entry of a manifest's dependency section as a request: an entry
/// whose value is no string asks for the empty version specifier.
pub open spec fn entry_request(entry: (Seq<char>, Option<Seq<char>>)) -> NameVersion {
    match entry.1 {
        Some(version) => (entry.0, version),
        None => (entry.0, Seq::<char>::empty()),
    }
}

/// The requests of a manifest whose dependency section holds `section`; a
/// manifest without such a section asks for nothing.
pub open spec fn section_requests(section: Option<Seq<(Seq<char>, Option<Seq<char>>)>>) -> Seq<
    NameVersion,
> {
    match section {
        Some(entries) => entries.map_values(|e: (Seq<char>, Option<Seq<char>>)| entry_request(e)),
        None => Seq::empty(),
    }
}

impl Manifest {
    /// Reads the dependency section of a manifest: `None` where the manifest
    /// has no such section or it is no object, else its entries in order,
    /// each with its value if that is a string.
    pub fn from_section(section: Option<Vec<(String, Option<String>)>>) -> (m: Manifest)
        ensures
            m@.dependencies == section_requests(section.deep_view()),
    {
        let mut dependencies: Vec<(String, String)> = Vec::new();
        match section {
            None => {
                assert(dependencies.deep_view() =~= Seq::<NameVersion>::empty());
            },
            Some(entries) => {
                let ghost all = entries.deep_view();
                let mut i: usize = 0;
                while i < entries.len()
                    invariant
                        i <= entries.len(),
                        entries.deep_view() == all,
                        dependencies.len() == i,
                        forall|k: int|
                            0 <= k < i ==> (#[trigger] dependencies[k]).deep_view() == entry_request(
                                all[k],
                            ),
                    decreases entries.len() - i,
                {
                    assert(all[i as int] == entries[i as int].deep_view());
                    let name = entries[i].0.clone();
                    let version = match &entries[i].1 {
                        Some(v) => v.clone(),
                        None => String::new(),
                    };
                    dependencies.push((name, version));
                    i += 1;
                }
                assert(dependencies.deep_view() =~= section_requests(Some(all)));
            },
        }
        Manifest { dependencies }
    }
}

} // verus!
