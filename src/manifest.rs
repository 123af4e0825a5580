use vstd::prelude::*;

verus! {

/// A dependency fetched from a git repository. The record is forwarded verbatim.
#[derive(Debug, Clone, PartialEq, Eq)]
pub struct Git {
    /// Repository address.
    pub url: String,
    /// Branch to check out.
    pub branch: Option<String>,
    /// Revision to check out.
    pub rev: Option<String>,
}

/// A dependency that lives on the local file system.
#[derive(Debug, Clone, PartialEq, Eq)]
pub struct DependencePath {
    /// Path to the dependency's directory.
    pub path: String,
}

/// One dependency entry of a manifest.
#[derive(Debug, Clone, PartialEq, Eq)]
pub enum Dependence {
    /// A remote, git-hosted dependency.
    Git(Git),
    /// A local, path-based dependency.
    Path(DependencePath),
}

/// The ordered dependency list of a package.
#[derive(Debug, Clone, PartialEq, Eq)]
pub struct Dependencies {
    /// Entries, in the order of the manifest.
    pub deps: Vec<Dependence>,
}

/// Directory and file layout of a project; forwarded unchanged.
#[derive(Debug, Clone, PartialEq, Eq)]
pub struct Layout {
    /// Directory with modules.
    pub modules_dir: String,
    /// Directory with scripts.
    pub scripts_dir: String,
    /// Directory with tests.
    pub tests_dir: String,
    /// Directory for build artifacts.
    pub artifacts: String,
}

/// Package section of a manifest.
#[derive(Debug, Clone, PartialEq, Eq)]
pub struct Package {
    /// Project name.
    pub name: Option<String>,
    /// Project account address.
    pub account_address: Option<String>,
    /// Authors list.
    pub authors: Vec<String>,
    /// Blockchain API endpoint.
    pub blockchain_api: Option<String>,
    /// Dependency list.
    pub dependencies: Option<Dependencies>,
}

/// A loaded project manifest.
#[derive(Debug, Clone, PartialEq, Eq)]
pub struct DoveToml {
    /// Project info.
    pub package: Package,
    /// Project layout.
    pub layout: Layout,
}

/// The dependency entries of an optional dependency list; none when it is absent.
pub open spec fn deps_of(d: Option<Dependencies>) -> Seq<Dependence> {
    match d {
        Some(list) => list.deps@,
        None => Seq::empty(),
    }
}

} // verus!
