use vstd::prelude::*;
use crate::manifest::{DoveToml, Git, Layout, Package, deps_of};
use crate::partition::{git_deps, local_deps, partition, partition_keeps_count};

verus! {

/// Project info of the metadata document.
#[derive(Debug, Clone, PartialEq, Eq)]
pub struct PackageJson {
    /// Project name.
    pub name: String,
    /// Project account address.
    pub account_address: Option<String>,
    /// Authors list.
    pub authors: Vec<String>,
    /// Blockchain API endpoint.
    pub blockchain_api: Option<String>,
    /// Git dependency list.
    pub git_dependencies: Vec<Git>,
    /// Local dependency list.
    pub local_dependencies: Vec<String>,
}

/// Metadata document of a project.
#[derive(Debug, Clone, PartialEq, Eq)]
pub struct DoveJson {
    /// Project info.
    pub package: PackageJson,
    /// Project layout.
    pub layout: Layout,
}

/// The metadata command: `json` selects the metadata document over the
/// native rendering of the manifest.
#[derive(Debug, Clone, Copy, PartialEq, Eq)]
pub struct Metadata {
    /// Render the metadata document as JSON.
    pub json: bool,
}

/// What the metadata command hands over for rendering.
#[derive(Debug, Clone, PartialEq, Eq)]
pub enum MetadataOutput {
    /// The metadata document, to be rendered as JSON.
    Json(DoveJson),
    /// The manifest as it was given, to be rendered in the native format.
    Native(DoveToml),
}

/// `pj` is the project info derived from `pac`: the name defaults to the empty
/// string, the other fields are taken over, and the dependency list is split
/// into git records and local paths.
pub open spec fn is_package_json(pac: Package, pj: PackageJson) -> bool {
    &&& match pac.name {
        Some(n) => pj.name == n,
        None => pj.name@ == Seq::<char>::empty(),
    }
    &&& pj.account_address == pac.account_address
    &&& pj.authors == pac.authors
    &&& pj.blockchain_api == pac.blockchain_api
    &&& pj.git_dependencies@ == git_deps(deps_of(pac.dependencies))
    &&& pj.local_dependencies@ == local_deps(deps_of(pac.dependencies))
}

/// `doc` is the metadata document of `toml`.
pub open spec fn is_dove_json(toml: DoveToml, doc: DoveJson) -> bool {
    &&& is_package_json(toml.package, doc.package)
    &&& doc.layout == toml.layout
}

/// `pac` with its name set to `name`.
pub open spec fn named(pac: Package, name: String) -> Package {
    Package { name: Some(name), ..pac }
}

/// `out` is what the command with format flag `json` yields for `manifest`,
/// where `project_name` is the name derived from the project.
pub open spec fn metadata_output(
    json: bool,
    manifest: DoveToml,
    project_name: String,
    out: MetadataOutput,
) -> bool {
    if json {
        out matches MetadataOutput::Json(doc) && is_dove_json(
            DoveToml { package: named(manifest.package, project_name), ..manifest },
            doc,
        )
    } else {
        out == MetadataOutput::Native(manifest)
    }
}

/// The account address used where a package declares none: no address.
pub fn code_code_address() -> (r: Option<String>)
    ensures
        r is None,
{
    None
}

impl PackageJson {
    /// Project info of the metadata document for `pac`.
    pub fn from(pac: Package) -> (r: PackageJson)
        ensures
            is_package_json(pac, r),
    {
        let (git, locals) = partition(pac.dependencies);
        let name = match pac.name {
            Some(n) => n,
            None => String::new(),
        };
        let account_address = match pac.account_address {
            Some(a) => Some(a),
            None => code_code_address(),
        };
        PackageJson {
            name,
            account_address,
            authors: pac.authors,
            blockchain_api: pac.blockchain_api,
            git_dependencies: git,
            local_dependencies: locals,
        }
    }
}

impl DoveJson {
    /// Metadata document of the manifest `toml`.
    pub fn from(toml: DoveToml) -> (r: DoveJson)
        ensures
            is_dove_json(toml, r),
    {
        DoveJson { package: PackageJson::from(toml.package), layout: toml.layout }
    }
}

impl Metadata {
    /// Decides what the command renders: with `json` set, the metadata
    /// document of `manifest` after its name is overwritten by
    /// `project_name`; otherwise `manifest` itself, untouched.
    pub fn apply(self, manifest: DoveToml, project_name: String) -> (r: MetadataOutput)
        ensures
            metadata_output(self.json, manifest, project_name, r),
    {
        if self.json {
            let mut manifest = manifest;
            manifest.package.name = Some(project_name);
            MetadataOutput::Json(DoveJson::from(manifest))
        } else {
            MetadataOutput::Native(manifest)
        }
    }
}

/// With the JSON format, the document's package name is the project name,
/// whatever name the manifest held.
pub proof fn json_name_is_project_name(
    manifest: DoveToml,
    project_name: String,
    out: MetadataOutput,
)
    requires
        metadata_output(true, manifest, project_name, out),
    ensures
        out matches MetadataOutput::Json(doc) && doc.package.name == project_name,
{
}

/// With the native format, the output is the manifest as it was given,
/// its dependency list included and not split.
pub proof fn native_output_is_manifest(
    manifest: DoveToml,
    project_name: String,
    out: MetadataOutput,
)
    requires
        metadata_output(false, manifest, project_name, out),
    ensures
        out == MetadataOutput::Native(manifest),
        out matches MetadataOutput::Native(m) && m.package.dependencies
            == manifest.package.dependencies,
{
}

/// With the JSON format, the document lists as many dependencies, git and
/// local together, as the manifest does.
pub proof fn json_keeps_dependency_count(
    manifest: DoveToml,
    project_name: String,
    out: MetadataOutput,
)
    requires
        metadata_output(true, manifest, project_name, out),
    ensures
        out matches MetadataOutput::Json(doc) && doc.package.git_dependencies@.len()
            + doc.package.local_dependencies@.len() == deps_of(manifest.package.dependencies).len(),
{
    partition_keeps_count(deps_of(manifest.package.dependencies));
}

} // verus!
