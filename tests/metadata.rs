use dove::manifest::{Dependence, DependencePath, Dependencies, DoveToml, Git, Layout, Package};
use dove::metadata::{code_code_address, DoveJson, Metadata, MetadataOutput, PackageJson};
use dove::partition::partition;

fn git(url: &str) -> Git {
    Git { url: url.to_string(), branch: None, rev: None }
}

fn path(p: &str) -> Dependence {
    Dependence::Path(DependencePath { path: p.to_string() })
}

fn layout() -> Layout {
    Layout {
        modules_dir: "modules".to_string(),
        scripts_dir: "scripts".to_string(),
        tests_dir: "tests".to_string(),
        artifacts: "artifacts".to_string(),
    }
}

fn package(name: Option<&str>, deps: Option<Vec<Dependence>>) -> Package {
    Package {
        name: name.map(|n| n.to_string()),
        account_address: None,
        authors: vec![],
        blockchain_api: None,
        dependencies: deps.map(|deps| Dependencies { deps }),
    }
}

fn demo_manifest() -> DoveToml {
    DoveToml {
        package: package(
            Some("demo"),
            Some(vec![Dependence::Git(git("https://x/git")), path("../lib")]),
        ),
        layout: layout(),
    }
}

#[test]
fn partition_of_absent_list_is_empty() {
    let (gits, locals) = partition(None);
    assert!(gits.is_empty());
    assert!(locals.is_empty());
}

#[test]
fn partition_of_empty_list_is_empty() {
    let (gits, locals) = partition(Some(Dependencies { deps: vec![] }));
    assert!(gits.is_empty());
    assert!(locals.is_empty());
}

#[test]
fn partition_splits_and_keeps_order() {
    let deps = vec![
        path("a"),
        Dependence::Git(git("https://one")),
        path("b"),
        Dependence::Git(git("https://two")),
        path("a"),
    ];
    let (gits, locals) = partition(Some(Dependencies { deps }));
    assert_eq!(gits, vec![git("https://one"), git("https://two")]);
    assert_eq!(locals, vec!["a".to_string(), "b".to_string(), "a".to_string()]);
}

#[test]
fn partition_keeps_git_record_fields() {
    let record = Git {
        url: "https://x/git".to_string(),
        branch: Some("main".to_string()),
        rev: Some("abc123".to_string()),
    };
    let (gits, locals) = partition(Some(Dependencies { deps: vec![Dependence::Git(record.clone())] }));
    assert_eq!(gits, vec![record]);
    assert!(locals.is_empty());
}

#[test]
fn partition_only_locals() {
    let (gits, locals) = partition(Some(Dependencies { deps: vec![path("x"), path("y")] }));
    assert!(gits.is_empty());
    assert_eq!(locals, vec!["x".to_string(), "y".to_string()]);
}

#[test]
fn default_account_address_is_absent() {
    assert_eq!(code_code_address(), None);
}

#[test]
fn package_json_defaults_name_to_empty() {
    let pj = PackageJson::from(package(None, None));
    assert_eq!(pj.name, "");
    assert_eq!(pj.account_address, None);
    assert!(pj.authors.is_empty());
    assert_eq!(pj.blockchain_api, None);
    assert!(pj.git_dependencies.is_empty());
    assert!(pj.local_dependencies.is_empty());
}

#[test]
fn package_json_takes_fields_over() {
    let mut pac = package(Some("proj"), Some(vec![path("../dep")]));
    pac.account_address = Some("0x1".to_string());
    pac.authors = vec!["alice".to_string(), "bob".to_string()];
    pac.blockchain_api = Some("http://localhost:8080".to_string());
    let pj = PackageJson::from(pac);
    assert_eq!(pj.name, "proj");
    assert_eq!(pj.account_address, Some("0x1".to_string()));
    assert_eq!(pj.authors, vec!["alice".to_string(), "bob".to_string()]);
    assert_eq!(pj.blockchain_api, Some("http://localhost:8080".to_string()));
    assert!(pj.git_dependencies.is_empty());
    assert_eq!(pj.local_dependencies, vec!["../dep".to_string()]);
}

#[test]
fn dove_json_keeps_layout() {
    let doc = DoveJson::from(demo_manifest());
    assert_eq!(doc.layout, layout());
    assert_eq!(doc.package.name, "demo");
    assert_eq!(doc.package.git_dependencies, vec![git("https://x/git")]);
    assert_eq!(doc.package.local_dependencies, vec!["../lib".to_string()]);
}

#[test]
fn json_output_of_demo_manifest() {
    let out = Metadata { json: true }.apply(demo_manifest(), "demo".to_string());
    let expected = DoveJson {
        package: PackageJson {
            name: "demo".to_string(),
            account_address: None,
            authors: vec![],
            blockchain_api: None,
            git_dependencies: vec![git("https://x/git")],
            local_dependencies: vec!["../lib".to_string()],
        },
        layout: layout(),
    };
    assert_eq!(out, MetadataOutput::Json(expected));
}

#[test]
fn native_output_of_demo_manifest_is_unsplit() {
    let out = Metadata { json: false }.apply(demo_manifest(), "other".to_string());
    assert_eq!(out, MetadataOutput::Native(demo_manifest()));
    match out {
        MetadataOutput::Native(m) => {
            assert_eq!(m.package.name, Some("demo".to_string()));
            assert_eq!(m.package.dependencies.unwrap().deps.len(), 2);
        }
        MetadataOutput::Json(_) => panic!("expected the native output"),
    }
}

#[test]
fn json_name_overwrites_explicit_name() {
    let manifest = DoveToml { package: package(Some("explicit"), None), layout: layout() };
    match (Metadata { json: true }).apply(manifest, "derived".to_string()) {
        MetadataOutput::Json(doc) => assert_eq!(doc.package.name, "derived"),
        MetadataOutput::Native(_) => panic!("expected the JSON output"),
    }
}

#[test]
fn json_name_fills_missing_name() {
    let manifest = DoveToml { package: package(None, None), layout: layout() };
    match (Metadata { json: true }).apply(manifest, "derived".to_string()) {
        MetadataOutput::Json(doc) => assert_eq!(doc.package.name, "derived"),
        MetadataOutput::Native(_) => panic!("expected the JSON output"),
    }
}

#[test]
fn json_keeps_dependency_count() {
    let deps = vec![
        Dependence::Git(git("https://a")),
        path("p1"),
        path("p2"),
        Dependence::Git(git("https://b")),
        Dependence::Git(git("https://c")),
    ];
    let manifest = DoveToml { package: package(Some("n"), Some(deps)), layout: layout() };
    match (Metadata { json: true }).apply(manifest, "n".to_string()) {
        MetadataOutput::Json(doc) => {
            assert_eq!(doc.package.git_dependencies.len(), 3);
            assert_eq!(doc.package.local_dependencies.len(), 2);
        }
        MetadataOutput::Native(_) => panic!("expected the JSON output"),
    }
}
