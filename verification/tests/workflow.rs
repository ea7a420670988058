use promotion::convert::MigrateInto;
use promotion::manifest::{freeze_manifest_text, promote_manifest_text};
use promotion::model::ManifestError;
use promotion::paths::{join_path, relative_path};

fn comps(parts: &[&str]) -> Vec<String> {
    parts.iter().map(|p| (*p).to_owned()).collect()
}

const HEAD_MANIFEST: &str = "\
[package]
name = \"alpha\"
version = \"0.1.0\"
edition = \"2021\"

[dependencies]
v2 = { path = \"../v2\" }
migration_utils = { path = \"../utils\" }
";

#[test]
fn promotion_rewrites_the_dependency_table() {
    let out = promote_manifest_text(HEAD_MANIFEST, "v3", "../v3", "v2").unwrap();
    let doc: toml::Value = toml::from_str(&out).unwrap();
    let deps = doc.get("dependencies").unwrap();
    assert_eq!(deps.get("v3").unwrap().get("path").unwrap().as_str(), Some("../v3"));
    assert!(deps.get("v2").is_none());
    assert_eq!(
        deps.get("migration_utils").unwrap().get("path").unwrap().as_str(),
        Some("../utils")
    );
    let package = doc.get("package").unwrap();
    assert_eq!(package.get("name").unwrap().as_str(), Some("alpha"));
    assert_eq!(package.get("version").unwrap().as_str(), Some("0.1.0"));
    assert_eq!(package.get("edition").unwrap().as_str(), Some("2021"));
}

#[test]
fn freezing_renames_the_package_and_keeps_the_rest() {
    let out = freeze_manifest_text(HEAD_MANIFEST, "v3").unwrap();
    let doc: toml::Value = toml::from_str(&out).unwrap();
    let package = doc.get("package").unwrap();
    assert_eq!(package.get("name").unwrap().as_str(), Some("v3"));
    assert_eq!(package.get("version").unwrap().as_str(), Some("0.1.0"));
    let deps = doc.get("dependencies").unwrap();
    assert_eq!(deps.get("v2").unwrap().get("path").unwrap().as_str(), Some("../v2"));
}

#[test]
fn manifest_errors_name_what_is_missing() {
    assert_eq!(
        promote_manifest_text("not = = toml", "v3", "../v3", "v2"),
        Err(ManifestError::Unparsable)
    );
    assert_eq!(
        promote_manifest_text("[package]\nname = \"alpha\"\n", "v3", "../v3", "v2"),
        Err(ManifestError::MissingDependencyTable)
    );
    assert_eq!(
        freeze_manifest_text("[dependencies]\nv2 = \"1.0\"\n", "v3"),
        Err(ManifestError::MissingPackageTable)
    );
}

#[test]
fn relative_path_climbs_to_the_common_ancestor() {
    let from = comps(&["repo", "migrations", "alpha"]);
    let to = comps(&["repo", "migrations", "v3"]);
    assert_eq!(relative_path(&from, &to), comps(&["..", "v3"]));
}

#[test]
fn relative_path_with_no_common_root_descends_from_the_top() {
    let from = comps(&["alpha"]);
    let to = comps(&["elsewhere", "v3"]);
    assert_eq!(relative_path(&from, &to), comps(&["..", "elsewhere", "v3"]));
}

#[test]
fn relative_path_between_equal_directories_is_empty() {
    let from = comps(&["repo", "alpha"]);
    let to = comps(&["repo", "alpha"]);
    assert_eq!(relative_path(&from, &to), comps(&[]));
}

#[test]
fn relative_path_into_a_subdirectory_needs_no_upward_steps() {
    let from = comps(&["repo"]);
    let to = comps(&["repo", "versions", "v9"]);
    assert_eq!(relative_path(&from, &to), comps(&["versions", "v9"]));
}

#[test]
fn join_path_uses_forward_slashes() {
    assert_eq!(join_path(&comps(&["..", "v3"])), "../v3");
    assert_eq!(join_path(&comps(&["v3"])), "v3");
    assert_eq!(join_path(&comps(&[])), "");
}

#[test]
fn every_type_converts_to_itself() {
    let n: u64 = 99;
    let m: u64 = n.migrate();
    assert_eq!(m, 99);
    let v: Vec<bool> = vec![true, false];
    let w: Vec<bool> = v.migrate();
    assert_eq!(w, vec![true, false]);
    let s: String = "alpha".to_owned();
    let t: String = s.migrate();
    assert_eq!(t, "alpha");
}

#[test]
fn relative_path_from_a_rooted_source_to_an_unrooted_target_is_the_target() {
    let from = comps(&["/", "a"]);
    let to = comps(&["b"]);
    assert_eq!(relative_path(&from, &to), comps(&["b"]));
}

#[test]
fn relative_path_between_rooted_directories_climbs_normally() {
    let from = comps(&["/", "repo", "alpha"]);
    let to = comps(&["/", "repo", "v3"]);
    assert_eq!(relative_path(&from, &to), comps(&["..", "v3"]));
}
