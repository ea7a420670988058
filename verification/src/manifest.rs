use vstd::prelude::*;

verus! {

use crate::model::ManifestError;

// ---------------------------------------------------------------------------
// The manifest document, held as a toml value tree.
// ---------------------------------------------------------------------------

#[verifier::external_type_specification]
#[verifier::external_body]
pub struct ExTomlValue(toml::Value);

#[verifier::external_type_specification]
#[verifier::external_body]
pub struct ExTomlDeError(toml::de::Error);

#[verifier::external_type_specification]
#[verifier::external_body]
pub struct ExTomlSerError(toml::ser::Error);

/// Whether a manifest text parses as a toml document; parsing is a function
/// of the text alone.
pub uninterp spec fn manifest_parses(s: Seq<char>) -> bool;

/// Whether a manifest text's document holds a package table.
pub uninterp spec fn manifest_text_has_package(s: Seq<char>) -> bool;

/// Whether a manifest text's document holds a dependency table.
pub uninterp spec fn manifest_text_has_deps(s: Seq<char>) -> bool;

/// The package identifier of a manifest text's document, when its package
/// table holds a string name.
pub uninterp spec fn manifest_text_package(s: Seq<char>) -> Option<Seq<char>>;

/// The dependency table of a manifest text's document, read as
/// `manifest_deps` reads a value's.
pub uninterp spec fn manifest_text_deps(s: Seq<char>) -> Map<Seq<char>, Option<Seq<char>>>;

/// The dependency table of a manifest value: each dependency's name, mapped
/// to its path when it is a path dependency and to `None` otherwise.
pub uninterp spec fn manifest_deps(v: toml::Value) -> Map<Seq<char>, Option<Seq<char>>>;

/// Whether the manifest value holds a dependency table.
pub uninterp spec fn manifest_has_deps(v: toml::Value) -> bool;

/// The package identifier of a manifest value, when its package table holds
/// a string name.
pub uninterp spec fn manifest_package(v: toml::Value) -> Option<Seq<char>>;

/// Whether the manifest value holds a package table.
pub uninterp spec fn manifest_has_package(v: toml::Value) -> bool;

/// Whether the value is a document tree: a table at the root, as every
/// parsed manifest is. Only such trees render back as documents.
pub uninterp spec fn manifest_is_document(v: toml::Value) -> bool;

/// The manifest value's content apart from the package table's `name` entry
/// and the `dependencies` table, in one fixed rendering: what a manifest
/// edit must leave untouched.
pub uninterp spec fn manifest_rest(v: toml::Value) -> Seq<char>;

/// The manifest text's content apart from the package table's `name` entry
/// and the `dependencies` table, read as `manifest_rest` reads a value's.
pub uninterp spec fn manifest_text_rest(s: Seq<char>) -> Seq<char>;

// ---------------------------------------------------------------------------
// Trusted calls into toml.
// ---------------------------------------------------------------------------

/// Relies on toml::from_str: a full structured read of the manifest text into
/// its value tree; succeeds exactly when the text is a well-formed document.
#[verifier::external_body]
fn parse_value(text: &str) -> (r: Result<toml::Value, toml::de::Error>)
    ensures
        r is Ok <==> manifest_parses(text@),
        r matches Ok(v) ==> manifest_has_package(v) == manifest_text_has_package(text@)
            && manifest_has_deps(v) == manifest_text_has_deps(text@) && manifest_package(v)
            == manifest_text_package(text@) && manifest_deps(v) == manifest_text_deps(text@)
            && manifest_is_document(v) && manifest_rest(v) == manifest_text_rest(text@),
{
    toml::from_str::<toml::Value>(text)
}

/// Relies on toml::to_string: a full rewrite of the value tree as a
/// document; fields never touched by an edit are carried in the tree and so
/// are preserved by the rewrite. Rendering a document tree (a table at the
/// root) always succeeds — the serializer's error paths serve non-table
/// roots and arbitrary serde types — and the rendered document parses back
/// to a tree with the same package identifier, dependency table and
/// remaining content.
#[verifier::external_body]
fn value_to_text(v: &toml::Value) -> (r: Result<String, toml::ser::Error>)
    requires
        manifest_is_document(*v),
    ensures
        r is Ok,
        r matches Ok(out) ==> manifest_parses(out@) && manifest_text_package(out@)
            == manifest_package(*v) && manifest_text_deps(out@) == manifest_deps(*v)
            && manifest_text_has_package(out@) == manifest_has_package(*v)
            && manifest_text_has_deps(out@) == manifest_has_deps(*v)
            && manifest_text_rest(out@) == manifest_rest(*v),
{
    toml::to_string(v)
}

/// Relies on toml::Value::get_mut, Value::as_table_mut and Map::insert: sets
/// the `name` entry of the `package` table, touching nothing else; reports
/// whether a package table was there to edit.
#[verifier::external_body]
fn set_package_name_raw(v: &mut toml::Value, name: &str) -> (ok: bool)
    ensures
        ok == manifest_has_package(*old(v)),
        ok ==> manifest_package(*final(v)) == Some(name@) && manifest_deps(*final(v))
            == manifest_deps(*old(v)) && manifest_has_deps(*final(v)) == manifest_has_deps(
            *old(v),
        ) && manifest_has_package(*final(v)) && manifest_is_document(*final(v))
            == manifest_is_document(*old(v)) && manifest_rest(*final(v)) == manifest_rest(
            *old(v),
        ),
        !ok ==> *final(v) == *old(v),
{
    match v.get_mut("package").and_then(|p| p.as_table_mut()) {
        Some(t) => {
            t.insert("name".to_owned(), toml::Value::String(name.to_owned()));
            true
        },
        None => false,
    }
}

/// Relies on toml::Value::get_mut, Value::as_table_mut and Map::insert: adds
/// `name = { path = "<path>" }` to the `dependencies` table, touching nothing
/// else; reports whether a dependency table was there to edit.
#[verifier::external_body]
fn insert_path_dep_raw(v: &mut toml::Value, name: &str, path: &str) -> (ok: bool)
    ensures
        ok == manifest_has_deps(*old(v)),
        ok ==> manifest_deps(*final(v)) == manifest_deps(*old(v)).insert(name@, Some(path@))
            && manifest_has_deps(*final(v)) && manifest_package(*final(v)) == manifest_package(
            *old(v),
        ) && manifest_has_package(*final(v)) == manifest_has_package(*old(v))
            && manifest_is_document(*final(v)) == manifest_is_document(*old(v))
            && manifest_rest(*final(v)) == manifest_rest(*old(v)),
        !ok ==> *final(v) == *old(v),
{
    match v.get_mut("dependencies").and_then(|d| d.as_table_mut()) {
        Some(t) => {
            let mut dep = toml::Table::new();
            dep.insert("path".to_owned(), toml::Value::String(path.to_owned()));
            t.insert(name.to_owned(), toml::Value::Table(dep));
            true
        },
        None => false,
    }
}

/// Relies on toml::Value::get_mut, Value::as_table_mut and Map::remove:
/// removes the named entry of the `dependencies` table, touching nothing
/// else; reports whether a dependency table was there to edit.
#[verifier::external_body]
fn remove_dep_raw(v: &mut toml::Value, name: &str) -> (ok: bool)
    ensures
        ok == manifest_has_deps(*old(v)),
        ok ==> manifest_deps(*final(v)) == manifest_deps(*old(v)).remove(name@)
            && manifest_has_deps(*final(v)) && manifest_package(*final(v)) == manifest_package(
            *old(v),
        ) && manifest_has_package(*final(v)) == manifest_has_package(*old(v))
            && manifest_is_document(*final(v)) == manifest_is_document(*old(v))
            && manifest_rest(*final(v)) == manifest_rest(*old(v)),
        !ok ==> *final(v) == *old(v),
{
    match v.get_mut("dependencies").and_then(|d| d.as_table_mut()) {
        Some(t) => {
            t.remove(name);
            true
        },
        None => false,
    }
}

// ---------------------------------------------------------------------------
// The promotion's manifest edits.
// ---------------------------------------------------------------------------

/// Sets the frozen copy's package identifier to the new module's name,
/// preserving its dependency table and every field the edit does not touch.
/// Fails exactly when the manifest has no package table.
pub fn set_package_identifier(v: &mut toml::Value, new_name: &str) -> (r: Result<
    (),
    ManifestError,
>)
    ensures
        r is Ok <==> manifest_has_package(*old(v)),
        r is Ok ==> manifest_package(*final(v)) == Some(new_name@) && manifest_deps(*final(v))
            == manifest_deps(*old(v)) && manifest_has_deps(*final(v)) == manifest_has_deps(
            *old(v),
        ) && manifest_is_document(*final(v)) == manifest_is_document(*old(v))
            && manifest_rest(*final(v)) == manifest_rest(*old(v)),
        r is Err ==> *final(v) == *old(v) && r == Err::<(), ManifestError>(
            ManifestError::MissingPackageTable,
        ),
{
    if set_package_name_raw(v, new_name) {
        Ok(())
    } else {
        Err(ManifestError::MissingPackageTable)
    }
}

/// Rewrites the in-development module's dependency table for a promotion:
/// the new frozen module is added as a path dependency at `rel_path`, then
/// the old predecessor's entry is removed. The package identifier and every
/// untouched field are preserved. Fails exactly when the manifest has no
/// dependency table.
pub fn promote_dependencies(
    v: &mut toml::Value,
    new_name: &str,
    rel_path: &str,
    old_prev: &str,
) -> (r: Result<(), ManifestError>)
    ensures
        r is Ok <==> manifest_has_deps(*old(v)),
        r is Ok ==> manifest_deps(*final(v)) == manifest_deps(*old(v)).insert(
            new_name@,
            Some(rel_path@),
        ).remove(old_prev@) && manifest_has_deps(*final(v)) && manifest_package(*final(v))
            == manifest_package(*old(v)) && manifest_is_document(*final(v))
            == manifest_is_document(*old(v)) && manifest_rest(*final(v)) == manifest_rest(
            *old(v),
        ),
        r is Err ==> *final(v) == *old(v) && r == Err::<(), ManifestError>(
            ManifestError::MissingDependencyTable,
        ),
{
    if !insert_path_dep_raw(v, new_name, rel_path) {
        return Err(ManifestError::MissingDependencyTable);
    }
    let removed = remove_dep_raw(v, old_prev);
    proof {
        assert(removed);
    }
    Ok(())
}

/// Rewrites a frozen copy's manifest text: the package identifier becomes
/// `new_name`, everything else is preserved by the structured
/// read-edit-rewrite.
pub fn freeze_manifest_text(text: &str, new_name: &str) -> (r: Result<String, ManifestError>)
    ensures
        r is Ok <==> manifest_parses(text@) && manifest_text_has_package(text@),
        r == Err::<String, ManifestError>(ManifestError::Unparsable) <==> !manifest_parses(text@),
        r == Err::<String, ManifestError>(ManifestError::MissingPackageTable) <==> manifest_parses(
            text@,
        ) && !manifest_text_has_package(text@),
        r matches Ok(out) ==> manifest_parses(out@) && manifest_text_package(out@) == Some(
            new_name@,
        ) && manifest_text_deps(out@) == manifest_text_deps(text@) && manifest_text_rest(out@)
            == manifest_text_rest(text@),
{
    match parse_value(text) {
        Err(_) => Err(ManifestError::Unparsable),
        Ok(mut v) => match set_package_identifier(&mut v, new_name) {
            Err(e) => Err(e),
            Ok(()) => match value_to_text(&v) {
                Err(_) => vstd::pervasive::unreached(),
                Ok(s) => Ok(s),
            },
        },
    }
}

/// Rewrites the in-development module's manifest text for a promotion: adds
/// the dependency `new_name = { path = "<rel_path>" }` and removes the
/// dependency `old_prev`, preserving everything else.
pub fn promote_manifest_text(
    text: &str,
    new_name: &str,
    rel_path: &str,
    old_prev: &str,
) -> (r: Result<String, ManifestError>)
    ensures
        r is Ok <==> manifest_parses(text@) && manifest_text_has_deps(text@),
        r == Err::<String, ManifestError>(ManifestError::Unparsable) <==> !manifest_parses(text@),
        r == Err::<String, ManifestError>(ManifestError::MissingDependencyTable)
            <==> manifest_parses(text@) && !manifest_text_has_deps(text@),
        r matches Ok(out) ==> manifest_parses(out@) && manifest_text_deps(out@)
            == manifest_text_deps(text@).insert(new_name@, Some(rel_path@)).remove(old_prev@)
            && manifest_text_package(out@) == manifest_text_package(text@)
            && manifest_text_rest(out@) == manifest_text_rest(text@),
{
    match parse_value(text) {
        Err(_) => Err(ManifestError::Unparsable),
        Ok(mut v) => match promote_dependencies(&mut v, new_name, rel_path, old_prev) {
            Err(e) => Err(e),
            Ok(()) => match value_to_text(&v) {
                Err(_) => vstd::pervasive::unreached(),
                Ok(s) => Ok(s),
            },
        },
    }
}

/// After a promotion's dependency edit, and whenever the new module's name
/// differs from the old predecessor's, the dependency table maps the new
/// module's name to the computed path and no longer holds the old
/// predecessor's entry.
pub proof fn lemma_promotion_dependency_table(
    deps: Map<Seq<char>, Option<Seq<char>>>,
    new_name: Seq<char>,
    rel_path: Seq<char>,
    old_prev: Seq<char>,
)
    requires
        new_name != old_prev,
    ensures
        deps.insert(new_name, Some(rel_path)).remove(old_prev).contains_key(new_name),
        deps.insert(new_name, Some(rel_path)).remove(old_prev)[new_name] == Some(rel_path),
        !(deps.insert(new_name, Some(rel_path)).remove(old_prev).contains_key(old_prev)),
{
}

} // verus!
