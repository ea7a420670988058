use vstd::prelude::*;

verus! {

// ---------------------------------------------------------------------------
// Structural model of a version module's declarations.
// ---------------------------------------------------------------------------

/// One field of a record declaration: its name and the opaque label of its
/// type. Field types are never interpreted, only carried along.
#[derive(Debug, PartialEq)]
pub struct Field {
    pub name: String,
    pub ty_label: String,
}

/// Mathematical image of a `Field`.
pub struct FieldModel {
    pub name: Seq<char>,
    pub ty_label: Seq<char>,
}

impl View for Field {
    type V = FieldModel;

    open spec fn view(&self) -> FieldModel {
        FieldModel { name: self.name@, ty_label: self.ty_label@ }
    }
}

pub open spec fn fields_view(s: Seq<Field>) -> Seq<FieldModel> {
    s.map_values(|f: Field| f@)
}

/// The shape of a tagged-union variant: named fields, a count of positional
/// fields, or no fields at all.
#[derive(Debug, PartialEq)]
pub enum VariantShape {
    Named(Vec<Field>),
    Positional(usize),
    Empty,
}

/// Mathematical image of a `VariantShape`.
pub enum ShapeModel {
    Named(Seq<FieldModel>),
    Positional(nat),
    Empty,
}

impl View for VariantShape {
    type V = ShapeModel;

    open spec fn view(&self) -> ShapeModel {
        match self {
            VariantShape::Named(fs) => ShapeModel::Named(fields_view(fs@)),
            VariantShape::Positional(n) => ShapeModel::Positional(*n as nat),
            VariantShape::Empty => ShapeModel::Empty,
        }
    }
}

/// One variant of a tagged-union declaration.
#[derive(Debug, PartialEq)]
pub struct Variant {
    pub name: String,
    pub shape: VariantShape,
}

/// Mathematical image of a `Variant`.
pub struct VariantModel {
    pub name: Seq<char>,
    pub shape: ShapeModel,
}

impl View for Variant {
    type V = VariantModel;

    open spec fn view(&self) -> VariantModel {
        VariantModel { name: self.name@, shape: self.shape@ }
    }
}

pub open spec fn variants_view(s: Seq<Variant>) -> Seq<VariantModel> {
    s.map_values(|v: Variant| v@)
}

/// A declared type of a version module: a record with ordered named fields,
/// or a tagged union with ordered variants.
#[derive(Debug, PartialEq)]
pub enum TypeDeclaration {
    Record { name: String, fields: Vec<Field> },
    Union { name: String, variants: Vec<Variant> },
}

/// Mathematical image of a `TypeDeclaration`.
pub enum DeclModel {
    Record { name: Seq<char>, fields: Seq<FieldModel> },
    Union { name: Seq<char>, variants: Seq<VariantModel> },
}

impl View for TypeDeclaration {
    type V = DeclModel;

    open spec fn view(&self) -> DeclModel {
        match self {
            TypeDeclaration::Record { name, fields } => DeclModel::Record {
                name: name@,
                fields: fields_view(fields@),
            },
            TypeDeclaration::Union { name, variants } => DeclModel::Union {
                name: name@,
                variants: variants_view(variants@),
            },
        }
    }
}

pub open spec fn decl_name(d: DeclModel) -> Seq<char> {
    match d {
        DeclModel::Record { name, .. } => name,
        DeclModel::Union { name, .. } => name,
    }
}

pub open spec fn decls_view(s: Seq<TypeDeclaration>) -> Seq<DeclModel> {
    s.map_values(|d: TypeDeclaration| d@)
}

// ---------------------------------------------------------------------------
// Items of a module source file.
// ---------------------------------------------------------------------------

/// One item of a module source file, as the analyzer splits the text.
///
/// Declarations and conversions keep their verbatim text so that a rewrite
/// preserves everything it does not regenerate.
#[derive(Debug, PartialEq)]
pub enum ModuleItem {
    /// A record or tagged-union declaration, with its verbatim text.
    Declaration { decl: TypeDeclaration, text: String },
    /// The predecessor-alias statement `use <name> as prev;`.
    PrevAlias { name: String },
    /// A conversion implementation `impl MigrateInto<target> for ... { ... }`,
    /// with its verbatim text.
    Conversion { target: String, text: String },
    /// Any other item, comment or attribute line, kept verbatim.
    Other { text: String },
}

/// Mathematical image of a `ModuleItem`. The extra `Unsupported` case stands
/// for a recognized record declaration whose shape the synthesizer cannot
/// express (a tuple or unit struct); the analyzer reports it as an error
/// rather than miscompile a conversion for it.
pub enum ItemModel {
    Declaration { decl: DeclModel, text: Seq<char> },
    PrevAlias { name: Seq<char> },
    Conversion { target: Seq<char>, text: Seq<char> },
    Other { text: Seq<char> },
    Unsupported,
}

impl View for ModuleItem {
    type V = ItemModel;

    open spec fn view(&self) -> ItemModel {
        match self {
            ModuleItem::Declaration { decl, text } => ItemModel::Declaration {
                decl: decl@,
                text: text@,
            },
            ModuleItem::PrevAlias { name } => ItemModel::PrevAlias { name: name@ },
            ModuleItem::Conversion { target, text } => ItemModel::Conversion {
                target: target@,
                text: text@,
            },
            ModuleItem::Other { text } => ItemModel::Other { text: text@ },
        }
    }
}

pub open spec fn items_view(s: Seq<ModuleItem>) -> Seq<ItemModel> {
    s.map_values(|it: ModuleItem| it@)
}

// ---------------------------------------------------------------------------
// Errors.
// ---------------------------------------------------------------------------

/// Failure of the structural analyzer.
#[derive(Debug, PartialEq)]
pub enum AnalyzeError {
    /// The source text is malformed for the module grammar.
    Parse,
    /// A declaration was recognized whose shape no conversion can be
    /// synthesized for (a record without named fields).
    UnsupportedShape,
}

/// Failure of a manifest edit.
#[derive(Debug, PartialEq)]
pub enum ManifestError {
    /// The manifest document does not parse.
    Unparsable,
    /// The manifest has no dependency table to edit.
    MissingDependencyTable,
    /// The manifest has no package table to edit.
    MissingPackageTable,
}

// ---------------------------------------------------------------------------
// Shared string building.
// ---------------------------------------------------------------------------

/// Relies on String::push: appends exactly one character at the end.
#[verifier::external_body]
pub(crate) fn push_char(s: &mut String, c: char)
    ensures
        final(s)@ == old(s)@ + seq![c],
{
    s.push(c);
}

/// Builds the string holding the characters of `s` from `a` up to `b`.
pub(crate) fn string_range(s: &Vec<char>, a: usize, b: usize) -> (r: String)
    requires
        a <= b && b <= s@.len(),
    ensures
        r@ == s@.subrange(a as int, b as int),
{
    let mut r = String::new();
    let mut k: usize = a;
    while k < b
        invariant
            a <= k && k <= b && b <= s@.len(),
            r@ == s@.subrange(a as int, k as int),
        decreases b - k,
    {
        push_char(&mut r, s[k]);
        proof {
            assert(s@.subrange(a as int, k + 1) =~= s@.subrange(a as int, k as int) + seq![
                s@[k as int],
            ]);
        }
        k += 1;
    }
    r
}

// ---------------------------------------------------------------------------
// Deep clones, with their views pinned.
// ---------------------------------------------------------------------------

pub fn clone_field(f: &Field) -> (r: Field)
    ensures
        r@ == f@,
{
    Field { name: f.name.clone(), ty_label: f.ty_label.clone() }
}

pub fn clone_fields(v: &Vec<Field>) -> (r: Vec<Field>)
    ensures
        fields_view(r@) == fields_view(v@),
{
    let mut r: Vec<Field> = Vec::new();
    let mut i: usize = 0;
    while i < v.len()
        invariant
            i <= v.len(),
            r@.len() == i,
            forall|k: int| 0 <= k < i ==> r@[k]@ == v@[k]@,
        decreases v.len() - i,
    {
        r.push(clone_field(&v[i]));
        i += 1;
    }
    proof {
        assert(fields_view(r@) =~= fields_view(v@));
    }
    r
}

pub fn clone_variant(v: &Variant) -> (r: Variant)
    ensures
        r@ == v@,
{
    let shape = match &v.shape {
        VariantShape::Named(fs) => VariantShape::Named(clone_fields(fs)),
        VariantShape::Positional(n) => VariantShape::Positional(*n),
        VariantShape::Empty => VariantShape::Empty,
    };
    Variant { name: v.name.clone(), shape }
}

pub fn clone_variants(v: &Vec<Variant>) -> (r: Vec<Variant>)
    ensures
        variants_view(r@) == variants_view(v@),
{
    let mut r: Vec<Variant> = Vec::new();
    let mut i: usize = 0;
    while i < v.len()
        invariant
            i <= v.len(),
            r@.len() == i,
            forall|k: int| 0 <= k < i ==> r@[k]@ == v@[k]@,
        decreases v.len() - i,
    {
        r.push(clone_variant(&v[i]));
        i += 1;
    }
    proof {
        assert(variants_view(r@) =~= variants_view(v@));
    }
    r
}

pub fn clone_decl(d: &TypeDeclaration) -> (r: TypeDeclaration)
    ensures
        r@ == d@,
{
    match d {
        TypeDeclaration::Record { name, fields } => TypeDeclaration::Record {
            name: name.clone(),
            fields: clone_fields(fields),
        },
        TypeDeclaration::Union { name, variants } => TypeDeclaration::Union {
            name: name.clone(),
            variants: clone_variants(variants),
        },
    }
}

} // verus!
