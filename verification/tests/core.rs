use promotion::analyze::analyze;
use promotion::model::{AnalyzeError, Field, TypeDeclaration, Variant, VariantShape};
use promotion::reset::reset_module_source;
use promotion::synth::{synthesize_record_conversion, synthesize_union_conversion};

fn field(name: &str, ty: &str) -> Field {
    Field { name: name.to_owned(), ty_label: ty.to_owned() }
}

#[test]
fn analyze_reads_records_and_unions() {
    let src = "\
//! Development version of the schema.
use migration_utils::MigrateInto;
#[derive(Debug)]
pub struct C {
    pub field1: Option<u64>,
    pub field2: bool,
    pub field4: Vec<bool>,
}
pub enum D {
    E1 { field1: f64, field2: bool },
    E2(f64),
    E3,
}
impl MigrateInto<C> for prev::C {
    fn migrate(self) -> C {
        todo!()
    }
}
use v2 as prev;
";
    let decls = analyze(src).unwrap();
    assert_eq!(
        decls,
        vec![
            TypeDeclaration::Record {
                name: "C".to_owned(),
                fields: vec![
                    field("field1", "Option<u64>"),
                    field("field2", "bool"),
                    field("field4", "Vec<bool>"),
                ],
            },
            TypeDeclaration::Union {
                name: "D".to_owned(),
                variants: vec![
                    Variant {
                        name: "E1".to_owned(),
                        shape: VariantShape::Named(vec![
                            field("field1", "f64"),
                            field("field2", "bool"),
                        ]),
                    },
                    Variant { name: "E2".to_owned(), shape: VariantShape::Positional(1) },
                    Variant { name: "E3".to_owned(), shape: VariantShape::Empty },
                ],
            },
        ]
    );
}

#[test]
fn analyze_ignores_functions_and_other_impls() {
    let src = "\
pub trait MigrateInto<T> {
    fn migrate(self) -> T;
}
impl<T> MigrateInto<T> for T {
    fn migrate(self) -> T {
        self
    }
}
fn helper() -> u32 {
    7
}
";
    let decls = analyze(src).unwrap();
    assert!(decls.is_empty());
}

#[test]
fn analyze_rejects_malformed_source() {
    assert_eq!(analyze("pub struct {"), Err(AnalyzeError::Parse));
    assert_eq!(analyze("pub enum E"), Err(AnalyzeError::Parse));
}

#[test]
fn analyze_rejects_tuple_and_unit_structs() {
    assert_eq!(analyze("pub struct P(u32);"), Err(AnalyzeError::UnsupportedShape));
    assert_eq!(analyze("pub struct U;"), Err(AnalyzeError::UnsupportedShape));
}

#[test]
fn record_conversion_assigns_each_field_in_order() {
    let decl = TypeDeclaration::Record {
        name: "B".to_owned(),
        fields: vec![field("field1", "f64"), field("field2", "C"), field("field3", "u64")],
    };
    let conv = synthesize_record_conversion(&decl);
    assert_eq!(conv.target, "B");
    assert_eq!(
        conv.text,
        "impl MigrateInto<B> for prev::B {\n\
         \x20   fn migrate(self) -> B {\n\
         \x20       B {\n\
         \x20           field1: self.field1.migrate(),\n\
         \x20           field2: self.field2.migrate(),\n\
         \x20           field3: self.field3.migrate(),\n\
         \x20       }\n\
         \x20   }\n\
         }"
    );
}

#[test]
fn union_conversion_reconstructs_each_shape() {
    let decl = TypeDeclaration::Union {
        name: "D".to_owned(),
        variants: vec![
            Variant {
                name: "E1".to_owned(),
                shape: VariantShape::Named(vec![field("field1", "f64"), field("field2", "bool")]),
            },
            Variant { name: "E2".to_owned(), shape: VariantShape::Positional(2) },
            Variant { name: "E3".to_owned(), shape: VariantShape::Empty },
        ],
    };
    let conv = synthesize_union_conversion(&decl);
    assert_eq!(conv.target, "D");
    assert_eq!(
        conv.text,
        "impl MigrateInto<D> for prev::D {\n\
         \x20   fn migrate(self) -> D {\n\
         \x20       match self {\n\
         \x20           prev::D::E1 { field1, field2 } => D::E1 { field1: field1.migrate(), field2: field2.migrate() },\n\
         \x20           prev::D::E2(field0, field1) => D::E2(field0.migrate(), field1.migrate()),\n\
         \x20           prev::D::E3 => D::E3,\n\
         \x20       }\n\
         \x20   }\n\
         }"
    );
}

#[test]
fn union_conversion_of_two_variants_has_exactly_two_arms() {
    let decl = TypeDeclaration::Union {
        name: "D".to_owned(),
        variants: vec![
            Variant {
                name: "E1".to_owned(),
                shape: VariantShape::Named(vec![field("field1", "f64"), field("field2", "bool")]),
            },
            Variant { name: "E2".to_owned(), shape: VariantShape::Positional(1) },
        ],
    };
    let conv = synthesize_union_conversion(&decl);
    assert_eq!(conv.text.matches(" => ").count(), 2);
    assert!(conv.text.contains(
        "prev::D::E1 { field1, field2 } => D::E1 { field1: field1.migrate(), field2: field2.migrate() }"
    ));
    assert!(conv.text.contains("prev::D::E2(field0) => D::E2(field0.migrate())"));
}

#[test]
fn promotion_resets_conversions_and_alias() {
    let src = "\
//! Development version of the schema.
use migration_utils::MigrateInto;
#[derive(Debug)]
pub struct RecordA {
    pub field1: RecordB,
    pub field2: Number,
}
impl MigrateInto<RecordA> for prev::RecordA {
    fn migrate(self) -> RecordA {
        RecordA {
            field1: self.field1.migrate(),
        }
    }
}
use v2 as prev;
";
    let out = reset_module_source(src, "v3").unwrap();
    assert_eq!(
        out,
        "\
//! Development version of the schema.
use migration_utils::MigrateInto;
#[derive(Debug)]
pub struct RecordA {
    pub field1: RecordB,
    pub field2: Number,
}
impl MigrateInto<RecordA> for prev::RecordA {
    fn migrate(self) -> RecordA {
        RecordA {
            field1: self.field1.migrate(),
            field2: self.field2.migrate(),
        }
    }
}
use v3 as prev;
"
    );
}

#[test]
fn promotion_is_idempotent_on_a_reset_module() {
    let src = "\
pub struct B {
    pub field1: f64,
    pub field2: C,
}
pub enum D {
    E1 { field1: f64 },
    E2(f64),
}
impl MigrateInto<B> for prev::B {
    fn migrate(self) -> B {
        todo!()
    }
}
impl MigrateInto<D> for prev::D {
    fn migrate(self) -> D {
        todo!()
    }
}
use v4 as prev;
";
    let once = reset_module_source(src, "v5").unwrap();
    let again = reset_module_source(&once, "v6").unwrap();
    let direct = reset_module_source(src, "v6").unwrap();
    assert_eq!(again, direct);
}

#[test]
fn promotion_preserves_declarations() {
    let src = "\
pub struct B {
    pub field1: f64,
    pub field2: C,
}
pub enum D {
    E1 { field1: f64, field2: bool },
    E2(f64),
}
impl MigrateInto<B> for prev::B {
    fn migrate(self) -> B {
        todo!()
    }
}
use v4 as prev;
";
    let before = analyze(src).unwrap();
    let out = reset_module_source(src, "v5").unwrap();
    let after = analyze(&out).unwrap();
    assert_eq!(before, after);
}

#[test]
fn conversion_without_declaration_is_left_alone() {
    let src = "\
impl MigrateInto<Elsewhere> for prev::Elsewhere {
    fn migrate(self) -> Elsewhere {
        special_handling()
    }
}
use v1 as prev;
";
    let out = reset_module_source(src, "v2").unwrap();
    assert!(out.contains("special_handling()"));
    assert!(out.contains("use v2 as prev;"));
}

#[test]
fn field_types_are_opaque_labels() {
    let src = "\
pub struct M {
    pub table: HashMap<String, Vec<(u32, bool)>>,
    pub plain: u8
}
";
    let decls = analyze(src).unwrap();
    assert_eq!(
        decls,
        vec![TypeDeclaration::Record {
            name: "M".to_owned(),
            fields: vec![field("table", "HashMap<String, Vec<(u32, bool)>>"), field("plain", "u8")],
        }]
    );
}

#[test]
fn variant_lists_tolerate_trailing_commas() {
    let src = "\
pub enum E {
    A,
    B(u8,),
    C { x: u8 },
}
";
    let decls = analyze(src).unwrap();
    assert_eq!(
        decls,
        vec![TypeDeclaration::Union {
            name: "E".to_owned(),
            variants: vec![
                Variant { name: "A".to_owned(), shape: VariantShape::Empty },
                Variant { name: "B".to_owned(), shape: VariantShape::Positional(1) },
                Variant { name: "C".to_owned(), shape: VariantShape::Named(vec![field("x", "u8")]) },
            ],
        }]
    );
}

#[test]
fn empty_record_synthesizes_an_empty_conversion() {
    let decls = analyze("pub struct Z {}\n").unwrap();
    assert_eq!(
        decls,
        vec![TypeDeclaration::Record { name: "Z".to_owned(), fields: vec![] }]
    );
    let conv = synthesize_record_conversion(&decls[0]);
    assert_eq!(
        conv.text,
        "impl MigrateInto<Z> for prev::Z {\n\
         \x20   fn migrate(self) -> Z {\n\
         \x20       Z {\n\
         \x20       }\n\
         \x20   }\n\
         }"
    );
}

#[test]
fn braces_in_strings_and_comments_do_not_split_items() {
    let src = "\
pub struct B {
    pub field1: u8,
}
impl MigrateInto<B> for prev::B {
    fn migrate(self) -> B {
        /* brace salad: { { {
           spans lines, and /* nests */ too */
        let tag = \"}}{{\"; // a stray } here as well
        B { field1: 0 }
    }
}
use v1 as prev;
";
    let out = reset_module_source(src, "v2").unwrap();
    assert!(out.contains("field1: self.field1.migrate()"));
    assert!(!out.contains("brace salad"));
    assert!(out.contains("use v2 as prev;"));
}

#[test]
fn strings_and_comments_in_unrelated_items_are_kept_whole() {
    let src = "\
fn helper() -> String {
    // a comment with { and ;
    \"a ; with } inside\".to_owned()
}
pub struct B {
    pub field1: u8,
}
use v1 as prev;
";
    let out = reset_module_source(src, "v2").unwrap();
    assert!(out.contains("\"a ; with } inside\".to_owned()"));
    assert!(out.contains("pub struct B {"));
    assert!(out.contains("use v2 as prev;"));
}
