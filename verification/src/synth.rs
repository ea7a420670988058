use vstd::prelude::*;
use vstd::string::*;

verus! {

use crate::model::{push_char, Field, FieldModel, Variant, VariantModel, VariantShape, ShapeModel,
    TypeDeclaration, DeclModel, decl_name, fields_view, variants_view};

// ---------------------------------------------------------------------------
// The synthesized conversion code, defined as text.
// ---------------------------------------------------------------------------

/// A conversion implementation: the type it targets and its full text. The
/// source module is always referred to by the fixed alias `prev` inside the
/// text; which module that alias names is a separate statement of the file.
#[derive(Debug, PartialEq)]
pub struct ConversionImplementation {
    pub target: String,
    pub text: String,
}

/// Decimal rendering of a number, most significant digit first.
pub open spec fn sp_dec(n: nat) -> Seq<char>
    decreases n,
{
    if n < 10 {
        seq![sp_digit(n)]
    } else {
        sp_dec(n / 10) + seq![sp_digit(n % 10)]
    }
}

pub open spec fn sp_digit(n: nat) -> char {
    if n % 10 == 0 {
        '0'
    } else if n % 10 == 1 {
        '1'
    } else if n % 10 == 2 {
        '2'
    } else if n % 10 == 3 {
        '3'
    } else if n % 10 == 4 {
        '4'
    } else if n % 10 == 5 {
        '5'
    } else if n % 10 == 6 {
        '6'
    } else if n % 10 == 7 {
        '7'
    } else if n % 10 == 8 {
        '8'
    } else {
        '9'
    }
}

/// One assignment of a record conversion: the target field is filled from the
/// predecessor's same-named field, converted.
pub open spec fn sp_record_assign(f: FieldModel) -> Seq<char> {
    "            "@ + f.name + ": self."@ + f.name + ".migrate(),\n"@
}

/// The assignments of a record conversion, one per field, in declared order.
pub open spec fn sp_record_assigns(fs: Seq<FieldModel>) -> Seq<char>
    decreases fs.len(),
{
    if fs.len() == 0 {
        Seq::empty()
    } else {
        sp_record_assigns(fs.drop_last()) + sp_record_assign(fs.last())
    }
}

pub open spec fn sp_record_header(name: Seq<char>) -> Seq<char> {
    "impl MigrateInto<"@ + name + "> for prev::"@ + name + " {\n    fn migrate(self) -> "@
        + name + " {\n        "@ + name + " {\n"@
}

pub open spec fn sp_impl_footer() -> Seq<char> {
    "        }\n    }\n}"@
}

/// The whole synthesized conversion for a record declaration.
pub open spec fn sp_record_impl(name: Seq<char>, fs: Seq<FieldModel>) -> Seq<char> {
    sp_record_header(name) + sp_record_assigns(fs) + sp_impl_footer()
}

/// The field names of a named variant, comma-separated, in declared order.
pub open spec fn sp_named_pats(fs: Seq<FieldModel>) -> Seq<char>
    decreases fs.len(),
{
    if fs.len() == 0 {
        Seq::empty()
    } else if fs.len() == 1 {
        fs[0].name
    } else {
        sp_named_pats(fs.drop_last()) + ", "@ + fs.last().name
    }
}

/// One reconstruction entry of a named variant: the field filled from the
/// bound field of the same name, converted.
pub open spec fn sp_named_init(f: FieldModel) -> Seq<char> {
    f.name + ": "@ + f.name + ".migrate()"@
}

/// The reconstruction entries of a named variant, comma-separated, in order.
pub open spec fn sp_named_inits(fs: Seq<FieldModel>) -> Seq<char>
    decreases fs.len(),
{
    if fs.len() == 0 {
        Seq::empty()
    } else if fs.len() == 1 {
        sp_named_init(fs[0])
    } else {
        sp_named_inits(fs.drop_last()) + ", "@ + sp_named_init(fs.last())
    }
}

/// The binder for the positional field at index `k`.
pub open spec fn sp_pos_name(k: nat) -> Seq<char> {
    "field"@ + sp_dec(k)
}

/// The binders of a positional variant of `n` fields, comma-separated.
pub open spec fn sp_pos_pats(n: nat) -> Seq<char>
    decreases n,
{
    if n == 0 {
        Seq::empty()
    } else if n == 1 {
        sp_pos_name(0)
    } else {
        sp_pos_pats((n - 1) as nat) + ", "@ + sp_pos_name((n - 1) as nat)
    }
}

/// The converted binders of a positional variant, comma-separated, in order.
pub open spec fn sp_pos_convs(n: nat) -> Seq<char>
    decreases n,
{
    if n == 0 {
        Seq::empty()
    } else if n == 1 {
        sp_pos_name(0) + ".migrate()"@
    } else {
        sp_pos_convs((n - 1) as nat) + ", "@ + sp_pos_name((n - 1) as nat) + ".migrate()"@
    }
}

/// One match arm of a union conversion: the predecessor's same-named,
/// same-shaped variant is destructured and the successor's variant is
/// reconstructed in the same shape, every field converted.
pub open spec fn sp_union_arm(ename: Seq<char>, v: VariantModel) -> Seq<char> {
    match v.shape {
        ShapeModel::Named(fs) => "            prev::"@ + ename + "::"@ + v.name + " { "@
            + sp_named_pats(fs) + " } => "@ + ename + "::"@ + v.name + " { "@
            + sp_named_inits(fs) + " },\n"@,
        ShapeModel::Positional(n) => "            prev::"@ + ename + "::"@ + v.name + "("@
            + sp_pos_pats(n) + ") => "@ + ename + "::"@ + v.name + "("@ + sp_pos_convs(n)
            + "),\n"@,
        ShapeModel::Empty => "            prev::"@ + ename + "::"@ + v.name + " => "@ + ename
            + "::"@ + v.name + ",\n"@,
    }
}

/// The match arms of a union conversion, one per variant, in declared order.
pub open spec fn sp_union_arms(ename: Seq<char>, vs: Seq<VariantModel>) -> Seq<char>
    decreases vs.len(),
{
    if vs.len() == 0 {
        Seq::empty()
    } else {
        sp_union_arms(ename, vs.drop_last()) + sp_union_arm(ename, vs.last())
    }
}

pub open spec fn sp_union_header(ename: Seq<char>) -> Seq<char> {
    "impl MigrateInto<"@ + ename + "> for prev::"@ + ename + " {\n    fn migrate(self) -> "@
        + ename + " {\n        match self {\n"@
}

/// The whole synthesized conversion for a tagged-union declaration.
pub open spec fn sp_union_impl(ename: Seq<char>, vs: Seq<VariantModel>) -> Seq<char> {
    sp_union_header(ename) + sp_union_arms(ename, vs) + sp_impl_footer()
}

/// The synthesized conversion text for any declaration.
pub open spec fn sp_impl_text_for(d: DeclModel) -> Seq<char> {
    match d {
        DeclModel::Record { name, fields } => sp_record_impl(name, fields),
        DeclModel::Union { name, variants } => sp_union_impl(name, variants),
    }
}

// ---------------------------------------------------------------------------
// Executable synthesis.
// ---------------------------------------------------------------------------

fn append_digit(out: &mut String, n: usize)
    requires
        n < 10,
    ensures
        final(out)@ == old(out)@ + seq![sp_digit(n as nat)],
{
    let c: char = if n == 0 {
        '0'
    } else if n == 1 {
        '1'
    } else if n == 2 {
        '2'
    } else if n == 3 {
        '3'
    } else if n == 4 {
        '4'
    } else if n == 5 {
        '5'
    } else if n == 6 {
        '6'
    } else if n == 7 {
        '7'
    } else if n == 8 {
        '8'
    } else {
        '9'
    };
    push_char(out, c);
}

fn append_dec(out: &mut String, n: usize)
    ensures
        final(out)@ == old(out)@ + sp_dec(n as nat),
    decreases n,
{
    if n < 10 {
        append_digit(out, n);
    } else {
        append_dec(out, n / 10);
        append_digit(out, n % 10);
        proof {
            assert(final(out)@ =~= old(out)@ + sp_dec(n as nat));
        }
    }
}

fn append_record_assigns(text: &mut String, fields: &Vec<Field>)
    ensures
        final(text)@ == old(text)@ + sp_record_assigns(fields_view(fields@)),
{
    let ghost fv = fields_view(fields@);
    let mut i: usize = 0;
    while i < fields.len()
        invariant
            i <= fields@.len(),
            fv == fields_view(fields@),
            text@ == old(text)@ + sp_record_assigns(fv.take(i as int)),
        decreases fields@.len() - i,
    {
        text.append("            ");
        text.append(fields[i].name.as_str());
        text.append(": self.");
        text.append(fields[i].name.as_str());
        text.append(".migrate(),\n");
        proof {
            assert(fv.take(i + 1).drop_last() =~= fv.take(i as int));
            assert(fv.take(i + 1).last() == fv[i as int]);
            assert(text@ =~= old(text)@ + sp_record_assigns(fv.take(i + 1)));
        }
        i += 1;
    }
    proof {
        assert(fv.take(fields@.len() as int) =~= fv);
    }
}

/// Synthesizes the conversion for a record declaration: the target type is
/// rebuilt with each field, in declared order, filled from the predecessor
/// value's same-named field via its conversion contract. The predecessor is
/// never consulted: every field name is assumed to exist there, which holds
/// exactly when predecessor and successor declarations are identical.
pub fn synthesize_record_conversion(decl: &TypeDeclaration) -> (r: ConversionImplementation)
    requires
        decl@ is Record,
    ensures
        r.target@ == decl_name(decl@),
        r.text@ == sp_impl_text_for(decl@),
{
    match decl {
        TypeDeclaration::Record { name, fields } => {
            let mut text = String::new();
            text.append("impl MigrateInto<");
            text.append(name.as_str());
            text.append("> for prev::");
            text.append(name.as_str());
            text.append(" {\n    fn migrate(self) -> ");
            text.append(name.as_str());
            text.append(" {\n        ");
            text.append(name.as_str());
            text.append(" {\n");
            proof {
                assert(text@ =~= sp_record_header(name@));
            }
            append_record_assigns(&mut text, fields);
            text.append("        }\n    }\n}");
            proof {
                assert(text@ =~= sp_record_impl(name@, fields_view(fields@)));
            }
            ConversionImplementation { target: name.clone(), text }
        },
        TypeDeclaration::Union { .. } => vstd::pervasive::unreached(),
    }
}

fn append_named_pats(text: &mut String, fs: &Vec<Field>)
    ensures
        final(text)@ == old(text)@ + sp_named_pats(fields_view(fs@)),
{
    let ghost fv = fields_view(fs@);
    let mut i: usize = 0;
    while i < fs.len()
        invariant
            i <= fs@.len(),
            fv == fields_view(fs@),
            text@ == old(text)@ + sp_named_pats(fv.take(i as int)),
        decreases fs@.len() - i,
    {
        if i > 0 {
            text.append(", ");
        }
        text.append(fs[i].name.as_str());
        proof {
            assert(fv.take(i + 1).drop_last() =~= fv.take(i as int));
            assert(fv.take(i + 1).last() == fv[i as int]);
            assert(text@ =~= old(text)@ + sp_named_pats(fv.take(i + 1)));
        }
        i += 1;
    }
    proof {
        assert(fv.take(fs@.len() as int) =~= fv);
    }
}

fn append_named_inits(text: &mut String, fs: &Vec<Field>)
    ensures
        final(text)@ == old(text)@ + sp_named_inits(fields_view(fs@)),
{
    let ghost fv = fields_view(fs@);
    let mut i: usize = 0;
    while i < fs.len()
        invariant
            i <= fs@.len(),
            fv == fields_view(fs@),
            text@ == old(text)@ + sp_named_inits(fv.take(i as int)),
        decreases fs@.len() - i,
    {
        if i > 0 {
            text.append(", ");
        }
        text.append(fs[i].name.as_str());
        text.append(": ");
        text.append(fs[i].name.as_str());
        text.append(".migrate()");
        proof {
            assert(fv.take(i + 1).drop_last() =~= fv.take(i as int));
            assert(fv.take(i + 1).last() == fv[i as int]);
            assert(text@ =~= old(text)@ + sp_named_inits(fv.take(i + 1)));
        }
        i += 1;
    }
    proof {
        assert(fv.take(fs@.len() as int) =~= fv);
    }
}

fn append_pos_pats(text: &mut String, n: usize)
    ensures
        final(text)@ == old(text)@ + sp_pos_pats(n as nat),
{
    let mut k: usize = 0;
    while k < n
        invariant
            k <= n,
            text@ == old(text)@ + sp_pos_pats(k as nat),
        decreases n - k,
    {
        if k > 0 {
            text.append(", ");
        }
        text.append("field");
        append_dec(&mut *text, k);
        proof {
            assert(text@ =~= old(text)@ + sp_pos_pats((k + 1) as nat));
        }
        k += 1;
    }
}

fn append_pos_convs(text: &mut String, n: usize)
    ensures
        final(text)@ == old(text)@ + sp_pos_convs(n as nat),
{
    let mut k: usize = 0;
    while k < n
        invariant
            k <= n,
            text@ == old(text)@ + sp_pos_convs(k as nat),
        decreases n - k,
    {
        if k > 0 {
            text.append(", ");
        }
        text.append("field");
        append_dec(&mut *text, k);
        text.append(".migrate()");
        proof {
            assert(text@ =~= old(text)@ + sp_pos_convs((k + 1) as nat));
        }
        k += 1;
    }
}

fn append_union_arm(text: &mut String, ename: &String, v: &Variant)
    ensures
        final(text)@ == old(text)@ + sp_union_arm(ename@, v@),
{
    text.append("            prev::");
    text.append(ename.as_str());
    text.append("::");
    text.append(v.name.as_str());
    match &v.shape {
        VariantShape::Named(fs) => {
            text.append(" { ");
            append_named_pats(&mut *text, fs);
            text.append(" } => ");
            text.append(ename.as_str());
            text.append("::");
            text.append(v.name.as_str());
            text.append(" { ");
            append_named_inits(&mut *text, fs);
            text.append(" },\n");
        },
        VariantShape::Positional(n) => {
            text.append("(");
            append_pos_pats(&mut *text, *n);
            text.append(") => ");
            text.append(ename.as_str());
            text.append("::");
            text.append(v.name.as_str());
            text.append("(");
            append_pos_convs(&mut *text, *n);
            text.append("),\n");
        },
        VariantShape::Empty => {
            text.append(" => ");
            text.append(ename.as_str());
            text.append("::");
            text.append(v.name.as_str());
            text.append(",\n");
        },
    }
    proof {
        assert(text@ =~= old(text)@ + sp_union_arm(ename@, v@));
    }
}

/// Synthesizes the conversion for a tagged-union declaration: one match arm
/// per variant, in declared order, that destructures the predecessor's
/// same-named, same-shaped variant and reconstructs the successor's variant
/// with every field converted; no-field variants pass through unchanged.
pub fn synthesize_union_conversion(decl: &TypeDeclaration) -> (r: ConversionImplementation)
    requires
        decl@ is Union,
    ensures
        r.target@ == decl_name(decl@),
        r.text@ == sp_impl_text_for(decl@),
{
    match decl {
        TypeDeclaration::Union { name, variants } => {
            let ghost vv = variants_view(variants@);
            let mut text = String::new();
            text.append("impl MigrateInto<");
            text.append(name.as_str());
            text.append("> for prev::");
            text.append(name.as_str());
            text.append(" {\n    fn migrate(self) -> ");
            text.append(name.as_str());
            text.append(" {\n        match self {\n");
            proof {
                assert(text@ =~= sp_union_header(name@));
            }
            let mut i: usize = 0;
            while i < variants.len()
                invariant
                    i <= variants@.len(),
                    vv == variants_view(variants@),
                    text@ == sp_union_header(name@) + sp_union_arms(name@, vv.take(i as int)),
                decreases variants@.len() - i,
            {
                append_union_arm(&mut text, name, &variants[i]);
                proof {
                    assert(vv.take(i + 1).drop_last() =~= vv.take(i as int));
                    assert(vv.take(i + 1).last() == vv[i as int]);
                    assert(text@ =~= sp_union_header(name@) + sp_union_arms(
                        name@,
                        vv.take(i + 1),
                    ));
                }
                i += 1;
            }
            text.append("        }\n    }\n}");
            proof {
                assert(vv.take(variants@.len() as int) =~= vv);
                assert(text@ =~= sp_union_impl(name@, vv));
            }
            ConversionImplementation { target: name.clone(), text }
        },
        TypeDeclaration::Record { .. } => vstd::pervasive::unreached(),
    }
}

/// Synthesizes the conversion for any declaration.
pub fn synthesize_conversion(decl: &TypeDeclaration) -> (r: ConversionImplementation)
    ensures
        r.target@ == decl_name(decl@),
        r.text@ == sp_impl_text_for(decl@),
{
    match decl {
        TypeDeclaration::Record { .. } => synthesize_record_conversion(decl),
        TypeDeclaration::Union { .. } => synthesize_union_conversion(decl),
    }
}

} // verus!
