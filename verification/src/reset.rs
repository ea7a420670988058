use vstd::prelude::*;
use vstd::string::*;

verus! {

use crate::model::{clone_decl, AnalyzeError, DeclModel, ItemModel, ModuleItem, TypeDeclaration,
    decl_name, items_view};
use crate::analyze::{parse_module, sp_parse_module, ParseOutcome, sp_decls_of};
use crate::synth::{sp_impl_text_for, synthesize_conversion};

// ---------------------------------------------------------------------------
// Resetting a module's conversions, defined over the item model.
// ---------------------------------------------------------------------------

/// The first declaration named `name` among the items, if any.
pub open spec fn sp_find_decl_in(items: Seq<ItemModel>, name: Seq<char>) -> Option<DeclModel>
    decreases items.len(),
{
    if items.len() == 0 {
        None
    } else {
        match items[0] {
            ItemModel::Declaration { decl, .. } => if decl_name(decl) == name {
                Some(decl)
            } else {
                sp_find_decl_in(items.drop_first(), name)
            },
            _ => sp_find_decl_in(items.drop_first(), name),
        }
    }
}

/// One item after the reset: the predecessor alias names the new predecessor,
/// a conversion whose target is declared in `ctx` gets a freshly synthesized
/// body, and everything else is unchanged.
pub open spec fn sp_reset_item(it: ItemModel, ctx: Seq<ItemModel>, new_prev: Seq<char>)
    -> ItemModel {
    match it {
        ItemModel::PrevAlias { .. } => ItemModel::PrevAlias { name: new_prev },
        ItemModel::Conversion { target, text } => match sp_find_decl_in(ctx, target) {
            Some(d) => ItemModel::Conversion { target, text: sp_impl_text_for(d) },
            None => ItemModel::Conversion { target, text },
        },
        _ => it,
    }
}

pub open spec fn sp_map_reset(items: Seq<ItemModel>, ctx: Seq<ItemModel>, new_prev: Seq<char>)
    -> Seq<ItemModel> {
    Seq::new(items.len(), |i: int| sp_reset_item(items[i], ctx, new_prev))
}

/// A module's items after the reset, with the module's own declarations as
/// the context the conversions are regenerated from.
pub open spec fn sp_reset_items(items: Seq<ItemModel>, new_prev: Seq<char>) -> Seq<ItemModel> {
    sp_map_reset(items, items, new_prev)
}

// ---------------------------------------------------------------------------
// Rendering items back to text.
// ---------------------------------------------------------------------------

/// The text of one item. The predecessor alias is rendered in its fixed
/// grammar; every other item keeps its stored text.
pub open spec fn sp_item_text(it: ItemModel) -> Seq<char> {
    match it {
        ItemModel::Declaration { text, .. } => text,
        ItemModel::PrevAlias { name } => "use "@ + name + " as prev;"@,
        ItemModel::Conversion { text, .. } => text,
        ItemModel::Other { text } => text,
        ItemModel::Unsupported => Seq::empty(),
    }
}

/// A module's text: its items in order, each ending with a line break.
pub open spec fn sp_render(items: Seq<ItemModel>) -> Seq<char>
    decreases items.len(),
{
    if items.len() == 0 {
        Seq::empty()
    } else {
        sp_render(items.drop_last()) + sp_item_text(items.last()) + "\n"@
    }
}

// ---------------------------------------------------------------------------
// Executable reset and rendering.
// ---------------------------------------------------------------------------

/// The declaration an item holds (meaningful only for declaration items).
pub open spec fn sp_item_decl(it: ItemModel) -> DeclModel {
    match it {
        ItemModel::Declaration { decl, .. } => decl,
        _ => DeclModel::Record { name: Seq::empty(), fields: Seq::empty() },
    }
}

fn decl_name_of(d: &TypeDeclaration) -> (r: &String)
    ensures
        r@ == decl_name(d@),
{
    match d {
        TypeDeclaration::Record { name, .. } => name,
        TypeDeclaration::Union { name, .. } => name,
    }
}

fn find_decl(items: &Vec<ModuleItem>, name: &String) -> (r: Option<usize>)
    ensures
        r matches Some(k) ==> k < items@.len() && items@[k as int]@ is Declaration
            && sp_find_decl_in(items_view(items@), name@) == Some(
            sp_item_decl(items@[k as int]@),
        ),
        r is None ==> sp_find_decl_in(items_view(items@), name@) is None,
{
    let ghost iv = items_view(items@);
    proof {
        assert(iv.skip(0) =~= iv);
    }
    let mut i: usize = 0;
    while i < items.len()
        invariant
            i <= items@.len(),
            iv == items_view(items@),
            sp_find_decl_in(iv, name@) == sp_find_decl_in(iv.skip(i as int), name@),
        decreases items@.len() - i,
    {
        proof {
            assert(iv.skip(i as int).drop_first() =~= iv.skip(i + 1));
            assert(iv.skip(i as int)[0] == iv[i as int]);
            assert(iv[i as int] == items@[i as int]@);
        }
        match &items[i] {
            ModuleItem::Declaration { decl, .. } => {
                let dn = decl_name_of(decl);
                if *dn == *name {
                    proof {
                        assert(iv[i as int] is Declaration);
                        assert(sp_item_decl(iv[i as int]) == decl@);
                        assert(decl_name(decl@) == name@);
                        assert(sp_find_decl_in(iv.skip(i as int), name@) == Some(decl@));
                    }
                    return Some(i);
                }
                proof {
                    assert(decl_name(decl@) != name@);
                    assert(sp_find_decl_in(iv.skip(i as int), name@) == sp_find_decl_in(
                        iv.skip(i + 1),
                        name@,
                    ));
                }
            },
            ModuleItem::PrevAlias { .. } => {
                proof {
                    assert(sp_find_decl_in(iv.skip(i as int), name@) == sp_find_decl_in(
                        iv.skip(i + 1),
                        name@,
                    ));
                }
            },
            ModuleItem::Conversion { .. } => {
                proof {
                    assert(sp_find_decl_in(iv.skip(i as int), name@) == sp_find_decl_in(
                        iv.skip(i + 1),
                        name@,
                    ));
                }
            },
            ModuleItem::Other { .. } => {
                proof {
                    assert(sp_find_decl_in(iv.skip(i as int), name@) == sp_find_decl_in(
                        iv.skip(i + 1),
                        name@,
                    ));
                }
            },
        }
        i += 1;
    }
    proof {
        assert(iv.skip(items@.len() as int) =~= Seq::<ItemModel>::empty());
    }
    None
}

/// Resets a module's items: every conversion whose target is declared in the
/// module gets a freshly synthesized trivial body, the predecessor alias is
/// rewritten to `new_prev`, and everything else is kept unchanged.
pub fn reset_items(items: &Vec<ModuleItem>, new_prev: &str) -> (r: Vec<ModuleItem>)
    ensures
        items_view(r@) == sp_reset_items(items_view(items@), new_prev@),
{
    let ghost iv = items_view(items@);
    let mut r: Vec<ModuleItem> = Vec::new();
    let mut i: usize = 0;
    while i < items.len()
        invariant
            i <= items@.len(),
            iv == items_view(items@),
            r@.len() == i,
            forall|k: int| 0 <= k < i ==> r@[k]@ == sp_reset_item(iv[k], iv, new_prev@),
        decreases items@.len() - i,
    {
        match &items[i] {
            ModuleItem::PrevAlias { .. } => {
                r.push(ModuleItem::PrevAlias { name: new_prev.to_owned() });
            },
            ModuleItem::Conversion { target, text } => {
                match find_decl(items, target) {
                    Some(k) => {
                        match &items[k] {
                            ModuleItem::Declaration { decl, .. } => {
                                let ci = synthesize_conversion(decl);
                                r.push(
                                    ModuleItem::Conversion {
                                        target: target.clone(),
                                        text: ci.text,
                                    },
                                );
                            },
                            _ => {
                                proof {
                                    assert(false);
                                }
                            },
                        }
                    },
                    None => {
                        r.push(
                            ModuleItem::Conversion { target: target.clone(), text: text.clone() },
                        );
                    },
                }
            },
            ModuleItem::Declaration { decl, text } => {
                r.push(ModuleItem::Declaration { decl: clone_decl(decl), text: text.clone() });
            },
            ModuleItem::Other { text } => {
                r.push(ModuleItem::Other { text: text.clone() });
            },
        }
        i += 1;
    }
    proof {
        assert(items_view(r@) =~= sp_reset_items(iv, new_prev@));
    }
    r
}

/// Renders a module's items back to text, one item per block, each followed
/// by a line break.
pub fn render_items(items: &Vec<ModuleItem>) -> (r: String)
    ensures
        r@ == sp_render(items_view(items@)),
{
    let ghost iv = items_view(items@);
    let mut out = String::new();
    let mut i: usize = 0;
    while i < items.len()
        invariant
            i <= items@.len(),
            iv == items_view(items@),
            out@ == sp_render(iv.take(i as int)),
        decreases items@.len() - i,
    {
        match &items[i] {
            ModuleItem::Declaration { text, .. } => {
                out.append(text.as_str());
            },
            ModuleItem::PrevAlias { name } => {
                out.append("use ");
                out.append(name.as_str());
                out.append(" as prev;");
            },
            ModuleItem::Conversion { text, .. } => {
                out.append(text.as_str());
            },
            ModuleItem::Other { text } => {
                out.append(text.as_str());
            },
        }
        out.append("\n");
        proof {
            assert(iv.take(i + 1).drop_last() =~= iv.take(i as int));
            assert(iv.take(i + 1).last() == iv[i as int]);
            assert(out@ =~= sp_render(iv.take(i + 1)));
        }
        i += 1;
    }
    proof {
        assert(iv.take(items@.len() as int) =~= iv);
    }
    out
}

/// Regenerates a module's source: every conversion implementation whose
/// target type is declared in the module is replaced by the synthesized
/// trivial conversion, the predecessor-alias statement is rewritten to name
/// `new_prev`, and all other text is preserved. Nothing is written anywhere:
/// the caller receives the new text.
pub fn reset_module_source(source: &str, new_prev: &str) -> (r: Result<String, AnalyzeError>)
    ensures
        match r {
            Ok(out) => sp_parse_module(source@) matches ParseOutcome::Items(ms) && out@
                == sp_render(sp_reset_items(ms, new_prev@)),
            Err(AnalyzeError::Parse) => sp_parse_module(source@) is Fail,
            Err(AnalyzeError::UnsupportedShape) => sp_parse_module(source@) is ShapeErr,
        },
{
    match parse_module(source) {
        Err(err) => Err(err),
        Ok(items) => {
            let rs = reset_items(&items, new_prev);
            Ok(render_items(&rs))
        },
    }
}

// ---------------------------------------------------------------------------
// Laws of the reset.
// ---------------------------------------------------------------------------

proof fn lemma_find_decl_in_map(
    items: Seq<ItemModel>,
    ctx: Seq<ItemModel>,
    p: Seq<char>,
    name: Seq<char>,
)
    ensures
        sp_find_decl_in(sp_map_reset(items, ctx, p), name) == sp_find_decl_in(items, name),
    decreases items.len(),
{
    if items.len() == 0 {
        assert(sp_map_reset(items, ctx, p) =~= Seq::<ItemModel>::empty());
    } else {
        lemma_find_decl_in_map(items.drop_first(), ctx, p, name);
        assert(sp_map_reset(items, ctx, p).drop_first() =~= sp_map_reset(
            items.drop_first(),
            ctx,
            p,
        ));
        assert(sp_map_reset(items, ctx, p)[0] == sp_reset_item(items[0], ctx, p));
    }
}

/// Resetting a module does not change its declarations: the structural model
/// the synthesizer works from is exactly the one the module held before.
pub proof fn lemma_reset_preserves_decls(items: Seq<ItemModel>, new_prev: Seq<char>)
    ensures
        sp_decls_of(sp_reset_items(items, new_prev)) == sp_decls_of(items),
{
    lemma_decls_of_map(items, items, new_prev);
}

proof fn lemma_decls_of_map(items: Seq<ItemModel>, ctx: Seq<ItemModel>, p: Seq<char>)
    ensures
        sp_decls_of(sp_map_reset(items, ctx, p)) == sp_decls_of(items),
    decreases items.len(),
{
    if items.len() == 0 {
        assert(sp_map_reset(items, ctx, p) =~= Seq::<ItemModel>::empty());
    } else {
        lemma_decls_of_map(items.drop_last(), ctx, p);
        let mapped = sp_map_reset(items, ctx, p);
        assert(mapped.drop_last() =~= sp_map_reset(items.drop_last(), ctx, p));
        assert(mapped.last() == sp_reset_item(items.last(), ctx, p));
        assert(sp_decls_of(mapped) =~= sp_decls_of(items));
    }
}

/// Re-running the reset on an already-reset module, with a fresh predecessor
/// name, regenerates exactly the same items as resetting the original module
/// with that name would: the trivial bodies are reproduced identically.
pub proof fn lemma_reset_idempotent(items: Seq<ItemModel>, p1: Seq<char>, p2: Seq<char>)
    ensures
        sp_reset_items(sp_reset_items(items, p1), p2) == sp_reset_items(items, p2),
{
    let r1 = sp_reset_items(items, p1);
    assert(r1.len() == items.len());
    assert forall|name: Seq<char>| #[trigger] sp_find_decl_in(r1, name) == sp_find_decl_in(
        items,
        name,
    ) by {
        lemma_find_decl_in_map(items, items, p1, name);
    }
    assert forall|i: int| 0 <= i < items.len() implies sp_reset_items(r1, p2)[i]
        == sp_reset_items(items, p2)[i] by {
        assert(r1[i] == sp_reset_item(items[i], items, p1));
        match items[i] {
            ItemModel::PrevAlias { .. } => {},
            ItemModel::Conversion { target, text } => {
                assert(sp_find_decl_in(r1, target) == sp_find_decl_in(items, target));
            },
            _ => {},
        }
    }
    assert(sp_reset_items(r1, p2) =~= sp_reset_items(items, p2));
}

} // verus!
