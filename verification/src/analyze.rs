use vstd::prelude::*;
use vstd::string::*;

verus! {

use crate::model::{string_range, AnalyzeError, DeclModel, Field, FieldModel, ItemModel,
    ModuleItem, TypeDeclaration, Variant, VariantModel, VariantShape, decls_view, fields_view,
    items_view, variants_view};
use crate::model::clone_decl;

// ---------------------------------------------------------------------------
// Character classes.
// ---------------------------------------------------------------------------

pub open spec fn sp_is_ws(c: char) -> bool {
    c == ' ' || c == '\t' || c == '\r' || c == '\n'
}

fn is_ws(c: char) -> (r: bool)
    ensures
        r == sp_is_ws(c),
{
    c == ' ' || c == '\t' || c == '\r' || c == '\n'
}

pub open spec fn sp_is_ident_char(c: char) -> bool {
    ('a' as u32 <= c as u32 && c as u32 <= 'z' as u32) || ('A' as u32 <= c as u32 && c as u32
        <= 'Z' as u32) || ('0' as u32 <= c as u32 && c as u32 <= '9' as u32) || c == '_'
}

fn is_ident_char(c: char) -> (r: bool)
    ensures
        r == sp_is_ident_char(c),
{
    let u = c as u32;
    ('a' as u32 <= u && u <= 'z' as u32) || ('A' as u32 <= u && u <= 'Z' as u32) || ('0' as u32
        <= u && u <= '9' as u32) || c == '_'
}

// ---------------------------------------------------------------------------
// Low-level scanners, each an executable twin of its defining spec function.
// ---------------------------------------------------------------------------

/// First position at or after `i` that does not hold whitespace.
pub open spec fn sp_skip_ws(s: Seq<char>, i: int) -> int
    decreases s.len() - i,
{
    if 0 <= i && i < s.len() && sp_is_ws(s[i]) {
        sp_skip_ws(s, i + 1)
    } else {
        i
    }
}

fn skip_ws(s: &Vec<char>, i: usize) -> (r: usize)
    requires
        i <= s@.len(),
    ensures
        r == sp_skip_ws(s@, i as int),
        i <= r && r <= s@.len(),
        r < s@.len() ==> !sp_is_ws(s@[r as int]),
    decreases s@.len() - i,
{
    if i < s.len() && is_ws(s[i]) {
        skip_ws(s, i + 1)
    } else {
        i
    }
}

/// First position at or after `i` that does not hold an identifier character.
pub open spec fn sp_ident_end(s: Seq<char>, i: int) -> int
    decreases s.len() - i,
{
    if 0 <= i && i < s.len() && sp_is_ident_char(s[i]) {
        sp_ident_end(s, i + 1)
    } else {
        i
    }
}

fn ident_end(s: &Vec<char>, i: usize) -> (r: usize)
    requires
        i <= s@.len(),
    ensures
        r == sp_ident_end(s@, i as int),
        i <= r && r <= s@.len(),
    decreases s@.len() - i,
{
    if i < s.len() && is_ident_char(s[i]) {
        ident_end(s, i + 1)
    } else {
        i
    }
}

/// Position just past the next line break at or after `i` (or the text's end).
pub open spec fn sp_line_end(s: Seq<char>, i: int) -> int
    decreases s.len() - i,
{
    if 0 <= i && i < s.len() {
        if s[i] == '\n' {
            i + 1
        } else {
            sp_line_end(s, i + 1)
        }
    } else {
        i
    }
}

fn line_end(s: &Vec<char>, i: usize) -> (r: usize)
    requires
        i <= s@.len(),
    ensures
        r == sp_line_end(s@, i as int),
        i <= r && r <= s@.len(),
        i < s@.len() ==> i < r,
    decreases s@.len() - i,
{
    if i < s.len() {
        if s[i] == '\n' {
            i + 1
        } else {
            line_end(s, i + 1)
        }
    } else {
        i
    }
}

/// Position of the next `;` at or after `i`, if any.
pub open spec fn sp_find_semi(s: Seq<char>, i: int) -> Option<int>
    decreases s.len() - i,
{
    if 0 <= i && i < s.len() {
        if s[i] == ';' {
            Some(i)
        } else {
            sp_find_semi(s, i + 1)
        }
    } else {
        None
    }
}

fn find_semi(s: &Vec<char>, i: usize) -> (r: Option<usize>)
    requires
        i <= s@.len(),
    ensures
        r matches Some(p) ==> sp_find_semi(s@, i as int) == Some(p as int) && i <= p
            && p < s@.len() && s@[p as int] == ';',
        r is None ==> sp_find_semi(s@, i as int) is None,
    decreases s@.len() - i,
{
    if i < s.len() {
        if s[i] == ';' {
            Some(i)
        } else {
            find_semi(s, i + 1)
        }
    } else {
        None
    }
}

/// Position just past the `"` that closes a string literal whose opening
/// `"` stands before `i`, honouring backslash escapes.
pub open spec fn sp_skip_str(s: Seq<char>, i: int) -> Option<int>
    decreases s.len() - i,
{
    if 0 <= i && i < s.len() {
        if s[i] == '\\' {
            if i + 2 <= s.len() {
                sp_skip_str(s, i + 2)
            } else {
                None
            }
        } else if s[i] == '"' {
            Some(i + 1)
        } else {
            sp_skip_str(s, i + 1)
        }
    } else {
        None
    }
}

fn skip_str(s: &Vec<char>, i: usize) -> (r: Option<usize>)
    requires
        i <= s@.len(),
    ensures
        r matches Some(j) ==> sp_skip_str(s@, i as int) == Some(j as int) && i < j && j
            <= s@.len(),
        r is None ==> sp_skip_str(s@, i as int) is None,
    decreases s@.len() - i,
{
    if i < s.len() {
        if s[i] == '\\' {
            if i + 1 < s.len() {
                skip_str(s, i + 2)
            } else {
                None
            }
        } else if s[i] == '"' {
            Some(i + 1)
        } else {
            skip_str(s, i + 1)
        }
    } else {
        None
    }
}

/// Position just past the `*/` that closes `depth` many open block comments,
/// scanning from `i`; block comments nest.
pub open spec fn sp_skip_block(s: Seq<char>, i: int, depth: nat) -> Option<int>
    decreases s.len() - i,
{
    if 0 <= i && i < s.len() {
        if s[i] == '*' && i + 1 < s.len() && s[i + 1] == '/' {
            if depth <= 1 {
                Some(i + 2)
            } else {
                sp_skip_block(s, i + 2, (depth - 1) as nat)
            }
        } else if s[i] == '/' && i + 1 < s.len() && s[i + 1] == '*' {
            sp_skip_block(s, i + 2, depth + 1)
        } else {
            sp_skip_block(s, i + 1, depth)
        }
    } else {
        None
    }
}

fn skip_block(s: &Vec<char>, i: usize, depth: usize) -> (r: Option<usize>)
    requires
        i <= s@.len(),
        depth <= i,
    ensures
        r matches Some(j) ==> sp_skip_block(s@, i as int, depth as nat) == Some(j as int) && i < j
            && j <= s@.len(),
        r is None ==> sp_skip_block(s@, i as int, depth as nat) is None,
    decreases s@.len() - i,
{
    if i < s.len() {
        if s[i] == '*' && i + 1 < s.len() && s[i + 1] == '/' {
            if depth <= 1 {
                Some(i + 2)
            } else {
                skip_block(s, i + 2, depth - 1)
            }
        } else if s[i] == '/' && i + 1 < s.len() && s[i + 1] == '*' {
            skip_block(s, i + 2, depth + 1)
        } else {
            skip_block(s, i + 1, depth)
        }
    } else {
        None
    }
}

/// Position just past the `}` that closes `depth` many open braces, scanning
/// from `i`; braces inside string literals, line comments and block comments
/// do not count.
pub open spec fn sp_brace_end(s: Seq<char>, i: int, depth: nat) -> Option<int>
    decreases s.len() - i,
{
    if 0 <= i && i < s.len() {
        if s[i] == '{' {
            sp_brace_end(s, i + 1, depth + 1)
        } else if s[i] == '}' {
            if depth <= 1 {
                Some(i + 1)
            } else {
                sp_brace_end(s, i + 1, (depth - 1) as nat)
            }
        } else if s[i] == '"' {
            match sp_skip_str(s, i + 1) {
                None => None,
                Some(j) => if i < j && j <= s.len() {
                    sp_brace_end(s, j, depth)
                } else {
                    None
                },
            }
        } else if s[i] == '/' && i + 1 < s.len() && s[i + 1] == '/' {
            let j = sp_line_end(s, i);
            if i < j && j <= s.len() {
                sp_brace_end(s, j, depth)
            } else {
                None
            }
        } else if s[i] == '/' && i + 1 < s.len() && s[i + 1] == '*' {
            match sp_skip_block(s, i + 2, 1) {
                None => None,
                Some(j) => if i < j && j <= s.len() {
                    sp_brace_end(s, j, depth)
                } else {
                    None
                },
            }
        } else {
            sp_brace_end(s, i + 1, depth)
        }
    } else {
        None
    }
}

fn brace_end(s: &Vec<char>, i: usize, depth: usize) -> (r: Option<usize>)
    requires
        i <= s@.len(),
        depth <= i,
    ensures
        r matches Some(e) ==> sp_brace_end(s@, i as int, depth as nat) == Some(e as int) && i < e
            && e <= s@.len(),
        r is None ==> sp_brace_end(s@, i as int, depth as nat) is None,
    decreases s@.len() - i,
{
    if i < s.len() {
        if s[i] == '{' {
            brace_end(s, i + 1, depth + 1)
        } else if s[i] == '}' {
            if depth <= 1 {
                Some(i + 1)
            } else {
                brace_end(s, i + 1, depth - 1)
            }
        } else if s[i] == '"' {
            match skip_str(s, i + 1) {
                None => None,
                Some(j) => brace_end(s, j, depth),
            }
        } else if s[i] == '/' && i + 1 < s.len() && s[i + 1] == '/' {
            let j = line_end(s, i);
            brace_end(s, j, depth)
        } else if s[i] == '/' && i + 1 < s.len() && s[i + 1] == '*' {
            match skip_block(s, i + 2, 1) {
                None => None,
                Some(j) => brace_end(s, j, depth),
            }
        } else {
            brace_end(s, i + 1, depth)
        }
    } else {
        None
    }
}

/// End of a generic item starting at `i`: just past its first top-level `;`,
/// or past the matching close of its first `{`; a `;` or `{` inside a string
/// literal, a line comment or a block comment does not count.
pub open spec fn sp_item_end(s: Seq<char>, i: int) -> Option<int>
    decreases s.len() - i,
{
    if 0 <= i && i < s.len() {
        if s[i] == ';' {
            Some(i + 1)
        } else if s[i] == '{' {
            sp_brace_end(s, i + 1, 1)
        } else if s[i] == '"' {
            match sp_skip_str(s, i + 1) {
                None => None,
                Some(j) => if i < j && j <= s.len() {
                    sp_item_end(s, j)
                } else {
                    None
                },
            }
        } else if s[i] == '/' && i + 1 < s.len() && s[i + 1] == '/' {
            let j = sp_line_end(s, i);
            if i < j && j <= s.len() {
                sp_item_end(s, j)
            } else {
                None
            }
        } else if s[i] == '/' && i + 1 < s.len() && s[i + 1] == '*' {
            match sp_skip_block(s, i + 2, 1) {
                None => None,
                Some(j) => if i < j && j <= s.len() {
                    sp_item_end(s, j)
                } else {
                    None
                },
            }
        } else {
            sp_item_end(s, i + 1)
        }
    } else {
        None
    }
}

fn item_end(s: &Vec<char>, i: usize) -> (r: Option<usize>)
    requires
        i <= s@.len(),
    ensures
        r matches Some(e) ==> sp_item_end(s@, i as int) == Some(e as int) && i < e && e
            <= s@.len(),
        r is None ==> sp_item_end(s@, i as int) is None,
    decreases s@.len() - i,
{
    if i < s.len() {
        if s[i] == ';' {
            Some(i + 1)
        } else if s[i] == '{' {
            brace_end(s, i + 1, 1)
        } else if s[i] == '"' {
            match skip_str(s, i + 1) {
                None => None,
                Some(j) => item_end(s, j),
            }
        } else if s[i] == '/' && i + 1 < s.len() && s[i + 1] == '/' {
            let j = line_end(s, i);
            item_end(s, j)
        } else if s[i] == '/' && i + 1 < s.len() && s[i + 1] == '*' {
            match skip_block(s, i + 2, 1) {
                None => None,
                Some(j) => item_end(s, j),
            }
        } else {
            item_end(s, i + 1)
        }
    } else {
        None
    }
}

/// Position of the `,` or of the closing character `end` that terminates a
/// type label starting at `i`, honouring nested `<>`, `()` and `[]`.
pub open spec fn sp_type_end(s: Seq<char>, i: int, depth: nat, end: char) -> Option<int>
    decreases s.len() - i,
{
    if 0 <= i && i < s.len() {
        let c = s[i];
        if depth == 0 && (c == ',' || c == end) {
            Some(i)
        } else if c == '<' || c == '(' || c == '[' {
            sp_type_end(s, i + 1, depth + 1, end)
        } else if c == '>' || c == ')' || c == ']' {
            if depth == 0 {
                None
            } else {
                sp_type_end(s, i + 1, (depth - 1) as nat, end)
            }
        } else if c == '{' || c == '}' {
            None
        } else {
            sp_type_end(s, i + 1, depth, end)
        }
    } else {
        None
    }
}

fn type_end(s: &Vec<char>, i: usize, depth: usize, end: char) -> (r: Option<usize>)
    requires
        i <= s@.len(),
        depth <= i,
    ensures
        r matches Some(t) ==> sp_type_end(s@, i as int, depth as nat, end) == Some(t as int) && i
            <= t && t < s@.len() && (s@[t as int] == ',' || s@[t as int] == end),
        r is None ==> sp_type_end(s@, i as int, depth as nat, end) is None,
    decreases s@.len() - i,
{
    if i < s.len() {
        let c = s[i];
        if depth == 0 && (c == ',' || c == end) {
            Some(i)
        } else if c == '<' || c == '(' || c == '[' {
            type_end(s, i + 1, depth + 1, end)
        } else if c == '>' || c == ')' || c == ']' {
            if depth == 0 {
                None
            } else {
                type_end(s, i + 1, depth - 1, end)
            }
        } else if c == '{' || c == '}' {
            None
        } else {
            type_end(s, i + 1, depth, end)
        }
    } else {
        None
    }
}

/// Position `b` moved back over trailing whitespace, but never before `a`.
pub open spec fn sp_rtrim(s: Seq<char>, a: int, b: int) -> int
    decreases b - a,
{
    if a < b && sp_is_ws(s[b - 1]) {
        sp_rtrim(s, a, b - 1)
    } else {
        b
    }
}

fn rtrim(s: &Vec<char>, a: usize, b: usize) -> (r: usize)
    requires
        a <= b && b <= s@.len(),
    ensures
        r == sp_rtrim(s@, a as int, b as int),
        a <= r && r <= b,
    decreases b - a,
{
    if a < b && is_ws(s[b - 1]) {
        rtrim(s, a, b - 1)
    } else {
        b
    }
}

/// Whether the characters of `s` from `a` up to `b` spell exactly `kw`.
fn ident_is(s: &Vec<char>, a: usize, b: usize, kw: &str) -> (r: bool)
    requires
        a <= b && b <= s@.len(),
    ensures
        r == (s@.subrange(a as int, b as int) == kw@),
{
    let n = kw.unicode_len();
    if b - a != n {
        proof {
            assert(s@.subrange(a as int, b as int).len() == b - a);
        }
        return false;
    }
    let mut k: usize = 0;
    while k < n
        invariant
            k <= n,
            n == kw@.len(),
            a <= b && b <= s@.len(),
            b - a == n,
            forall|j: int| 0 <= j < k ==> s@[a + j] == kw@[j],
        decreases n - k,
    {
        if s[a + k] != kw.get_char(k) {
            proof {
                assert(s@.subrange(a as int, b as int)[k as int] == s@[a + k]);
            }
            return false;
        }
        k += 1;
    }
    proof {
        assert(s@.subrange(a as int, b as int) =~= kw@);
    }
    true
}

// ---------------------------------------------------------------------------
// Items, defined by a spec-level parser and computed by its executable twin.
// ---------------------------------------------------------------------------

/// Outcome of splitting a module's text into items.
pub enum ParseOutcome {
    /// The items, in source order.
    Items(Seq<ItemModel>),
    /// A recognized declaration has a shape no conversion can be synthesized
    /// for.
    ShapeErr,
    /// The text is malformed for the module grammar.
    Fail,
}

/// A comment or attribute line, kept verbatim without its line break.
pub open spec fn sp_parse_line_item(s: Seq<char>, i: int) -> Option<(ItemModel, int)> {
    let e = sp_line_end(s, i);
    Some((ItemModel::Other { text: s.subrange(i, sp_rtrim(s, i, e)) }, e))
}

/// Any other item, kept verbatim up to its terminating `;` or closing `}`.
pub open spec fn sp_parse_other(s: Seq<char>, i: int) -> Option<(ItemModel, int)> {
    match sp_item_end(s, i) {
        None => None,
        Some(e) => Some((ItemModel::Other { text: s.subrange(i, e) }, e)),
    }
}

/// A `use` statement; the fixed-grammar form `use <name> as prev;` is the
/// predecessor-alias statement, anything else is kept verbatim.
pub open spec fn sp_parse_use(s: Seq<char>, i: int, w: int) -> Option<(ItemModel, int)> {
    match sp_find_semi(s, w) {
        None => None,
        Some(p) => {
            let a0 = sp_skip_ws(s, w);
            let a1 = sp_ident_end(s, a0);
            let j1 = sp_skip_ws(s, a1);
            let j2 = sp_ident_end(s, j1);
            let j3 = sp_skip_ws(s, j2);
            let j4 = sp_ident_end(s, j3);
            let j5 = sp_skip_ws(s, j4);
            if a1 > a0 && s.subrange(j1, j2) == "as"@ && s.subrange(j3, j4) == "prev"@ && j5 == p {
                Some((ItemModel::PrevAlias { name: s.subrange(a0, a1) }, p + 1))
            } else {
                Some((ItemModel::Other { text: s.subrange(i, p + 1) }, p + 1))
            }
        },
    }
}

/// The named fields of a record or of a named variant, up to and past the
/// closing `}`.
pub open spec fn sp_parse_fields(s: Seq<char>, i: int) -> Option<(Seq<FieldModel>, int)>
    decreases s.len() - i,
{
    let j = sp_skip_ws(s, i);
    if !(i <= j && j < s.len()) {
        None
    } else if s[j] == '}' {
        Some((Seq::empty(), j + 1))
    } else {
        let w = sp_ident_end(s, j);
        let f0 = if s.subrange(j, w) == "pub"@ {
            sp_skip_ws(s, w)
        } else {
            j
        };
        let n1 = sp_ident_end(s, f0);
        if n1 <= f0 {
            None
        } else {
            let k = sp_skip_ws(s, n1);
            if k < s.len() && s[k] == ':' {
                let t0 = sp_skip_ws(s, k + 1);
                match sp_type_end(s, t0, 0, '}') {
                    None => None,
                    Some(te) => {
                        let fm = FieldModel {
                            name: s.subrange(f0, n1),
                            ty_label: s.subrange(t0, sp_rtrim(s, t0, te)),
                        };
                        if s[te] == ',' {
                            if i < te + 1 && te + 1 <= s.len() {
                                match sp_parse_fields(s, te + 1) {
                                    None => None,
                                    Some((rest, e)) => Some((seq![fm] + rest, e)),
                                }
                            } else {
                                None
                            }
                        } else {
                            Some((seq![fm], te + 1))
                        }
                    },
                }
            } else {
                None
            }
        }
    }
}

fn parse_fields(s: &Vec<char>, i: usize) -> (r: Result<(Vec<Field>, usize), AnalyzeError>)
    requires
        i <= s@.len(),
    ensures
        match r {
            Ok((fs, e)) => sp_parse_fields(s@, i as int) == Some(
                (fields_view(fs@), e as int),
            ) && i < e && e <= s@.len(),
            Err(err) => err == AnalyzeError::Parse && sp_parse_fields(s@, i as int) is None,
        },
    decreases s@.len() - i,
{
    let j = skip_ws(s, i);
    if j >= s.len() {
        return Err(AnalyzeError::Parse);
    }
    if s[j] == '}' {
        proof {
            assert(fields_view(Seq::<Field>::empty()) =~= Seq::<FieldModel>::empty());
        }
        return Ok((Vec::new(), j + 1));
    }
    let w = ident_end(s, j);
    let f0 = if ident_is(s, j, w, "pub") {
        skip_ws(s, w)
    } else {
        j
    };
    let n1 = ident_end(s, f0);
    if n1 <= f0 {
        return Err(AnalyzeError::Parse);
    }
    let k = skip_ws(s, n1);
    if !(k < s.len() && s[k] == ':') {
        return Err(AnalyzeError::Parse);
    }
    let t0 = skip_ws(s, k + 1);
    match type_end(s, t0, 0, '}') {
        None => Err(AnalyzeError::Parse),
        Some(te) => {
            let tr = rtrim(s, t0, te);
            let f = Field { name: string_range(s, f0, n1), ty_label: string_range(s, t0, tr) };
            if s[te] == ',' {
                match parse_fields(s, te + 1) {
                    Err(err) => Err(err),
                    Ok((mut fs, e)) => {
                        let ghost oldfs = fs@;
                        fs.insert(0, f);
                        proof {
                            assert(fs@ =~= seq![f] + oldfs);
                            assert(fields_view(fs@) =~= seq![f@] + fields_view(oldfs));
                        }
                        Ok((fs, e))
                    },
                }
            } else {
                let mut fs: Vec<Field> = Vec::new();
                fs.push(f);
                proof {
                    assert(fields_view(fs@) =~= seq![f@]);
                }
                Ok((fs, te + 1))
            }
        },
    }
}

/// The positional field count of a tuple variant, up to and past the closing
/// `)`.
pub open spec fn sp_parse_pos(s: Seq<char>, i: int) -> Option<(nat, int)>
    decreases s.len() - i,
{
    let j = sp_skip_ws(s, i);
    if !(i <= j && j < s.len()) {
        None
    } else if s[j] == ')' {
        Some((0, j + 1))
    } else {
        match sp_type_end(s, j, 0, ')') {
            None => None,
            Some(te) => {
                if s[te] == ',' {
                    if i < te + 1 && te + 1 <= s.len() {
                        match sp_parse_pos(s, te + 1) {
                            None => None,
                            Some((cnt, e)) => Some((cnt + 1, e)),
                        }
                    } else {
                        None
                    }
                } else {
                    Some((1, te + 1))
                }
            },
        }
    }
}

fn parse_pos(s: &Vec<char>, i: usize) -> (r: Result<(usize, usize), AnalyzeError>)
    requires
        i <= s@.len(),
    ensures
        match r {
            Ok((cnt, e)) => sp_parse_pos(s@, i as int) == Some((cnt as nat, e as int)) && i < e
                && e <= s@.len() && cnt as int <= e - i,
            Err(err) => err == AnalyzeError::Parse && sp_parse_pos(s@, i as int) is None,
        },
    decreases s@.len() - i,
{
    let j = skip_ws(s, i);
    if j >= s.len() {
        return Err(AnalyzeError::Parse);
    }
    if s[j] == ')' {
        return Ok((0, j + 1));
    }
    match type_end(s, j, 0, ')') {
        None => Err(AnalyzeError::Parse),
        Some(te) => {
            if s[te] == ',' {
                match parse_pos(s, te + 1) {
                    Err(err) => Err(err),
                    Ok((cnt, e)) => Ok((cnt + 1, e)),
                }
            } else {
                Ok((1, te + 1))
            }
        },
    }
}

/// The variants of a tagged-union declaration, up to and past the closing
/// `}`.
pub open spec fn sp_parse_variants(s: Seq<char>, i: int) -> Option<(Seq<VariantModel>, int)>
    decreases s.len() - i, 1int,
{
    let j = sp_skip_ws(s, i);
    if !(i <= j && j < s.len()) {
        None
    } else if s[j] == '}' {
        Some((Seq::empty(), j + 1))
    } else {
        let n1 = sp_ident_end(s, j);
        if n1 <= j {
            None
        } else {
            let name = s.subrange(j, n1);
            let k = sp_skip_ws(s, n1);
            if !(j < k + 1 && k < s.len()) {
                None
            } else if s[k] == '{' {
                match sp_parse_fields(s, k + 1) {
                    None => None,
                    Some((fs, e)) => sp_variants_tail(
                        s,
                        i,
                        e,
                        VariantModel { name, shape: crate::model::ShapeModel::Named(fs) },
                    ),
                }
            } else if s[k] == '(' {
                match sp_parse_pos(s, k + 1) {
                    None => None,
                    Some((cnt, e)) => sp_variants_tail(
                        s,
                        i,
                        e,
                        VariantModel { name, shape: crate::model::ShapeModel::Positional(cnt) },
                    ),
                }
            } else if s[k] == ',' {
                let vm = VariantModel { name, shape: crate::model::ShapeModel::Empty };
                if i < k + 1 && k + 1 <= s.len() {
                    match sp_parse_variants(s, k + 1) {
                        None => None,
                        Some((rest, e)) => Some((seq![vm] + rest, e)),
                    }
                } else {
                    None
                }
            } else if s[k] == '}' {
                let vm = VariantModel { name, shape: crate::model::ShapeModel::Empty };
                Some((seq![vm], k + 1))
            } else {
                None
            }
        }
    }
}

/// After a named or positional variant shape ending at `e`: a `,` continues
/// with the remaining variants, a `}` closes the declaration.
pub open spec fn sp_variants_tail(s: Seq<char>, i: int, e: int, vm: VariantModel) -> Option<
    (Seq<VariantModel>, int),
>
    decreases s.len() - i, 0int,
{
    let t = sp_skip_ws(s, e);
    if !(i < t + 1 && t < s.len()) {
        None
    } else if s[t] == ',' {
        if i < t + 1 && t + 1 <= s.len() {
            match sp_parse_variants(s, t + 1) {
                None => None,
                Some((rest, e2)) => Some((seq![vm] + rest, e2)),
            }
        } else {
            None
        }
    } else if s[t] == '}' {
        Some((seq![vm], t + 1))
    } else {
        None
    }
}

fn parse_variants(s: &Vec<char>, i: usize) -> (r: Result<(Vec<Variant>, usize), AnalyzeError>)
    requires
        i <= s@.len(),
    ensures
        match r {
            Ok((vs, e)) => sp_parse_variants(s@, i as int) == Some(
                (variants_view(vs@), e as int),
            ) && i < e && e <= s@.len(),
            Err(err) => err == AnalyzeError::Parse && sp_parse_variants(s@, i as int) is None,
        },
    decreases s@.len() - i,
{
    let j = skip_ws(s, i);
    if j >= s.len() {
        return Err(AnalyzeError::Parse);
    }
    if s[j] == '}' {
        proof {
            assert(variants_view(Seq::<Variant>::empty()) =~= Seq::<VariantModel>::empty());
        }
        return Ok((Vec::new(), j + 1));
    }
    let n1 = ident_end(s, j);
    if n1 <= j {
        return Err(AnalyzeError::Parse);
    }
    let name = string_range(s, j, n1);
    let k = skip_ws(s, n1);
    if k >= s.len() {
        return Err(AnalyzeError::Parse);
    }
    if s[k] == '{' {
        match parse_fields(s, k + 1) {
            Err(err) => Err(err),
            Ok((fs, e)) => {
                let vm = Variant { name, shape: VariantShape::Named(fs) };
                variants_tail(s, i, e, vm)
            },
        }
    } else if s[k] == '(' {
        match parse_pos(s, k + 1) {
            Err(err) => Err(err),
            Ok((cnt, e)) => {
                let vm = Variant { name, shape: VariantShape::Positional(cnt) };
                variants_tail(s, i, e, vm)
            },
        }
    } else if s[k] == ',' {
        let vm = Variant { name, shape: VariantShape::Empty };
        match parse_variants(s, k + 1) {
            Err(err) => Err(err),
            Ok((mut vs, e)) => {
                let ghost oldvs = vs@;
                vs.insert(0, vm);
                proof {
                    assert(vs@ =~= seq![vm] + oldvs);
                    assert(variants_view(vs@) =~= seq![vm@] + variants_view(oldvs));
                }
                Ok((vs, e))
            },
        }
    } else if s[k] == '}' {
        let vm = Variant { name, shape: VariantShape::Empty };
        let mut vs: Vec<Variant> = Vec::new();
        vs.push(vm);
        proof {
            assert(variants_view(vs@) =~= seq![vs@[0]@]);
        }
        Ok((vs, k + 1))
    } else {
        Err(AnalyzeError::Parse)
    }
}

fn variants_tail(s: &Vec<char>, i: usize, e: usize, vm: Variant) -> (r: Result<
    (Vec<Variant>, usize),
    AnalyzeError,
>)
    requires
        i < e && e <= s@.len(),
    ensures
        match r {
            Ok((vs, e2)) => sp_variants_tail(s@, i as int, e as int, vm@) == Some(
                (variants_view(vs@), e2 as int),
            ) && i < e2 && e2 <= s@.len(),
            Err(err) => err == AnalyzeError::Parse && sp_variants_tail(
                s@,
                i as int,
                e as int,
                vm@,
            ) is None,
        },
    decreases s@.len() - e,
{
    let t = skip_ws(s, e);
    if t >= s.len() {
        return Err(AnalyzeError::Parse);
    }
    if s[t] == ',' {
        match parse_variants(s, t + 1) {
            Err(err) => Err(err),
            Ok((mut vs, e2)) => {
                let ghost oldvs = vs@;
                vs.insert(0, vm);
                proof {
                    assert(vs@ =~= seq![vm] + oldvs);
                    assert(variants_view(vs@) =~= seq![vm@] + variants_view(oldvs));
                }
                Ok((vs, e2))
            },
        }
    } else if s[t] == '}' {
        let mut vs: Vec<Variant> = Vec::new();
        vs.push(vm);
        proof {
            assert(variants_view(vs@) =~= seq![vs@[0]@]);
        }
        Ok((vs, t + 1))
    } else {
        Err(AnalyzeError::Parse)
    }
}

/// A record declaration starting at `i`, whose `struct` keyword ends at `w`.
/// A struct without named fields is recognized but unsupported.
pub open spec fn sp_parse_record(s: Seq<char>, i: int, w: int) -> Option<(ItemModel, int)> {
    let n0 = sp_skip_ws(s, w);
    let n1 = sp_ident_end(s, n0);
    if n1 <= n0 {
        None
    } else {
        let name = s.subrange(n0, n1);
        let j = sp_skip_ws(s, n1);
        if j < s.len() && s[j] == '{' {
            match sp_parse_fields(s, j + 1) {
                None => None,
                Some((fs, e)) => Some(
                    (
                        ItemModel::Declaration {
                            decl: DeclModel::Record { name, fields: fs },
                            text: s.subrange(i, e),
                        },
                        e,
                    ),
                ),
            }
        } else if j < s.len() && (s[j] == '(' || s[j] == ';') {
            Some((ItemModel::Unsupported, j))
        } else {
            None
        }
    }
}

/// A tagged-union declaration starting at `i`, whose `enum` keyword ends at
/// `w`.
pub open spec fn sp_parse_union(s: Seq<char>, i: int, w: int) -> Option<(ItemModel, int)> {
    let n0 = sp_skip_ws(s, w);
    let n1 = sp_ident_end(s, n0);
    if n1 <= n0 {
        None
    } else {
        let name = s.subrange(n0, n1);
        let j = sp_skip_ws(s, n1);
        if j < s.len() && s[j] == '{' {
            match sp_parse_variants(s, j + 1) {
                None => None,
                Some((vs, e)) => Some(
                    (
                        ItemModel::Declaration {
                            decl: DeclModel::Union { name, variants: vs },
                            text: s.subrange(i, e),
                        },
                        e,
                    ),
                ),
            }
        } else {
            None
        }
    }
}

/// An `impl` item starting at `i`, whose `impl` keyword ends at `w`. An
/// implementation of `MigrateInto<Target>` for a plain-identifier target is a
/// conversion; every other `impl` is kept verbatim.
pub open spec fn sp_parse_impl(s: Seq<char>, i: int, w: int) -> Option<(ItemModel, int)> {
    match sp_item_end(s, i) {
        None => None,
        Some(e) => {
            let h0 = sp_skip_ws(s, w);
            let h1 = sp_ident_end(s, h0);
            let g0 = sp_skip_ws(s, h1);
            let t0 = sp_skip_ws(s, g0 + 1);
            let t1 = sp_ident_end(s, t0);
            let g1 = sp_skip_ws(s, t1);
            if s.subrange(h0, h1) == "MigrateInto"@ && g0 < s.len() && s[g0] == '<' && t1 > t0
                && g1 < s.len() && s[g1] == '>' {
                Some(
                    (
                        ItemModel::Conversion {
                            target: s.subrange(t0, t1),
                            text: s.subrange(i, e),
                        },
                        e,
                    ),
                )
            } else {
                Some((ItemModel::Other { text: s.subrange(i, e) }, e))
            }
        },
    }
}

/// One item starting at the non-whitespace position `i`.
pub open spec fn sp_parse_item(s: Seq<char>, i: int) -> Option<(ItemModel, int)> {
    let c = s[i];
    if c == '/' || c == '#' {
        sp_parse_line_item(s, i)
    } else if sp_is_ident_char(c) {
        let w = sp_ident_end(s, i);
        let kw = s.subrange(i, w);
        if kw == "use"@ {
            sp_parse_use(s, i, w)
        } else if kw == "pub"@ {
            let j2 = sp_skip_ws(s, w);
            let w2 = sp_ident_end(s, j2);
            let kw2 = s.subrange(j2, w2);
            if kw2 == "struct"@ {
                sp_parse_record(s, i, w2)
            } else if kw2 == "enum"@ {
                sp_parse_union(s, i, w2)
            } else {
                sp_parse_other(s, i)
            }
        } else if kw == "struct"@ {
            sp_parse_record(s, i, w)
        } else if kw == "enum"@ {
            sp_parse_union(s, i, w)
        } else if kw == "impl"@ {
            sp_parse_impl(s, i, w)
        } else {
            sp_parse_other(s, i)
        }
    } else {
        None
    }
}

fn parse_record(s: &Vec<char>, i: usize, w: usize) -> (r: Result<(ModuleItem, usize), AnalyzeError>)
    requires
        i <= w && w <= s@.len(),
    ensures
        match r {
            Ok((it, e)) => sp_parse_record(s@, i as int, w as int) == Some((it@, e as int)) && i < e
                && e <= s@.len() && !(it@ is Unsupported),
            Err(AnalyzeError::Parse) => sp_parse_record(s@, i as int, w as int) is None,
            Err(AnalyzeError::UnsupportedShape) => sp_parse_record(
                s@,
                i as int,
                w as int,
            ) matches Some((it, e)) && it is Unsupported,
        },
{
    let n0 = skip_ws(s, w);
    let n1 = ident_end(s, n0);
    if n1 <= n0 {
        return Err(AnalyzeError::Parse);
    }
    let j = skip_ws(s, n1);
    if j < s.len() && s[j] == '{' {
        match parse_fields(s, j + 1) {
            Err(_) => Err(AnalyzeError::Parse),
            Ok((fs, e)) => {
                let it = ModuleItem::Declaration {
                    decl: TypeDeclaration::Record { name: string_range(s, n0, n1), fields: fs },
                    text: string_range(s, i, e),
                };
                Ok((it, e))
            },
        }
    } else if j < s.len() {
        let cj = s[j];
        if cj == '(' || cj == ';' {
            Err(AnalyzeError::UnsupportedShape)
        } else {
            Err(AnalyzeError::Parse)
        }
    } else {
        Err(AnalyzeError::Parse)
    }
}

fn parse_union(s: &Vec<char>, i: usize, w: usize) -> (r: Result<(ModuleItem, usize), AnalyzeError>)
    requires
        i <= w && w <= s@.len(),
    ensures
        match r {
            Ok((it, e)) => sp_parse_union(s@, i as int, w as int) == Some((it@, e as int)) && i < e
                && e <= s@.len() && !(it@ is Unsupported),
            Err(err) => err == AnalyzeError::Parse && sp_parse_union(s@, i as int, w as int) is None,
        },
{
    let n0 = skip_ws(s, w);
    let n1 = ident_end(s, n0);
    if n1 <= n0 {
        return Err(AnalyzeError::Parse);
    }
    let j = skip_ws(s, n1);
    if j < s.len() && s[j] == '{' {
        match parse_variants(s, j + 1) {
            Err(_) => Err(AnalyzeError::Parse),
            Ok((vs, e)) => {
                let it = ModuleItem::Declaration {
                    decl: TypeDeclaration::Union { name: string_range(s, n0, n1), variants: vs },
                    text: string_range(s, i, e),
                };
                Ok((it, e))
            },
        }
    } else {
        Err(AnalyzeError::Parse)
    }
}

fn parse_impl(s: &Vec<char>, i: usize, w: usize) -> (r: Result<(ModuleItem, usize), AnalyzeError>)
    requires
        i <= w && w <= s@.len(),
    ensures
        match r {
            Ok((it, e)) => sp_parse_impl(s@, i as int, w as int) == Some((it@, e as int)) && i < e
                && e <= s@.len() && !(it@ is Unsupported),
            Err(err) => err == AnalyzeError::Parse && sp_parse_impl(s@, i as int, w as int) is None,
        },
{
    match item_end(s, i) {
        None => Err(AnalyzeError::Parse),
        Some(e) => {
            let h0 = skip_ws(s, w);
            let h1 = ident_end(s, h0);
            let g0 = skip_ws(s, h1);
            if ident_is(s, h0, h1, "MigrateInto") && g0 < s.len() && s[g0] == '<' {
                let t0 = skip_ws(s, g0 + 1);
                let t1 = ident_end(s, t0);
                let g1 = skip_ws(s, t1);
                if t1 > t0 && g1 < s.len() && s[g1] == '>' {
                    let it = ModuleItem::Conversion {
                        target: string_range(s, t0, t1),
                        text: string_range(s, i, e),
                    };
                    return Ok((it, e));
                }
                let it = ModuleItem::Other { text: string_range(s, i, e) };
                return Ok((it, e));
            }
            let it = ModuleItem::Other { text: string_range(s, i, e) };
            Ok((it, e))
        },
    }
}

fn parse_item(s: &Vec<char>, i: usize) -> (r: Result<(ModuleItem, usize), AnalyzeError>)
    requires
        i < s@.len(),
    ensures
        match r {
            Ok((it, e)) => sp_parse_item(s@, i as int) == Some((it@, e as int)) && i < e && e
                <= s@.len() && !(it@ is Unsupported),
            Err(AnalyzeError::Parse) => sp_parse_item(s@, i as int) is None,
            Err(AnalyzeError::UnsupportedShape) => sp_parse_item(s@, i as int) matches Some(
                (it, e),
            ) && it is Unsupported,
        },
{
    let c = s[i];
    if c == '/' || c == '#' {
        let e = line_end(s, i);
        let rt = rtrim(s, i, e);
        let it = ModuleItem::Other { text: string_range(s, i, rt) };
        Ok((it, e))
    } else if is_ident_char(c) {
        let w = ident_end(s, i);
        if ident_is(s, i, w, "use") {
            match find_semi(s, w) {
                None => Err(AnalyzeError::Parse),
                Some(p) => {
                    let sl = s.len();
                    proof {
                        assert(p < sl);
                    }
                    let a0 = skip_ws(s, w);
                    let a1 = ident_end(s, a0);
                    let j1 = skip_ws(s, a1);
                    let j2 = ident_end(s, j1);
                    let j3 = skip_ws(s, j2);
                    let j4 = ident_end(s, j3);
                    let j5 = skip_ws(s, j4);
                    if a1 > a0 && ident_is(s, j1, j2, "as") && ident_is(s, j3, j4, "prev") && j5
                        == p {
                        let it = ModuleItem::PrevAlias { name: string_range(s, a0, a1) };
                        Ok((it, p + 1))
                    } else {
                        let it = ModuleItem::Other { text: string_range(s, i, p + 1) };
                        Ok((it, p + 1))
                    }
                },
            }
        } else if ident_is(s, i, w, "pub") {
            let j2 = skip_ws(s, w);
            let w2 = ident_end(s, j2);
            if ident_is(s, j2, w2, "struct") {
                parse_record(s, i, w2)
            } else if ident_is(s, j2, w2, "enum") {
                parse_union(s, i, w2)
            } else {
                parse_other(s, i)
            }
        } else if ident_is(s, i, w, "struct") {
            parse_record(s, i, w)
        } else if ident_is(s, i, w, "enum") {
            parse_union(s, i, w)
        } else if ident_is(s, i, w, "impl") {
            parse_impl(s, i, w)
        } else {
            parse_other(s, i)
        }
    } else {
        Err(AnalyzeError::Parse)
    }
}

fn parse_other(s: &Vec<char>, i: usize) -> (r: Result<(ModuleItem, usize), AnalyzeError>)
    requires
        i <= s@.len(),
    ensures
        match r {
            Ok((it, e)) => sp_parse_other(s@, i as int) == Some((it@, e as int)) && i < e && e
                <= s@.len() && !(it@ is Unsupported),
            Err(err) => err == AnalyzeError::Parse && sp_parse_other(s@, i as int) is None,
        },
{
    match item_end(s, i) {
        None => Err(AnalyzeError::Parse),
        Some(e) => {
            let it = ModuleItem::Other { text: string_range(s, i, e) };
            Ok((it, e))
        },
    }
}

/// All items of a module's text from position `i` on.
pub open spec fn sp_parse_items(s: Seq<char>, i: int) -> ParseOutcome
    decreases s.len() - i,
{
    let j = sp_skip_ws(s, i);
    if !(i <= j) {
        ParseOutcome::Fail
    } else if j >= s.len() {
        ParseOutcome::Items(Seq::empty())
    } else {
        match sp_parse_item(s, j) {
            None => ParseOutcome::Fail,
            Some((it, e)) => if it is Unsupported {
                ParseOutcome::ShapeErr
            } else if !(j < e && e <= s.len()) {
                ParseOutcome::Fail
            } else {
                match sp_parse_items(s, e) {
                    ParseOutcome::Items(rest) => ParseOutcome::Items(seq![it] + rest),
                    other => other,
                }
            },
        }
    }
}

/// The outcome of splitting a whole module text into items.
pub open spec fn sp_parse_module(s: Seq<char>) -> ParseOutcome {
    sp_parse_items(s, 0)
}

fn parse_items(s: &Vec<char>, i: usize) -> (r: Result<Vec<ModuleItem>, AnalyzeError>)
    requires
        i <= s@.len(),
    ensures
        match r {
            Ok(items) => sp_parse_items(s@, i as int) == ParseOutcome::Items(items_view(items@)),
            Err(AnalyzeError::Parse) => sp_parse_items(s@, i as int) is Fail,
            Err(AnalyzeError::UnsupportedShape) => sp_parse_items(s@, i as int) is ShapeErr,
        },
    decreases s@.len() - i,
{
    let j = skip_ws(s, i);
    if j >= s.len() {
        let items: Vec<ModuleItem> = Vec::new();
        proof {
            assert(items_view(items@) =~= Seq::<ItemModel>::empty());
        }
        return Ok(items);
    }
    match parse_item(s, j) {
        Err(err) => Err(err),
        Ok((it, e)) => {
            match parse_items(s, e) {
                Err(err) => Err(err),
                Ok(mut items) => {
                    let ghost olditems = items@;
                    items.insert(0, it);
                    proof {
                        assert(items@ =~= seq![it] + olditems);
                        assert(items_view(items@) =~= seq![it@] + items_view(olditems));
                    }
                    Ok(items)
                },
            }
        },
    }
}

/// The characters of a string, in order.
fn chars_of(s: &str) -> (v: Vec<char>)
    ensures
        v@ == s@,
{
    let n = s.unicode_len();
    let mut v: Vec<char> = Vec::new();
    let mut i: usize = 0;
    while i < n
        invariant
            i <= n,
            n == s@.len(),
            v@ == s@.take(i as int),
        decreases n - i,
    {
        let c = s.get_char(i);
        v.push(c);
        proof {
            assert(s@.take(i + 1) =~= s@.take(i as int) + seq![s@[i as int]]);
        }
        i += 1;
    }
    proof {
        assert(s@.take(n as int) =~= s@);
    }
    v
}

/// Splits a module's source text into its items: declarations, conversion
/// implementations, the predecessor-alias statement, and verbatim text.
pub fn parse_module(source: &str) -> (r: Result<Vec<ModuleItem>, AnalyzeError>)
    ensures
        match r {
            Ok(items) => sp_parse_module(source@) == ParseOutcome::Items(items_view(items@)),
            Err(AnalyzeError::Parse) => sp_parse_module(source@) is Fail,
            Err(AnalyzeError::UnsupportedShape) => sp_parse_module(source@) is ShapeErr,
        },
{
    let cs = chars_of(source);
    parse_items(&cs, 0)
}

/// The declarations among a module's items, in source order.
pub open spec fn sp_decls_of(items: Seq<ItemModel>) -> Seq<DeclModel>
    decreases items.len(),
{
    if items.len() == 0 {
        Seq::empty()
    } else {
        sp_decls_of(items.drop_last()) + (match items.last() {
            ItemModel::Declaration { decl, .. } => seq![decl],
            _ => Seq::empty(),
        })
    }
}

/// Extracts the structural declarations from a module's items.
pub fn declarations_of(items: &Vec<ModuleItem>) -> (r: Vec<TypeDeclaration>)
    ensures
        decls_view(r@) == sp_decls_of(items_view(items@)),
{
    let ghost iv = items_view(items@);
    let mut r: Vec<TypeDeclaration> = Vec::new();
    let mut i: usize = 0;
    while i < items.len()
        invariant
            i <= items@.len(),
            iv == items_view(items@),
            decls_view(r@) == sp_decls_of(iv.take(i as int)),
        decreases items@.len() - i,
    {
        let ghost oldr = r@;
        match &items[i] {
            ModuleItem::Declaration { decl, .. } => {
                r.push(clone_decl(decl));
                proof {
                    assert(decls_view(r@) =~= decls_view(oldr) + seq![decl@]);
                }
            },
            _ => {},
        }
        proof {
            assert(iv.take(i + 1).drop_last() =~= iv.take(i as int));
            assert(iv.take(i + 1).last() == iv[i as int]);
            assert(iv[i as int] == items@[i as int]@);
            assert(decls_view(r@) =~= sp_decls_of(iv.take(i + 1)));
        }
        i += 1;
    }
    proof {
        assert(iv.take(items@.len() as int) =~= iv);
    }
    r
}

/// Reads a module's text and returns the structural model of every record
/// and tagged-union declaration in it, in source order; unrelated items are
/// ignored. Pure: the result is a function of the text alone.
pub fn analyze(source: &str) -> (r: Result<Vec<TypeDeclaration>, AnalyzeError>)
    ensures
        match r {
            Ok(ds) => sp_parse_module(source@) matches ParseOutcome::Items(ms) && decls_view(ds@)
                == sp_decls_of(ms),
            Err(AnalyzeError::Parse) => sp_parse_module(source@) is Fail,
            Err(AnalyzeError::UnsupportedShape) => sp_parse_module(source@) is ShapeErr,
        },
{
    match parse_module(source) {
        Err(err) => Err(err),
        Ok(items) => Ok(declarations_of(&items)),
    }
}

} // verus!
