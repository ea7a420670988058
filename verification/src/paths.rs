use vstd::prelude::*;
use vstd::string::*;

verus! {

/// The component every upward step of a relative path is written with.
pub open spec fn up_component() -> Seq<char> {
    ".."@
}

/// First index at or after `i` where the components of `a` and `b` differ
/// (or one of the two ends).
pub open spec fn sp_lcp_from(a: Seq<Seq<char>>, b: Seq<Seq<char>>, i: int) -> int
    decreases a.len() - i,
{
    if 0 <= i && i < a.len() && i < b.len() && a[i] == b[i] {
        sp_lcp_from(a, b, i + 1)
    } else {
        i
    }
}

/// Length of the longest common prefix of two component sequences.
pub open spec fn sp_lcp(a: Seq<Seq<char>>, b: Seq<Seq<char>>) -> int {
    sp_lcp_from(a, b, 0)
}

/// Whether a component path begins with the filesystem root.
pub open spec fn sp_is_rooted(a: Seq<Seq<char>>) -> bool {
    a.len() > 0 && a[0] == "/"@
}

/// The relative path from directory `a` to directory `b`. When `a` is rooted
/// and `b` is not, no ancestor of `a` is a prefix of `b`, and `b` is returned
/// as it came. Otherwise: one upward step for every component of `a` past the
/// longest common prefix of the two, then the components of `b` past it.
pub open spec fn sp_relative(a: Seq<Seq<char>>, b: Seq<Seq<char>>) -> Seq<Seq<char>> {
    if sp_is_rooted(a) && !sp_is_rooted(b) {
        b
    } else {
        Seq::new((a.len() - sp_lcp(a, b)) as nat, |i: int| up_component()) + b.skip(sp_lcp(a, b))
    }
}

/// Whether the string spells exactly `kw`.
fn string_is(s: &String, kw: &str) -> (r: bool)
    ensures
        r == (s@ == kw@),
{
    let n = kw.unicode_len();
    let sref = s.as_str();
    if sref.unicode_len() != n {
        return false;
    }
    let mut k: usize = 0;
    while k < n
        invariant
            k <= n,
            n == kw@.len(),
            s@.len() == n,
            sref@ == s@,
            forall|j: int| 0 <= j < k ==> s@[j] == kw@[j],
        decreases n - k,
    {
        if sref.get_char(k) != kw.get_char(k) {
            return false;
        }
        k += 1;
    }
    proof {
        assert(s@ =~= kw@);
    }
    true
}

fn is_rooted(p: &Vec<String>) -> (r: bool)
    ensures
        r == sp_is_rooted(p.deep_view()),
{
    if p.len() == 0 {
        false
    } else {
        let r = string_is(&p[0], "/");
        proof {
            assert(p.deep_view()[0] == p@[0]@);
        }
        r
    }
}

fn lcp(from_path: &Vec<String>, to_path: &Vec<String>, i: usize) -> (r: usize)
    requires
        i <= from_path@.len(),
        i <= to_path@.len(),
    ensures
        r == sp_lcp_from(from_path.deep_view(), to_path.deep_view(), i as int),
        i <= r && r <= from_path@.len() && r <= to_path@.len(),
    decreases from_path@.len() - i,
{
    if i < from_path.len() && i < to_path.len() && from_path[i] == to_path[i] {
        lcp(from_path, to_path, i + 1)
    } else {
        i
    }
}

/// The relative path leading from the directory named by the components
/// `from_path` to the one named by `to_path`, over their common ancestor.
/// With a rooted source and an unrooted target there is no common ancestor,
/// and the target is returned as it came.
pub fn relative_path(from_path: &Vec<String>, to_path: &Vec<String>) -> (r: Vec<String>)
    ensures
        r.deep_view() == sp_relative(from_path.deep_view(), to_path.deep_view()),
{
    let ghost a = from_path.deep_view();
    let ghost b = to_path.deep_view();
    if is_rooted(from_path) && !is_rooted(to_path) {
        let mut r: Vec<String> = Vec::new();
        let mut i: usize = 0;
        while i < to_path.len()
            invariant
                i <= to_path@.len(),
                b == to_path.deep_view(),
                r@.len() == i,
                forall|j: int| 0 <= j < i ==> r@[j]@ == to_path@[j]@,
            decreases to_path@.len() - i,
        {
            let c = to_path[i].clone();
            r.push(c);
            i += 1;
        }
        proof {
            let dv = r.deep_view();
            assert(dv.len() == r@.len());
            assert forall|j: int| 0 <= j < dv.len() implies dv[j] == r@[j]@ by {}
            assert forall|j: int| 0 <= j < b.len() implies b[j] == to_path@[j]@ by {}
            assert(r.deep_view() =~= sp_relative(a, b));
        }
        return r;
    }
    let k = lcp(from_path, to_path, 0);
    let mut r: Vec<String> = Vec::new();
    let mut i: usize = k;
    while i < from_path.len()
        invariant
            k <= i && i <= from_path@.len(),
            k == sp_lcp(a, b),
            a == from_path.deep_view(),
            b == to_path.deep_view(),
            k <= a.len() && k <= b.len(),
            r@.len() == i - k,
            forall|j: int| 0 <= j < i - k ==> r@[j]@ == up_component(),
        decreases from_path@.len() - i,
    {
        r.push("..".to_owned());
        i += 1;
    }
    let upward: usize = from_path.len() - k;
    let mut i: usize = k;
    while i < to_path.len()
        invariant
            k <= i && i <= to_path@.len(),
            k == sp_lcp(a, b),
            a == from_path.deep_view(),
            b == to_path.deep_view(),
            k <= a.len() && k <= b.len(),
            upward == a.len() - k,
            r@.len() == upward + (i - k),
            forall|j: int| 0 <= j < upward ==> r@[j]@ == up_component(),
            forall|j: int| upward <= j < r@.len() ==> r@[j]@ == to_path@[k + (j - upward)]@,
        decreases to_path@.len() - i,
    {
        let c = to_path[i].clone();
        r.push(c);
        i += 1;
    }
    proof {
        let dv = r.deep_view();
        assert(dv.len() == r@.len());
        assert forall|j: int| 0 <= j < dv.len() implies dv[j] == r@[j]@ by {}
        assert forall|j: int| 0 <= j < b.len() implies b[j] == to_path@[j]@ by {}
        assert(r.deep_view() =~= sp_relative(a, b));
    }
    r
}

/// The components joined with `/` between them.
pub open spec fn sp_join(cs: Seq<Seq<char>>) -> Seq<char>
    decreases cs.len(),
{
    if cs.len() == 0 {
        Seq::empty()
    } else if cs.len() == 1 {
        cs[0]
    } else {
        sp_join(cs.drop_last()) + "/"@ + cs.last()
    }
}

/// Renders a component path as a single string with `/` separators.
pub fn join_path(components: &Vec<String>) -> (r: String)
    ensures
        r@ == sp_join(components.deep_view()),
{
    let ghost cs = components.deep_view();
    let mut out = String::new();
    let mut i: usize = 0;
    while i < components.len()
        invariant
            i <= components@.len(),
            cs == components.deep_view(),
            out@ == sp_join(cs.take(i as int)),
        decreases components@.len() - i,
    {
        if i > 0 {
            out.append("/");
        }
        out.append(components[i].as_str());
        proof {
            assert(cs.take(i + 1).drop_last() =~= cs.take(i as int));
            assert(cs.take(i + 1).last() == cs[i as int]);
            if i == 0 {
                assert(out@ =~= sp_join(cs.take(i + 1)));
            }
        }
        i += 1;
    }
    proof {
        assert(cs.take(components@.len() as int) =~= cs);
    }
    out
}

/// A relative path applied to a base directory: each upward step moves to
/// the parent, every other component descends into it.
pub open spec fn sp_resolve(base: Seq<Seq<char>>, rel: Seq<Seq<char>>) -> Seq<Seq<char>>
    decreases rel.len(),
{
    if rel.len() == 0 {
        base
    } else if rel[0] == up_component() {
        sp_resolve(base.drop_last(), rel.drop_first())
    } else {
        sp_resolve(base.push(rel[0]), rel.drop_first())
    }
}

proof fn lemma_resolve_ups(base: Seq<Seq<char>>, m: nat, rest: Seq<Seq<char>>)
    requires
        m <= base.len(),
    ensures
        sp_resolve(base, Seq::new(m, |i: int| up_component()) + rest) == sp_resolve(
            base.take((base.len() - m) as int),
            rest,
        ),
    decreases m,
{
    let ups = Seq::new(m, |i: int| up_component());
    if m == 0 {
        assert(ups + rest =~= rest);
        assert(base.take(base.len() as int) =~= base);
    } else {
        assert((ups + rest)[0] == up_component());
        assert((ups + rest).drop_first() =~= Seq::new((m - 1) as nat, |i: int| up_component())
            + rest);
        lemma_resolve_ups(base.drop_last(), (m - 1) as nat, rest);
        assert(base.drop_last().take((base.len() - m) as int) =~= base.take(
            (base.len() - m) as int,
        ));
    }
}

proof fn lemma_resolve_descend(base: Seq<Seq<char>>, rest: Seq<Seq<char>>)
    requires
        forall|j: int| 0 <= j < rest.len() ==> rest[j] != up_component(),
    ensures
        sp_resolve(base, rest) == base + rest,
    decreases rest.len(),
{
    if rest.len() == 0 {
        assert(base + rest =~= base);
    } else {
        lemma_resolve_descend(base.push(rest[0]), rest.drop_first());
        assert(base.push(rest[0]) + rest.drop_first() =~= base + rest);
    }
}

proof fn lemma_lcp_from_prefix(a: Seq<Seq<char>>, b: Seq<Seq<char>>, i: int)
    requires
        0 <= i && i <= a.len() && i <= b.len(),
    ensures
        i <= sp_lcp_from(a, b, i) && sp_lcp_from(a, b, i) <= a.len(),
        sp_lcp_from(a, b, i) <= b.len(),
        forall|j: int| i <= j < sp_lcp_from(a, b, i) ==> a[j] == b[j],
    decreases a.len() - i,
{
    if i < a.len() && i < b.len() && a[i] == b[i] {
        lemma_lcp_from_prefix(a, b, i + 1);
    }
}

/// The promotion's dependency path leads back to the frozen module: the
/// relative path from directory `a` to directory `b`, resolved against `a`,
/// names exactly `b`. This holds whenever the relative form is computed over
/// a common ancestor (not the rooted-to-unrooted passthrough) and `b` itself
/// holds no upward steps.
pub proof fn lemma_relative_path_resolves(a: Seq<Seq<char>>, b: Seq<Seq<char>>)
    requires
        !(sp_is_rooted(a) && !sp_is_rooted(b)),
        forall|j: int| 0 <= j < b.len() ==> b[j] != up_component(),
    ensures
        sp_resolve(a, sp_relative(a, b)) == b,
{
    let k = sp_lcp(a, b);
    lemma_lcp_from_prefix(a, b, 0);
    let ups = Seq::new((a.len() - k) as nat, |i: int| up_component());
    assert(sp_relative(a, b) =~= ups + b.skip(k));
    lemma_resolve_ups(a, (a.len() - k) as nat, b.skip(k));
    assert(a.take(k) =~= b.take(k));
    assert forall|j: int| 0 <= j < b.skip(k).len() implies b.skip(k)[j] != up_component() by {
        assert(b.skip(k)[j] == b[j + k]);
    }
    lemma_resolve_descend(b.take(k), b.skip(k));
    assert(b.take(k) + b.skip(k) =~= b);
}

} // verus!
