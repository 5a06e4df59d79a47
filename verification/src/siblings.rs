use vstd::prelude::*;
use vstd::relations::sorted_by;

verus! {

/// The byte `.`.
pub open spec fn dot() -> u8 {
    46u8
}

/// `a` comes strictly before `b` in lexicographic byte order (a proper
/// prefix comes first).
pub open spec fn lex_lt(a: Seq<u8>, b: Seq<u8>) -> bool
    decreases a.len(),
{
    if a.len() == 0 {
        b.len() > 0
    } else if b.len() == 0 {
        false
    } else if a[0] < b[0] {
        true
    } else if a[0] > b[0] {
        false
    } else {
        lex_lt(a.drop_first(), b.drop_first())
    }
}

/// `a` comes before `b`, or is `b`, in lexicographic byte order.
pub open spec fn lex_le(a: Seq<u8>, b: Seq<u8>) -> bool {
    a == b || lex_lt(a, b)
}

/// Nothing comes strictly before itself.
pub proof fn lex_lt_irreflexive(a: Seq<u8>)
    ensures
        !lex_lt(a, a),
    decreases a.len(),
{
    if a.len() > 0 {
        lex_lt_irreflexive(a.drop_first());
    }
}

/// Of two byte strings, at most one comes strictly before the other.
pub proof fn lex_lt_asymmetric(a: Seq<u8>, b: Seq<u8>)
    ensures
        !(lex_lt(a, b) && lex_lt(b, a)),
    decreases a.len(),
{
    if a.len() > 0 && b.len() > 0 && a[0] == b[0] {
        lex_lt_asymmetric(a.drop_first(), b.drop_first());
    }
}

/// Lexicographic order is transitive.
pub proof fn lex_lt_transitive(a: Seq<u8>, b: Seq<u8>, c: Seq<u8>)
    requires
        lex_lt(a, b),
        lex_lt(b, c),
    ensures
        lex_lt(a, c),
    decreases a.len(),
{
    if a.len() > 0 && b.len() > 0 && c.len() > 0 && a[0] == b[0] && b[0] == c[0] {
        lex_lt_transitive(a.drop_first(), b.drop_first(), c.drop_first());
    }
}

/// Lexicographic order is total: two different byte strings are ordered
/// one way or the other.
pub proof fn lex_lt_total(a: Seq<u8>, b: Seq<u8>)
    ensures
        a == b || lex_lt(a, b) || lex_lt(b, a),
    decreases a.len(),
{
    if a.len() == 0 && b.len() == 0 {
        assert(a =~= b);
    } else if a.len() > 0 && b.len() > 0 && a[0] == b[0] {
        lex_lt_total(a.drop_first(), b.drop_first());
        if a.drop_first() == b.drop_first() {
            assert(a =~= seq![a[0]] + a.drop_first());
            assert(b =~= seq![b[0]] + b.drop_first());
        }
    }
}

/// Compares two byte strings in lexicographic order.
pub fn bytes_before(a: &[u8], b: &[u8]) -> (r: bool)
    ensures
        r == lex_lt(a@, b@),
{
    let n = a.len();
    let m = b.len();
    let mut i: usize = 0;
    assert(a@.subrange(0, n as int) =~= a@);
    assert(b@.subrange(0, m as int) =~= b@);
    while i < n && i < m
        invariant
            n == a@.len(),
            m == b@.len(),
            i <= n,
            i <= m,
            lex_lt(a@, b@) == lex_lt(a@.subrange(i as int, n as int), b@.subrange(i as int, m as int)),
        decreases n - i,
    {
        let ghost sa = a@.subrange(i as int, n as int);
        let ghost sb = b@.subrange(i as int, m as int);
        if a[i] < b[i] {
            assert(sa[0] == a@[i as int] && sb[0] == b@[i as int]);
            return true;
        }
        if a[i] > b[i] {
            assert(sa[0] == a@[i as int] && sb[0] == b@[i as int]);
            return false;
        }
        assert(sa.drop_first() =~= a@.subrange(i + 1, n as int));
        assert(sb.drop_first() =~= b@.subrange(i + 1, m as int));
        i = i + 1;
    }
    i == n && i < m
}

} // verus!

verus! {

/// `i` is the offset of the last `.` in `name`.
pub open spec fn last_dot_at(name: Seq<u8>, i: int) -> bool {
    &&& 0 <= i < name.len()
    &&& name[i] == dot()
    &&& forall|j: int| i < j < name.len() ==> name[j] != dot()
}

/// The extension of a file name, as `std::path::Path::extension` documents
/// it: none for `..`, none for a name without a `.`, none for a name whose
/// only `.` is its first byte, and otherwise the part after the last `.`.
pub open spec fn extension(name: Seq<u8>) -> Option<Seq<u8>> {
    if name == seq![dot(), dot()] {
        None
    } else if exists|i: int| last_dot_at(name, i) && i > 0 {
        let i = choose|i: int| last_dot_at(name, i) && i > 0;
        Some(name.subrange(i + 1, name.len() as int))
    } else {
        None
    }
}

proof fn last_dot_unique(name: Seq<u8>, i: int, j: int)
    requires
        last_dot_at(name, i),
        last_dot_at(name, j),
    ensures
        i == j,
{
    if i < j {
        assert(name[j] != dot());
    } else if j < i {
        assert(name[i] != dot());
    }
}

/// Tests whether the file name `name` has the extension `ext`.
pub fn has_extension(name: &[u8], ext: &[u8]) -> (r: bool)
    ensures
        r == (extension(name@) == Some(ext@)),
{
    let n = name.len();
    if n == 2 && name[0] == 46u8 && name[1] == 46u8 {
        assert(name@ =~= seq![dot(), dot()]);
        return false;
    }
    assert(name@ != seq![dot(), dot()]) by {
        if name@ == seq![dot(), dot()] {
            assert(name@[0] == dot() && name@[1] == dot());
        }
    }
    let mut i: usize = n;
    while i > 0 && name[i - 1] != 46u8
        invariant
            n == name@.len(),
            i <= n,
            forall|j: int| i <= j < n ==> name@[j] != dot(),
        decreases i,
    {
        i = i - 1;
    }
    if i == 0 {
        assert(!exists|k: int| last_dot_at(name@, k) && k > 0);
        return false;
    }
    let d = i - 1;
    assert(last_dot_at(name@, d as int));
    if d == 0 {
        assert forall|k: int| last_dot_at(name@, k) implies k == 0 by {
            last_dot_unique(name@, k, 0);
        }
        return false;
    }
    proof {
        let c = choose|k: int| last_dot_at(name@, k) && k > 0;
        last_dot_unique(name@, c, d as int);
    }
    let ghost e = name@.subrange(d + 1, n as int);
    assert(extension(name@) == Some(e));
    let m = ext.len();
    if n - (d + 1) != m {
        return false;
    }
    let mut k: usize = 0;
    while k < m
        invariant
            n == name@.len(),
            m == ext@.len(),
            d + 1 + m == n,
            e == name@.subrange(d + 1, n as int),
            k <= m,
            forall|j: int| 0 <= j < k ==> e[j] == ext@[j],
        decreases m - k,
    {
        if name[d + 1 + k] != ext[k] {
            assert(e[k as int] != ext@[k as int]);
            return false;
        }
        k = k + 1;
    }
    assert(e =~= ext@);
    true
}

} // verus!

verus! {

/// Lexicographic byte order, as a relation.
pub open spec fn lex_order() -> spec_fn(Seq<u8>, Seq<u8>) -> bool {
    |a: Seq<u8>, b: Seq<u8>| lex_le(a, b)
}

/// The file names with extension `ext`.
pub open spec fn with_extension(ext: Seq<u8>) -> spec_fn(Seq<u8>) -> bool {
    |name: Seq<u8>| extension(name) == Some(ext)
}

/// The byte strings of a list of file names.
pub open spec fn names_view(names: Seq<Vec<u8>>) -> Seq<Seq<u8>> {
    names.map_values(|n: Vec<u8>| n@)
}

proof fn insert_to_multiset(s: Seq<Seq<u8>>, p: int, x: Seq<u8>)
    requires
        0 <= p <= s.len(),
    ensures
        s.insert(p, x).to_multiset() =~= s.to_multiset().insert(x),
{
    broadcast use vstd::seq_lib::group_to_multiset_ensures;

    let t = s.insert(p, x);
    assert(t.remove(p) =~= s);
    assert(t[p] == x);
    assert(t.contains(x));
}

proof fn filter_take_step(s: Seq<Seq<u8>>, f: spec_fn(Seq<u8>) -> bool, i: int)
    requires
        0 <= i < s.len(),
    ensures
        s.take(i + 1).filter(f) == (if f(s[i]) {
            s.take(i).filter(f).push(s[i])
        } else {
            s.take(i).filter(f)
        }),
{
    reveal(Seq::filter);
    assert(s.take(i + 1).drop_last() =~= s.take(i));
}

/// Chooses the sibling libraries to preload among the file names of a
/// directory: those whose extension is `ext`, in ascending byte order.
pub fn select_siblings(names: &Vec<Vec<u8>>, ext: &[u8]) -> (r: Vec<Vec<u8>>)
    ensures
        sorted_by(names_view(r@), lex_order()),
        names_view(r@).to_multiset() == names_view(names@).filter(with_extension(ext@)).to_multiset(),
{
    let ghost all = names_view(names@);
    let ghost f = with_extension(ext@);
    let mut r: Vec<Vec<u8>> = Vec::new();
    let mut i: usize = 0;
    assert(names_view(r@).to_multiset() =~= all.take(0).filter(f).to_multiset()) by {
        reveal(Seq::filter);
        assert(all.take(0) =~= Seq::<Seq<u8>>::empty());
        assert(names_view(r@) =~= Seq::<Seq<u8>>::empty());
    }
    while i < names.len()
        invariant
            all == names_view(names@),
            f == with_extension(ext@),
            i <= names@.len(),
            sorted_by(names_view(r@), lex_order()),
            names_view(r@).to_multiset() == all.take(i as int).filter(f).to_multiset(),
        decreases names@.len() - i,
    {
        proof {
            filter_take_step(all, f, i as int);
        }
        let name: &Vec<u8> = &names[i];
        assert(all[i as int] == name@);
        let keep = has_extension(name.as_slice(), ext);
        if !keep {
            assert(!f(all[i as int]));
        }
        if keep {
            let x = vstd::slice::slice_to_vec(name.as_slice());
            let mut p: usize = 0;
            while p < r.len() && !bytes_before(x.as_slice(), r[p].as_slice())
                invariant
                    p <= r@.len(),
                    forall|q: int| 0 <= q < p ==> !lex_lt(x@, #[trigger] r@[q]@),
                decreases r@.len() - p,
            {
                p = p + 1;
            }
            let ghost old_view = names_view(r@);
            proof {
                insert_to_multiset(old_view, p as int, x@);
            }
            r.insert(p, x);
            proof {
                let v = names_view(r@);
                assert(v =~= old_view.insert(p as int, x@));
                assert forall|a: int, b: int| 0 <= a < b < v.len() implies lex_le(v[a], v[b]) by {
                    if b < p {
                        assert(v[a] == old_view[a] && v[b] == old_view[b]);
                        assert(lex_order()(old_view[a], old_view[b]));
                    } else if b == p {
                        assert(v[a] == old_view[a]);
                        assert(!lex_lt(x@, old_view[a]));
                        lex_lt_total(x@, old_view[a]);
                    } else if a == p {
                        assert(v[b] == old_view[b - 1]);
                        assert(lex_lt(x@, old_view[p as int]));
                        if p < b - 1 {
                            assert(lex_order()(old_view[p as int], old_view[b - 1]));
                            if old_view[p as int] != old_view[b - 1] {
                                lex_lt_transitive(x@, old_view[p as int], old_view[b - 1]);
                            }
                        }
                    } else if a < p {
                        assert(v[a] == old_view[a] && v[b] == old_view[b - 1]);
                        assert(lex_order()(old_view[a], old_view[b - 1]));
                    } else {
                        assert(v[a] == old_view[a - 1] && v[b] == old_view[b - 1]);
                        assert(lex_order()(old_view[a - 1], old_view[b - 1]));
                    }
                }
                assert(f(all[i as int]));
                let prev = all.take(i as int).filter(f);
                assert(all.take(i + 1).filter(f) == prev.push(all[i as int]));
                vstd::seq_lib::to_multiset_build(prev, all[i as int]);
                assert(v.to_multiset() =~= all.take(i + 1).filter(f).to_multiset());
            }
        }
        i = i + 1;
    }
    assert(all.take(names@.len() as int) =~= all);
    r
}

} // verus!

verus! {

/// The file extension of shared libraries on the host: `dylib` on macOS,
/// `so` elsewhere.
pub fn sibling_extension(macos: bool) -> (ext: &'static str)
    ensures
        ext@ == (if macos {
            "dylib"@
        } else {
            "so"@
        }),
{
    if macos {
        "dylib"
    } else {
        "so"
    }
}

/// A file is preloaded exactly when it is among the directory's files and
/// has the extension of shared libraries.
pub proof fn selection_is_exact(selected: Seq<Seq<u8>>, names: Seq<Seq<u8>>, ext: Seq<u8>)
    requires
        selected.to_multiset() == names.filter(with_extension(ext)).to_multiset(),
    ensures
        forall|x: Seq<u8>| #[trigger]
            selected.contains(x) <==> (names.contains(x) && extension(x) == Some(ext)),
{
    broadcast use vstd::seq_lib::group_to_multiset_ensures;
    broadcast use vstd::seq_lib::group_filter_ensures;

    assert forall|x: Seq<u8>| #[trigger]
        selected.contains(x) <==> (names.contains(x) && extension(x) == Some(ext)) by {
        let f = with_extension(ext);
        if selected.contains(x) {
            assert(names.filter(f).to_multiset().count(x) > 0);
            assert(names.filter(f).contains(x));
            let k = choose|k: int| 0 <= k < names.filter(f).len() && names.filter(f)[k] == x;
            assert(f(names.filter(f)[k]));
            names.lemma_filter_contains_rev(f, x);
        }
        if names.contains(x) && extension(x) == Some(ext) {
            let k = choose|k: int| 0 <= k < names.len() && names[k] == x;
            assert(f(names[k]));
            names.lemma_filter_contains(f, k);
            assert(names.filter(f).to_multiset().count(x) > 0);
        }
    }
}

} // verus!

verus! {

proof fn lex_lt_at_first_difference(a: Seq<u8>, b: Seq<u8>, k: int)
    requires
        0 <= k < a.len(),
        k < b.len(),
        forall|j: int| 0 <= j < k ==> a[j] == b[j],
        a[k] < b[k],
    ensures
        lex_lt(a, b),
    decreases k,
{
    if k > 0 {
        assert(a[0] == b[0]);
        lex_lt_at_first_difference(a.drop_first(), b.drop_first(), k - 1);
    }
}

proof fn lex_lt_of_proper_prefix(a: Seq<u8>, b: Seq<u8>)
    requires
        a.len() < b.len(),
        forall|j: int| 0 <= j < a.len() ==> a[j] == b[j],
    ensures
        lex_lt(a, b),
    decreases a.len(),
{
    if a.len() > 0 {
        assert(a[0] == b[0]);
        lex_lt_of_proper_prefix(a.drop_first(), b.drop_first());
    }
}

proof fn lex_lt_has_reason(a: Seq<u8>, b: Seq<u8>)
    requires
        lex_lt(a, b),
    ensures
        (a.len() < b.len() && forall|j: int| 0 <= j < a.len() ==> a[j] == b[j]) || exists|k: int|
            0 <= k < a.len() && k < b.len() && (forall|j: int| 0 <= j < k ==> a[j] == b[j])
                && a[k] < b[k],
    decreases a.len(),
{
    if a.len() > 0 && b.len() > 0 && a[0] == b[0] {
        let (a1, b1) = (a.drop_first(), b.drop_first());
        lex_lt_has_reason(a1, b1);
        if a1.len() < b1.len() && forall|j: int| 0 <= j < a1.len() ==> a1[j] == b1[j] {
            assert forall|j: int| 0 <= j < a.len() implies a[j] == b[j] by {
                if j > 0 {
                    assert(a[j] == a1[j - 1] && b[j] == b1[j - 1]);
                }
            }
        } else {
            let k = choose|k: int|
                0 <= k < a1.len() && k < b1.len() && (forall|j: int| 0 <= j < k ==> a1[j] == b1[j])
                    && a1[k] < b1[k];
            assert forall|j: int| 0 <= j < k + 1 implies a[j] == b[j] by {
                if j > 0 {
                    assert(a[j] == a1[j - 1] && b[j] == b1[j - 1]);
                }
            }
            assert(a[k + 1] == a1[k] && b[k + 1] == b1[k]);
        }
    } else if a.len() > 0 && b.len() > 0 {
        assert(a[0] < b[0]);
    }
}

/// The preload order is plain lexicographic order on the bytes of the file
/// names, bytes compared as unsigned numbers: `a` comes strictly before `b`
/// exactly when `a` is a proper prefix of `b`, or when at the first offset
/// where they differ the byte of `a` is the smaller.
pub proof fn lex_order_is_bytewise(a: Seq<u8>, b: Seq<u8>)
    ensures
        lex_lt(a, b) <==> ((a.len() < b.len() && forall|j: int| 0 <= j < a.len() ==> a[j] == b[j])
            || exists|k: int|
            0 <= k < a.len() && k < b.len() && (forall|j: int| 0 <= j < k ==> a[j] == b[j]) && a[k]
                < b[k]),
{
    if lex_lt(a, b) {
        lex_lt_has_reason(a, b);
    }
    if a.len() < b.len() && forall|j: int| 0 <= j < a.len() ==> a[j] == b[j] {
        lex_lt_of_proper_prefix(a, b);
    }
    if exists|k: int|
        0 <= k < a.len() && k < b.len() && (forall|j: int| 0 <= j < k ==> a[j] == b[j]) && a[k]
            < b[k] {
        let k = choose|k: int|
            0 <= k < a.len() && k < b.len() && (forall|j: int| 0 <= j < k ==> a[j] == b[j]) && a[k]
                < b[k];
        lex_lt_at_first_difference(a, b, k);
    }
}

/// A file name `stem.ext`, whose stem is not empty and whose `ext` holds no
/// `.`, has the extension `ext`, whatever dots the stem holds; the only
/// exception is `..`, which has none.
pub proof fn extension_is_after_last_dot(stem: Seq<u8>, ext: Seq<u8>)
    requires
        stem.len() > 0,
        forall|j: int| 0 <= j < ext.len() ==> ext[j] != 46u8,
        stem + seq![46u8] + ext != seq![46u8, 46u8],
    ensures
        extension(stem + seq![46u8] + ext) == Some(ext),
{
    let n = stem + seq![46u8] + ext;
    let i = stem.len() as int;
    assert(n[i] == dot());
    assert forall|j: int| i < j < n.len() implies n[j] != dot() by {
        assert(n[j] == ext[j - i - 1]);
    }
    assert(last_dot_at(n, i));
    let c = choose|c: int| last_dot_at(n, c) && c > 0;
    last_dot_unique(n, c, i);
    assert(n.subrange(i + 1, n.len() as int) =~= ext);
}

/// Conversely, a name with an extension `ext` is a non-empty stem, a `.`,
/// and `ext`, which holds no `.`.
pub proof fn extension_has_stem(name: Seq<u8>, ext: Seq<u8>)
    requires
        extension(name) == Some(ext),
    ensures
        exists|stem: Seq<u8>| stem.len() > 0 && name == stem + seq![46u8] + ext,
        forall|j: int| 0 <= j < ext.len() ==> ext[j] != 46u8,
{
    let i = choose|i: int| last_dot_at(name, i) && i > 0;
    let stem = name.take(i);
    assert(name =~= stem + seq![46u8] + ext);
    assert forall|j: int| 0 <= j < ext.len() implies ext[j] != 46u8 by {
        assert(ext[j] == name[i + 1 + j]);
    }
}

} // verus!
