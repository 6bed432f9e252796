//! Spec-level views of rendered text.
//!
//! Rendered text is modelled as a `Seq<char>`. The combinators here say what
//! a separated joining of several pieces is, and what the bracketed list,
//! set, and map renderings look like in terms of it.

use vstd::prelude::*;

use crate::render::{DebugRender, DisplayRender};

verus! {

/// The "debug" renderings of a sequence of renderable items, in order.
pub open spec fn debug_views<T: DebugRender>(s: Seq<T>) -> Seq<Seq<char>> {
    s.map(|i: int, x: T| x.debug_view())
}

/// The "display" renderings of a sequence of renderable items, in order.
pub open spec fn display_views<T: DisplayRender>(s: Seq<T>) -> Seq<Seq<char>> {
    s.map(|i: int, x: T| x.display_view())
}

/// The "debug" renderings of a sequence of key-value pairs, pair by pair.
pub open spec fn debug_entry_views<K: DebugRender, V: DebugRender>(s: Seq<(K, V)>) -> Seq<
    (Seq<char>, Seq<char>),
> {
    s.map(|i: int, kv: (K, V)| (kv.0.debug_view(), kv.1.debug_view()))
}

/// The "display" renderings of a sequence of key-value pairs, pair by pair.
pub open spec fn display_entry_views<K: DisplayRender, V: DisplayRender>(s: Seq<(K, V)>) -> Seq<
    (Seq<char>, Seq<char>),
> {
    s.map(|i: int, kv: (K, V)| (kv.0.display_view(), kv.1.display_view()))
}

/// The separator followed by each piece in turn: what follows the first
/// piece of a non-empty separated joining.
pub open spec fn sep_each(vs: Seq<Seq<char>>, sep: Seq<char>) -> Seq<char>
    decreases vs.len(),
{
    if vs.len() == 0 {
        Seq::empty()
    } else {
        sep + vs[0] + sep_each(vs.skip(1), sep)
    }
}

/// The pieces of `vs` in order, with `sep` placed exactly once before each
/// piece after the first: no leading and no trailing separator.
pub open spec fn sep_join(vs: Seq<Seq<char>>, sep: Seq<char>) -> Seq<char> {
    if vs.len() == 0 {
        Seq::empty()
    } else {
        vs[0] + sep_each(vs.skip(1), sep)
    }
}

/// The pieces joined with the `", "` separator used inside brackets.
pub open spec fn comma_join(vs: Seq<Seq<char>>) -> Seq<char> {
    sep_join(vs, ", "@)
}

/// A list rendering: the pieces comma-joined between `[` and `]`.
pub open spec fn list_view(vs: Seq<Seq<char>>) -> Seq<char> {
    "["@ + comma_join(vs) + "]"@
}

/// A set rendering: the pieces comma-joined between `{` and `}`.
pub open spec fn set_view(vs: Seq<Seq<char>>) -> Seq<char> {
    "{"@ + comma_join(vs) + "}"@
}

/// A single map entry rendering: the key, `": "`, then the value.
pub open spec fn entry_view(k: Seq<char>, v: Seq<char>) -> Seq<char> {
    k + ": "@ + v
}

/// The renderings of a sequence of key-value pairs, entry by entry.
pub open spec fn entry_views(kvs: Seq<(Seq<char>, Seq<char>)>) -> Seq<Seq<char>> {
    kvs.map(|i: int, kv: (Seq<char>, Seq<char>)| entry_view(kv.0, kv.1))
}

/// A map rendering: the entries comma-joined between `{` and `}`.
pub open spec fn map_view(kvs: Seq<(Seq<char>, Seq<char>)>) -> Seq<char> {
    "{"@ + comma_join(entry_views(kvs)) + "}"@
}

/// Appending one piece to a separated joining appends the separator exactly
/// once before the piece, and only when a piece already precedes it.
pub proof fn lemma_sep_each_snoc(vs: Seq<Seq<char>>, sep: Seq<char>, x: Seq<char>)
    ensures
        sep_each(vs.push(x), sep) == sep_each(vs, sep) + sep + x,
    decreases vs.len(),
{
    if vs.len() == 0 {
        assert(vs.push(x)[0] == x);
        assert(vs.push(x).skip(1) =~= Seq::<Seq<char>>::empty());
        assert(sep_each(vs.push(x), sep) == sep + x + sep_each(
            Seq::<Seq<char>>::empty(),
            sep,
        ));
        assert(sep_each(vs.push(x), sep) =~= sep_each(vs, sep) + sep + x);
    } else {
        assert(vs.push(x)[0] == vs[0]);
        assert(vs.push(x).skip(1) =~= vs.skip(1).push(x));
        lemma_sep_each_snoc(vs.skip(1), sep, x);
        assert(sep_each(vs.push(x), sep) == sep + vs[0] + sep_each(vs.skip(1).push(x), sep));
        assert(sep_each(vs.skip(1).push(x), sep) == sep_each(vs.skip(1), sep) + sep + x);
        assert(sep_each(vs.push(x), sep) =~= sep_each(vs, sep) + sep + x);
    }
}

/// Separator placement, stated piece by piece: a joining of one piece is that
/// piece alone, and every further piece arrives behind exactly one separator.
/// No separator ever leads or trails.
pub proof fn lemma_sep_join_snoc(vs: Seq<Seq<char>>, sep: Seq<char>, x: Seq<char>)
    ensures
        vs.len() == 0 ==> sep_join(vs.push(x), sep) == x,
        vs.len() > 0 ==> sep_join(vs.push(x), sep) == sep_join(vs, sep) + sep + x,
{
    if vs.len() == 0 {
        assert(vs.push(x).skip(1) =~= Seq::<Seq<char>>::empty());
        assert(sep_join(vs.push(x), sep) =~= x);
    } else {
        assert(vs.push(x).skip(1) =~= vs.skip(1).push(x));
        lemma_sep_each_snoc(vs.skip(1), sep, x);
        assert(vs.push(x)[0] == vs[0]);
        assert(sep_join(vs.push(x), sep) =~= sep_join(vs, sep) + sep + x);
    }
}

/// A separated joining of no pieces is empty: the separator never appears
/// without a piece after it.
pub proof fn lemma_sep_join_empty(sep: Seq<char>)
    ensures
        sep_join(Seq::<Seq<char>>::empty(), sep) == Seq::<char>::empty(),
{
}

/// Separator placement written out for three pieces: the rendering is the
/// first piece, the separator, the second piece, the separator, the third.
pub proof fn lemma_sep_join_triple(a: Seq<char>, b: Seq<char>, c: Seq<char>, sep: Seq<char>)
    ensures
        sep_join(seq![a], sep) == a,
        sep_join(seq![a, b], sep) == a + sep + b,
        sep_join(seq![a, b, c], sep) == a + sep + b + sep + c,
{
    assert(seq![a].push(b) =~= seq![a, b]);
    assert(seq![a, b].push(c) =~= seq![a, b, c]);
    assert(seq![a].skip(1) =~= Seq::<Seq<char>>::empty());
    assert(sep_join(seq![a], sep) =~= a);
    lemma_sep_join_snoc(seq![a], sep, b);
    lemma_sep_join_snoc(seq![a, b], sep, c);
}

/// An empty list renders as the two bracket characters alone.
pub proof fn lemma_list_view_empty()
    ensures
        list_view(Seq::<Seq<char>>::empty()) == "[]"@,
{
    reveal_strlit("[");
    reveal_strlit("]");
    reveal_strlit("[]");
    assert(list_view(Seq::<Seq<char>>::empty()) =~= "[]"@);
}

/// An empty set renders as the two brace characters alone.
pub proof fn lemma_set_view_empty()
    ensures
        set_view(Seq::<Seq<char>>::empty()) == "{}"@,
{
    reveal_strlit("{");
    reveal_strlit("}");
    reveal_strlit("{}");
    assert(set_view(Seq::<Seq<char>>::empty()) =~= "{}"@);
}

/// An empty map renders as the two brace characters alone.
pub proof fn lemma_map_view_empty()
    ensures
        map_view(Seq::<(Seq<char>, Seq<char>)>::empty()) == "{}"@,
{
    assert(entry_views(Seq::<(Seq<char>, Seq<char>)>::empty())
        =~= Seq::<Seq<char>>::empty());
    lemma_set_view_empty();
}

} // verus!
