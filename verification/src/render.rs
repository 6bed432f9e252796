//! The two rendering capabilities, and the machinery shared by the adapters.
//!
//! [`DebugRender`] and [`DisplayRender`] are the library's "debug" and
//! "display" capabilities: a renderable value says in spec what its text is
//! (`debug_view` / `display_view`), and its renderer returns exactly that
//! text. The joining functions here render a sequence of renderable items
//! with a separator placed exactly once between neighbouring items.

use vstd::prelude::*;
use vstd::string::StringExecFns;

use crate::text::{debug_entry_views, debug_views, display_entry_views, display_views};
use crate::text::{entry_view, entry_views, lemma_sep_join_snoc, sep_join};

verus! {

/// The "debug" capability: a developer-facing textual representation.
pub trait DebugRender {
    /// The character sequence this value renders to under "debug".
    spec fn debug_view(&self) -> Seq<char>;

    /// Renders this value under the "debug" capability.
    fn render_debug(&self) -> (r: String)
        ensures
            r@ == self.debug_view(),
    ;
}

/// The "display" capability: an end-user-facing textual representation.
pub trait DisplayRender {
    /// The character sequence this value renders to under "display".
    spec fn display_view(&self) -> Seq<char>;

    /// Renders this value under the "display" capability.
    fn render_display(&self) -> (r: String)
        ensures
            r@ == self.display_view(),
    ;
}

/// Relies on `String::push`: appends exactly the one character.
pub assume_specification [ String::push ](s: &mut String, ch: char)
    ensures
        final(s)@ == old(s)@.push(ch),
;

/// The character for one decimal digit.
pub open spec fn digit_view(d: nat) -> char {
    if d == 0 {
        '0'
    } else if d == 1 {
        '1'
    } else if d == 2 {
        '2'
    } else if d == 3 {
        '3'
    } else if d == 4 {
        '4'
    } else if d == 5 {
        '5'
    } else if d == 6 {
        '6'
    } else if d == 7 {
        '7'
    } else if d == 8 {
        '8'
    } else {
        '9'
    }
}

/// The decimal rendering of a natural number, most significant digit first,
/// with no leading zero except for the number zero itself.
pub open spec fn dec_view(n: nat) -> Seq<char>
    decreases n,
{
    if n < 10 {
        seq![digit_view(n)]
    } else {
        dec_view(n / 10).push(digit_view(n % 10))
    }
}

fn digit_char(d: u64) -> (c: char)
    requires
        d < 10,
    ensures
        c == digit_view(d as nat),
{
    match d {
        0 => '0',
        1 => '1',
        2 => '2',
        3 => '3',
        4 => '4',
        5 => '5',
        6 => '6',
        7 => '7',
        8 => '8',
        _ => '9',
    }
}

/// Renders an unsigned number in decimal.
pub fn dec_string(n: u64) -> (r: String)
    ensures
        r@ == dec_view(n as nat),
    decreases n,
{
    if n < 10 {
        let mut r = String::new();
        r.push(digit_char(n));
        proof {
            assert(r@ =~= dec_view(n as nat));
        }
        r
    } else {
        let mut r = dec_string(n / 10);
        r.push(digit_char(n % 10));
        r
    }
}

impl DebugRender for u64 {
    open spec fn debug_view(&self) -> Seq<char> {
        dec_view(*self as nat)
    }

    fn render_debug(&self) -> (r: String) {
        dec_string(*self)
    }
}

impl DisplayRender for u64 {
    open spec fn display_view(&self) -> Seq<char> {
        dec_view(*self as nat)
    }

    fn render_display(&self) -> (r: String) {
        dec_string(*self)
    }
}

impl DebugRender for char {
    open spec fn debug_view(&self) -> Seq<char> {
        seq!['\'', *self, '\'']
    }

    fn render_debug(&self) -> (r: String) {
        let mut r = String::new();
        r.push('\'');
        r.push(*self);
        r.push('\'');
        proof {
            assert(r@ =~= seq!['\'', *self, '\'']);
        }
        r
    }
}

impl DisplayRender for char {
    open spec fn display_view(&self) -> Seq<char> {
        seq![*self]
    }

    fn render_display(&self) -> (r: String) {
        let mut r = String::new();
        r.push(*self);
        proof {
            assert(r@ =~= seq![*self]);
        }
        r
    }
}

impl DisplayRender for String {
    open spec fn display_view(&self) -> Seq<char> {
        self@
    }

    fn render_display(&self) -> (r: String) {
        self.clone()
    }
}

impl DebugRender for String {
    open spec fn debug_view(&self) -> Seq<char> {
        seq!['"'] + self@ + seq!['"']
    }

    fn render_debug(&self) -> (r: String) {
        let mut r = String::new();
        r.push('"');
        r.append(self.as_str());
        r.push('"');
        proof {
            assert(r@ =~= seq!['"'] + self@ + seq!['"']);
        }
        r
    }
}

/// A value with a caller-chosen "debug" rendering and no other capability.
pub struct DebugText {
    /// The text this value renders to under "debug".
    pub text: String,
}

impl DebugText {
    /// Wraps the given text as a "debug"-renderable value.
    pub fn new(text: String) -> (r: DebugText)
        ensures
            r.text == text,
            r.debug_view() == text@,
    {
        DebugText { text }
    }
}

impl DebugRender for DebugText {
    open spec fn debug_view(&self) -> Seq<char> {
        self.text@
    }

    fn render_debug(&self) -> (r: String) {
        self.text.clone()
    }
}

/// A value with a caller-chosen "display" rendering and no other capability.
pub struct DisplayText {
    /// The text this value renders to under "display".
    pub text: String,
}

impl DisplayText {
    /// Wraps the given text as a "display"-renderable value.
    pub fn new(text: String) -> (r: DisplayText)
        ensures
            r.text == text,
            r.display_view() == text@,
    {
        DisplayText { text }
    }
}

impl DisplayRender for DisplayText {
    open spec fn display_view(&self) -> Seq<char> {
        self.text@
    }

    fn render_display(&self) -> (r: String) {
        self.text.clone()
    }
}

/// Renders each item under "debug" and joins the renderings with the literal
/// separator text, placed exactly once between neighbouring items.
pub fn join_debug<T: DebugRender>(items: &Vec<T>, sep: &str) -> (r: String)
    ensures
        r@ == sep_join(debug_views(items@), sep@),
        items@.len() == 0 ==> r@ == Seq::<char>::empty(),
{
    let ghost vs = debug_views(items@);
    let mut out = String::new();
    let mut i: usize = 0;
    while i < items.len()
        invariant
            i <= items.len(),
            vs == debug_views(items@),
            vs.len() == items@.len(),
            out@ == sep_join(vs.take(i as int), sep@),
        decreases items.len() - i,
    {
        if i > 0 {
            out.append(sep);
        }
        let piece = items[i].render_debug();
        out.append(piece.as_str());
        proof {
            assert(vs[i as int] == items@[i as int].debug_view());
            lemma_sep_join_snoc(vs.take(i as int), sep@, vs[i as int]);
            assert(vs.take(i as int).push(vs[i as int]) =~= vs.take(i as int + 1));
            assert(out@ =~= sep_join(vs.take(i as int + 1), sep@));
        }
        i += 1;
    }
    proof {
        assert(vs.take(items@.len() as int) =~= vs);
    }
    out
}

/// Renders each item under "display" and joins the renderings with the
/// literal separator text, placed exactly once between neighbouring items.
pub fn join_display<T: DisplayRender>(items: &Vec<T>, sep: &str) -> (r: String)
    ensures
        r@ == sep_join(display_views(items@), sep@),
        items@.len() == 0 ==> r@ == Seq::<char>::empty(),
{
    let ghost vs = display_views(items@);
    let mut out = String::new();
    let mut i: usize = 0;
    while i < items.len()
        invariant
            i <= items.len(),
            vs == display_views(items@),
            vs.len() == items@.len(),
            out@ == sep_join(vs.take(i as int), sep@),
        decreases items.len() - i,
    {
        if i > 0 {
            out.append(sep);
        }
        let piece = items[i].render_display();
        out.append(piece.as_str());
        proof {
            assert(vs[i as int] == items@[i as int].display_view());
            lemma_sep_join_snoc(vs.take(i as int), sep@, vs[i as int]);
            assert(vs.take(i as int).push(vs[i as int]) =~= vs.take(i as int + 1));
            assert(out@ =~= sep_join(vs.take(i as int + 1), sep@));
        }
        i += 1;
    }
    proof {
        assert(vs.take(items@.len() as int) =~= vs);
    }
    out
}

/// Renders each item under "debug" and joins the renderings with the
/// separator value, re-rendered under "debug" before every item after the
/// first; no leading and no trailing separator.
pub fn separated_debug<T: DebugRender, S: DebugRender>(items: &Vec<T>, sep: &S) -> (r: String)
    ensures
        r@ == sep_join(debug_views(items@), sep.debug_view()),
        items@.len() == 0 ==> r@ == Seq::<char>::empty(),
{
    let ghost vs = debug_views(items@);
    let mut out = String::new();
    let mut i: usize = 0;
    while i < items.len()
        invariant
            i <= items.len(),
            vs == debug_views(items@),
            vs.len() == items@.len(),
            out@ == sep_join(vs.take(i as int), sep.debug_view()),
        decreases items.len() - i,
    {
        if i > 0 {
            let sep_text = sep.render_debug();
            out.append(sep_text.as_str());
        }
        let piece = items[i].render_debug();
        out.append(piece.as_str());
        proof {
            assert(vs[i as int] == items@[i as int].debug_view());
            lemma_sep_join_snoc(vs.take(i as int), sep.debug_view(), vs[i as int]);
            assert(vs.take(i as int).push(vs[i as int]) =~= vs.take(i as int + 1));
            assert(out@ =~= sep_join(vs.take(i as int + 1), sep.debug_view()));
        }
        i += 1;
    }
    proof {
        assert(vs.take(items@.len() as int) =~= vs);
    }
    out
}

/// Renders each item under "display" and joins the renderings with the
/// separator value, re-rendered under "display" before every item after the
/// first; no leading and no trailing separator.
pub fn separated_display<T: DisplayRender, S: DisplayRender>(items: &Vec<T>, sep: &S) -> (r:
    String)
    ensures
        r@ == sep_join(display_views(items@), sep.display_view()),
        items@.len() == 0 ==> r@ == Seq::<char>::empty(),
{
    let ghost vs = display_views(items@);
    let mut out = String::new();
    let mut i: usize = 0;
    while i < items.len()
        invariant
            i <= items.len(),
            vs == display_views(items@),
            vs.len() == items@.len(),
            out@ == sep_join(vs.take(i as int), sep.display_view()),
        decreases items.len() - i,
    {
        if i > 0 {
            let sep_text = sep.render_display();
            out.append(sep_text.as_str());
        }
        let piece = items[i].render_display();
        out.append(piece.as_str());
        proof {
            assert(vs[i as int] == items@[i as int].display_view());
            lemma_sep_join_snoc(vs.take(i as int), sep.display_view(), vs[i as int]);
            assert(vs.take(i as int).push(vs[i as int]) =~= vs.take(i as int + 1));
            assert(out@ =~= sep_join(vs.take(i as int + 1), sep.display_view()));
        }
        i += 1;
    }
    proof {
        assert(vs.take(items@.len() as int) =~= vs);
    }
    out
}

/// Renders each key-value pair under "debug" as `key: value` and joins the
/// entries with the literal separator text.
pub fn join_debug_entries<K: DebugRender, V: DebugRender>(entries: &Vec<(K, V)>, sep: &str) -> (r:
    String)
    ensures
        r@ == sep_join(entry_views(debug_entry_views(entries@)), sep@),
{
    let ghost vs = entry_views(debug_entry_views(entries@));
    let mut out = String::new();
    let mut i: usize = 0;
    while i < entries.len()
        invariant
            i <= entries.len(),
            vs == entry_views(debug_entry_views(entries@)),
            vs.len() == entries@.len(),
            out@ == sep_join(vs.take(i as int), sep@),
        decreases entries.len() - i,
    {
        if i > 0 {
            out.append(sep);
        }
        let key_text = entries[i].0.render_debug();
        out.append(key_text.as_str());
        out.append(": ");
        let value_text = entries[i].1.render_debug();
        out.append(value_text.as_str());
        proof {
            assert(debug_entry_views(entries@)[i as int]
                == (entries@[i as int].0.debug_view(), entries@[i as int].1.debug_view()));
            assert(vs[i as int] == entry_view(
                entries@[i as int].0.debug_view(),
                entries@[i as int].1.debug_view(),
            ));
            lemma_sep_join_snoc(vs.take(i as int), sep@, vs[i as int]);
            assert(vs.take(i as int).push(vs[i as int]) =~= vs.take(i as int + 1));
            assert(out@ =~= sep_join(vs.take(i as int + 1), sep@));
        }
        i += 1;
    }
    proof {
        assert(vs.take(entries@.len() as int) =~= vs);
    }
    out
}

/// Renders each key-value pair under "display" as `key: value` and joins the
/// entries with the literal separator text.
pub fn join_display_entries<K: DisplayRender, V: DisplayRender>(
    entries: &Vec<(K, V)>,
    sep: &str,
) -> (r: String)
    ensures
        r@ == sep_join(entry_views(display_entry_views(entries@)), sep@),
{
    let ghost vs = entry_views(display_entry_views(entries@));
    let mut out = String::new();
    let mut i: usize = 0;
    while i < entries.len()
        invariant
            i <= entries.len(),
            vs == entry_views(display_entry_views(entries@)),
            vs.len() == entries@.len(),
            out@ == sep_join(vs.take(i as int), sep@),
        decreases entries.len() - i,
    {
        if i > 0 {
            out.append(sep);
        }
        let key_text = entries[i].0.render_display();
        out.append(key_text.as_str());
        out.append(": ");
        let value_text = entries[i].1.render_display();
        out.append(value_text.as_str());
        proof {
            assert(display_entry_views(entries@)[i as int]
                == (entries@[i as int].0.display_view(), entries@[i as int].1.display_view()));
            assert(vs[i as int] == entry_view(
                entries@[i as int].0.display_view(),
                entries@[i as int].1.display_view(),
            ));
            lemma_sep_join_snoc(vs.take(i as int), sep@, vs[i as int]);
            assert(vs.take(i as int).push(vs[i as int]) =~= vs.take(i as int + 1));
            assert(out@ =~= sep_join(vs.take(i as int + 1), sep@));
        }
        i += 1;
    }
    proof {
        assert(vs.take(entries@.len() as int) =~= vs);
    }
    out
}

} // verus!
