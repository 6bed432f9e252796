//! A deferred formatted-string object that owns its interpolation arguments.
//!
//! [`format_args_owned`] captures a template and its arguments by value, so
//! the resulting object outlives the construction site; the placeholder
//! substitution itself is deferred until the object is rendered, and renders
//! the same text every time.
//!
//! The template grammar: `{}` substitutes the next positional argument's
//! "display" rendering, `{:?}` its "debug" rendering; `{name}` and
//! `{name:?}` substitute the argument registered under `name`; `{{` and `}}`
//! are the literal braces. A template whose placeholders do not all resolve,
//! or that does not use every positional argument, is a construction-time
//! contract violation, not a runtime error.

use vstd::pervasive::unreached;
use vstd::prelude::*;
use vstd::string::StringExecFns;
use vstd::string::StrSliceExecFns;

use crate::fmt_list::{render_debug_list, render_display_list};
use crate::render::{dec_string, dec_view, DebugRender, DisplayRender};
use crate::text::{debug_views, display_views, list_view};

verus! {

/// One owned interpolation argument, with its rendering under each
/// capability.
pub enum ArgValue {
    /// An unsigned number; renders in decimal under both capabilities.
    Uint(u64),
    /// A character; quoted under "debug", bare under "display".
    Ch(char),
    /// A piece of text; quoted under "debug", bare under "display".
    Text(String),
    /// A list of unsigned numbers; renders as `[n, n, ...]` under both
    /// capabilities.
    UintList(Vec<u64>),
    /// A value with caller-chosen renderings under the two capabilities.
    Custom {
        /// The text this argument renders to under "debug".
        debug: String,
        /// The text this argument renders to under "display".
        display: String,
    },
}

impl DebugRender for ArgValue {
    open spec fn debug_view(&self) -> Seq<char> {
        match self {
            ArgValue::Uint(n) => dec_view(*n as nat),
            ArgValue::Ch(c) => c.debug_view(),
            ArgValue::Text(s) => s.debug_view(),
            ArgValue::UintList(v) => list_view(debug_views(v@)),
            ArgValue::Custom { debug, display } => debug@,
        }
    }

    fn render_debug(&self) -> (r: String) {
        match self {
            ArgValue::Uint(n) => dec_string(*n),
            ArgValue::Ch(c) => c.render_debug(),
            ArgValue::Text(s) => s.render_debug(),
            ArgValue::UintList(v) => render_debug_list(v),
            ArgValue::Custom { debug, display } => debug.clone(),
        }
    }
}

impl DisplayRender for ArgValue {
    open spec fn display_view(&self) -> Seq<char> {
        match self {
            ArgValue::Uint(n) => dec_view(*n as nat),
            ArgValue::Ch(c) => c.display_view(),
            ArgValue::Text(s) => s@,
            ArgValue::UintList(v) => list_view(display_views(v@)),
            ArgValue::Custom { debug, display } => display@,
        }
    }

    fn render_display(&self) -> (r: String) {
        match self {
            ArgValue::Uint(n) => dec_string(*n),
            ArgValue::Ch(c) => c.render_display(),
            ArgValue::Text(s) => s.clone(),
            ArgValue::UintList(v) => render_display_list(v),
            ArgValue::Custom { debug, display } => display.clone(),
        }
    }
}

/// The (debug, display) rendering pair of each positional argument.
pub open spec fn pos_views(args: Seq<ArgValue>) -> Seq<(Seq<char>, Seq<char>)> {
    args.map(|i: int, a: ArgValue| (a.debug_view(), a.display_view()))
}

/// The name and (debug, display) rendering pair of each named argument.
pub open spec fn named_views(named: Seq<(String, ArgValue)>) -> Seq<
    (Seq<char>, (Seq<char>, Seq<char>)),
> {
    named.map(|i: int, kv: (String, ArgValue)| (kv.0@, (kv.1.debug_view(), kv.1.display_view())))
}

/// Whether some named argument is registered under `name`; the first
/// registration wins.
pub open spec fn assoc_has(
    named: Seq<(Seq<char>, (Seq<char>, Seq<char>))>,
    name: Seq<char>,
) -> bool
    decreases named.len(),
{
    if named.len() == 0 {
        false
    } else if named[0].0 == name {
        true
    } else {
        assoc_has(named.skip(1), name)
    }
}

/// The rendering pair of the first named argument registered under `name`.
pub open spec fn assoc_get(
    named: Seq<(Seq<char>, (Seq<char>, Seq<char>))>,
    name: Seq<char>,
) -> (Seq<char>, Seq<char>)
    decreases named.len(),
{
    if named.len() == 0 {
        (Seq::empty(), Seq::empty())
    } else if named[0].0 == name {
        named[0].1
    } else {
        assoc_get(named.skip(1), name)
    }
}

/// Whether a character may be part of a placeholder name.
pub open spec fn is_name_char(c: char) -> bool {
    ('a' as u32 <= c as u32 && c as u32 <= 'z' as u32) || ('A' as u32 <= c as u32 && c as u32
        <= 'Z' as u32) || ('0' as u32 <= c as u32 && c as u32 <= '9' as u32) || c == '_'
}

fn name_char(c: char) -> (r: bool)
    ensures
        r == is_name_char(c),
{
    ('a' as u32 <= c as u32 && c as u32 <= 'z' as u32) || ('A' as u32 <= c as u32 && c as u32
        <= 'Z' as u32) || ('0' as u32 <= c as u32 && c as u32 <= '9' as u32) || c == '_'
}

/// Whether the placeholder ending here finds its argument: an unnamed one
/// needs an unused positional argument left, a named one a registration.
pub open spec fn resolves(
    name: Seq<char>,
    p: int,
    pos_len: int,
    named: Seq<(Seq<char>, (Seq<char>, Seq<char>))>,
) -> bool {
    if name.len() == 0 {
        p < pos_len
    } else {
        assoc_has(named, name)
    }
}

/// The positional counter after a placeholder: an unnamed placeholder
/// consumes the next positional argument, a named one consumes none.
pub open spec fn next_p(name: Seq<char>, p: int) -> int {
    if name.len() == 0 {
        p + 1
    } else {
        p
    }
}

/// The text a placeholder substitutes: the chosen argument's "debug"
/// rendering under `{:?}` forms, its "display" rendering under `{}` forms.
pub open spec fn arg_text(
    pos: Seq<(Seq<char>, Seq<char>)>,
    named: Seq<(Seq<char>, (Seq<char>, Seq<char>))>,
    name: Seq<char>,
    p: int,
    debug: bool,
) -> Seq<char> {
    if name.len() == 0 {
        if 0 <= p < pos.len() {
            if debug {
                pos[p].0
            } else {
                pos[p].1
            }
        } else {
            Seq::empty()
        }
    } else {
        if assoc_has(named, name) {
            if debug {
                assoc_get(named, name).0
            } else {
                assoc_get(named, name).1
            }
        } else {
            Seq::empty()
        }
    }
}

/// Whether the template from position `i` on is well formed, with `p`
/// positional arguments already consumed: every `{` begins a placeholder or
/// a `{{` escape, every `}` closes one or is a `}}` escape, every
/// placeholder resolves, and at the end every positional argument has been
/// used.
pub open spec fn wf_from(
    tm: Seq<char>,
    i: int,
    p: int,
    pos_len: int,
    named: Seq<(Seq<char>, (Seq<char>, Seq<char>))>,
) -> bool
    decreases tm.len() - i, 0int,
{
    if i >= tm.len() {
        p == pos_len
    } else if tm[i] == '{' {
        if i + 1 < tm.len() && tm[i + 1] == '{' {
            wf_from(tm, i + 2, p, pos_len, named)
        } else {
            wf_name(tm, i + 1, p, Seq::empty(), pos_len, named)
        }
    } else if tm[i] == '}' {
        i + 1 < tm.len() && tm[i + 1] == '}' && wf_from(tm, i + 2, p, pos_len, named)
    } else {
        wf_from(tm, i + 1, p, pos_len, named)
    }
}

/// Well-formedness inside a placeholder whose name so far is `name`: the
/// placeholder must close with `}` or `:?}` and must resolve.
pub open spec fn wf_name(
    tm: Seq<char>,
    i: int,
    p: int,
    name: Seq<char>,
    pos_len: int,
    named: Seq<(Seq<char>, (Seq<char>, Seq<char>))>,
) -> bool
    decreases tm.len() - i, 1int,
{
    if i >= tm.len() {
        false
    } else if is_name_char(tm[i]) {
        wf_name(tm, i + 1, p, name.push(tm[i]), pos_len, named)
    } else if tm[i] == '}' {
        resolves(name, p, pos_len, named) && wf_from(tm, i + 1, next_p(name, p), pos_len, named)
    } else if tm[i] == ':' {
        i + 2 < tm.len() && tm[i + 1] == '?' && tm[i + 2] == '}' && resolves(
            name,
            p,
            pos_len,
            named,
        ) && wf_from(tm, i + 3, next_p(name, p), pos_len, named)
    } else {
        false
    }
}

/// The substituted text of the template from position `i` on, with `p`
/// positional arguments already consumed.
pub open spec fn subst_from(
    tm: Seq<char>,
    i: int,
    p: int,
    pos: Seq<(Seq<char>, Seq<char>)>,
    named: Seq<(Seq<char>, (Seq<char>, Seq<char>))>,
) -> Seq<char>
    decreases tm.len() - i, 0int,
{
    if i >= tm.len() {
        Seq::empty()
    } else if tm[i] == '{' {
        if i + 1 < tm.len() && tm[i + 1] == '{' {
            seq!['{'] + subst_from(tm, i + 2, p, pos, named)
        } else {
            subst_name(tm, i + 1, p, Seq::empty(), pos, named)
        }
    } else if tm[i] == '}' {
        if i + 1 < tm.len() && tm[i + 1] == '}' {
            seq!['}'] + subst_from(tm, i + 2, p, pos, named)
        } else {
            Seq::empty()
        }
    } else {
        seq![tm[i]] + subst_from(tm, i + 1, p, pos, named)
    }
}

/// The substituted text from inside a placeholder whose name so far is
/// `name`.
pub open spec fn subst_name(
    tm: Seq<char>,
    i: int,
    p: int,
    name: Seq<char>,
    pos: Seq<(Seq<char>, Seq<char>)>,
    named: Seq<(Seq<char>, (Seq<char>, Seq<char>))>,
) -> Seq<char>
    decreases tm.len() - i, 1int,
{
    if i >= tm.len() {
        Seq::empty()
    } else if is_name_char(tm[i]) {
        subst_name(tm, i + 1, p, name.push(tm[i]), pos, named)
    } else if tm[i] == '}' {
        arg_text(pos, named, name, p, false) + subst_from(tm, i + 1, next_p(name, p), pos, named)
    } else if tm[i] == ':' && i + 2 < tm.len() && tm[i + 1] == '?' && tm[i + 2] == '}' {
        arg_text(pos, named, name, p, true) + subst_from(tm, i + 3, next_p(name, p), pos, named)
    } else {
        Seq::empty()
    }
}

fn find_named_from(named: &Vec<(String, ArgValue)>, name: &String, k: usize) -> (r: Option<usize>)
    requires
        k <= named@.len(),
    ensures
        match r {
            Some(j) => k <= j < named@.len() && assoc_has(
                named_views(named@).skip(k as int),
                name@,
            ) && named@[j as int].1.debug_view() == assoc_get(
                named_views(named@).skip(k as int),
                name@,
            ).0 && named@[j as int].1.display_view() == assoc_get(
                named_views(named@).skip(k as int),
                name@,
            ).1,
            None => !assoc_has(named_views(named@).skip(k as int), name@),
        },
    decreases named@.len() - k,
{
    let ghost nv = named_views(named@);
    if k >= named.len() {
        proof {
            assert(nv.skip(k as int).len() == 0);
        }
        None
    } else {
        proof {
            assert(nv.skip(k as int)[0] == nv[k as int]);
            assert(nv[k as int].0 == named@[k as int].0@);
            assert(nv.skip(k as int).skip(1) =~= nv.skip(k as int + 1));
        }
        if named[k].0 == *name {
            Some(k)
        } else {
            find_named_from(named, name, k + 1)
        }
    }
}

fn find_named(named: &Vec<(String, ArgValue)>, name: &String) -> (r: Option<usize>)
    ensures
        match r {
            Some(j) => j < named@.len() && assoc_has(named_views(named@), name@)
                && named@[j as int].1.debug_view() == assoc_get(named_views(named@), name@).0
                && named@[j as int].1.display_view() == assoc_get(named_views(named@), name@).1,
            None => !assoc_has(named_views(named@), name@),
        },
{
    proof {
        assert(named_views(named@).skip(0) =~= named_views(named@));
    }
    find_named_from(named, name, 0)
}

/// A formatted-string object that owns its template and every interpolation
/// argument; placeholder substitution is deferred until it is rendered.
pub struct FormatArgsOwned {
    /// The template text with the placeholders.
    pub template: String,
    /// The positional arguments, consumed left to right by the unnamed
    /// placeholders.
    pub positional: Vec<ArgValue>,
    /// The named arguments; a named placeholder takes the first entry
    /// registered under its name.
    pub named: Vec<(String, ArgValue)>,
}

impl FormatArgsOwned {
    /// Whether the owned template is well formed for the owned arguments.
    pub open spec fn wf(&self) -> bool {
        wf_from(
            self.template@,
            0,
            0,
            self.positional@.len() as int,
            named_views(self.named@),
        )
    }

    /// The text every render call of this object produces.
    pub open spec fn rendered(&self) -> Seq<char> {
        subst_from(self.template@, 0, 0, pos_views(self.positional@), named_views(self.named@))
    }

    fn resolve_arg(&self, name: &String, p: usize, debug: bool) -> (r: String)
        requires
            resolves(
                name@,
                p as int,
                self.positional@.len() as int,
                named_views(self.named@),
            ),
            p <= self.positional@.len(),
        ensures
            r@ == arg_text(
                pos_views(self.positional@),
                named_views(self.named@),
                name@,
                p as int,
                debug,
            ),
    {
        if name.as_str().is_empty() {
            let a = &self.positional[p];
            proof {
                assert(pos_views(self.positional@)[p as int] == (
                    self.positional@[p as int].debug_view(),
                    self.positional@[p as int].display_view(),
                ));
            }
            if debug {
                a.render_debug()
            } else {
                a.render_display()
            }
        } else {
            let found = find_named(&self.named, name);
            match found {
                Some(k) => {
                    let a = &self.named[k].1;
                    if debug {
                        a.render_debug()
                    } else {
                        a.render_display()
                    }
                },
                None => unreached(),
            }
        }
    }

    fn render_text(&self) -> (r: String)
        requires
            self.wf(),
        ensures
            r@ == self.rendered(),
    {
        let ghost tview = self.template@;
        let ghost pos = pos_views(self.positional@);
        let ghost named = named_views(self.named@);
        let ghost pos_len = self.positional@.len() as int;
        let tm = self.template.as_str();
        let n = tm.unicode_len();
        let pos_count = self.positional.len();
        let mut out = String::new();
        let mut i: usize = 0;
        let mut p: usize = 0;
        proof {
            assert(Seq::<char>::empty() + subst_from(tview, 0, 0, pos, named) =~= subst_from(
                tview,
                0,
                0,
                pos,
                named,
            ));
        }
        while i < n
            invariant
                tm@ == tview,
                n as int == tview.len(),
                pos == pos_views(self.positional@),
                named == named_views(self.named@),
                pos_len == self.positional@.len() as int,
                pos.len() == pos_len,
                pos_count as int == pos_len,
                i <= n,
                p as int <= pos_len,
                wf_from(tview, i as int, p as int, pos_len, named),
                out@ + subst_from(tview, i as int, p as int, pos, named) == subst_from(
                    tview,
                    0,
                    0,
                    pos,
                    named,
                ),
            decreases n - i,
        {
            let ghost out0 = out@;
            let ghost i0 = i as int;
            let ghost p0 = p as int;
            let c = tm.get_char(i);
            if c == '{' {
                proof {
                    if !(i0 + 1 < tview.len()) {
                        assert(!wf_name(tview, i0 + 1, p0, Seq::empty(), pos_len, named));
                        assert(false);
                    }
                }
                let c2 = tm.get_char(i + 1);
                if c2 == '{' {
                    out.push('{');
                    i = i + 2;
                    proof {
                        assert(subst_from(tview, i0, p0, pos, named) == seq!['{'] + subst_from(
                            tview,
                            i0 + 2,
                            p0,
                            pos,
                            named,
                        ));
                        assert(out@ =~= out0 + seq!['{']);
                        assert(out@ + subst_from(tview, i as int, p as int, pos, named)
                            =~= out0 + subst_from(tview, i0, p0, pos, named));
                    }
                } else {
                    proof {
                        assert(wf_name(tview, i0 + 1, p0, Seq::empty(), pos_len, named));
                        assert(subst_from(tview, i0, p0, pos, named) == subst_name(
                            tview,
                            i0 + 1,
                            p0,
                            Seq::empty(),
                            pos,
                            named,
                        ));
                    }
                    let mut j = i + 1;
                    let mut name = String::new();
                    while j < n && name_char(tm.get_char(j))
                        invariant
                            tm@ == tview,
                            n as int == tview.len(),
                            i0 + 1 <= j as int <= tview.len(),
                            wf_name(tview, j as int, p0, name@, pos_len, named),
                            subst_name(tview, j as int, p0, name@, pos, named) == subst_name(
                                tview,
                                i0 + 1,
                                p0,
                                Seq::empty(),
                                pos,
                                named,
                            ),
                        decreases n - j,
                    {
                        let ch = tm.get_char(j);
                        name.push(ch);
                        j = j + 1;
                    }
                    proof {
                        assert(j < n);
                        assert(!is_name_char(tview[j as int]));
                        if tview[j as int] != '}' && tview[j as int] != ':' {
                            assert(!wf_name(tview, j as int, p0, name@, pos_len, named));
                            assert(false);
                        }
                    }
                    let c3 = tm.get_char(j);
                    if c3 == '}' {
                        proof {
                            assert(resolves(name@, p0, pos_len, named));
                            assert(wf_from(tview, j as int + 1, next_p(name@, p0), pos_len, named));
                            assert(subst_name(tview, j as int, p0, name@, pos, named) == arg_text(
                                pos,
                                named,
                                name@,
                                p0,
                                false,
                            ) + subst_from(tview, j as int + 1, next_p(name@, p0), pos, named));
                        }
                        let piece = self.resolve_arg(&name, p, false);
                        out.append(piece.as_str());
                        if name.as_str().is_empty() {
                            proof {
                                assert(p0 < pos_len);
                                assert(p < pos_count);
                            }
                            p = p + 1;
                        }
                        i = j + 1;
                        proof {
                            assert(p as int == next_p(name@, p0));
                            assert(out@ + subst_from(tview, i as int, p as int, pos, named)
                                =~= out0 + subst_from(tview, i0, p0, pos, named));
                        }
                    } else {
                        proof {
                            assert(tview[j as int] == ':');
                            assert(j as int + 2 < tview.len());
                            assert(resolves(name@, p0, pos_len, named));
                            assert(wf_from(tview, j as int + 3, next_p(name@, p0), pos_len, named));
                            assert(subst_name(tview, j as int, p0, name@, pos, named) == arg_text(
                                pos,
                                named,
                                name@,
                                p0,
                                true,
                            ) + subst_from(tview, j as int + 3, next_p(name@, p0), pos, named));
                        }
                        let piece = self.resolve_arg(&name, p, true);
                        out.append(piece.as_str());
                        if name.as_str().is_empty() {
                            proof {
                                assert(p0 < pos_len);
                                assert(p < pos_count);
                            }
                            p = p + 1;
                        }
                        i = j + 3;
                        proof {
                            assert(p as int == next_p(name@, p0));
                            assert(out@ + subst_from(tview, i as int, p as int, pos, named)
                                =~= out0 + subst_from(tview, i0, p0, pos, named));
                        }
                    }
                }
            } else if c == '}' {
                proof {
                    if !(i0 + 1 < tview.len() && tview[i0 + 1] == '}') {
                        assert(!wf_from(tview, i0, p0, pos_len, named));
                        assert(false);
                    }
                }
                out.push('}');
                i = i + 2;
                proof {
                    assert(subst_from(tview, i0, p0, pos, named) == seq!['}'] + subst_from(
                        tview,
                        i0 + 2,
                        p0,
                        pos,
                        named,
                    ));
                    assert(out@ =~= out0 + seq!['}']);
                    assert(out@ + subst_from(tview, i as int, p as int, pos, named)
                        =~= out0 + subst_from(tview, i0, p0, pos, named));
                }
            } else {
                out.push(c);
                i = i + 1;
                proof {
                    assert(subst_from(tview, i0, p0, pos, named) == seq![tview[i0]] + subst_from(
                        tview,
                        i0 + 1,
                        p0,
                        pos,
                        named,
                    ));
                    assert(out@ =~= out0 + seq![tview[i0]]);
                    assert(out@ + subst_from(tview, i as int, p as int, pos, named)
                        =~= out0 + subst_from(tview, i0, p0, pos, named));
                }
            }
        }
        proof {
            assert(subst_from(tview, i as int, p as int, pos, named) == Seq::<char>::empty());
            assert(out@ + Seq::<char>::empty() =~= out@);
        }
        out
    }

    /// Renders under the "debug" capability: the same substituted text as
    /// under "display", produced afresh on every call.
    pub fn render_debug(&self) -> (r: String)
        requires
            self.wf(),
        ensures
            r@ == self.rendered(),
    {
        self.render_text()
    }

    /// Renders under the "display" capability: the same substituted text as
    /// under "debug", produced afresh on every call.
    pub fn render_display(&self) -> (r: String)
        requires
            self.wf(),
        ensures
            r@ == self.rendered(),
    {
        self.render_text()
    }
}

/// Builds a deferred formatted-string object that takes ownership of the
/// template and of every argument; the text is substituted anew at each
/// render call and is the same every time.
pub fn format_args_owned(
    template: String,
    positional: Vec<ArgValue>,
    named: Vec<(String, ArgValue)>,
) -> (r: FormatArgsOwned)
    requires
        wf_from(template@, 0, 0, positional@.len() as int, named_views(named@)),
    ensures
        r.template == template,
        r.positional == positional,
        r.named == named,
        r.wf(),
{
    FormatArgsOwned { template, positional, named }
}

} // verus!
