//! The attribute grammar parser.
//!
//! The input is the token sequence of one attribute block: identifiers,
//! literals, `=`, `,`, `::`, and parenthesized groups.  The grammar is
//! `node := path ('(' nested_list ')' | '=' value)?`, where a `nested_list`
//! is zero or more comma-separated items, each itself a node or a raw
//! literal.  A boolean literal followed by `=` is read as the name of a
//! name/value item, not as a literal (one token of lookahead resolves the
//! clash).  Parsing stops at the first offending token.

use vstd::prelude::*;
use crate::error::{Error, ErrorV, FmResult};
use crate::meta::{
    Lit, LitV, lit_dv, Meta, MetaV, MetaList, MetaListV, MetaNameValue, MetaNameValueV, MetaValue,
    MetaValueV, NestedMeta, NestedMetaV, Path, PathV, nested_seq_dv, lemma_vec_nested_dv,
};

verus! {

broadcast use vstd::std_specs::vec::axiom_vec_decreases_to_view;

/// One token of an attribute block.
#[derive(Debug, PartialEq, Eq)]
pub enum Token {
    Ident(String),
    Literal(Lit),
    /// `=`
    Eq,
    /// `,`
    Comma,
    /// `::`
    PathSep,
    /// A parenthesized group.
    Group(Vec<Token>),
}

/// Mathematical image of [`Token`].
pub enum TokenV {
    Ident(Seq<char>),
    Literal(LitV),
    Eq,
    Comma,
    PathSep,
    Group(Seq<TokenV>),
}

pub open spec fn token_dv(t: Token) -> TokenV
    decreases t,
{
    match t {
        Token::Ident(s) => TokenV::Ident(s@),
        Token::Literal(l) => TokenV::Literal(lit_dv(l)),
        Token::Eq => TokenV::Eq,
        Token::Comma => TokenV::Comma,
        Token::PathSep => TokenV::PathSep,
        Token::Group(ts) => TokenV::Group(token_seq_dv(ts@)),
    }
}

/// Image of a token sequence, in order.
pub open spec fn token_seq_dv(s: Seq<Token>) -> Seq<TokenV>
    decreases s,
{
    if s.len() == 0 {
        Seq::empty()
    } else {
        seq![token_dv(s[0])] + token_seq_dv(s.drop_first())
    }
}

/// The image of a token sequence is the token images, pointwise.
pub proof fn lemma_token_seq_dv(s: Seq<Token>)
    ensures
        token_seq_dv(s).len() == s.len(),
        forall|i: int| 0 <= i < s.len() ==> token_seq_dv(s)[i] == token_dv(#[trigger] s[i]),
    decreases s,
{
    if s.len() > 0 {
        lemma_token_seq_dv(s.drop_first());
        assert forall|i: int| 0 <= i < s.len() implies token_seq_dv(s)[i] == token_dv(
            #[trigger] s[i],
        ) by {
            if i > 0 {
                assert(s.drop_first()[i - 1] == s[i]);
            }
        }
    }
}

/// The two images of a token vector agree.
pub proof fn lemma_vec_token_dv(v: Vec<Token>)
    ensures
        v.deep_view() == token_seq_dv(v@),
{
    lemma_token_seq_dv(v@);
    assert(v.deep_view() =~= token_seq_dv(v@));
}

impl DeepView for Token {
    type V = TokenV;

    open spec fn deep_view(&self) -> TokenV {
        token_dv(*self)
    }
}

/// One attribute attached to a declaration: its head path and the raw
/// tokens that follow it.
pub struct Attribute {
    pub path: Path,
    pub tokens: Vec<Token>,
}

/// Mathematical image of [`Attribute`].
pub struct AttributeV {
    pub path: PathV,
    pub tokens: Seq<TokenV>,
}

impl DeepView for Attribute {
    type V = AttributeV;

    open spec fn deep_view(&self) -> AttributeV {
        AttributeV { path: self.path.deep_view(), tokens: self.tokens.deep_view() }
    }
}

// ---------------------------------------------------------------------------
// The grammar, over token images.
// ---------------------------------------------------------------------------

/// Where the maximal `Ident (:: Ident)*` run starting at `pos` ends.
pub open spec fn s_seg_end(t: Seq<TokenV>, pos: int) -> int
    decreases t.len() - pos,
{
    if 0 <= pos < t.len() && t[pos] is Ident {
        if pos + 2 < t.len() && t[pos + 1] is PathSep && t[pos + 2] is Ident {
            s_seg_end(t, pos + 2)
        } else {
            pos + 1
        }
    } else {
        pos
    }
}

/// The identifiers of the run from `pos` to its end.
pub open spec fn s_segs(t: Seq<TokenV>, pos: int) -> Seq<Seq<char>>
    decreases t.len() - pos,
{
    if 0 <= pos < t.len() && t[pos] is Ident {
        if pos + 2 < t.len() && t[pos + 1] is PathSep && t[pos + 2] is Ident {
            seq![t[pos]->Ident_0] + s_segs(t, pos + 2)
        } else {
            seq![t[pos]->Ident_0]
        }
    } else {
        Seq::empty()
    }
}

/// A segment run, when non-empty, advances the position.
pub proof fn lemma_seg_end(t: Seq<TokenV>, pos: int)
    requires
        0 <= pos <= t.len(),
    ensures
        pos <= s_seg_end(t, pos) <= t.len(),
        (pos < t.len() && t[pos] is Ident) ==> s_seg_end(t, pos) > pos,
    decreases t.len() - pos,
{
    if 0 <= pos < t.len() && t[pos] is Ident {
        if pos + 2 < t.len() && t[pos + 1] is PathSep && t[pos + 2] is Ident {
            lemma_seg_end(t, pos + 2);
        }
    }
}

/// The path starting at `pos`, if the tokens there form one, and where it
/// ends.
pub open spec fn s_path_at(t: Seq<TokenV>, pos: int) -> Option<(PathV, int)> {
    let lead = 0 <= pos < t.len() && t[pos] is PathSep;
    let base = if lead {
        pos + 1
    } else {
        pos
    };
    let end = s_seg_end(t, base);
    if end == base {
        None
    } else {
        Some((PathV { leading_colon: lead, segments: s_segs(t, base) }, end))
    }
}

/// A parsed path advances the position.
pub proof fn lemma_path_at(t: Seq<TokenV>, pos: int)
    requires
        0 <= pos <= t.len(),
    ensures
        s_path_at(t, pos) matches Some(pe) ==> pos < pe.1 <= t.len(),
{
    let lead = 0 <= pos < t.len() && t[pos] is PathSep;
    let base = if lead {
        pos + 1
    } else {
        pos
    };
    if base <= t.len() {
        lemma_seg_end(t, base);
    }
}

/// The value (a literal or a path) starting at `pos`, if any, and where it
/// ends.
pub open spec fn s_value_at(t: Seq<TokenV>, pos: int) -> Option<(MetaValueV, int)> {
    if 0 <= pos < t.len() && t[pos] is Literal {
        Some((MetaValueV::Lit(t[pos]->Literal_0), pos + 1))
    } else {
        match s_path_at(t, pos) {
            Some(pe) => Some((MetaValueV::Path(pe.0), pe.1)),
            None => None,
        }
    }
}

/// A parsed value advances the position.
pub proof fn lemma_value_at(t: Seq<TokenV>, pos: int)
    requires
        0 <= pos <= t.len(),
    ensures
        s_value_at(t, pos) matches Some(ve) ==> pos < ve.1 <= t.len(),
{
    lemma_path_at(t, pos);
}

/// What parsing one list item at `pos` yields, and where it ends.  A
/// boolean literal followed by `=` is the name of a name/value item; any
/// other literal is a raw literal item; otherwise the item is a node: a
/// path, possibly followed by a parenthesized item list or by `= value`.
pub open spec fn s_item_at(t: Seq<TokenV>, pos: int) -> Result<(NestedMetaV, int), ErrorV>
    decreases t, t.len() - pos, 0int,
    via s_item_at_decreases
{
    if !(0 <= pos < t.len()) {
        Err(ErrorV::Parse("item"@))
    } else if t[pos] is Literal {
        let l = t[pos]->Literal_0;
        if l is Bool && pos + 1 < t.len() && t[pos + 1] is Eq {
            let name: Seq<char> = if l->Bool_0 {
                "true"@
            } else {
                "false"@
            };
            let path = PathV { leading_colon: false, segments: seq![name] };
            match s_value_at(t, pos + 2) {
                Some(ve) => Ok(
                    (
                        NestedMetaV::Meta(
                            MetaV::NameValue(MetaNameValueV { path, val: ve.0 }),
                        ),
                        ve.1,
                    ),
                ),
                None => Err(ErrorV::Parse("value"@)),
            }
        } else {
            Ok((NestedMetaV::Lit(l), pos + 1))
        }
    } else {
        match s_path_at(t, pos) {
            None => Err(ErrorV::Parse("path"@)),
            Some(pe) => {
                let p = pe.0;
                let end = pe.1;
                if end >= t.len() || t[end] is Comma {
                    Ok((NestedMetaV::Meta(MetaV::Path(p)), end))
                } else if t[end] is Group {
                    match s_items_from(t[end]->Group_0, 0) {
                        Err(e) => Err(e),
                        Ok(items) => Ok(
                            (
                                NestedMetaV::Meta(
                                    MetaV::List(MetaListV { path: p, nested: items }),
                                ),
                                end + 1,
                            ),
                        ),
                    }
                } else if t[end] is Eq {
                    match s_value_at(t, end + 1) {
                        Some(ve) => Ok(
                            (
                                NestedMetaV::Meta(
                                    MetaV::NameValue(MetaNameValueV { path: p, val: ve.0 }),
                                ),
                                ve.1,
                            ),
                        ),
                        None => Err(ErrorV::Parse("value"@)),
                    }
                } else {
                    Err(ErrorV::Parse("item"@))
                }
            },
        }
    }
}

#[via_fn]
proof fn s_item_at_decreases(t: Seq<TokenV>, pos: int) {
    if 0 <= pos < t.len() && !(t[pos] is Literal) {
        lemma_path_at(t, pos);
        if s_path_at(t, pos) is Some {
            let end = s_path_at(t, pos)->Some_0.1;
            if end < t.len() && t[end] is Group {
                assert(decreases_to!(t => t[end]));
            }
        }
    }
}

/// What parsing a comma-separated item list from `pos` to the end yields:
/// one item per run, a trailing comma allowed.
pub open spec fn s_items_from(t: Seq<TokenV>, pos: int) -> Result<Seq<NestedMetaV>, ErrorV>
    decreases t, t.len() - pos, 1int,
{
    if !(0 <= pos) {
        Err(ErrorV::Parse("item"@))
    } else if pos >= t.len() {
        Ok(Seq::empty())
    } else {
        match s_item_at(t, pos) {
            Err(e) => Err(e),
            Ok(nq) => {
                let n = nq.0;
                let q = nq.1;
                if q <= pos {
                    // an item always advances; this branch is never taken
                    Err(ErrorV::Parse("item"@))
                } else if q >= t.len() {
                    Ok(seq![n])
                } else if t[q] is Comma {
                    match s_items_from(t, q + 1) {
                        Err(e) => Err(e),
                        Ok(rest) => Ok(seq![n] + rest),
                    }
                } else {
                    Err(ErrorV::Parse("comma"@))
                }
            },
        }
    }
}

/// A parsed item advances the position.
pub proof fn lemma_item_at(t: Seq<TokenV>, pos: int)
    requires
        0 <= pos < t.len(),
    ensures
        s_item_at(t, pos) matches Ok(nq) ==> pos < nq.1 <= t.len(),
{
    lemma_path_at(t, pos);
    if pos + 2 <= t.len() {
        lemma_value_at(t, pos + 2);
    }
    if s_path_at(t, pos) is Some {
        let end = s_path_at(t, pos)->Some_0.1;
        if 0 <= end && end + 1 <= t.len() {
            lemma_value_at(t, end + 1);
        }
    }
}

/// What parsing one whole attribute yields: its head path, applied to the
/// tokens that follow it; the whole token sequence must be consumed.
pub open spec fn s_parse_attr(a: AttributeV) -> Result<MetaV, ErrorV> {
    let t = a.tokens;
    if t.len() == 0 {
        Ok(MetaV::Path(a.path))
    } else if t[0] is Group {
        if t.len() == 1 {
            match s_items_from(t[0]->Group_0, 0) {
                Err(e) => Err(e),
                Ok(items) => Ok(MetaV::List(MetaListV { path: a.path, nested: items })),
            }
        } else {
            Err(ErrorV::Parse("attribute"@))
        }
    } else if t[0] is Eq {
        match s_value_at(t, 1) {
            Some(ve) => if ve.1 == t.len() {
                Ok(MetaV::NameValue(MetaNameValueV { path: a.path, val: ve.0 }))
            } else {
                Err(ErrorV::Parse("attribute"@))
            },
            None => Err(ErrorV::Parse("value"@)),
        }
    } else {
        Err(ErrorV::Parse("attribute"@))
    }
}

// ---------------------------------------------------------------------------
// The executable parser.
// ---------------------------------------------------------------------------

/// Whether the token is an identifier.
fn is_ident(t: &Token) -> (r: bool)
    ensures
        r == (t.deep_view() is Ident),
{
    match t {
        Token::Ident(_) => true,
        _ => false,
    }
}

/// Whether the token is `::`.
fn is_pathsep(t: &Token) -> (r: bool)
    ensures
        r == (t.deep_view() is PathSep),
{
    match t {
        Token::PathSep => true,
        _ => false,
    }
}

/// Whether the token is `=`.
fn is_eq(t: &Token) -> (r: bool)
    ensures
        r == (t.deep_view() is Eq),
{
    match t {
        Token::Eq => true,
        _ => false,
    }
}

/// Whether the token is `,`.
fn is_comma(t: &Token) -> (r: bool)
    ensures
        r == (t.deep_view() is Comma),
{
    match t {
        Token::Comma => true,
        _ => false,
    }
}

/// Scans a maximal `Ident (:: Ident)*` run.
fn seg_scan(toks: &Vec<Token>, pos: usize) -> (r: (Vec<String>, usize))
    requires
        pos < toks@.len(),
        toks.deep_view()[pos as int] is Ident,
    ensures
        r.1 == s_seg_end(toks.deep_view(), pos as int),
        r.0.deep_view() == s_segs(toks.deep_view(), pos as int),
        pos < r.1 <= toks@.len(),
    decreases toks@.len() - pos,
{
    proof {
        lemma_seg_end(toks.deep_view(), pos as int);
    }
    let id = match &toks[pos] {
        Token::Ident(s) => s.clone(),
        _ => {
            proof {
                assert(false);
            }
            String::new()
        },
    };
    if toks.len() - pos > 2 && is_pathsep(&toks[pos + 1]) && is_ident(&toks[pos + 2]) {
        let (mut rest, end) = seg_scan(toks, pos + 2);
        rest.insert(0, id);
        proof {
            assert(rest.deep_view() =~= seq![toks.deep_view()[pos as int]->Ident_0] + s_segs(
                toks.deep_view(),
                pos as int + 2,
            ));
        }
        (rest, end)
    } else {
        let mut v: Vec<String> = Vec::new();
        v.push(id);
        proof {
            assert(v.deep_view() =~= seq![toks.deep_view()[pos as int]->Ident_0]);
        }
        (v, pos + 1)
    }
}

/// Reads a path starting at `pos`, if the tokens there form one.
fn path_at(toks: &Vec<Token>, pos: usize) -> (r: Option<(Path, usize)>)
    requires
        pos <= toks@.len(),
    ensures
        match r {
            Some(pe) => s_path_at(toks.deep_view(), pos as int) == Some(
                (pe.0.deep_view(), pe.1 as int),
            ) && pos < pe.1 <= toks@.len(),
            None => s_path_at(toks.deep_view(), pos as int) is None,
        },
{
    let lead = pos < toks.len() && is_pathsep(&toks[pos]);
    let base = if lead {
        pos + 1
    } else {
        pos
    };
    proof {
        lemma_seg_end(toks.deep_view(), base as int);
    }
    if base < toks.len() && is_ident(&toks[base]) {
        let (segments, end) = seg_scan(toks, base);
        Some((Path { leading_colon: lead, segments }, end))
    } else {
        None
    }
}

/// Reads a value (a literal or a path) starting at `pos`, if any.
fn value_at(toks: &Vec<Token>, pos: usize) -> (r: Option<(MetaValue, usize)>)
    requires
        pos <= toks@.len(),
    ensures
        match r {
            Some(ve) => s_value_at(toks.deep_view(), pos as int) == Some(
                (ve.0.deep_view(), ve.1 as int),
            ) && pos < ve.1 <= toks@.len(),
            None => s_value_at(toks.deep_view(), pos as int) is None,
        },
{
    if pos < toks.len() {
        match &toks[pos] {
            Token::Literal(l) => {
                return Some((MetaValue::Lit(l.duplicate()), pos + 1));
            },
            _ => {},
        }
    }
    match path_at(toks, pos) {
        Some(pe) => Some((MetaValue::Path(pe.0), pe.1)),
        None => None,
    }
}

/// Parses a comma-separated item list: the whole token sequence of one
/// parenthesized group.
pub fn parse_items(toks: &Vec<Token>) -> (r: FmResult<Vec<NestedMeta>>)
    ensures
        match r {
            Ok(items) => Ok::<Seq<NestedMetaV>, ErrorV>(items.deep_view()) == s_items_from(
                toks.deep_view(),
                0,
            ),
            Err(e) => Err::<Seq<NestedMetaV>, ErrorV>(e.deep_view()) == s_items_from(
                toks.deep_view(),
                0,
            ),
        },
    decreases toks,
{
    let ghost td = toks.deep_view();
    let mut out: Vec<NestedMeta> = Vec::new();
    let mut pos: usize = 0;
    while pos < toks.len()
        invariant
            0 <= pos <= toks@.len(),
            toks@.len() == td.len(),
            td == toks.deep_view(),
            s_items_from(td, 0) == match s_items_from(td, pos as int) {
                Err(e) => Err::<Seq<NestedMetaV>, ErrorV>(e),
                Ok(rest) => Ok::<Seq<NestedMetaV>, ErrorV>(out.deep_view() + rest),
            },
        decreases toks@.len() - pos,
    {
        proof {
            lemma_item_at(td, pos as int);
        }
        // Parse one item at `pos`.
        let item_parse: FmResult<(NestedMeta, usize)> = {
            let head_lit: Option<&Lit> = match &toks[pos] {
                Token::Literal(l) => Some(l),
                _ => None,
            };
            match head_lit {
                Some(l) => {
                    let is_bool_eq = match l {
                        Lit::Bool(_) => pos + 1 < toks.len() && is_eq(&toks[pos + 1]),
                        _ => false,
                    };
                    if is_bool_eq {
                        let name: String = match l {
                            Lit::Bool(b) => if *b {
                                "true".to_owned()
                            } else {
                                "false".to_owned()
                            },
                            _ => String::new(),
                        };
                        let mut segments: Vec<String> = Vec::new();
                        segments.push(name);
                        let path = Path { leading_colon: false, segments };
                        proof {
                            assert(path.deep_view().segments =~= seq![
                                if td[pos as int]->Literal_0->Bool_0 {
                                    "true"@
                                } else {
                                    "false"@
                                },
                            ]);
                        }
                        match value_at(toks, pos + 2) {
                            Some(ve) => Ok(
                                (
                                    NestedMeta::Meta(
                                        Meta::NameValue(MetaNameValue { path, val: ve.0 }),
                                    ),
                                    ve.1,
                                ),
                            ),
                            None => Err(Error::Parse("value".to_owned())),
                        }
                    } else {
                        Ok((NestedMeta::Lit(l.duplicate()), pos + 1))
                    }
                },
                None => {
                    match path_at(toks, pos) {
                        None => Err(Error::Parse("path".to_owned())),
                        Some(pe) => {
                            let p = pe.0;
                            let end = pe.1;
                            if end >= toks.len() || is_comma(&toks[end]) {
                                Ok((NestedMeta::Meta(Meta::Path(p)), end))
                            } else {
                                let inner_items: Option<FmResult<Vec<NestedMeta>>> = match
                                    &toks[end] {
                                    Token::Group(inner) => {
                                        proof {
                                            assert(decreases_to!(toks@ => toks@[end as int]));
                                            assert(toks@[end as int]->Group_0 == *inner);
                                            lemma_vec_token_dv(*inner);
                                        }
                                        Some(parse_items(inner))
                                    },
                                    _ => None,
                                };
                                match inner_items {
                                    Some(Ok(items)) => {
                                        proof {
                                            lemma_vec_token_dv(toks@[end as int]->Group_0);
                                            lemma_vec_nested_dv(items);
                                        }
                                        Ok(
                                            (
                                                NestedMeta::Meta(
                                                    Meta::List(
                                                        MetaList { path: p, nested: items },
                                                    ),
                                                ),
                                                end + 1,
                                            ),
                                        )
                                    },
                                    Some(Err(e)) => Err(e),
                                    None => {
                                        if is_eq(&toks[end]) {
                                            match value_at(toks, end + 1) {
                                                Some(ve) => Ok(
                                                    (
                                                        NestedMeta::Meta(
                                                            Meta::NameValue(
                                                                MetaNameValue {
                                                                    path: p,
                                                                    val: ve.0,
                                                                },
                                                            ),
                                                        ),
                                                        ve.1,
                                                    ),
                                                ),
                                                None => Err(Error::Parse("value".to_owned())),
                                            }
                                        } else {
                                            Err(Error::Parse("item".to_owned()))
                                        }
                                    },
                                }
                            }
                        },
                    }
                },
            }
        };
        proof {
            match &item_parse {
                Ok(nq) => {
                    assert(s_item_at(td, pos as int) == Ok::<(NestedMetaV, int), ErrorV>(
                        (nq.0.deep_view(), nq.1 as int),
                    ));
                },
                Err(e) => {
                    assert(s_item_at(td, pos as int) == Err::<(NestedMetaV, int), ErrorV>(
                        e.deep_view(),
                    ));
                },
            }
        }
        match item_parse {
            Err(e) => {
                return Err(e);
            },
            Ok((n, q)) => {
                let ghost pre = out.deep_view();
                let ghost nd = n.deep_view();
                out.push(n);
                proof {
                    assert(out.deep_view() =~= pre.push(nd));
                }
                if q >= toks.len() {
                    proof {
                        assert(out.deep_view() =~= pre + seq![nd]);
                    }
                    return Ok(out);
                }
                if !is_comma(&toks[q]) {
                    return Err(Error::Parse("comma".to_owned()));
                }
                proof {
                    if s_items_from(td, q as int + 1) is Ok {
                        let rest = s_items_from(td, q as int + 1)->Ok_0;
                        assert(pre + (seq![nd] + rest) =~= out.deep_view() + rest);
                    }
                }
                pos = q + 1;
            },
        }
    }
    proof {
        assert(out.deep_view() + Seq::<NestedMetaV>::empty() =~= out.deep_view());
    }
    Ok(out)
}

impl Attribute {
    /// Parses the attribute's tokens into its grammar node.
    pub fn meta(&self) -> (r: FmResult<Meta>)
        ensures
            match r {
                Ok(m) => Ok::<MetaV, ErrorV>(m.deep_view()) == s_parse_attr(self.deep_view()),
                Err(e) => Err::<MetaV, ErrorV>(e.deep_view()) == s_parse_attr(self.deep_view()),
            },
    {
        let t = &self.tokens;
        if t.len() == 0 {
            return Ok(Meta::Path(self.path.duplicate()));
        }
        let head_group: Option<&Vec<Token>> = match &t[0] {
            Token::Group(inner) => Some(inner),
            _ => None,
        };
        match head_group {
            Some(inner) => {
                if t.len() == 1 {
                    proof {
                        lemma_vec_token_dv(*inner);
                        assert(t.deep_view()[0] == token_dv(t@[0]));
                    }
                    match parse_items(inner) {
                        Err(e) => Err(e),
                        Ok(items) => {
                            proof {
                                lemma_vec_nested_dv(items);
                            }
                            Ok(
                                Meta::List(
                                    MetaList { path: self.path.duplicate(), nested: items },
                                ),
                            )
                        },
                    }
                } else {
                    Err(Error::Parse("attribute".to_owned()))
                }
            },
            None => {
                if is_eq(&t[0]) {
                    match value_at(t, 1) {
                        Some(ve) => {
                            if ve.1 == t.len() {
                                Ok(
                                    Meta::NameValue(
                                        MetaNameValue { path: self.path.duplicate(), val: ve.0 },
                                    ),
                                )
                            } else {
                                Err(Error::Parse("attribute".to_owned()))
                            }
                        },
                        None => Err(Error::Parse("value".to_owned())),
                    }
                } else {
                    Err(Error::Parse("attribute".to_owned()))
                }
            },
        }
    }
}

/// The nodes of an attribute sequence that parse, in order; attributes
/// whose tokens do not match the grammar are skipped.
pub open spec fn s_metas_of_attrs(s: Seq<AttributeV>) -> Seq<MetaV>
    decreases s.len(),
{
    if s.len() == 0 {
        Seq::empty()
    } else {
        match s_parse_attr(s[0]) {
            Ok(m) => seq![m] + s_metas_of_attrs(s.drop_first()),
            Err(_) => s_metas_of_attrs(s.drop_first()),
        }
    }
}

impl crate::attrs::Attrs {
    /// Collects the recognized-namespace entries of raw attributes: each
    /// one is parsed (unparsable ones are skipped) and the parsed nodes are
    /// collected.
    pub fn from_attributes(attrs: &Vec<Attribute>, namespace: &str) -> (r: FmResult<
        crate::attrs::Attrs,
    >)
        ensures
            match r {
                Ok(a) => Ok::<Seq<crate::attrs::AttrV>, ErrorV>(a.deep_view())
                    == crate::attrs::s_collect(
                    s_metas_of_attrs(attrs.deep_view()),
                    namespace@,
                ),
                Err(e) => Err::<Seq<crate::attrs::AttrV>, ErrorV>(e.deep_view())
                    == crate::attrs::s_collect(
                    s_metas_of_attrs(attrs.deep_view()),
                    namespace@,
                ),
            },
    {
        let ghost ad = attrs.deep_view();
        let mut metas: Vec<Meta> = Vec::new();
        let mut i: usize = 0;
        proof {
            assert(ad.skip(0) =~= ad);
        }
        while i < attrs.len()
            invariant
                0 <= i <= attrs@.len(),
                attrs@.len() == ad.len(),
                ad == attrs.deep_view(),
                s_metas_of_attrs(ad) == metas.deep_view() + s_metas_of_attrs(ad.skip(i as int)),
            decreases attrs@.len() - i,
        {
            let ghost tail = ad.skip(i as int);
            proof {
                assert(tail[0] == ad[i as int]);
                assert(tail.drop_first() =~= ad.skip(i as int + 1));
            }
            match attrs[i].meta() {
                Ok(m) => {
                    let ghost pre = metas.deep_view();
                    let ghost md = m.deep_view();
                    metas.push(m);
                    proof {
                        assert(metas.deep_view() =~= pre.push(md));
                        assert(pre + (seq![md] + s_metas_of_attrs(ad.skip(i as int + 1)))
                            =~= metas.deep_view() + s_metas_of_attrs(ad.skip(i as int + 1)));
                    }
                },
                Err(_) => {},
            }
            i = i + 1;
        }
        proof {
            assert(ad.skip(attrs@.len() as int) =~= Seq::<AttributeV>::empty());
            assert(metas.deep_view() + Seq::<MetaV>::empty() =~= metas.deep_view());
        }
        crate::attrs::Attrs::from_metas(&metas, namespace)
    }
}

} // verus!



