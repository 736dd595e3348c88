//! The attribute grammar tree.
//!
//! A declarative annotation attached to a declaration is a tree of nodes:
//! a bare path (`flag`), a name/value pair (`name = literal-or-path`), or a
//! list (`name(item, item, ...)`) whose items recursively follow the same
//! forms or are raw literals.  The types below model that tree over plain
//! values; each carries a mathematical image (`...V`) over sequences.

use vstd::prelude::*;

verus! {

broadcast use vstd::std_specs::vec::axiom_vec_decreases_to_view;

/// A literal value appearing in an attribute.
///
/// An integer literal keeps its (ignored) suffix; a float literal is kept
/// as its digit text only, since no attribute of this framework consumes
/// floating-point values.
#[derive(Debug, Clone, PartialEq, Eq)]
pub enum Lit {
    Str(String),
    /// Value and suffix, e.g. `5000i32` is `Int(5000, "i32")`.
    Int(u64, String),
    Bool(bool),
    Char(char),
    /// The digit text of a float literal, kept verbatim.
    Float(String),
}

/// Mathematical image of [`Lit`].
pub enum LitV {
    Str(Seq<char>),
    Int(u64, Seq<char>),
    Bool(bool),
    Char(char),
    Float(Seq<char>),
}

pub open spec fn lit_dv(l: Lit) -> LitV {
    match l {
        Lit::Str(s) => LitV::Str(s@),
        Lit::Int(v, suf) => LitV::Int(v, suf@),
        Lit::Bool(b) => LitV::Bool(b),
        Lit::Char(c) => LitV::Char(c),
        Lit::Float(s) => LitV::Float(s@),
    }
}

impl DeepView for Lit {
    type V = LitV;

    open spec fn deep_view(&self) -> LitV {
        lit_dv(*self)
    }
}

impl Lit {
    /// An exact copy, with a contract (the derived `Clone` has none).
    pub fn duplicate(&self) -> (r: Lit)
        ensures
            r == *self,
    {
        match self {
            Lit::Str(s) => Lit::Str(s.clone()),
            Lit::Int(v, suf) => Lit::Int(*v, suf.clone()),
            Lit::Bool(b) => Lit::Bool(*b),
            Lit::Char(c) => Lit::Char(*c),
            Lit::Float(s) => Lit::Float(s.clone()),
        }
    }
}

/// A (possibly `::`-prefixed) sequence of identifier segments, such as
/// `std::io::Error`.  Path arguments do not occur in the attribute grammar.
#[derive(Debug, Clone, PartialEq, Eq)]
pub struct Path {
    pub leading_colon: bool,
    pub segments: Vec<String>,
}

/// Mathematical image of [`Path`].
pub struct PathV {
    pub leading_colon: bool,
    pub segments: Seq<Seq<char>>,
}

pub open spec fn path_dv(p: Path) -> PathV {
    PathV { leading_colon: p.leading_colon, segments: p.segments.deep_view() }
}

impl DeepView for Path {
    type V = PathV;

    open spec fn deep_view(&self) -> PathV {
        path_dv(*self)
    }
}

/// The segments of a path joined by `::`.
pub open spec fn seg_join(segs: Seq<Seq<char>>) -> Seq<char>
    decreases segs.len(),
{
    if segs.len() == 0 {
        Seq::empty()
    } else if segs.len() == 1 {
        segs[0]
    } else {
        segs[0] + "::"@ + seg_join(segs.drop_first())
    }
}

/// Joining one more segment appends a separator and that segment.
pub proof fn lemma_seg_join_snoc(segs: Seq<Seq<char>>, i: int)
    requires
        0 <= i < segs.len(),
    ensures
        i == 0 ==> seg_join(segs.take(1)) == segs[0],
        i > 0 ==> seg_join(segs.take(i + 1)) == seg_join(segs.take(i)) + "::"@ + segs[i],
    decreases i,
{
    if i == 0 {
        assert(segs.take(1).len() == 1);
        assert(seg_join(segs.take(1)) == segs.take(1)[0]);
    } else {
        lemma_seg_join_snoc(segs.drop_first(), i - 1);
        assert(segs.take(i + 1).drop_first() =~= segs.drop_first().take(i));
        assert(segs.take(i).drop_first() =~= segs.drop_first().take(i - 1));
        if i == 1 {
            assert(seg_join(segs.take(2)) == segs[0] + "::"@ + seg_join(segs.take(2).drop_first()));
            assert(segs.take(2).drop_first() =~= segs.drop_first().take(1));
            assert(segs.drop_first().take(1).len() == 1);
            assert(seg_join(segs.drop_first().take(1)) == segs.drop_first()[0]);
            assert(seg_join(segs.take(1)) == segs.take(1)[0]);
        } else {
            assert(seg_join(segs.take(i + 1)) == segs.take(i + 1)[0] + "::"@ + seg_join(
                segs.take(i + 1).drop_first(),
            ));
            assert(seg_join(segs.take(i)) == segs.take(i)[0] + "::"@ + seg_join(
                segs.take(i).drop_first(),
            ));
            assert(seg_join(segs.drop_first().take(i)) == seg_join(segs.drop_first().take(i - 1))
                + "::"@ + segs.drop_first()[i - 1]);
            assert(segs.drop_first()[i - 1] == segs[i]);
            assert((segs[0] + "::"@ + (seg_join(segs.drop_first().take(i - 1)) + "::"@ + segs[i]))
                =~= ((segs[0] + "::"@ + seg_join(segs.drop_first().take(i - 1))) + "::"@
                + segs[i]));
        }
    }
}

impl PathV {
    /// The single identifier of a plain one-segment path, if any.
    pub open spec fn single_ident(self) -> Option<Seq<char>> {
        if !self.leading_colon && self.segments.len() == 1 {
            Some(self.segments[0])
        } else {
            None
        }
    }
}

impl Path {
    /// An exact copy, with a contract.
    pub fn duplicate(&self) -> (r: Path)
        ensures
            r.deep_view() == self.deep_view(),
    {
        let mut segments: Vec<String> = Vec::new();
        let mut i: usize = 0;
        while i < self.segments.len()
            invariant
                i <= self.segments.len(),
                segments@ =~= self.segments@.subrange(0, i as int),
            decreases self.segments.len() - i,
        {
            segments.push(self.segments[i].clone());
            i = i + 1;
        }
        proof {
            assert(segments.deep_view() =~= self.segments.deep_view());
        }
        Path { leading_colon: self.leading_colon, segments }
    }

    /// The compact rendering of a path: its segments joined by `::`.
    pub fn to_compact_string(&self) -> (r: String)
        ensures
            r@ == seg_join(self.deep_view().segments),
    {
        let mut out = String::new();
        let mut i: usize = 0;
        while i < self.segments.len()
            invariant
                0 <= i <= self.segments.len(),
                out@ == seg_join(self.deep_view().segments.take(i as int)),
            decreases self.segments.len() - i,
        {
            if i > 0 {
                out.append("::");
            }
            out.append(self.segments[i].as_str());
            proof {
                lemma_seg_join_snoc(self.deep_view().segments, i as int);
                reveal_strlit("::");
            }
            i = i + 1;
        }
        proof {
            assert(self.deep_view().segments.take(self.segments@.len() as int)
                =~= self.deep_view().segments);
        }
        out
    }

    /// A one-segment path without a leading `::` yields its identifier.
    pub fn single_ident(&self) -> (r: Option<&String>)
        ensures
            match r {
                Some(s) => self.deep_view().single_ident() == Some(s@),
                None => self.deep_view().single_ident() is None,
            },
    {
        if !self.leading_colon && self.segments.len() == 1 {
            Some(&self.segments[0])
        } else {
            None
        }
    }
}

/// The right-hand side of a name/value node: a path or a literal.
#[derive(Debug, Clone, PartialEq, Eq)]
pub enum MetaValue {
    Path(Path),
    Lit(Lit),
}

/// Mathematical image of [`MetaValue`].
pub enum MetaValueV {
    Path(PathV),
    Lit(LitV),
}

pub open spec fn meta_value_dv(v: MetaValue) -> MetaValueV {
    match v {
        MetaValue::Path(p) => MetaValueV::Path(path_dv(p)),
        MetaValue::Lit(l) => MetaValueV::Lit(lit_dv(l)),
    }
}

impl DeepView for MetaValue {
    type V = MetaValueV;

    open spec fn deep_view(&self) -> MetaValueV {
        meta_value_dv(*self)
    }
}

impl MetaValue {
    /// An exact copy, with a contract.
    pub fn duplicate(&self) -> (r: MetaValue)
        ensures
            r.deep_view() == self.deep_view(),
    {
        match self {
            MetaValue::Path(p) => MetaValue::Path(p.duplicate()),
            MetaValue::Lit(l) => MetaValue::Lit(l.duplicate()),
        }
    }
}

/// A name/value node: `name = value`.
#[derive(Debug, Clone, PartialEq, Eq)]
pub struct MetaNameValue {
    pub path: Path,
    pub val: MetaValue,
}

/// Mathematical image of [`MetaNameValue`].
pub struct MetaNameValueV {
    pub path: PathV,
    pub val: MetaValueV,
}

impl DeepView for MetaNameValue {
    type V = MetaNameValueV;

    open spec fn deep_view(&self) -> MetaNameValueV {
        MetaNameValueV { path: path_dv(self.path), val: meta_value_dv(self.val) }
    }
}

/// A list node: `name(item, item, ...)`.
#[derive(Debug, PartialEq, Eq)]
pub struct MetaList {
    pub path: Path,
    pub nested: Vec<NestedMeta>,
}

/// Mathematical image of [`MetaList`].
pub struct MetaListV {
    pub path: PathV,
    pub nested: Seq<NestedMetaV>,
}

/// A structured node of the attribute grammar.
#[derive(Debug, PartialEq, Eq)]
pub enum Meta {
    Path(Path),
    List(MetaList),
    NameValue(MetaNameValue),
}

/// Mathematical image of [`Meta`].
pub enum MetaV {
    Path(PathV),
    List(MetaListV),
    NameValue(MetaNameValueV),
}

/// An item of a list node: a structured node or a raw literal.
#[derive(Debug, PartialEq, Eq)]
pub enum NestedMeta {
    Meta(Meta),
    Lit(Lit),
}

/// Mathematical image of [`NestedMeta`].
pub enum NestedMetaV {
    Meta(MetaV),
    Lit(LitV),
}

pub open spec fn meta_dv(m: Meta) -> MetaV
    decreases m,
{
    match m {
        Meta::Path(p) => MetaV::Path(path_dv(p)),
        Meta::List(ml) => MetaV::List(
            MetaListV { path: path_dv(ml.path), nested: nested_seq_dv(ml.nested@) },
        ),
        Meta::NameValue(nv) => MetaV::NameValue(
            MetaNameValueV { path: path_dv(nv.path), val: meta_value_dv(nv.val) },
        ),
    }
}

/// Image of a sequence of list items, in order.
pub open spec fn nested_seq_dv(s: Seq<NestedMeta>) -> Seq<NestedMetaV>
    decreases s,
{
    if s.len() == 0 {
        Seq::empty()
    } else {
        seq![nested_meta_dv(s[0])] + nested_seq_dv(s.drop_first())
    }
}

/// The two images of a list-item vector (the recursive one and the one the
/// `Vec` view provides) agree.
pub proof fn lemma_vec_nested_dv(v: Vec<NestedMeta>)
    ensures
        v.deep_view() == nested_seq_dv(v@),
{
    lemma_nested_seq_dv(v@);
    assert(v.deep_view() =~= nested_seq_dv(v@));
}

pub open spec fn nested_meta_dv(n: NestedMeta) -> NestedMetaV
    decreases n,
{
    match n {
        NestedMeta::Meta(m) => NestedMetaV::Meta(meta_dv(m)),
        NestedMeta::Lit(l) => NestedMetaV::Lit(lit_dv(l)),
    }
}

/// The image of a list-item sequence is the item images, pointwise.
pub proof fn lemma_nested_seq_dv(s: Seq<NestedMeta>)
    ensures
        nested_seq_dv(s).len() == s.len(),
        forall|i: int| 0 <= i < s.len() ==> nested_seq_dv(s)[i] == nested_meta_dv(#[trigger] s[i]),
    decreases s,
{
    if s.len() > 0 {
        lemma_nested_seq_dv(s.drop_first());
        assert forall|i: int| 0 <= i < s.len() implies nested_seq_dv(s)[i] == nested_meta_dv(
            #[trigger] s[i],
        ) by {
            if i > 0 {
                assert(s.drop_first()[i - 1] == s[i]);
            }
        }
    }
}

impl DeepView for Meta {
    type V = MetaV;

    open spec fn deep_view(&self) -> MetaV {
        meta_dv(*self)
    }
}

impl DeepView for NestedMeta {
    type V = NestedMetaV;

    open spec fn deep_view(&self) -> NestedMetaV {
        nested_meta_dv(*self)
    }
}

impl MetaV {
    /// The head path of a node, whatever its form.
    pub open spec fn path(self) -> PathV {
        match self {
            MetaV::Path(p) => p,
            MetaV::List(ml) => ml.path,
            MetaV::NameValue(nv) => nv.path,
        }
    }

    /// Whether the head path is exactly the given single identifier.
    pub open spec fn is_named(self, name: Seq<char>) -> bool {
        self.path().single_ident() == Some(name)
    }
}

impl Meta {
    /// The head path of a node, whatever its form.
    pub fn path(&self) -> (r: &Path)
        ensures
            r.deep_view() == self.deep_view().path(),
    {
        match self {
            Meta::Path(p) => p,
            Meta::List(ml) => &ml.path,
            Meta::NameValue(nv) => &nv.path,
        }
    }

    /// Whether the head path is exactly the given single identifier.
    pub fn is(&self, name: &str) -> (r: bool)
        ensures
            r == self.deep_view().is_named(name@),
    {
        match self.path().single_ident() {
            None => false,
            Some(actual) => crate::util::string_eq_str(actual, name),
        }
    }
}

impl NestedMeta {
    /// An exact copy, with a contract.
    pub fn duplicate(&self) -> (r: NestedMeta)
        ensures
            r.deep_view() == self.deep_view(),
        decreases self,
    {
        match self {
            NestedMeta::Meta(m) => NestedMeta::Meta(m.duplicate()),
            NestedMeta::Lit(l) => NestedMeta::Lit(l.duplicate()),
        }
    }
}

/// An exact copy of a list-item vector, with a contract.
fn duplicate_nested_vec(v: &Vec<NestedMeta>) -> (r: Vec<NestedMeta>)
    ensures
        r@.len() == v@.len(),
        forall|k: int|
            0 <= k < v@.len() ==> (#[trigger] r@[k]).deep_view() == v@[k].deep_view(),
    decreases v,
{
    let mut nested: Vec<NestedMeta> = Vec::new();
    let mut i: usize = 0;
    while i < v.len()
        invariant
            i <= v.len(),
            nested@.len() == i as int,
            forall|k: int|
                0 <= k < i as int ==> (#[trigger] nested@[k]).deep_view() == v@[k].deep_view(),
        decreases v.len() - i,
    {
        proof {
            assert(decreases_to!(*v => v@));
            assert(decreases_to!(v@ => v@[i as int]));
        }
        nested.push(v[i].duplicate());
        i = i + 1;
    }
    nested
}

impl Meta {
    /// An exact copy, with a contract.
    pub fn duplicate(&self) -> (r: Meta)
        ensures
            r.deep_view() == self.deep_view(),
        decreases self,
    {
        match self {
            Meta::Path(p) => Meta::Path(p.duplicate()),
            Meta::NameValue(nv) => Meta::NameValue(
                MetaNameValue { path: nv.path.duplicate(), val: nv.val.duplicate() },
            ),
            Meta::List(ml) => {
                let nested = duplicate_nested_vec(&ml.nested);
                proof {
                    lemma_nested_seq_dv(nested@);
                    lemma_nested_seq_dv(ml.nested@);
                    assert forall|k: int| 0 <= k < nested@.len() implies nested_seq_dv(nested@)[k]
                        == nested_seq_dv(ml.nested@)[k] by {
                        assert(nested@[k].deep_view() == ml.nested@[k].deep_view());
                        assert(nested_seq_dv(nested@)[k] == nested_meta_dv(nested@[k]));
                        assert(nested_seq_dv(ml.nested@)[k] == nested_meta_dv(ml.nested@[k]));
                    }
                    assert(nested_seq_dv(nested@) =~= nested_seq_dv(ml.nested@));
                }
                Meta::List(MetaList { path: ml.path.duplicate(), nested })
            },
        }
    }
}

} // verus!
