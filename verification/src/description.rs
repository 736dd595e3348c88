//! Description templates and their resolution against a field shape.
//!
//! A description is either a plain string or a format template with ordered
//! field references.  Resolution checks every reference against the shape of
//! the declaration being described and replaces it with a concrete access
//! expression; an unresolved reference fails, naming the reference.

use vstd::prelude::*;
use crate::error::{Error, ErrorV, FmResult, res_dv};
use crate::fields::{Fields, FieldsV, NamedFieldV, IndexedFieldV};
use crate::from_meta::FromMeta;
use crate::meta::{Lit, LitV, Meta, MetaV, MetaValue, MetaValueV, NestedMeta, NestedMetaV, Path,
    PathV, lemma_vec_nested_dv};
use crate::util::{dec_str, u64_to_string, string_eq};

verus! {

/// A reference to a field of the declaration being described: by name, or
/// by position.
pub enum FieldRef {
    Ident(String),
    Index(u64),
}

/// Mathematical image of [`FieldRef`].
pub enum FieldRefV {
    Ident(Seq<char>),
    Index(u64),
}

impl DeepView for FieldRef {
    type V = FieldRefV;

    open spec fn deep_view(&self) -> FieldRefV {
        match self {
            FieldRef::Ident(s) => FieldRefV::Ident(s@),
            FieldRef::Index(i) => FieldRefV::Index(*i),
        }
    }
}

impl FieldRefV {
    /// The reference as the text a diagnostic shows: the name, or the
    /// decimal digits of the position.
    pub open spec fn shown(self) -> Seq<char> {
        match self {
            FieldRefV::Ident(s) => s,
            FieldRefV::Index(i) => dec_str(i),
        }
    }
}

/// A field reference accepts a bare identifier, a string, or an integer
/// literal (a position).
impl FromMeta for FieldRef {
    open spec fn s_from_ident(value: Seq<char>) -> Result<FieldRefV, ErrorV> {
        Ok(FieldRefV::Ident(value))
    }

    open spec fn s_from_string(value: Seq<char>) -> Result<FieldRefV, ErrorV> {
        Ok(FieldRefV::Ident(value))
    }

    open spec fn s_from_int(value: u64) -> Result<FieldRefV, ErrorV> {
        Ok(FieldRefV::Index(value))
    }

    fn from_empty() -> (r: FmResult<FieldRef>) {
        Err(Error::unsupported_format("empty"))
    }

    fn from_bool(value: bool) -> (r: FmResult<FieldRef>) {
        Err(Error::unexpected_type("bool"))
    }

    fn from_char(value: char) -> (r: FmResult<FieldRef>) {
        Err(Error::unexpected_type("char"))
    }

    fn from_int(value: u64) -> (r: FmResult<FieldRef>) {
        Ok(FieldRef::Index(value))
    }

    fn from_string(value: &str) -> (r: FmResult<FieldRef>) {
        Ok(FieldRef::Ident(value.to_owned()))
    }

    fn from_ident(value: &str) -> (r: FmResult<FieldRef>) {
        Ok(FieldRef::Ident(value.to_owned()))
    }

    fn from_path(value: &Path) -> (r: FmResult<FieldRef>) {
        match value.single_ident() {
            Some(id) => Self::from_ident(id.as_str()),
            None => Err(Error::unexpected_type("path")),
        }
    }

    fn from_lit(lit: &Lit) -> (r: FmResult<FieldRef>) {
        match lit {
            Lit::Bool(b) => Self::from_bool(*b),
            Lit::Str(s) => Self::from_string(s.as_str()),
            Lit::Char(c) => Self::from_char(*c),
            Lit::Int(v, _) => Self::from_int(*v),
            Lit::Float(_) => Err(Error::unexpected_lit_type(lit)),
        }
    }

    fn from_list(items: &Vec<NestedMeta>) -> (r: FmResult<FieldRef>) {
        if items.len() == 0 {
            Self::from_empty()
        } else if items.len() == 1 {
            Self::from_nested_meta(&items[0])
        } else {
            Err(Error::unsupported_format("list"))
        }
    }

    fn from_value(value: &MetaValue) -> (r: FmResult<FieldRef>) {
        match value {
            MetaValue::Path(p) => Self::from_path(p),
            MetaValue::Lit(l) => Self::from_lit(l),
        }
    }

    fn from_nested_meta(item: &NestedMeta) -> (r: FmResult<FieldRef>) {
        match item {
            NestedMeta::Lit(l) => Self::from_lit(l),
            NestedMeta::Meta(m) => match m {
                Meta::Path(p) => Self::from_path(p),
                Meta::NameValue(_) => Err(Error::unexpected_type("name value")),
                Meta::List(_) => Err(Error::unexpected_type("list")),
            },
        }
    }

    fn from_meta(item: &Meta) -> (r: FmResult<FieldRef>) {
        match item {
            Meta::Path(_) => Self::from_empty(),
            Meta::List(ml) => {
                proof {
                    lemma_vec_nested_dv(ml.nested);
                }
                Self::from_list(&ml.nested)
            },
            Meta::NameValue(nv) => Self::from_value(&nv.val),
        }
    }
}

/// A format template with its ordered field references.
pub struct FormatExpression {
    pub format: String,
    pub args: Vec<FieldRef>,
}

/// A declarative description: a plain string, or a format template whose
/// slots are bound to field references.
pub enum Description {
    Literal(String),
    Format(FormatExpression),
}

/// Mathematical image of [`Description`].
pub enum DescriptionV {
    Literal(Seq<char>),
    Format(Seq<char>, Seq<FieldRefV>),
}

impl DeepView for Description {
    type V = DescriptionV;

    open spec fn deep_view(&self) -> DescriptionV {
        match self {
            Description::Literal(s) => DescriptionV::Literal(s@),
            Description::Format(f) => DescriptionV::Format(f.format@, f.args.deep_view()),
        }
    }
}

/// What extracting the format arguments from the items after the first
/// yields: one field reference per item, in order, stopping at the first
/// failure.
pub open spec fn s_refs_of_items(items: Seq<NestedMetaV>) -> Result<Seq<FieldRefV>, ErrorV>
    decreases items.len(),
{
    if items.len() == 0 {
        Ok(Seq::empty())
    } else {
        match FieldRef::s_from_nested_meta(items[0]) {
            Err(e) => Err(e),
            Ok(v) => match s_refs_of_items(items.drop_first()) {
                Err(e) => Err(e),
                Ok(rest) => Ok(seq![v] + rest),
            },
        }
    }
}

/// The format string of a multi-item description list: its first item,
/// which must be a string literal.
pub open spec fn s_format_of_item(item: NestedMetaV) -> Result<Seq<char>, ErrorV> {
    match item {
        NestedMetaV::Lit(l) => match l {
            LitV::Str(s) => Ok(s),
            _ => Err(ErrorV::UnexpectedLitType(l)),
        },
        NestedMetaV::Meta(_) => Err(ErrorV::UnexpectedType("string"@)),
    }
}

/// A description accepts a string literal, or a list whose first item is the
/// template and whose remaining items are ordered field references.
impl FromMeta for Description {
    open spec fn s_from_string(value: Seq<char>) -> Result<DescriptionV, ErrorV> {
        Ok(DescriptionV::Literal(value))
    }

    open spec fn s_from_list(items: Seq<NestedMetaV>) -> Result<DescriptionV, ErrorV> {
        if items.len() == 0 {
            Self::s_from_empty()
        } else if items.len() == 1 {
            Self::s_from_nested_meta(items[0])
        } else {
            match s_format_of_item(items[0]) {
                Err(e) => Err(e),
                Ok(f) => match s_refs_of_items(items.drop_first()) {
                    Err(e) => Err(e),
                    Ok(refs) => Ok(DescriptionV::Format(f, refs)),
                },
            }
        }
    }

    fn from_empty() -> (r: FmResult<Description>) {
        Err(Error::unsupported_format("empty"))
    }

    fn from_bool(value: bool) -> (r: FmResult<Description>) {
        Err(Error::unexpected_type("bool"))
    }

    fn from_char(value: char) -> (r: FmResult<Description>) {
        Err(Error::unexpected_type("char"))
    }

    fn from_int(value: u64) -> (r: FmResult<Description>) {
        Err(Error::unexpected_type("int"))
    }

    fn from_string(value: &str) -> (r: FmResult<Description>) {
        Ok(Description::Literal(value.to_owned()))
    }

    fn from_ident(value: &str) -> (r: FmResult<Description>) {
        Err(Error::unexpected_type("ident"))
    }

    fn from_path(value: &Path) -> (r: FmResult<Description>) {
        match value.single_ident() {
            Some(id) => Self::from_ident(id.as_str()),
            None => Err(Error::unexpected_type("path")),
        }
    }

    fn from_lit(lit: &Lit) -> (r: FmResult<Description>) {
        match lit {
            Lit::Bool(b) => Self::from_bool(*b),
            Lit::Str(s) => Self::from_string(s.as_str()),
            Lit::Char(c) => Self::from_char(*c),
            Lit::Int(v, _) => Self::from_int(*v),
            Lit::Float(_) => Err(Error::unexpected_lit_type(lit)),
        }
    }

    fn from_list(items: &Vec<NestedMeta>) -> (r: FmResult<Description>) {
        if items.len() == 0 {
            Self::from_empty()
        } else if items.len() == 1 {
            Self::from_nested_meta(&items[0])
        } else {
            let format = match &items[0] {
                NestedMeta::Lit(l) => match l {
                    Lit::Str(s) => s.clone(),
                    _ => {
                        return Err(Error::unexpected_lit_type(l));
                    },
                },
                NestedMeta::Meta(_) => {
                    return Err(Error::unexpected_type("string"));
                },
            };
            let mut args: Vec<FieldRef> = Vec::new();
            let mut i: usize = 1;
            let ghost itemsd = items.deep_view();
            proof {
                assert(itemsd.drop_first().skip(0) =~= itemsd.skip(1));
            }
            while i < items.len()
                invariant
                    1 <= i <= items@.len(),
                    2 <= items@.len(),
                    items@.len() == itemsd.len(),
                    itemsd == items.deep_view(),
                    s_format_of_item(itemsd[0]) == Ok::<Seq<char>, ErrorV>(format@),
                    s_refs_of_items(itemsd.drop_first()) == match s_refs_of_items(
                        itemsd.skip(i as int),
                    ) {
                        Err(e) => Err::<Seq<FieldRefV>, ErrorV>(e),
                        Ok(rest) => Ok::<Seq<FieldRefV>, ErrorV>(args.deep_view() + rest),
                    },
                decreases items@.len() - i,
            {
                let ghost tail = itemsd.skip(i as int);
                proof {
                    assert(tail[0] == itemsd[i as int]);
                    assert(tail.drop_first() =~= itemsd.skip(i as int + 1));
                }
                match FieldRef::from_nested_meta(&items[i]) {
                    Err(e) => {
                        return Err(e);
                    },
                    Ok(v) => {
                        let ghost pre = args.deep_view();
                        args.push(v);
                        proof {
                            assert(args.deep_view() =~= pre.push(v.deep_view()));
                            if s_refs_of_items(itemsd.skip(i as int + 1)) is Ok {
                                let rest = s_refs_of_items(itemsd.skip(i as int + 1))->Ok_0;
                                assert(pre + (seq![v.deep_view()] + rest) =~= args.deep_view()
                                    + rest);
                            }
                        }
                    },
                }
                i = i + 1;
            }
            proof {
                assert(itemsd.skip(items@.len() as int) =~= Seq::<NestedMetaV>::empty());
                assert(args.deep_view() + Seq::<FieldRefV>::empty() =~= args.deep_view());
            }
            Ok(Description::Format(FormatExpression { format, args }))
        }
    }

    fn from_value(value: &MetaValue) -> (r: FmResult<Description>) {
        match value {
            MetaValue::Path(p) => Self::from_path(p),
            MetaValue::Lit(l) => Self::from_lit(l),
        }
    }

    fn from_nested_meta(item: &NestedMeta) -> (r: FmResult<Description>) {
        match item {
            NestedMeta::Lit(l) => Self::from_lit(l),
            NestedMeta::Meta(m) => match m {
                Meta::Path(p) => Self::from_path(p),
                Meta::NameValue(_) => Err(Error::unexpected_type("name value")),
                Meta::List(_) => Err(Error::unexpected_type("list")),
            },
        }
    }

    fn from_meta(item: &Meta) -> (r: FmResult<Description>) {
        match item {
            Meta::Path(_) => Self::from_empty(),
            Meta::List(ml) => {
                proof {
                    lemma_vec_nested_dv(ml.nested);
                }
                Self::from_list(&ml.nested)
            },
            Meta::NameValue(nv) => Self::from_value(&nv.val),
        }
    }
}


/// A description whose references have been replaced by concrete,
/// shape-checked access expressions.
pub struct ResolvedDescription {
    pub format: String,
    pub args: Vec<String>,
}

/// Mathematical image of [`ResolvedDescription`].
pub struct ResolvedDescriptionV {
    pub format: Seq<char>,
    pub args: Seq<Seq<char>>,
}

impl DeepView for ResolvedDescription {
    type V = ResolvedDescriptionV;

    open spec fn deep_view(&self) -> ResolvedDescriptionV {
        ResolvedDescriptionV { format: self.format@, args: self.args.deep_view() }
    }
}

/// The receiver expression, by view.
pub open spec fn rcv_of(receiver: Option<&str>) -> Option<Seq<char>> {
    match receiver {
        Some(id) => Some(id@),
        None => None,
    }
}

/// Whether a named shape has a field of the given name.
pub open spec fn s_has_named<V>(fs: Seq<NamedFieldV<V>>, n: Seq<char>) -> bool {
    exists|k: int| 0 <= k < fs.len() && (#[trigger] fs[k]).name == n
}

/// Whether a positional shape has a field recorded at the given position.
pub open spec fn s_has_index<V>(fs: Seq<IndexedFieldV<V>>, i: u64) -> bool {
    exists|k: int| 0 <= k < fs.len() && (#[trigger] fs[k]).index as u64 == i
}

/// What resolving one reference yields.  With a receiver (`Some(ident)`) the
/// expression is a field access on it; without one it is the local binding a
/// destructured variant brings into scope.  A unit shape rejects every
/// reference; a named shape rejects positions; a positional shape rejects
/// names; anything not found in the shape is an unknown field, named after
/// the reference.
pub open spec fn s_resolve_ref<V>(
    receiver: Option<Seq<char>>,
    fields: FieldsV<V>,
    r: FieldRefV,
) -> Result<Seq<char>, ErrorV> {
    match fields {
        FieldsV::Unit => Err(ErrorV::UnknownField(r.shown())),
        FieldsV::Named(fs) => match r {
            FieldRefV::Index(i) => Err(ErrorV::UnknownField(dec_str(i))),
            FieldRefV::Ident(n) => if s_has_named(fs, n) {
                match receiver {
                    Some(id) => Ok(id + "."@ + n),
                    None => Ok(n),
                }
            } else {
                Err(ErrorV::UnknownField(n))
            },
        },
        FieldsV::Unnamed(fs) => match r {
            FieldRefV::Ident(n) => Err(ErrorV::UnknownField(n)),
            FieldRefV::Index(i) => if s_has_index(fs, i) {
                match receiver {
                    Some(id) => Ok(id + "."@ + dec_str(i)),
                    None => Ok("_"@ + dec_str(i)),
                }
            } else {
                Err(ErrorV::UnknownField(dec_str(i)))
            },
        },
    }
}

/// What resolving an ordered reference list yields: each expression in
/// order, or the first failure.
pub open spec fn s_resolve_args<V>(
    receiver: Option<Seq<char>>,
    fields: FieldsV<V>,
    args: Seq<FieldRefV>,
) -> Result<Seq<Seq<char>>, ErrorV>
    decreases args.len(),
{
    if args.len() == 0 {
        Ok(Seq::empty())
    } else {
        match s_resolve_ref(receiver, fields, args[0]) {
            Err(e) => Err(e),
            Ok(x) => match s_resolve_args(receiver, fields, args.drop_first()) {
                Err(e) => Err(e),
                Ok(rest) => Ok(seq![x] + rest),
            },
        }
    }
}

/// What resolving a whole description yields: a literal stays as it is with
/// no arguments; a format template keeps its template and resolves each
/// reference in order.
pub open spec fn s_resolve_desc<V>(
    receiver: Option<Seq<char>>,
    fields: FieldsV<V>,
    d: DescriptionV,
) -> Result<ResolvedDescriptionV, ErrorV> {
    match d {
        DescriptionV::Literal(s) => Ok(
            ResolvedDescriptionV { format: s, args: Seq::empty() },
        ),
        DescriptionV::Format(f, args) => match s_resolve_args(receiver, fields, args) {
            Err(e) => Err(e),
            Ok(xs) => Ok(ResolvedDescriptionV { format: f, args: xs }),
        },
    }
}

/// Resolves one reference against a field shape, as an expression on the
/// given receiver (`None` meaning a destructured variant's local binding).
fn resolve_ref<T: DeepView>(
    receiver: Option<&str>,
    fields: &Fields<T>,
    r: &FieldRef,
) -> (res: FmResult<String>)
    ensures
        res_dv(res) == s_resolve_ref(rcv_of(receiver), fields.deep_view(), r.deep_view()),
{
    let ghost rcv: Option<Seq<char>> = rcv_of(receiver);
    match fields {
        Fields::Unit => match r {
            FieldRef::Ident(n) => Err(Error::unknown_field(n.as_str())),
            FieldRef::Index(i) => Err(Error::UnknownField(u64_to_string(*i))),
        },
        Fields::Named(fs) => match r {
            FieldRef::Index(i) => Err(Error::UnknownField(u64_to_string(*i))),
            FieldRef::Ident(n) => {
                let ghost fsd = fs.deep_view();
                let mut k: usize = 0;
                let mut found = false;
                while k < fs.len() && !found
                    invariant
                        0 <= k <= fs@.len(),
                        fs@.len() == fsd.len(),
                        fsd == fs.deep_view(),
                        !found ==> forall|j: int|
                            0 <= j < k as int ==> (#[trigger] fsd[j]).name != n@,
                        found ==> k < fs@.len() && fsd[k as int].name == n@,
                    decreases fs@.len() - k + (if found { 0int } else { 1int }),
                {
                    if string_eq(&fs[k].name, n) {
                        found = true;
                    } else {
                        k = k + 1;
                    }
                }
                if found {
                    proof {
                        assert(s_has_named(fsd, n@));
                    }
                    match receiver {
                        Some(id) => {
                            let mut s = id.to_owned();
                            s.append(".");
                            s.append(n.as_str());
                            Ok(s)
                        },
                        None => Ok(n.clone()),
                    }
                } else {
                    proof {
                        assert(!s_has_named(fsd, n@));
                    }
                    Err(Error::unknown_field(n.as_str()))
                }
            },
        },
        Fields::Unnamed(fs) => match r {
            FieldRef::Ident(n) => Err(Error::unknown_field(n.as_str())),
            FieldRef::Index(i) => {
                let ghost fsd = fs.deep_view();
                let mut k: usize = 0;
                let mut found = false;
                while k < fs.len() && !found
                    invariant
                        0 <= k <= fs@.len(),
                        fs@.len() == fsd.len(),
                        fsd == fs.deep_view(),
                        !found ==> forall|j: int|
                            0 <= j < k as int ==> (#[trigger] fsd[j]).index as u64 != *i,
                        found ==> k < fs@.len() && fsd[k as int].index as u64 == *i,
                    decreases fs@.len() - k + (if found { 0int } else { 1int }),
                {
                    if fs[k].index as u64 == *i {
                        found = true;
                    } else {
                        k = k + 1;
                    }
                }
                if found {
                    proof {
                        assert(s_has_index(fsd, *i));
                    }
                    let digits = u64_to_string(*i);
                    match receiver {
                        Some(id) => {
                            let mut s = id.to_owned();
                            s.append(".");
                            s.append(digits.as_str());
                            Ok(s)
                        },
                        None => {
                            let mut s: String = "_".to_owned();
                            s.append(digits.as_str());
                            proof {
                                reveal_strlit("_");
                            }
                            Ok(s)
                        },
                    }
                } else {
                    proof {
                        assert(!s_has_index(fsd, *i));
                    }
                    Err(Error::UnknownField(u64_to_string(*i)))
                }
            },
        },
    }
}

impl Description {
    /// Resolves every reference of the description against a field shape,
    /// with each expression reading a field of `receiver` (`None` meaning
    /// the local bindings of a destructured variant).
    fn resolve<T: DeepView>(&self, receiver: Option<&str>, fields: &Fields<T>) -> (res: FmResult<
        ResolvedDescription,
    >)
        ensures
            res_dv(res) == s_resolve_desc(rcv_of(receiver), fields.deep_view(), self.deep_view()),
    {
        let ghost rcv: Option<Seq<char>> = rcv_of(receiver);
        match self {
            Description::Literal(s) => {
                let out = ResolvedDescription { format: s.clone(), args: Vec::new() };
                proof {
                    assert(out.deep_view().args =~= Seq::<Seq<char>>::empty());
                }
                Ok(out)
            },
            Description::Format(f) => {
                let ghost argsd = f.args.deep_view();
                let mut xs: Vec<String> = Vec::new();
                let mut i: usize = 0;
                proof {
                    assert(argsd.skip(0) =~= argsd);
                }
                while i < f.args.len()
                    invariant
                        0 <= i <= f.args@.len(),
                        f.args@.len() == argsd.len(),
                        argsd == f.args.deep_view(),
                        self.deep_view() == DescriptionV::Format(f.format@, argsd),
                        s_resolve_args(rcv, fields.deep_view(), argsd) == match s_resolve_args(
                            rcv,
                            fields.deep_view(),
                            argsd.skip(i as int),
                        ) {
                            Err(e) => Err::<Seq<Seq<char>>, ErrorV>(e),
                            Ok(rest) => Ok::<Seq<Seq<char>>, ErrorV>(xs.deep_view() + rest),
                        },
                        rcv == rcv_of(receiver),
                    decreases f.args@.len() - i,
                {
                    let ghost tail = argsd.skip(i as int);
                    proof {
                        assert(tail[0] == argsd[i as int]);
                        assert(tail.drop_first() =~= argsd.skip(i as int + 1));
                    }
                    match resolve_ref(receiver, fields, &f.args[i]) {
                        Err(e) => {
                            return Err(e);
                        },
                        Ok(x) => {
                            let ghost pre = xs.deep_view();
                            let ghost xv = x@;
                            xs.push(x);
                            proof {
                                assert(xs.deep_view() =~= pre.push(xv));
                                if s_resolve_args(rcv, fields.deep_view(), argsd.skip(i as int + 1))
                                    is Ok {
                                    let rest = s_resolve_args(
                                        rcv,
                                        fields.deep_view(),
                                        argsd.skip(i as int + 1),
                                    )->Ok_0;
                                    assert(pre + (seq![xv] + rest) =~= xs.deep_view() + rest);
                                }
                            }
                        },
                    }
                    i = i + 1;
                }
                proof {
                    assert(argsd.skip(f.args@.len() as int) =~= Seq::<FieldRefV>::empty());
                    assert(xs.deep_view() + Seq::<Seq<char>>::empty() =~= xs.deep_view());
                }
                Ok(ResolvedDescription { format: f.format.clone(), args: xs })
            },
        }
    }

    /// Resolves against the fields of the described declaration itself,
    /// with every expression reading a field of `ident`.
    pub fn resolve_from_inst<T: DeepView>(&self, fields: &Fields<T>, ident: &str) -> (res:
        FmResult<ResolvedDescription>)
        ensures
            res_dv(res) == s_resolve_desc(
                Some(ident@),
                fields.deep_view(),
                self.deep_view(),
            ),
    {
        self.resolve(Some(ident), fields)
    }

    /// Resolves against the fields of one variant, with every expression
    /// naming the local binding of a destructured field.
    pub fn resolve_from_variant<T: DeepView>(&self, fields: &Fields<T>) -> (res: FmResult<
        ResolvedDescription,
    >)
        ensures
            res_dv(res) == s_resolve_desc(
                None::<Seq<char>>,
                fields.deep_view(),
                self.deep_view(),
            ),
    {
        self.resolve(None, fields)
    }
}

} // verus!

