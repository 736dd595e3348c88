//! Classification: mapping a full instance to its discriminant value.
//!
//! An instance is modelled as its case (for an enum) and the rendered
//! values of its fields.  Classification constructs the discriminant value
//! of the matching case, extracting exactly the included fields and leaving
//! the others out.  At this value level the two duplication strategies both
//! take the field's value; the declared strategy is honoured uniformly and
//! its distinction lives in the discriminant artifact and its marker.

use vstd::prelude::*;
use crate::error::{Error, ErrorV, FmResult, res_dv};
use crate::fields::{Fields, FieldsV, NamedField, NamedFieldV, IndexedField, IndexedFieldV};
use crate::kinds::{ErrorKind, ErrorKindV, ErrorKinds, ErrorKindsV};
use crate::model::ErrorFieldV;

verus! {

/// A discriminant value: the case it classifies into and the values of the
/// included fields.
pub struct KindValue {
    pub case: String,
    pub values: Fields<String>,
}

/// Mathematical image of [`KindValue`].
pub struct KindValueV {
    pub case: Seq<char>,
    pub values: FieldsV<Seq<char>>,
}

impl DeepView for KindValue {
    type V = KindValueV;

    open spec fn deep_view(&self) -> KindValueV {
        KindValueV { case: self.case@, values: self.values.deep_view() }
    }
}

/// The value of the named instance field, if present.
pub open spec fn s_named_value(vs: Seq<NamedFieldV<Seq<char>>>, name: Seq<char>) -> Option<
    Seq<char>,
>
    decreases vs.len(),
{
    if vs.len() == 0 {
        None
    } else if vs[0].name == name {
        Some(vs[0].value)
    } else {
        s_named_value(vs.drop_first(), name)
    }
}

/// The value of the instance field at the given position, if present.
pub open spec fn s_indexed_value(vs: Seq<IndexedFieldV<Seq<char>>>, index: usize) -> Option<
    Seq<char>,
>
    decreases vs.len(),
{
    if vs.len() == 0 {
        None
    } else if vs[0].index == index {
        Some(vs[0].value)
    } else {
        s_indexed_value(vs.drop_first(), index)
    }
}

/// What extracting the included named fields yields: one value per
/// included field, in order; a field the instance does not carry is
/// rejected.
pub open spec fn s_extract_named(
    inc: Seq<NamedFieldV<ErrorFieldV>>,
    vs: Seq<NamedFieldV<Seq<char>>>,
) -> Result<Seq<NamedFieldV<Seq<char>>>, ErrorV>
    decreases inc.len(),
{
    if inc.len() == 0 {
        Ok(Seq::empty())
    } else {
        match s_named_value(vs, inc[0].name) {
            None => Err(ErrorV::UnknownField(inc[0].name)),
            Some(v) => match s_extract_named(inc.drop_first(), vs) {
                Err(e) => Err(e),
                Ok(rest) => Ok(seq![NamedFieldV { name: inc[0].name, value: v }] + rest),
            },
        }
    }
}

/// What extracting the included positional fields yields.
pub open spec fn s_extract_indexed(
    inc: Seq<IndexedFieldV<ErrorFieldV>>,
    vs: Seq<IndexedFieldV<Seq<char>>>,
) -> Result<Seq<IndexedFieldV<Seq<char>>>, ErrorV>
    decreases inc.len(),
{
    if inc.len() == 0 {
        Ok(Seq::empty())
    } else {
        match s_indexed_value(vs, inc[0].index) {
            None => Err(ErrorV::UnknownField(crate::util::dec_str(inc[0].index as u64))),
            Some(v) => match s_extract_indexed(inc.drop_first(), vs) {
                Err(e) => Err(e),
                Ok(rest) => Ok(seq![IndexedFieldV { index: inc[0].index, value: v }] + rest),
            },
        }
    }
}

/// What extracting one case's included fields from an instance yields; the
/// instance's field shape must match the case's.
pub open spec fn s_extract(
    inc: FieldsV<ErrorFieldV>,
    values: FieldsV<Seq<char>>,
) -> Result<FieldsV<Seq<char>>, ErrorV> {
    match inc {
        FieldsV::Unit => Ok(FieldsV::Unit),
        FieldsV::Named(fs) => match values {
            FieldsV::Named(vs) => match s_extract_named(fs, vs) {
                Err(e) => Err(e),
                Ok(out) => Ok(FieldsV::Named(out)),
            },
            _ => Err(ErrorV::UnexpectedType("shape"@)),
        },
        FieldsV::Unnamed(fs) => match values {
            FieldsV::Unnamed(vs) => match s_extract_indexed(fs, vs) {
                Err(e) => Err(e),
                Ok(out) => Ok(FieldsV::Unnamed(out)),
            },
            _ => Err(ErrorV::UnexpectedType("shape"@)),
        },
    }
}

/// Looks a named instance field up.
fn named_value(vs: &Vec<NamedField<String>>, name: &String) -> (r: Option<String>)
    ensures
        match r {
            Some(v) => s_named_value(vs.deep_view(), name@) == Some(v@),
            None => s_named_value(vs.deep_view(), name@) is None,
        },
{
    let ghost vsd = vs.deep_view();
    let mut i: usize = 0;
    proof {
        assert(vsd.skip(0) =~= vsd);
    }
    while i < vs.len()
        invariant
            0 <= i <= vs@.len(),
            vs@.len() == vsd.len(),
            vsd == vs.deep_view(),
            s_named_value(vsd, name@) == s_named_value(vsd.skip(i as int), name@),
        decreases vs@.len() - i,
    {
        let ghost tail = vsd.skip(i as int);
        proof {
            assert(tail[0] == vsd[i as int]);
            assert(tail.drop_first() =~= vsd.skip(i as int + 1));
        }
        if crate::util::string_eq(&vs[i].name, name) {
            return Some(vs[i].value.clone());
        }
        i = i + 1;
    }
    proof {
        assert(vsd.skip(vs@.len() as int) =~= Seq::<NamedFieldV<Seq<char>>>::empty());
    }
    None
}

/// Looks a positional instance field up.
fn indexed_value(vs: &Vec<IndexedField<String>>, index: usize) -> (r: Option<String>)
    ensures
        match r {
            Some(v) => s_indexed_value(vs.deep_view(), index) == Some(v@),
            None => s_indexed_value(vs.deep_view(), index) is None,
        },
{
    let ghost vsd = vs.deep_view();
    let mut i: usize = 0;
    proof {
        assert(vsd.skip(0) =~= vsd);
    }
    while i < vs.len()
        invariant
            0 <= i <= vs@.len(),
            vs@.len() == vsd.len(),
            vsd == vs.deep_view(),
            s_indexed_value(vsd, index) == s_indexed_value(vsd.skip(i as int), index),
        decreases vs@.len() - i,
    {
        let ghost tail = vsd.skip(i as int);
        proof {
            assert(tail[0] == vsd[i as int]);
            assert(tail.drop_first() =~= vsd.skip(i as int + 1));
        }
        if vs[i].index == index {
            return Some(vs[i].value.clone());
        }
        i = i + 1;
    }
    proof {
        assert(vsd.skip(vs@.len() as int) =~= Seq::<IndexedFieldV<Seq<char>>>::empty());
    }
    None
}

/// Extracts one case's included fields from an instance's values.
pub fn extract_kind_values(
    kind: &ErrorKind,
    values: &Fields<String>,
) -> (r: FmResult<Fields<String>>)
    ensures
        res_dv(r) == s_extract(kind.deep_view().included_fields, values.deep_view()),
{
    match &kind.included_fields {
        Fields::Unit => Ok(Fields::Unit),
        Fields::Named(fs) => match values {
            Fields::Named(vs) => {
                let ghost fsd = fs.deep_view();
                let mut out: Vec<NamedField<String>> = Vec::new();
                let mut i: usize = 0;
                proof {
                    assert(fsd.skip(0) =~= fsd);
                }
                while i < fs.len()
                    invariant
                        0 <= i <= fs@.len(),
                        fs@.len() == fsd.len(),
                        fsd == fs.deep_view(),
                        kind.deep_view().included_fields == FieldsV::<ErrorFieldV>::Named(fsd),
                        values.deep_view() == FieldsV::<Seq<char>>::Named(vs.deep_view()),
                        s_extract_named(fsd, vs.deep_view()) == match s_extract_named(
                            fsd.skip(i as int),
                            vs.deep_view(),
                        ) {
                            Err(e) => Err::<Seq<NamedFieldV<Seq<char>>>, ErrorV>(e),
                            Ok(rest) => Ok::<Seq<NamedFieldV<Seq<char>>>, ErrorV>(
                                out.deep_view() + rest,
                            ),
                        },
                    decreases fs@.len() - i,
                {
                    let ghost tail = fsd.skip(i as int);
                    proof {
                        assert(tail[0] == fsd[i as int]);
                        assert(tail.drop_first() =~= fsd.skip(i as int + 1));
                    }
                    match named_value(vs, &fs[i].name) {
                        None => {
                            return Err(Error::unknown_field(fs[i].name.as_str()));
                        },
                        Some(v) => {
                            let ghost pre = out.deep_view();
                            let entry = NamedField { name: fs[i].name.clone(), value: v };
                            let ghost entryd = entry.deep_view();
                            out.push(entry);
                            proof {
                                assert(out.deep_view() =~= pre.push(entryd));
                                if s_extract_named(fsd.skip(i as int + 1), vs.deep_view()) is Ok {
                                    let rest = s_extract_named(
                                        fsd.skip(i as int + 1),
                                        vs.deep_view(),
                                    )->Ok_0;
                                    assert(pre + (seq![entryd] + rest) =~= out.deep_view() + rest);
                                }
                            }
                        },
                    }
                    i = i + 1;
                }
                proof {
                    assert(fsd.skip(fs@.len() as int) =~= Seq::<NamedFieldV<ErrorFieldV>>::empty());
                    assert(out.deep_view() + Seq::<NamedFieldV<Seq<char>>>::empty()
                        =~= out.deep_view());
                }
                Ok(Fields::Named(out))
            },
            _ => Err(Error::unexpected_type("shape")),
        },
        Fields::Unnamed(fs) => match values {
            Fields::Unnamed(vs) => {
                let ghost fsd = fs.deep_view();
                let mut out: Vec<IndexedField<String>> = Vec::new();
                let mut i: usize = 0;
                proof {
                    assert(fsd.skip(0) =~= fsd);
                }
                while i < fs.len()
                    invariant
                        0 <= i <= fs@.len(),
                        fs@.len() == fsd.len(),
                        fsd == fs.deep_view(),
                        kind.deep_view().included_fields == FieldsV::<ErrorFieldV>::Unnamed(fsd),
                        values.deep_view() == FieldsV::<Seq<char>>::Unnamed(vs.deep_view()),
                        s_extract_indexed(fsd, vs.deep_view()) == match s_extract_indexed(
                            fsd.skip(i as int),
                            vs.deep_view(),
                        ) {
                            Err(e) => Err::<Seq<IndexedFieldV<Seq<char>>>, ErrorV>(e),
                            Ok(rest) => Ok::<Seq<IndexedFieldV<Seq<char>>>, ErrorV>(
                                out.deep_view() + rest,
                            ),
                        },
                    decreases fs@.len() - i,
                {
                    let ghost tail = fsd.skip(i as int);
                    proof {
                        assert(tail[0] == fsd[i as int]);
                        assert(tail.drop_first() =~= fsd.skip(i as int + 1));
                    }
                    match indexed_value(vs, fs[i].index) {
                        None => {
                            return Err(
                                Error::UnknownField(crate::util::u64_to_string(fs[i].index as u64)),
                            );
                        },
                        Some(v) => {
                            let ghost pre = out.deep_view();
                            let entry = IndexedField { index: fs[i].index, value: v };
                            let ghost entryd = entry.deep_view();
                            out.push(entry);
                            proof {
                                assert(out.deep_view() =~= pre.push(entryd));
                                if s_extract_indexed(fsd.skip(i as int + 1), vs.deep_view())
                                    is Ok {
                                    let rest = s_extract_indexed(
                                        fsd.skip(i as int + 1),
                                        vs.deep_view(),
                                    )->Ok_0;
                                    assert(pre + (seq![entryd] + rest) =~= out.deep_view() + rest);
                                }
                            }
                        },
                    }
                    i = i + 1;
                }
                proof {
                    assert(fsd.skip(fs@.len() as int)
                        =~= Seq::<IndexedFieldV<ErrorFieldV>>::empty());
                    assert(out.deep_view() + Seq::<IndexedFieldV<Seq<char>>>::empty()
                        =~= out.deep_view());
                }
                Ok(Fields::Unnamed(out))
            },
            _ => Err(Error::unexpected_type("shape")),
        },
    }
}

/// What classifying an instance yields: the discriminant value of the
/// matching case, carrying exactly the included fields' values; an enum
/// instance must name a known case.
pub open spec fn s_from_context(
    ks: ErrorKindsV,
    case: Option<Seq<char>>,
    values: FieldsV<Seq<char>>,
) -> Result<KindValueV, ErrorV> {
    match ks {
        ErrorKindsV::Struct { ident, kind, .. } => match s_extract(kind.included_fields, values) {
            Err(e) => Err(e),
            Ok(out) => Ok(KindValueV { case: ident, values: out }),
        },
        ErrorKindsV::Enum { variants, .. } => match case {
            None => Err(ErrorV::MissingField("variant"@)),
            Some(c) => match s_case_kind(variants, c) {
                None => Err(ErrorV::UnknownField(c)),
                Some(kind) => match s_extract(kind.included_fields, values) {
                    Err(e) => Err(e),
                    Ok(out) => Ok(KindValueV { case: c, values: out }),
                },
            },
        },
    }
}

/// The case of the given name, if any.
pub open spec fn s_case_kind(variants: Seq<NamedFieldV<ErrorKindV>>, name: Seq<char>) -> Option<
    ErrorKindV,
>
    decreases variants.len(),
{
    if variants.len() == 0 {
        None
    } else if variants[0].name == name {
        Some(variants[0].value)
    } else {
        s_case_kind(variants.drop_first(), name)
    }
}

/// Classifies an instance: constructs the discriminant value of its case,
/// extracting exactly the included fields.
pub fn from_context(
    kinds: &ErrorKinds,
    case: Option<&str>,
    values: &Fields<String>,
) -> (r: FmResult<KindValue>)
    ensures
        res_dv(r) == s_from_context(
            kinds.deep_view(),
            match case {
                Some(c) => Some(c@),
                None => None,
            },
            values.deep_view(),
        ),
{
    match kinds {
        ErrorKinds::Struct { ident, kind, .. } => match extract_kind_values(kind, values) {
            Err(e) => Err(e),
            Ok(out) => Ok(KindValue { case: ident.clone(), values: out }),
        },
        ErrorKinds::Enum { variants, .. } => match case {
            None => Err(Error::missing_field("variant")),
            Some(c) => {
                let ghost vsd = variants.deep_view();
                let mut i: usize = 0;
                proof {
                    assert(vsd.skip(0) =~= vsd);
                }
                while i < variants.len()
                    invariant
                        0 <= i <= variants@.len(),
                        variants@.len() == vsd.len(),
                        vsd == variants.deep_view(),
                        kinds.deep_view() matches ErrorKindsV::Enum { variants: vv, .. } && vv
                            == vsd,
                        case matches Some(cc) && cc@ == c@,
                        s_case_kind(vsd, c@) == s_case_kind(vsd.skip(i as int), c@),
                    decreases variants@.len() - i,
                {
                    let ghost tail = vsd.skip(i as int);
                    proof {
                        assert(tail[0] == vsd[i as int]);
                        assert(tail.drop_first() =~= vsd.skip(i as int + 1));
                    }
                    if crate::util::string_eq_str(&variants[i].name, c) {
                        return match extract_kind_values(&variants[i].value, values) {
                            Err(e) => Err(e),
                            Ok(out) => Ok(KindValue { case: c.to_owned(), values: out }),
                        };
                    }
                    i = i + 1;
                }
                proof {
                    assert(vsd.skip(variants@.len() as int)
                        =~= Seq::<NamedFieldV<ErrorKindV>>::empty());
                }
                Err(Error::unknown_field(c))
            },
        },
    }
}

} // verus!
