//! The generated discriminant ("kind") model.
//!
//! For a struct there is a single case; for an enum, one case per variant.
//! Each case keeps exactly the fields marked `include_in_kind`, in
//! declaration order, with their names, positions and types.  The whole
//! discriminant derives a trivially-duplicable marker exactly when every
//! included field, across all cases, uses the direct duplication strategy.

use vstd::prelude::*;
use crate::fields::{Fields, FieldsV, NamedField, NamedFieldV, IndexedField, IndexedFieldV};
use crate::model::{CopyMethod, ErrorField, ErrorFieldV, ErrorType, ErrorData, ErrorDataV};
use crate::visibility::{Visibility, VisibilityV, inherited, s_inherited};

verus! {

/// The named fields a case keeps, in order.
pub open spec fn s_included_named(fs: Seq<NamedFieldV<ErrorFieldV>>) -> Seq<
    NamedFieldV<ErrorFieldV>,
>
    decreases fs.len(),
{
    if fs.len() == 0 {
        Seq::empty()
    } else {
        let rest = s_included_named(fs.drop_first());
        if fs[0].value.include_in_kind {
            seq![fs[0]] + rest
        } else {
            rest
        }
    }
}

/// The positional fields a case keeps, in order.
pub open spec fn s_included_indexed(fs: Seq<IndexedFieldV<ErrorFieldV>>) -> Seq<
    IndexedFieldV<ErrorFieldV>,
>
    decreases fs.len(),
{
    if fs.len() == 0 {
        Seq::empty()
    } else {
        let rest = s_included_indexed(fs.drop_first());
        if fs[0].value.include_in_kind {
            seq![fs[0]] + rest
        } else {
            rest
        }
    }
}

/// The fields a case keeps: exactly those marked `include_in_kind`, in
/// order, names, positions and types unchanged.
pub open spec fn s_included(fields: FieldsV<ErrorFieldV>) -> FieldsV<ErrorFieldV> {
    match fields {
        FieldsV::Unit => FieldsV::Unit,
        FieldsV::Named(fs) => FieldsV::Named(s_included_named(fs)),
        FieldsV::Unnamed(fs) => FieldsV::Unnamed(s_included_indexed(fs)),
    }
}

/// Whether every included field of a case uses the direct strategy.
pub open spec fn s_case_is_copy(included: FieldsV<ErrorFieldV>) -> bool {
    match included {
        FieldsV::Unit => true,
        FieldsV::Named(fs) => forall|i: int|
            0 <= i < fs.len() ==> (#[trigger] fs[i]).value.method == CopyMethod::Copy,
        FieldsV::Unnamed(fs) => forall|i: int|
            0 <= i < fs.len() ==> (#[trigger] fs[i]).value.method == CopyMethod::Copy,
    }
}

/// One discriminant case: the included fields, next to the full field list
/// of the source case.
pub struct ErrorKind {
    pub included_fields: Fields<ErrorField>,
    pub all_fields: Fields<ErrorField>,
}

/// Mathematical image of [`ErrorKind`].
pub struct ErrorKindV {
    pub included_fields: FieldsV<ErrorFieldV>,
    pub all_fields: FieldsV<ErrorFieldV>,
}

impl DeepView for ErrorKind {
    type V = ErrorKindV;

    open spec fn deep_view(&self) -> ErrorKindV {
        ErrorKindV {
            included_fields: self.included_fields.deep_view(),
            all_fields: self.all_fields.deep_view(),
        }
    }
}

/// An exact copy of a field, with a contract.
fn duplicate_field(f: &ErrorField) -> (r: ErrorField)
    ensures
        r.deep_view() == f.deep_view(),
{
    ErrorField { ty: f.ty.clone(), include_in_kind: f.include_in_kind, method: f.method }
}

/// An exact copy of a field shape, with a contract.
pub fn duplicate_fields(fields: &Fields<ErrorField>) -> (r: Fields<ErrorField>)
    ensures
        r.deep_view() == fields.deep_view(),
{
    match fields {
        Fields::Unit => Fields::Unit,
        Fields::Named(fs) => {
            let mut out: Vec<NamedField<ErrorField>> = Vec::new();
            let mut i: usize = 0;
            while i < fs.len()
                invariant
                    0 <= i <= fs@.len(),
                    out@.len() == i as int,
                    forall|k: int|
                        0 <= k < i as int ==> (#[trigger] out@[k]).deep_view()
                            == fs@[k].deep_view(),
                decreases fs@.len() - i,
            {
                out.push(NamedField { name: fs[i].name.clone(), value: duplicate_field(&fs[i].value) });
                i = i + 1;
            }
            proof {
                assert(out.deep_view() =~= fs.deep_view());
            }
            Fields::Named(out)
        },
        Fields::Unnamed(fs) => {
            let mut out: Vec<IndexedField<ErrorField>> = Vec::new();
            let mut i: usize = 0;
            while i < fs.len()
                invariant
                    0 <= i <= fs@.len(),
                    out@.len() == i as int,
                    forall|k: int|
                        0 <= k < i as int ==> (#[trigger] out@[k]).deep_view()
                            == fs@[k].deep_view(),
                decreases fs@.len() - i,
            {
                out.push(IndexedField { index: fs[i].index, value: duplicate_field(&fs[i].value) });
                i = i + 1;
            }
            proof {
                assert(out.deep_view() =~= fs.deep_view());
            }
            Fields::Unnamed(out)
        },
    }
}

impl ErrorKind {
    /// Builds one discriminant case: keeps exactly the included fields, in
    /// order, and the full field list beside them.
    pub fn new(fields: &Fields<ErrorField>) -> (r: ErrorKind)
        ensures
            r.deep_view().included_fields == s_included(fields.deep_view()),
            r.deep_view().all_fields == fields.deep_view(),
    {
        let included_fields = match fields {
            Fields::Unit => Fields::Unit,
            Fields::Named(fs) => {
                let ghost fsd = fs.deep_view();
                let mut out: Vec<NamedField<ErrorField>> = Vec::new();
                let mut i: usize = 0;
                proof {
                    assert(fsd.skip(0) =~= fsd);
                }
                while i < fs.len()
                    invariant
                        0 <= i <= fs@.len(),
                        fs@.len() == fsd.len(),
                        fsd == fs.deep_view(),
                        s_included_named(fsd) == out.deep_view() + s_included_named(
                            fsd.skip(i as int),
                        ),
                    decreases fs@.len() - i,
                {
                    let ghost tail = fsd.skip(i as int);
                    let ghost pre = out.deep_view();
                    proof {
                        assert(tail[0] == fsd[i as int]);
                        assert(tail.drop_first() =~= fsd.skip(i as int + 1));
                    }
                    if fs[i].value.include_in_kind {
                        out.push(
                            NamedField {
                                name: fs[i].name.clone(),
                                value: duplicate_field(&fs[i].value),
                            },
                        );
                        proof {
                            assert(out.deep_view() =~= pre.push(fsd[i as int]));
                            assert(pre + (seq![fsd[i as int]] + s_included_named(
                                fsd.skip(i as int + 1),
                            )) =~= out.deep_view() + s_included_named(fsd.skip(i as int + 1)));
                        }
                    }
                    i = i + 1;
                }
                proof {
                    assert(fsd.skip(fs@.len() as int) =~= Seq::<NamedFieldV<ErrorFieldV>>::empty());
                    assert(out.deep_view() + Seq::<NamedFieldV<ErrorFieldV>>::empty()
                        =~= out.deep_view());
                }
                Fields::Named(out)
            },
            Fields::Unnamed(fs) => {
                let ghost fsd = fs.deep_view();
                let mut out: Vec<IndexedField<ErrorField>> = Vec::new();
                let mut i: usize = 0;
                proof {
                    assert(fsd.skip(0) =~= fsd);
                }
                while i < fs.len()
                    invariant
                        0 <= i <= fs@.len(),
                        fs@.len() == fsd.len(),
                        fsd == fs.deep_view(),
                        s_included_indexed(fsd) == out.deep_view() + s_included_indexed(
                            fsd.skip(i as int),
                        ),
                    decreases fs@.len() - i,
                {
                    let ghost tail = fsd.skip(i as int);
                    let ghost pre = out.deep_view();
                    proof {
                        assert(tail[0] == fsd[i as int]);
                        assert(tail.drop_first() =~= fsd.skip(i as int + 1));
                    }
                    if fs[i].value.include_in_kind {
                        out.push(
                            IndexedField {
                                index: fs[i].index,
                                value: duplicate_field(&fs[i].value),
                            },
                        );
                        proof {
                            assert(out.deep_view() =~= pre.push(fsd[i as int]));
                            assert(pre + (seq![fsd[i as int]] + s_included_indexed(
                                fsd.skip(i as int + 1),
                            )) =~= out.deep_view() + s_included_indexed(fsd.skip(i as int + 1)));
                        }
                    }
                    i = i + 1;
                }
                proof {
                    assert(fsd.skip(fs@.len() as int)
                        =~= Seq::<IndexedFieldV<ErrorFieldV>>::empty());
                    assert(out.deep_view() + Seq::<IndexedFieldV<ErrorFieldV>>::empty()
                        =~= out.deep_view());
                }
                Fields::Unnamed(out)
            },
        };
        ErrorKind { included_fields, all_fields: duplicate_fields(fields) }
    }

    /// Whether every included field of this case uses the direct strategy.
    pub fn is_copy(&self) -> (r: bool)
        ensures
            r == s_case_is_copy(self.deep_view().included_fields),
    {
        match &self.included_fields {
            Fields::Unit => true,
            Fields::Named(fs) => {
                let mut i: usize = 0;
                while i < fs.len()
                    invariant
                        0 <= i <= fs@.len(),
                        self.deep_view().included_fields == FieldsV::<ErrorFieldV>::Named(
                            fs.deep_view(),
                        ),
                        forall|k: int|
                            0 <= k < i as int ==> (#[trigger] fs.deep_view()[k]).value.method
                                == CopyMethod::Copy,
                    decreases fs@.len() - i,
                {
                    if !fs[i].value.is_copy() {
                        proof {
                            assert(fs.deep_view()[i as int].value.method != CopyMethod::Copy);
                        }
                        return false;
                    }
                    i = i + 1;
                }
                true
            },
            Fields::Unnamed(fs) => {
                let mut i: usize = 0;
                while i < fs.len()
                    invariant
                        0 <= i <= fs@.len(),
                        self.deep_view().included_fields == FieldsV::<ErrorFieldV>::Unnamed(
                            fs.deep_view(),
                        ),
                        forall|k: int|
                            0 <= k < i as int ==> (#[trigger] fs.deep_view()[k]).value.method
                                == CopyMethod::Copy,
                    decreases fs@.len() - i,
                {
                    if !fs[i].value.is_copy() {
                        proof {
                            assert(fs.deep_view()[i as int].value.method != CopyMethod::Copy);
                        }
                        return false;
                    }
                    i = i + 1;
                }
                true
            },
        }
    }
}

/// The whole discriminant model: one case for a struct, one per variant
/// for an enum, with the stepped-in visibility and the source type's name.
pub enum ErrorKinds {
    Enum { vis: Visibility, ident: String, variants: Vec<NamedField<ErrorKind>> },
    Struct { vis: Visibility, ident: String, kind: ErrorKind },
}

/// Mathematical image of [`ErrorKinds`].
pub enum ErrorKindsV {
    Enum { vis: VisibilityV, ident: Seq<char>, variants: Seq<NamedFieldV<ErrorKindV>> },
    Struct { vis: VisibilityV, ident: Seq<char>, kind: ErrorKindV },
}

impl DeepView for ErrorKinds {
    type V = ErrorKindsV;

    open spec fn deep_view(&self) -> ErrorKindsV {
        match self {
            ErrorKinds::Enum { vis, ident, variants } => ErrorKindsV::Enum {
                vis: vis.deep_view(),
                ident: ident@,
                variants: variants.deep_view(),
            },
            ErrorKinds::Struct { vis, ident, kind } => ErrorKindsV::Struct {
                vis: vis.deep_view(),
                ident: ident@,
                kind: kind.deep_view(),
            },
        }
    }
}

/// Whether the whole discriminant may derive the trivially-duplicable
/// marker: every included field, across all cases, uses the direct
/// strategy.
pub open spec fn s_kinds_is_copy(ks: ErrorKindsV) -> bool {
    match ks {
        ErrorKindsV::Struct { kind, .. } => s_case_is_copy(kind.included_fields),
        ErrorKindsV::Enum { variants, .. } => forall|i: int|
            0 <= i < variants.len() ==> s_case_is_copy(
                (#[trigger] variants[i]).value.included_fields,
            ),
    }
}

impl ErrorKinds {
    /// Whether the discriminant derives the trivially-duplicable marker.
    pub fn is_copy(&self) -> (r: bool)
        ensures
            r == s_kinds_is_copy(self.deep_view()),
    {
        match self {
            ErrorKinds::Struct { kind, .. } => kind.is_copy(),
            ErrorKinds::Enum { variants, .. } => {
                let mut i: usize = 0;
                while i < variants.len()
                    invariant
                        0 <= i <= variants@.len(),
                        self.deep_view() matches ErrorKindsV::Enum { variants: vsd, .. }
                            && vsd == variants.deep_view(),
                        forall|k: int|
                            0 <= k < i as int ==> s_case_is_copy(
                                (#[trigger] variants.deep_view()[k]).value.included_fields,
                            ),
                    decreases variants@.len() - i,
                {
                    if !variants[i].value.is_copy() {
                        proof {
                            assert(!s_case_is_copy(
                                variants.deep_view()[i as int].value.included_fields,
                            ));
                        }
                        return false;
                    }
                    i = i + 1;
                }
                true
            },
        }
    }
}

/// Builds the discriminant model for a whole error type.
pub fn for_type(error_type: &ErrorType) -> (r: ErrorKinds)
    requires
        error_type.vis.deep_view().wf(),
    ensures
        r.deep_view() == s_for_type(error_type.deep_view()),
{
    match &error_type.data {
        ErrorData::Struct(error_struct) => ErrorKinds::Struct {
            vis: inherited(&error_type.vis, 1),
            ident: error_type.ident.clone(),
            kind: ErrorKind::new(&error_struct.fields),
        },
        ErrorData::Enum(variants) => {
            let ghost vsd = variants.deep_view();
            let mut out: Vec<NamedField<ErrorKind>> = Vec::new();
            let mut i: usize = 0;
            while i < variants.len()
                invariant
                    0 <= i <= variants@.len(),
                    variants@.len() == vsd.len(),
                    vsd == variants.deep_view(),
                    out@.len() == i as int,
                    forall|k: int|
                        0 <= k < i as int ==> (#[trigger] out.deep_view()[k]) == (NamedFieldV {
                            name: vsd[k].ident,
                            value: ErrorKindV {
                                included_fields: s_included(vsd[k].fields),
                                all_fields: vsd[k].fields,
                            },
                        }),
                decreases variants@.len() - i,
            {
                let ghost pre = out.deep_view();
                out.push(
                    NamedField {
                        name: variants[i].ident.clone(),
                        value: ErrorKind::new(&variants[i].fields),
                    },
                );
                proof {
                    assert(out.deep_view() =~= pre.push(out@[i as int].deep_view()));
                    assert(out.deep_view()[i as int] == (NamedFieldV {
                        name: vsd[i as int].ident,
                        value: ErrorKindV {
                            included_fields: s_included(vsd[i as int].fields),
                            all_fields: vsd[i as int].fields,
                        },
                    }));
                }
                i = i + 1;
            }
            proof {
                assert(out.deep_view() =~= Seq::new(
                    vsd.len(),
                    |k: int| NamedFieldV {
                        name: vsd[k].ident,
                        value: ErrorKindV {
                            included_fields: s_included(vsd[k].fields),
                            all_fields: vsd[k].fields,
                        },
                    },
                ));
            }
            ErrorKinds::Enum {
                vis: inherited(&error_type.vis, 1),
                ident: error_type.ident.clone(),
                variants: out,
            }
        },
    }
}

/// What the discriminant model of a whole error type is.
pub open spec fn s_for_type(ty: crate::model::ErrorTypeV) -> ErrorKindsV {
    match ty.data {
        ErrorDataV::Struct(s) => ErrorKindsV::Struct {
            vis: s_inherited(ty.vis, 1),
            ident: ty.ident,
            kind: ErrorKindV { included_fields: s_included(s.fields), all_fields: s.fields },
        },
        ErrorDataV::Enum(vs) => ErrorKindsV::Enum {
            vis: s_inherited(ty.vis, 1),
            ident: ty.ident,
            variants: Seq::new(
                vs.len(),
                |k: int| NamedFieldV {
                    name: vs[k].ident,
                    value: ErrorKindV {
                        included_fields: s_included(vs[k].fields),
                        all_fields: vs[k].fields,
                    },
                },
            ),
        },
    }
}

/// A discriminant case keeps exactly the included fields: every kept field
/// is marked, every marked field is kept, and names, positions, types and
/// strategies pass through unchanged.  (Order is preserved by definition:
/// the kept sequence is the marked subsequence of the source.)
pub proof fn lemma_kind_keeps_exactly_included(fields: FieldsV<ErrorFieldV>)
    ensures
        match (fields, s_included(fields)) {
            (FieldsV::Named(fs), FieldsV::Named(inc)) => {
                &&& inc.len() <= fs.len()
                &&& forall|j: int|
                    0 <= j < inc.len() ==> (#[trigger] inc[j]).value.include_in_kind
                &&& forall|i: int|
                    0 <= i < fs.len() && (#[trigger] fs[i]).value.include_in_kind ==> inc.contains(
                        fs[i],
                    )
                &&& forall|j: int| 0 <= j < inc.len() ==> fs.contains(#[trigger] inc[j])
            },
            (FieldsV::Unnamed(fs), FieldsV::Unnamed(inc)) => {
                &&& inc.len() <= fs.len()
                &&& forall|j: int|
                    0 <= j < inc.len() ==> (#[trigger] inc[j]).value.include_in_kind
                &&& forall|i: int|
                    0 <= i < fs.len() && (#[trigger] fs[i]).value.include_in_kind ==> inc.contains(
                        fs[i],
                    )
                &&& forall|j: int| 0 <= j < inc.len() ==> fs.contains(#[trigger] inc[j])
            },
            (FieldsV::Unit, FieldsV::Unit) => true,
            _ => false,
        },
{
    match fields {
        FieldsV::Named(fs) => {
            lemma_included_named_exact(fs);
        },
        FieldsV::Unnamed(fs) => {
            lemma_included_indexed_exact(fs);
        },
        FieldsV::Unit => {},
    }
}

/// The kept named fields are exactly the marked ones.
pub proof fn lemma_included_named_exact(fs: Seq<NamedFieldV<ErrorFieldV>>)
    ensures
        s_included_named(fs).len() <= fs.len(),
        forall|j: int|
            0 <= j < s_included_named(fs).len() ==> (#[trigger] s_included_named(fs)[j]).value.include_in_kind,
        forall|i: int|
            0 <= i < fs.len() && (#[trigger] fs[i]).value.include_in_kind ==> s_included_named(
                fs,
            ).contains(fs[i]),
        forall|j: int|
            0 <= j < s_included_named(fs).len() ==> fs.contains(#[trigger] s_included_named(fs)[j]),
    decreases fs.len(),
{
    if fs.len() > 0 {
        lemma_included_named_exact(fs.drop_first());
        let rest = s_included_named(fs.drop_first());
        let whole = s_included_named(fs);
        assert forall|i: int|
            0 <= i < fs.len() && (#[trigger] fs[i]).value.include_in_kind implies whole.contains(
            fs[i],
        ) by {
            if i == 0 {
                assert(whole[0] == fs[0]);
            } else {
                assert(fs.drop_first()[i - 1] == fs[i]);
                assert(rest.contains(fs[i]));
                let w = choose|w: int| 0 <= w < rest.len() && rest[w] == fs[i];
                if fs[0].value.include_in_kind {
                    assert(whole[w + 1] == rest[w]);
                } else {
                    assert(whole[w] == rest[w]);
                }
            }
        }
        assert forall|j: int| 0 <= j < whole.len() implies fs.contains(#[trigger] whole[j]) by {
            if fs[0].value.include_in_kind {
                if j == 0 {
                    assert(whole[0] == fs[0]);
                    assert(fs.contains(fs[0]));
                } else {
                    assert(whole[j] == rest[j - 1]);
                    assert(fs.drop_first().contains(rest[j - 1]));
                    let w = choose|w: int|
                        0 <= w < fs.drop_first().len() && fs.drop_first()[w] == rest[j - 1];
                    assert(fs[w + 1] == fs.drop_first()[w]);
                }
            } else {
                assert(whole[j] == rest[j]);
                assert(fs.drop_first().contains(rest[j]));
                let w = choose|w: int|
                    0 <= w < fs.drop_first().len() && fs.drop_first()[w] == rest[j];
                assert(fs[w + 1] == fs.drop_first()[w]);
            }
        }
    }
}

/// The kept positional fields are exactly the marked ones.
pub proof fn lemma_included_indexed_exact(fs: Seq<IndexedFieldV<ErrorFieldV>>)
    ensures
        s_included_indexed(fs).len() <= fs.len(),
        forall|j: int|
            0 <= j < s_included_indexed(fs).len() ==> (#[trigger] s_included_indexed(fs)[j]).value.include_in_kind,
        forall|i: int|
            0 <= i < fs.len() && (#[trigger] fs[i]).value.include_in_kind ==> s_included_indexed(
                fs,
            ).contains(fs[i]),
        forall|j: int|
            0 <= j < s_included_indexed(fs).len() ==> fs.contains(#[trigger] s_included_indexed(fs)[j]),
    decreases fs.len(),
{
    if fs.len() > 0 {
        lemma_included_indexed_exact(fs.drop_first());
        let rest = s_included_indexed(fs.drop_first());
        let whole = s_included_indexed(fs);
        assert forall|i: int|
            0 <= i < fs.len() && (#[trigger] fs[i]).value.include_in_kind implies whole.contains(
            fs[i],
        ) by {
            if i == 0 {
                assert(whole[0] == fs[0]);
            } else {
                assert(fs.drop_first()[i - 1] == fs[i]);
                assert(rest.contains(fs[i]));
                let w = choose|w: int| 0 <= w < rest.len() && rest[w] == fs[i];
                if fs[0].value.include_in_kind {
                    assert(whole[w + 1] == rest[w]);
                } else {
                    assert(whole[w] == rest[w]);
                }
            }
        }
        assert forall|j: int| 0 <= j < whole.len() implies fs.contains(#[trigger] whole[j]) by {
            if fs[0].value.include_in_kind {
                if j == 0 {
                    assert(whole[0] == fs[0]);
                    assert(fs.contains(fs[0]));
                } else {
                    assert(whole[j] == rest[j - 1]);
                    assert(fs.drop_first().contains(rest[j - 1]));
                    let w = choose|w: int|
                        0 <= w < fs.drop_first().len() && fs.drop_first()[w] == rest[j - 1];
                    assert(fs[w + 1] == fs.drop_first()[w]);
                }
            } else {
                assert(whole[j] == rest[j]);
                assert(fs.drop_first().contains(rest[j]));
                let w = choose|w: int|
                    0 <= w < fs.drop_first().len() && fs.drop_first()[w] == rest[j];
                assert(fs[w + 1] == fs.drop_first()[w]);
            }
        }
    }
}

/// The trivially-duplicable marker is present exactly when every included
/// field across all cases uses the direct strategy; in particular, one
/// included field using the explicit-duplication strategy in any case
/// removes it.
pub proof fn lemma_copy_marker(ks: ErrorKindsV, case: int, j: int)
    ensures
        ks matches ErrorKindsV::Struct { kind, .. } ==> (s_kinds_is_copy(ks) <==> s_case_is_copy(
            kind.included_fields,
        )),
        (ks matches ErrorKindsV::Enum { variants, .. } && 0 <= case < variants.len() && (
        variants[case].value.included_fields matches FieldsV::Named(inc) && 0 <= j < inc.len()
            && inc[j].value.method == CopyMethod::Clone)) ==> !s_kinds_is_copy(ks),
        (ks matches ErrorKindsV::Enum { variants, .. } && 0 <= case < variants.len() && (
        variants[case].value.included_fields matches FieldsV::Unnamed(inc) && 0 <= j < inc.len()
            && inc[j].value.method == CopyMethod::Clone)) ==> !s_kinds_is_copy(ks),
        (ks matches ErrorKindsV::Struct { kind, .. } && (
        kind.included_fields matches FieldsV::Named(inc) && 0 <= j < inc.len()
            && inc[j].value.method == CopyMethod::Clone)) ==> !s_kinds_is_copy(ks),
{
}

} // verus!
