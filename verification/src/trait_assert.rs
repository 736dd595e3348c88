//! The marker-trait obligations of a discriminant.
//!
//! Extracting an included field requires its type to implement the marker
//! trait of its duplication strategy (`Copy` for direct duplication,
//! `Clone` for an explicit call).  The generated code asserts each of these
//! obligations; this artifact lists them, one per included field, in case
//! and declaration order.

use vstd::prelude::*;
use crate::fields::FieldsV;
use crate::kinds::{ErrorKind, ErrorKindV, ErrorKinds, ErrorKindsV};
use crate::meta::{Path, PathV};
use crate::model::{ErrorFieldV, s_trait_path};

verus! {

/// One obligation: the named type must implement the trait at the path.
pub struct TraitAssertion {
    pub ty: String,
    pub trait_path: Path,
}

/// Mathematical image of [`TraitAssertion`].
pub struct TraitAssertionV {
    pub ty: Seq<char>,
    pub trait_path: PathV,
}

impl DeepView for TraitAssertion {
    type V = TraitAssertionV;

    open spec fn deep_view(&self) -> TraitAssertionV {
        TraitAssertionV { ty: self.ty@, trait_path: self.trait_path.deep_view() }
    }
}

/// The obligations of one case: one per included field, in order, each
/// pairing the field's type with its strategy's marker trait.
pub open spec fn s_case_assertions(included: FieldsV<ErrorFieldV>) -> Seq<TraitAssertionV> {
    match included {
        FieldsV::Unit => Seq::empty(),
        FieldsV::Named(fs) => Seq::new(
            fs.len(),
            |i: int| TraitAssertionV { ty: fs[i].value.ty, trait_path: s_trait_path(fs[i].value.method) },
        ),
        FieldsV::Unnamed(fs) => Seq::new(
            fs.len(),
            |i: int| TraitAssertionV { ty: fs[i].value.ty, trait_path: s_trait_path(fs[i].value.method) },
        ),
    }
}

/// Appends the obligations of one case.
pub fn assert_trait_impl(kind: &ErrorKind, out: &mut Vec<TraitAssertion>)
    ensures
        final(out).deep_view() == old(out).deep_view() + s_case_assertions(
            kind.deep_view().included_fields,
        ),
{
    let ghost base = old(out).deep_view();
    match &kind.included_fields {
        crate::fields::Fields::Unit => {
            proof {
                assert(out.deep_view() =~= base + s_case_assertions(
                    kind.deep_view().included_fields,
                ));
            }
        },
        crate::fields::Fields::Named(fs) => {
            let mut i: usize = 0;
            while i < fs.len()
                invariant
                    0 <= i <= fs@.len(),
                    kind.deep_view().included_fields == FieldsV::<ErrorFieldV>::Named(
                        fs.deep_view(),
                    ),
                    out.deep_view().len() == base.len() + i as int,
                    out.deep_view().take(base.len() as int) == base,
                    forall|k: int|
                        0 <= k < i as int ==> out.deep_view()[base.len() + k]
                            == (TraitAssertionV {
                            ty: fs.deep_view()[k].value.ty,
                            trait_path: s_trait_path(fs.deep_view()[k].value.method),
                        }),
                decreases fs@.len() - i,
            {
                let ghost pre = out.deep_view();
                out.push(
                    TraitAssertion {
                        ty: fs[i].value.ty.clone(),
                        trait_path: fs[i].value.method.trait_path(),
                    },
                );
                proof {
                    assert(out.deep_view() =~= pre.push(out@[pre.len() as int].deep_view()));
                    assert(out.deep_view().take(base.len() as int) =~= base);
                }
                i = i + 1;
            }
            proof {
                assert(out.deep_view() =~= base + s_case_assertions(
                    kind.deep_view().included_fields,
                ));
            }
        },
        crate::fields::Fields::Unnamed(fs) => {
            let mut i: usize = 0;
            while i < fs.len()
                invariant
                    0 <= i <= fs@.len(),
                    kind.deep_view().included_fields == FieldsV::<ErrorFieldV>::Unnamed(
                        fs.deep_view(),
                    ),
                    out.deep_view().len() == base.len() + i as int,
                    out.deep_view().take(base.len() as int) == base,
                    forall|k: int|
                        0 <= k < i as int ==> out.deep_view()[base.len() + k]
                            == (TraitAssertionV {
                            ty: fs.deep_view()[k].value.ty,
                            trait_path: s_trait_path(fs.deep_view()[k].value.method),
                        }),
                decreases fs@.len() - i,
            {
                let ghost pre = out.deep_view();
                out.push(
                    TraitAssertion {
                        ty: fs[i].value.ty.clone(),
                        trait_path: fs[i].value.method.trait_path(),
                    },
                );
                proof {
                    assert(out.deep_view() =~= pre.push(out@[pre.len() as int].deep_view()));
                    assert(out.deep_view().take(base.len() as int) =~= base);
                }
                i = i + 1;
            }
            proof {
                assert(out.deep_view() =~= base + s_case_assertions(
                    kind.deep_view().included_fields,
                ));
            }
        },
    }
}

/// The obligations of a whole discriminant, cases in order.
pub open spec fn s_kinds_assertions(ks: ErrorKindsV) -> Seq<TraitAssertionV> {
    match ks {
        ErrorKindsV::Struct { kind, .. } => s_case_assertions(kind.included_fields),
        ErrorKindsV::Enum { variants, .. } => s_enum_assertions(variants),
    }
}

/// The obligations of an enum's cases, flattened in order.
pub open spec fn s_enum_assertions(variants: Seq<crate::fields::NamedFieldV<ErrorKindV>>) -> Seq<
    TraitAssertionV,
>
    decreases variants.len(),
{
    if variants.len() == 0 {
        Seq::empty()
    } else {
        s_case_assertions(variants[0].value.included_fields) + s_enum_assertions(
            variants.drop_first(),
        )
    }
}

/// Collects the obligations of a whole discriminant.
pub fn assertions_for(ks: &ErrorKinds) -> (r: Vec<TraitAssertion>)
    ensures
        r.deep_view() == s_kinds_assertions(ks.deep_view()),
{
    let mut out: Vec<TraitAssertion> = Vec::new();
    match ks {
        ErrorKinds::Struct { kind, .. } => {
            assert_trait_impl(kind, &mut out);
            proof {
                assert(Seq::<TraitAssertionV>::empty() + s_case_assertions(
                    kind.deep_view().included_fields,
                ) =~= s_case_assertions(kind.deep_view().included_fields));
            }
        },
        ErrorKinds::Enum { variants, .. } => {
            let ghost vsd = variants.deep_view();
            let mut i: usize = 0;
            proof {
                assert(vsd.skip(0) =~= vsd);
                assert(out.deep_view() + s_enum_assertions(vsd) =~= s_enum_assertions(vsd));
            }
            while i < variants.len()
                invariant
                    0 <= i <= variants@.len(),
                    variants@.len() == vsd.len(),
                    vsd == variants.deep_view(),
                    ks.deep_view() matches ErrorKindsV::Enum { variants: vv, .. } && vv == vsd,
                    s_enum_assertions(vsd) == out.deep_view() + s_enum_assertions(
                        vsd.skip(i as int),
                    ),
                decreases variants@.len() - i,
            {
                let ghost tail = vsd.skip(i as int);
                let ghost pre = out.deep_view();
                proof {
                    assert(tail[0] == vsd[i as int]);
                    assert(tail.drop_first() =~= vsd.skip(i as int + 1));
                }
                assert_trait_impl(&variants[i].value, &mut out);
                proof {
                    assert(pre + (s_case_assertions(vsd[i as int].value.included_fields)
                        + s_enum_assertions(vsd.skip(i as int + 1))) =~= out.deep_view()
                        + s_enum_assertions(vsd.skip(i as int + 1)));
                }
                i = i + 1;
            }
            proof {
                assert(vsd.skip(variants@.len() as int)
                    =~= Seq::<crate::fields::NamedFieldV<ErrorKindV>>::empty());
                assert(out.deep_view() + Seq::<TraitAssertionV>::empty() =~= out.deep_view());
            }
        },
    }
    out
}

} // verus!
