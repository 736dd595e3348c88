//! Serialization of the generated artifacts to Rust source text.
//!
//! The artifact models carry the behaviour; this module renders them as the
//! source text a derive would emit: the generated module with the
//! discriminant type, the classification function and its marker-trait
//! obligations, the formatting implementation, one conversion per declared
//! source, the wrapper type with its result alias, and the top-level alias
//! items.  Each renderer's contract fixes the emitted text exactly, as a
//! concatenation over the model.

use vstd::prelude::*;
use crate::description::{ResolvedDescription, ResolvedDescriptionV, s_has_index};
use crate::fields::{Fields, FieldsV, NamedField, NamedFieldV, IndexedFieldV};
use crate::from_impl::{Constructor, ConstructorV, FromImplFor, FromImplForV};
use crate::kinds::{ErrorKind, ErrorKindV, ErrorKinds, ErrorKindsV, s_kinds_is_copy, s_for_type};
use crate::meta::{Path, PathV, seg_join};
use crate::model::{ErrorField, ErrorFieldV, ErrorType, ErrorTypeV, ErrorData, ErrorDataV,
    ErrorVariantV, s_copy_expr, s_alias_ident};
use crate::trait_assert::{TraitAssertion, TraitAssertionV, s_kinds_assertions};
use crate::util::dec_str;
use crate::visibility::{Visibility, VisibilityV};

verus! {

/// A string literal's body: every backslash and double quote escaped.
pub open spec fn s_escaped(s: Seq<char>) -> Seq<char>
    decreases s.len(),
{
    if s.len() == 0 {
        Seq::empty()
    } else {
        let head: Seq<char> = if s[0] == '\\' {
            seq!['\\', '\\']
        } else if s[0] == '"' {
            seq!['\\', '"']
        } else {
            seq![s[0]]
        };
        head + s_escaped(s.drop_first())
    }
}

/// Escapes a string for use as a Rust string literal's body.
pub fn escape_literal(s: &str) -> (r: String)
    ensures
        r@ == s_escaped(s@),
{
    let n = s.unicode_len();
    let mut out = String::new();
    let mut i: usize = 0;
    proof {
        assert(s@.skip(0) =~= s@);
    }
    while i < n
        invariant
            n == s@.len(),
            0 <= i <= n,
            s_escaped(s@) == out@ + s_escaped(s@.skip(i as int)),
        decreases n - i,
    {
        let ghost tail = s@.skip(i as int);
        let ghost pre = out@;
        proof {
            assert(tail[0] == s@[i as int]);
            assert(tail.drop_first() =~= s@.skip(i as int + 1));
        }
        let c = s.get_char(i);
        if c == '\\' {
            out.append("\\\\");
            proof {
                reveal_strlit("\\\\");
                assert(pre + (seq!['\\', '\\'] + s_escaped(s@.skip(i as int + 1))) =~= out@
                    + s_escaped(s@.skip(i as int + 1)));
            }
        } else if c == '"' {
            out.append("\\\"");
            proof {
                reveal_strlit("\\\"");
                assert(pre + (seq!['\\', '"'] + s_escaped(s@.skip(i as int + 1))) =~= out@
                    + s_escaped(s@.skip(i as int + 1)));
            }
        } else {
            let one = s.substring_char(i, i + 1);
            out.append(one);
            proof {
                assert(one@ =~= seq![s@[i as int]]);
                assert(pre + (seq![s@[i as int]] + s_escaped(s@.skip(i as int + 1))) =~= out@
                    + s_escaped(s@.skip(i as int + 1)));
            }
        }
        i = i + 1;
    }
    proof {
        assert(s@.skip(n as int) =~= Seq::<char>::empty());
        assert(out@ + Seq::<char>::empty() =~= out@);
    }
    out
}

/// A path's text: its leading `::` if any, then its segments joined.
pub open spec fn s_path_text(p: PathV) -> Seq<char> {
    if p.leading_colon {
        "::"@ + seg_join(p.segments)
    } else {
        seg_join(p.segments)
    }
}

/// Renders a path.
pub fn emit_path(p: &Path) -> (r: String)
    ensures
        r@ == s_path_text(p.deep_view()),
{
    let joined = p.to_compact_string();
    if p.leading_colon {
        let mut out: String = "::".to_owned();
        out.append(joined.as_str());
        out
    } else {
        joined
    }
}

/// A visibility's text, with a trailing space when it is not empty.
pub open spec fn s_vis_text(v: VisibilityV) -> Seq<char> {
    match v {
        VisibilityV::Public => "pub "@,
        VisibilityV::Crate => "pub(crate) "@,
        VisibilityV::Inherited => Seq::empty(),
        VisibilityV::Restricted { in_token, path } => {
            let key: Seq<char> = if in_token {
                "pub(in "@
            } else {
                "pub("@
            };
            key + s_path_text(path) + ") "@
        },
    }
}

/// Renders a visibility qualifier.
pub fn emit_vis(v: &Visibility) -> (r: String)
    ensures
        r@ == s_vis_text(v.deep_view()),
{
    match v {
        Visibility::Public => "pub ".to_owned(),
        Visibility::Crate => "pub(crate) ".to_owned(),
        Visibility::Inherited => {
            let out = String::new();
            proof {
                assert(out@ =~= Seq::<char>::empty());
            }
            out
        },
        Visibility::Restricted { in_token, path } => {
            let mut out: String = if *in_token {
                "pub(in ".to_owned()
            } else {
                "pub(".to_owned()
            };
            let p = emit_path(path);
            out.append(p.as_str());
            out.append(") ");
            out
        },
    }
}

// ---------------------------------------------------------------------------
// The discriminant type's text.
// ---------------------------------------------------------------------------

/// One named discriminant field: `name: Ty, `.
pub open spec fn s_named_kind_fields(fs: Seq<NamedFieldV<ErrorFieldV>>) -> Seq<char>
    decreases fs.len(),
{
    if fs.len() == 0 {
        Seq::empty()
    } else {
        fs[0].name + ": "@ + fs[0].value.ty + ", "@ + s_named_kind_fields(fs.drop_first())
    }
}

/// One positional discriminant field: `Ty, `.
pub open spec fn s_indexed_kind_fields(fs: Seq<IndexedFieldV<ErrorFieldV>>) -> Seq<char>
    decreases fs.len(),
{
    if fs.len() == 0 {
        Seq::empty()
    } else {
        fs[0].value.ty + ", "@ + s_indexed_kind_fields(fs.drop_first())
    }
}

/// The field list of one discriminant case; an empty shape emits nothing.
pub open spec fn s_kind_fields_text(included: FieldsV<ErrorFieldV>) -> Seq<char> {
    match included {
        FieldsV::Unit => Seq::empty(),
        FieldsV::Named(fs) => if fs.len() == 0 {
            Seq::empty()
        } else {
            " { "@ + s_named_kind_fields(fs) + "}"@
        },
        FieldsV::Unnamed(fs) => if fs.len() == 0 {
            Seq::empty()
        } else {
            "("@ + s_indexed_kind_fields(fs) + ")"@
        },
    }
}

/// One discriminant case line.
pub open spec fn s_kind_case_text(name: Seq<char>, kind: ErrorKindV) -> Seq<char> {
    "    "@ + name + s_kind_fields_text(kind.included_fields) + ",\n"@
}

/// Every case line of an enum's discriminant, in order.
pub open spec fn s_kind_cases_text(variants: Seq<NamedFieldV<ErrorKindV>>) -> Seq<char>
    decreases variants.len(),
{
    if variants.len() == 0 {
        Seq::empty()
    } else {
        s_kind_case_text(variants[0].name, variants[0].value) + s_kind_cases_text(
            variants.drop_first(),
        )
    }
}

/// The discriminant type's whole text: the derive line (with the
/// trivially-duplicable marker exactly when every included field is
/// directly duplicable), the enum with one case per source case plus the
/// hidden extension case, and its fixed formatting and marker impls.
pub open spec fn s_kind_enum_text(ks: ErrorKindsV) -> Seq<char> {
    let vis = match ks {
        ErrorKindsV::Struct { vis, .. } => vis,
        ErrorKindsV::Enum { vis, .. } => vis,
    };
    let cases = match ks {
        ErrorKindsV::Struct { ident, kind, .. } => s_kind_case_text(ident, kind),
        ErrorKindsV::Enum { variants, .. } => s_kind_cases_text(variants),
    };
    "#[derive(PartialEq, Debug, Clone"@ + (if s_kinds_is_copy(ks) {
        ", Copy"@
    } else {
        Seq::<char>::empty()
    }) + ")]\n"@ + s_vis_text(vis) + "enum ErrorKind {\n"@ + cases
        + "    #[doc(hidden)]\n    __Nonexhaustive,\n}\n"@
        + "impl ::std::fmt::Display for ErrorKind { fn fmt(&self, f: &mut ::std::fmt::Formatter) -> ::std::fmt::Result { <Self as ::std::fmt::Debug>::fmt(self, f) } }\n"@
        + "impl ::evitable::ErrorKind for ErrorKind {}\n"@
}

/// Renders the field list of one discriminant case.
fn emit_kind_fields(included: &Fields<ErrorField>) -> (r: String)
    ensures
        r@ == s_kind_fields_text(included.deep_view()),
{
    match included {
        Fields::Unit => {
            let out = String::new();
            proof {
                assert(out@ =~= Seq::<char>::empty());
            }
            out
        },
        Fields::Named(fs) => {
            if fs.len() == 0 {
                let out = String::new();
                proof {
                    assert(out@ =~= Seq::<char>::empty());
                }
                return out;
            }
            let ghost fsd = fs.deep_view();
            let mut out: String = " { ".to_owned();
            let ghost base = out@;
            let mut i: usize = 0;
            proof {
                assert(fsd.skip(0) =~= fsd);
            }
            while i < fs.len()
                invariant
                    0 <= i <= fs@.len(),
                    fs@.len() == fsd.len(),
                    fsd == fs.deep_view(),
                    base == " { "@,
                    out@ + s_named_kind_fields(fsd.skip(i as int)) == base + s_named_kind_fields(
                        fsd,
                    ),
                decreases fs@.len() - i,
            {
                let ghost tail = fsd.skip(i as int);
                let ghost pre = out@;
                proof {
                    assert(tail[0] == fsd[i as int]);
                    assert(tail.drop_first() =~= fsd.skip(i as int + 1));
                }
                out.append(fs[i].name.as_str());
                out.append(": ");
                out.append(fs[i].value.ty.as_str());
                out.append(", ");
                proof {
                    assert(pre + (tail[0].name + ": "@ + tail[0].value.ty + ", "@
                        + s_named_kind_fields(tail.drop_first())) =~= out@ + s_named_kind_fields(
                        fsd.skip(i as int + 1),
                    ));
                }
                i = i + 1;
            }
            proof {
                assert(fsd.skip(fs@.len() as int) =~= Seq::<NamedFieldV<ErrorFieldV>>::empty());
                assert(out@ + Seq::<char>::empty() =~= out@);
            }
            out.append("}");
            out
        },
        Fields::Unnamed(fs) => {
            if fs.len() == 0 {
                let out = String::new();
                proof {
                    assert(out@ =~= Seq::<char>::empty());
                }
                return out;
            }
            let ghost fsd = fs.deep_view();
            let mut out: String = "(".to_owned();
            let ghost base = out@;
            let mut i: usize = 0;
            proof {
                assert(fsd.skip(0) =~= fsd);
            }
            while i < fs.len()
                invariant
                    0 <= i <= fs@.len(),
                    fs@.len() == fsd.len(),
                    fsd == fs.deep_view(),
                    base == "("@,
                    out@ + s_indexed_kind_fields(fsd.skip(i as int)) == base
                        + s_indexed_kind_fields(fsd),
                decreases fs@.len() - i,
            {
                let ghost tail = fsd.skip(i as int);
                let ghost pre = out@;
                proof {
                    assert(tail[0] == fsd[i as int]);
                    assert(tail.drop_first() =~= fsd.skip(i as int + 1));
                }
                out.append(fs[i].value.ty.as_str());
                out.append(", ");
                proof {
                    assert(pre + (tail[0].value.ty + ", "@ + s_indexed_kind_fields(
                        tail.drop_first(),
                    )) =~= out@ + s_indexed_kind_fields(fsd.skip(i as int + 1)));
                }
                i = i + 1;
            }
            proof {
                assert(fsd.skip(fs@.len() as int) =~= Seq::<IndexedFieldV<ErrorFieldV>>::empty());
                assert(out@ + Seq::<char>::empty() =~= out@);
            }
            out.append(")");
            out
        },
    }
}

/// Renders one discriminant case line.
fn emit_kind_case(name: &str, kind: &ErrorKind) -> (r: String)
    ensures
        r@ == s_kind_case_text(name@, kind.deep_view()),
{
    let mut out: String = "    ".to_owned();
    out.append(name);
    let fields = emit_kind_fields(&kind.included_fields);
    out.append(fields.as_str());
    out.append(",\n");
    out
}

/// Renders the whole discriminant type.
pub fn emit_kind_enum(ks: &ErrorKinds) -> (r: String)
    ensures
        r@ == s_kind_enum_text(ks.deep_view()),
{
    let mut out: String = "#[derive(PartialEq, Debug, Clone".to_owned();
    if ks.is_copy() {
        out.append(", Copy");
    }
    out.append(")]\n");
    let vis_text = match ks {
        ErrorKinds::Struct { vis, .. } => emit_vis(vis),
        ErrorKinds::Enum { vis, .. } => emit_vis(vis),
    };
    out.append(vis_text.as_str());
    out.append("enum ErrorKind {\n");
    match ks {
        ErrorKinds::Struct { ident, kind, .. } => {
            let case = emit_kind_case(ident.as_str(), kind);
            out.append(case.as_str());
        },
        ErrorKinds::Enum { variants, .. } => {
            let ghost vsd = variants.deep_view();
            let ghost base = out@;
            let mut i: usize = 0;
            proof {
                assert(vsd.skip(0) =~= vsd);
            }
            while i < variants.len()
                invariant
                    0 <= i <= variants@.len(),
                    variants@.len() == vsd.len(),
                    vsd == variants.deep_view(),
                    out@ + s_kind_cases_text(vsd.skip(i as int)) == base + s_kind_cases_text(vsd),
                decreases variants@.len() - i,
            {
                let ghost tail = vsd.skip(i as int);
                let ghost pre = out@;
                proof {
                    assert(tail[0] == vsd[i as int]);
                    assert(tail.drop_first() =~= vsd.skip(i as int + 1));
                }
                let case = emit_kind_case(variants[i].name.as_str(), &variants[i].value);
                out.append(case.as_str());
                proof {
                    assert(pre + (s_kind_case_text(tail[0].name, tail[0].value)
                        + s_kind_cases_text(tail.drop_first())) =~= out@ + s_kind_cases_text(
                        vsd.skip(i as int + 1),
                    ));
                }
                i = i + 1;
            }
            proof {
                assert(vsd.skip(variants@.len() as int)
                    =~= Seq::<NamedFieldV<ErrorKindV>>::empty());
                assert(out@ + Seq::<char>::empty() =~= out@);
            }
        },
    }
    out.append("    #[doc(hidden)]\n    __Nonexhaustive,\n}\n");
    out.append(
        "impl ::std::fmt::Display for ErrorKind { fn fmt(&self, f: &mut ::std::fmt::Formatter) -> ::std::fmt::Result { <Self as ::std::fmt::Debug>::fmt(self, f) } }\n",
    );
    out.append("impl ::evitable::ErrorKind for ErrorKind {}\n");
    out
}

// ---------------------------------------------------------------------------
// The formatting implementation's text.
// ---------------------------------------------------------------------------

/// Expressions joined by `, `, without a trailing separator.
pub open spec fn s_comma_join(xs: Seq<Seq<char>>) -> Seq<char>
    decreases xs.len(),
{
    if xs.len() == 0 {
        Seq::empty()
    } else if xs.len() == 1 {
        xs[0]
    } else {
        xs[0] + ", "@ + s_comma_join(xs.drop_first())
    }
}

/// Joining one more expression appends a separator and that expression.
proof fn lemma_comma_join_snoc(xs: Seq<Seq<char>>, i: int)
    requires
        0 <= i < xs.len(),
    ensures
        i == 0 ==> s_comma_join(xs.take(1)) == xs[0],
        i > 0 ==> s_comma_join(xs.take(i + 1)) == s_comma_join(xs.take(i)) + ", "@ + xs[i],
    decreases i,
{
    if i == 0 {
        assert(xs.take(1).len() == 1);
        assert(s_comma_join(xs.take(1)) == xs.take(1)[0]);
    } else {
        lemma_comma_join_snoc(xs.drop_first(), i - 1);
        assert(xs.take(i + 1).drop_first() =~= xs.drop_first().take(i));
        assert(xs.take(i).drop_first() =~= xs.drop_first().take(i - 1));
        if i == 1 {
            assert(s_comma_join(xs.take(2)) == xs[0] + ", "@ + s_comma_join(
                xs.take(2).drop_first(),
            ));
            assert(xs.drop_first().take(1).len() == 1);
            assert(s_comma_join(xs.drop_first().take(1)) == xs.drop_first()[0]);
            assert(s_comma_join(xs.take(1)) == xs.take(1)[0]);
        } else {
            assert(s_comma_join(xs.take(i + 1)) == xs.take(i + 1)[0] + ", "@ + s_comma_join(
                xs.take(i + 1).drop_first(),
            ));
            assert(s_comma_join(xs.take(i)) == xs.take(i)[0] + ", "@ + s_comma_join(
                xs.take(i).drop_first(),
            ));
            assert(s_comma_join(xs.drop_first().take(i)) == s_comma_join(
                xs.drop_first().take(i - 1),
            ) + ", "@ + xs.drop_first()[i - 1]);
            assert(xs.drop_first()[i - 1] == xs[i]);
            assert((xs[0] + ", "@ + (s_comma_join(xs.drop_first().take(i - 1)) + ", "@ + xs[i]))
                =~= ((xs[0] + ", "@ + s_comma_join(xs.drop_first().take(i - 1))) + ", "@
                + xs[i]));
        }
    }
}

/// Joins expressions with `, `.
fn emit_comma_join(xs: &Vec<String>) -> (r: String)
    ensures
        r@ == s_comma_join(xs.deep_view()),
{
    let mut out = String::new();
    let mut i: usize = 0;
    while i < xs.len()
        invariant
            0 <= i <= xs@.len(),
            out@ == s_comma_join(xs.deep_view().take(i as int)),
        decreases xs@.len() - i,
    {
        if i > 0 {
            out.append(", ");
        }
        out.append(xs[i].as_str());
        proof {
            lemma_comma_join_snoc(xs.deep_view(), i as int);
        }
        i = i + 1;
    }
    proof {
        assert(xs.deep_view().take(xs@.len() as int) =~= xs.deep_view());
    }
    out
}

/// The formatting expression of one resolved description: a plain string
/// write for a literal, a formatted write binding the resolved expressions
/// positionally for a template.
pub open spec fn s_desc_expr(rd: ResolvedDescriptionV) -> Seq<char> {
    if rd.args.len() == 0 {
        "f.write_str(\""@ + s_escaped(rd.format) + "\")"@
    } else {
        "write!(f, \""@ + s_escaped(rd.format) + "\", "@ + s_comma_join(rd.args) + ")"@
    }
}

/// Renders the formatting expression of one resolved description.
pub fn emit_desc_expr(rd: &ResolvedDescription) -> (r: String)
    ensures
        r@ == s_desc_expr(rd.deep_view()),
{
    if rd.args.len() == 0 {
        let mut out: String = "f.write_str(\"".to_owned();
        let esc = escape_literal(rd.format.as_str());
        out.append(esc.as_str());
        out.append("\")");
        out
    } else {
        let mut out: String = "write!(f, \"".to_owned();
        let esc = escape_literal(rd.format.as_str());
        out.append(esc.as_str());
        out.append("\", ");
        let args = emit_comma_join(&rd.args);
        out.append(args.as_str());
        out.append(")");
        out
    }
}

/// The destructuring pattern that binds every field of a case.
pub open spec fn s_destruct_text(fields: FieldsV<ErrorFieldV>) -> Seq<char> {
    match fields {
        FieldsV::Unit => Seq::empty(),
        FieldsV::Named(fs) => " { "@ + s_named_binders(fs) + "}"@,
        FieldsV::Unnamed(fs) => "("@ + s_indexed_binders(fs) + ")"@,
    }
}

/// Named binders: `name, ` each.
pub open spec fn s_named_binders(fs: Seq<NamedFieldV<ErrorFieldV>>) -> Seq<char>
    decreases fs.len(),
{
    if fs.len() == 0 {
        Seq::empty()
    } else {
        fs[0].name + ", "@ + s_named_binders(fs.drop_first())
    }
}

/// Positional binders: `_i, ` each.
pub open spec fn s_indexed_binders(fs: Seq<IndexedFieldV<ErrorFieldV>>) -> Seq<char>
    decreases fs.len(),
{
    if fs.len() == 0 {
        Seq::empty()
    } else {
        "_"@ + dec_str(fs[0].index as u64) + ", "@ + s_indexed_binders(fs.drop_first())
    }
}

/// Renders the destructuring pattern of a case.
fn emit_destruct(fields: &Fields<ErrorField>) -> (r: String)
    ensures
        r@ == s_destruct_text(fields.deep_view()),
{
    match fields {
        Fields::Unit => {
            let out = String::new();
            proof {
                assert(out@ =~= Seq::<char>::empty());
            }
            out
        },
        Fields::Named(fs) => {
            let ghost fsd = fs.deep_view();
            let mut out: String = " { ".to_owned();
            let ghost base = out@;
            let mut i: usize = 0;
            proof {
                assert(fsd.skip(0) =~= fsd);
            }
            while i < fs.len()
                invariant
                    0 <= i <= fs@.len(),
                    fs@.len() == fsd.len(),
                    fsd == fs.deep_view(),
                    out@ + s_named_binders(fsd.skip(i as int)) == base + s_named_binders(fsd),
                decreases fs@.len() - i,
            {
                let ghost tail = fsd.skip(i as int);
                let ghost pre = out@;
                proof {
                    assert(tail[0] == fsd[i as int]);
                    assert(tail.drop_first() =~= fsd.skip(i as int + 1));
                }
                out.append(fs[i].name.as_str());
                out.append(", ");
                proof {
                    assert(pre + (tail[0].name + ", "@ + s_named_binders(tail.drop_first()))
                        =~= out@ + s_named_binders(fsd.skip(i as int + 1)));
                }
                i = i + 1;
            }
            proof {
                assert(fsd.skip(fs@.len() as int) =~= Seq::<NamedFieldV<ErrorFieldV>>::empty());
                assert(out@ + Seq::<char>::empty() =~= out@);
            }
            out.append("}");
            out
        },
        Fields::Unnamed(fs) => {
            let ghost fsd = fs.deep_view();
            let mut out: String = "(".to_owned();
            let ghost base = out@;
            let mut i: usize = 0;
            proof {
                assert(fsd.skip(0) =~= fsd);
            }
            while i < fs.len()
                invariant
                    0 <= i <= fs@.len(),
                    fs@.len() == fsd.len(),
                    fsd == fs.deep_view(),
                    out@ + s_indexed_binders(fsd.skip(i as int)) == base + s_indexed_binders(fsd),
                decreases fs@.len() - i,
            {
                let ghost tail = fsd.skip(i as int);
                let ghost pre = out@;
                proof {
                    assert(tail[0] == fsd[i as int]);
                    assert(tail.drop_first() =~= fsd.skip(i as int + 1));
                }
                out.append("_");
                let digits = crate::util::u64_to_string(fs[i].index as u64);
                out.append(digits.as_str());
                out.append(", ");
                proof {
                    assert(pre + ("_"@ + dec_str(tail[0].index as u64) + ", "@
                        + s_indexed_binders(tail.drop_first())) =~= out@ + s_indexed_binders(
                        fsd.skip(i as int + 1),
                    ));
                }
                i = i + 1;
            }
            proof {
                assert(fsd.skip(fs@.len() as int) =~= Seq::<IndexedFieldV<ErrorFieldV>>::empty());
                assert(out@ + Seq::<char>::empty() =~= out@);
            }
            out.append(")");
            out
        },
    }
}

/// One formatting match arm of an enum's implementation.
pub open spec fn s_display_arm(ty: Seq<char>, v: ErrorVariantV) -> Seq<char> {
    "            "@ + ty + "::"@ + v.ident + s_destruct_text(v.fields) + " => "@ + s_desc_expr(
        v.description,
    ) + ",\n"@
}

/// Every formatting match arm, in case order.
pub open spec fn s_display_arms(ty: Seq<char>, vs: Seq<ErrorVariantV>) -> Seq<char>
    decreases vs.len(),
{
    if vs.len() == 0 {
        Seq::empty()
    } else {
        s_display_arm(ty, vs[0]) + s_display_arms(ty, vs.drop_first())
    }
}

/// The body of the formatting function: the single description for a
/// struct, a match over the cases for an enum.
pub open spec fn s_display_body(ty: ErrorTypeV) -> Seq<char> {
    match ty.data {
        ErrorDataV::Struct(s) => "        "@ + s_desc_expr(s.description) + "\n"@,
        ErrorDataV::Enum(vs) => "        match self {\n"@ + s_display_arms(ty.ident, vs)
            + "        }\n"@,
    }
}

/// The combined formatting/debugging implementation: the same body serves
/// both.
pub open spec fn s_display_impl_text(ty: ErrorTypeV) -> Seq<char> {
    "impl ::std::fmt::Display for "@ + ty.ident
        + " {\n    fn fmt(&self, f: &mut ::std::fmt::Formatter) -> ::std::fmt::Result {\n"@
        + s_display_body(ty) + "    }\n}\n"@ + "impl ::std::fmt::Debug for "@ + ty.ident
        + " {\n    fn fmt(&self, f: &mut ::std::fmt::Formatter) -> ::std::fmt::Result {\n"@
        + s_display_body(ty) + "    }\n}\n"@
}

/// Renders the body of the formatting function.
fn emit_display_body(ty: &ErrorType) -> (r: String)
    ensures
        r@ == s_display_body(ty.deep_view()),
{
    match &ty.data {
        ErrorData::Struct(s) => {
            let mut out: String = "        ".to_owned();
            let d = emit_desc_expr(&s.description);
            out.append(d.as_str());
            out.append("\n");
            out
        },
        ErrorData::Enum(vs) => {
            let ghost vsd = vs.deep_view();
            let mut out: String = "        match self {\n".to_owned();
            let ghost base = out@;
            let mut i: usize = 0;
            proof {
                assert(vsd.skip(0) =~= vsd);
            }
            while i < vs.len()
                invariant
                    0 <= i <= vs@.len(),
                    vs@.len() == vsd.len(),
                    vsd == vs.deep_view(),
                    out@ + s_display_arms(ty.deep_view().ident, vsd.skip(i as int)) == base
                        + s_display_arms(ty.deep_view().ident, vsd),
                decreases vs@.len() - i,
            {
                let ghost tail = vsd.skip(i as int);
                let ghost pre = out@;
                proof {
                    assert(tail[0] == vsd[i as int]);
                    assert(tail.drop_first() =~= vsd.skip(i as int + 1));
                }
                out.append("            ");
                out.append(ty.ident.as_str());
                out.append("::");
                out.append(vs[i].ident.as_str());
                let destruct = emit_destruct(&vs[i].fields);
                out.append(destruct.as_str());
                out.append(" => ");
                let d = emit_desc_expr(&vs[i].description);
                out.append(d.as_str());
                out.append(",\n");
                proof {
                    assert(pre + (s_display_arm(ty.deep_view().ident, tail[0]) + s_display_arms(
                        ty.deep_view().ident,
                        tail.drop_first(),
                    )) =~= out@ + s_display_arms(ty.deep_view().ident, vsd.skip(i as int + 1)));
                }
                i = i + 1;
            }
            proof {
                assert(vsd.skip(vs@.len() as int) =~= Seq::<ErrorVariantV>::empty());
                assert(out@ + Seq::<char>::empty() =~= out@);
            }
            out.append("        }\n");
            out
        },
    }
}

/// Renders the combined formatting/debugging implementation of the
/// annotated type.
pub fn emit_display_impl(ty: &ErrorType) -> (r: String)
    ensures
        r@ == s_display_impl_text(ty.deep_view()),
{
    let body = emit_display_body(ty);
    let mut out: String = "impl ::std::fmt::Display for ".to_owned();
    out.append(ty.ident.as_str());
    out.append(" {\n    fn fmt(&self, f: &mut ::std::fmt::Formatter) -> ::std::fmt::Result {\n");
    out.append(body.as_str());
    out.append("    }\n}\n");
    out.append("impl ::std::fmt::Debug for ");
    out.append(ty.ident.as_str());
    out.append(" {\n    fn fmt(&self, f: &mut ::std::fmt::Formatter) -> ::std::fmt::Result {\n");
    out.append(body.as_str());
    out.append("    }\n}\n");
    out
}

// ---------------------------------------------------------------------------
// The classification function's text.
// ---------------------------------------------------------------------------

/// One named discriminant assignment: `name: <take from expr>, `.
pub open spec fn s_named_assigns(fs: Seq<NamedFieldV<ErrorFieldV>>, prefix: Seq<char>) -> Seq<
    char,
>
    decreases fs.len(),
{
    if fs.len() == 0 {
        Seq::empty()
    } else {
        fs[0].name + ": "@ + s_copy_expr(fs[0].value.method, prefix + fs[0].name) + ", "@
            + s_named_assigns(fs.drop_first(), prefix)
    }
}

/// One positional discriminant argument: `<take from expr>, `.
pub open spec fn s_indexed_assigns(fs: Seq<IndexedFieldV<ErrorFieldV>>, prefix: Seq<char>) -> Seq<
    char,
>
    decreases fs.len(),
{
    if fs.len() == 0 {
        Seq::empty()
    } else {
        s_copy_expr(fs[0].value.method, prefix + dec_str(fs[0].index as u64)) + ", "@
            + s_indexed_assigns(fs.drop_first(), prefix)
    }
}

/// The construction of one discriminant value.  Field sources are read
/// under the prefix (`&context.` for a struct, a bound local for a
/// variant); each included field is taken with its declared strategy,
/// uniformly in every case.
pub open spec fn s_kind_construct(
    name: Seq<char>,
    included: FieldsV<ErrorFieldV>,
    prefix: Seq<char>,
) -> Seq<char> {
    match included {
        FieldsV::Unit => "ErrorKind::"@ + name,
        FieldsV::Named(fs) => if fs.len() == 0 {
            "ErrorKind::"@ + name
        } else {
            "ErrorKind::"@ + name + " { "@ + s_named_assigns(fs, prefix) + "}"@
        },
        FieldsV::Unnamed(fs) => if fs.len() == 0 {
            "ErrorKind::"@ + name
        } else {
            "ErrorKind::"@ + name + "("@ + s_indexed_assigns(fs, prefix) + ")"@
        },
    }
}

/// Renders the construction of one discriminant value.
fn emit_kind_construct(name: &str, included: &Fields<ErrorField>, prefix: &str) -> (r: String)
    ensures
        r@ == s_kind_construct(name@, included.deep_view(), prefix@),
{
    let mut out: String = "ErrorKind::".to_owned();
    out.append(name);
    match included {
        Fields::Unit => out,
        Fields::Named(fs) => {
            if fs.len() == 0 {
                return out;
            }
            let ghost fsd = fs.deep_view();
            out.append(" { ");
            let ghost base = out@;
            let mut i: usize = 0;
            proof {
                assert(fsd.skip(0) =~= fsd);
            }
            while i < fs.len()
                invariant
                    0 <= i <= fs@.len(),
                    fs@.len() == fsd.len(),
                    fsd == fs.deep_view(),
                    out@ + s_named_assigns(fsd.skip(i as int), prefix@) == base + s_named_assigns(
                        fsd,
                        prefix@,
                    ),
                decreases fs@.len() - i,
            {
                let ghost tail = fsd.skip(i as int);
                let ghost pre = out@;
                proof {
                    assert(tail[0] == fsd[i as int]);
                    assert(tail.drop_first() =~= fsd.skip(i as int + 1));
                }
                out.append(fs[i].name.as_str());
                out.append(": ");
                let mut place: String = prefix.to_owned();
                place.append(fs[i].name.as_str());
                let taken = fs[i].value.method.copy(place.as_str());
                out.append(taken.as_str());
                out.append(", ");
                proof {
                    assert(pre + (tail[0].name + ": "@ + s_copy_expr(
                        tail[0].value.method,
                        prefix@ + tail[0].name,
                    ) + ", "@ + s_named_assigns(tail.drop_first(), prefix@)) =~= out@
                        + s_named_assigns(fsd.skip(i as int + 1), prefix@));
                }
                i = i + 1;
            }
            proof {
                assert(fsd.skip(fs@.len() as int) =~= Seq::<NamedFieldV<ErrorFieldV>>::empty());
                assert(out@ + Seq::<char>::empty() =~= out@);
            }
            out.append("}");
            out
        },
        Fields::Unnamed(fs) => {
            if fs.len() == 0 {
                return out;
            }
            let ghost fsd = fs.deep_view();
            out.append("(");
            let ghost base = out@;
            let mut i: usize = 0;
            proof {
                assert(fsd.skip(0) =~= fsd);
            }
            while i < fs.len()
                invariant
                    0 <= i <= fs@.len(),
                    fs@.len() == fsd.len(),
                    fsd == fs.deep_view(),
                    out@ + s_indexed_assigns(fsd.skip(i as int), prefix@) == base
                        + s_indexed_assigns(fsd, prefix@),
                decreases fs@.len() - i,
            {
                let ghost tail = fsd.skip(i as int);
                let ghost pre = out@;
                proof {
                    assert(tail[0] == fsd[i as int]);
                    assert(tail.drop_first() =~= fsd.skip(i as int + 1));
                }
                let mut place: String = prefix.to_owned();
                let digits = crate::util::u64_to_string(fs[i].index as u64);
                place.append(digits.as_str());
                let taken = fs[i].value.method.copy(place.as_str());
                out.append(taken.as_str());
                out.append(", ");
                proof {
                    assert(pre + (s_copy_expr(
                        tail[0].value.method,
                        prefix@ + dec_str(tail[0].index as u64),
                    ) + ", "@ + s_indexed_assigns(tail.drop_first(), prefix@)) =~= out@
                        + s_indexed_assigns(fsd.skip(i as int + 1), prefix@));
                }
                i = i + 1;
            }
            proof {
                assert(fsd.skip(fs@.len() as int) =~= Seq::<IndexedFieldV<ErrorFieldV>>::empty());
                assert(out@ + Seq::<char>::empty() =~= out@);
            }
            out.append(")");
            out
        },
    }
}

/// The binders of a positional extraction pattern: a bound local for each
/// included position, a wildcard for the rest.
pub open spec fn s_unnamed_pattern_binders(
    all: Seq<IndexedFieldV<ErrorFieldV>>,
    inc: Seq<IndexedFieldV<ErrorFieldV>>,
) -> Seq<char>
    decreases all.len(),
{
    if all.len() == 0 {
        Seq::empty()
    } else {
        (if s_has_index(inc, all[0].index as u64) {
            "_"@ + dec_str(all[0].index as u64) + ", "@
        } else {
            "_, "@
        }) + s_unnamed_pattern_binders(all.drop_first(), inc)
    }
}

/// The extraction pattern of one case: every field bound for a named case
/// whose fields are all included, the included ones plus `..` otherwise,
/// and positional binders or wildcards by position.
pub open spec fn s_case_pattern(kind: ErrorKindV) -> Seq<char> {
    match kind.all_fields {
        FieldsV::Unit => Seq::empty(),
        FieldsV::Named(all) => {
            let inc = match kind.included_fields {
                FieldsV::Named(fs) => fs,
                _ => Seq::empty(),
            };
            if inc.len() == all.len() {
                " { "@ + s_named_binders(all) + "}"@
            } else {
                " { "@ + s_named_binders(inc) + ".. }"@
            }
        },
        FieldsV::Unnamed(all) => {
            let inc = match kind.included_fields {
                FieldsV::Unnamed(fs) => fs,
                _ => Seq::empty(),
            };
            "("@ + s_unnamed_pattern_binders(all, inc) + ")"@
        },
    }
}

/// Renders the binders of a named extraction pattern.
fn emit_named_binders(fs: &Vec<NamedField<ErrorField>>) -> (r: String)
    ensures
        r@ == s_named_binders(fs.deep_view()),
{
    let ghost fsd = fs.deep_view();
    let mut out = String::new();
    let mut i: usize = 0;
    proof {
        assert(fsd.skip(0) =~= fsd);
        assert(out@ + s_named_binders(fsd) =~= s_named_binders(fsd));
    }
    while i < fs.len()
        invariant
            0 <= i <= fs@.len(),
            fs@.len() == fsd.len(),
            fsd == fs.deep_view(),
            out@ + s_named_binders(fsd.skip(i as int)) == s_named_binders(fsd),
        decreases fs@.len() - i,
    {
        let ghost tail = fsd.skip(i as int);
        let ghost pre = out@;
        proof {
            assert(tail[0] == fsd[i as int]);
            assert(tail.drop_first() =~= fsd.skip(i as int + 1));
        }
        out.append(fs[i].name.as_str());
        out.append(", ");
        proof {
            assert(pre + (tail[0].name + ", "@ + s_named_binders(tail.drop_first())) =~= out@
                + s_named_binders(fsd.skip(i as int + 1)));
        }
        i = i + 1;
    }
    proof {
        assert(fsd.skip(fs@.len() as int) =~= Seq::<NamedFieldV<ErrorFieldV>>::empty());
        assert(out@ + Seq::<char>::empty() =~= out@);
    }
    out
}

/// Renders the extraction pattern of one case.
fn emit_case_pattern(kind: &ErrorKind) -> (r: String)
    ensures
        r@ == s_case_pattern(kind.deep_view()),
{
    match &kind.all_fields {
        Fields::Unit => {
            let out = String::new();
            proof {
                assert(out@ =~= Seq::<char>::empty());
            }
            out
        },
        Fields::Named(all) => {
            let mut out: String = " { ".to_owned();
            match &kind.included_fields {
                Fields::Named(inc) => {
                    if inc.len() == all.len() {
                        let binders = emit_named_binders(all);
                        out.append(binders.as_str());
                        out.append("}");
                    } else {
                        let binders = emit_named_binders(inc);
                        out.append(binders.as_str());
                        out.append(".. }");
                    }
                    out
                },
                _ => {
                    if all.len() == 0 {
                        proof {
                            assert(s_named_binders(all.deep_view())
                                =~= Seq::<char>::empty());
                            assert(s_named_binders(Seq::<NamedFieldV<ErrorFieldV>>::empty())
                                =~= Seq::<char>::empty());
                        }
                        out.append("}");
                    } else {
                        out.append(".. }");
                    }
                    out
                },
            }
        },
        Fields::Unnamed(all) => {
            let mut out: String = "(".to_owned();
            let ghost alld = all.deep_view();
            let ghost incd: Seq<IndexedFieldV<ErrorFieldV>> = match kind.deep_view()
                .included_fields {
                FieldsV::Unnamed(fs) => fs,
                _ => Seq::empty(),
            };
            let ghost base = out@;
            let mut i: usize = 0;
            proof {
                assert(alld.skip(0) =~= alld);
            }
            while i < all.len()
                invariant
                    0 <= i <= all@.len(),
                    all@.len() == alld.len(),
                    alld == all.deep_view(),
                    incd == (match kind.deep_view().included_fields {
                        FieldsV::Unnamed(fs) => fs,
                        _ => Seq::<IndexedFieldV<ErrorFieldV>>::empty(),
                    }),
                    out@ + s_unnamed_pattern_binders(alld.skip(i as int), incd) == base
                        + s_unnamed_pattern_binders(alld, incd),
                decreases all@.len() - i,
            {
                let ghost tail = alld.skip(i as int);
                let ghost pre = out@;
                proof {
                    assert(tail[0] == alld[i as int]);
                    assert(tail.drop_first() =~= alld.skip(i as int + 1));
                }
                let included = match &kind.included_fields {
                    Fields::Unnamed(inc) => {
                        let ghost fsd = inc.deep_view();
                        let mut k: usize = 0;
                        let mut found = false;
                        while k < inc.len() && !found
                            invariant
                                0 <= k <= inc@.len(),
                                inc@.len() == fsd.len(),
                                fsd == inc.deep_view(),
                                alld == all.deep_view(),
                                i < alld.len(),
                                !found ==> forall|j: int|
                                    0 <= j < k as int ==> (#[trigger] fsd[j]).index
                                        != alld[i as int].index,
                                found ==> k < fsd.len() && fsd[k as int].index
                                    == alld[i as int].index,
                            decreases inc@.len() - k + (if found {
                                0int
                            } else {
                                1int
                            }),
                        {
                            if inc[k].index == all[i].index {
                                found = true;
                            } else {
                                k = k + 1;
                            }
                        }
                        found
                    },
                    _ => false,
                };
                proof {
                    assert(included == s_has_index(incd, alld[i as int].index as u64));
                }
                if included {
                    out.append("_");
                    let digits = crate::util::u64_to_string(all[i].index as u64);
                    out.append(digits.as_str());
                    out.append(", ");
                } else {
                    out.append("_, ");
                }
                proof {
                    assert(pre + ((if s_has_index(incd, tail[0].index as u64) {
                        "_"@ + dec_str(tail[0].index as u64) + ", "@
                    } else {
                        "_, "@
                    }) + s_unnamed_pattern_binders(tail.drop_first(), incd)) =~= out@
                        + s_unnamed_pattern_binders(alld.skip(i as int + 1), incd));
                }
                i = i + 1;
            }
            proof {
                assert(alld.skip(all@.len() as int)
                    =~= Seq::<IndexedFieldV<ErrorFieldV>>::empty());
                assert(out@ + Seq::<char>::empty() =~= out@);
            }
            out.append(")");
            out
        },
    }
}

/// One marker-trait obligation, as the block the generated code checks it
/// with.
pub open spec fn s_assert_text(a: TraitAssertionV) -> Seq<char> {
    "        { struct AssertHelper<T>(::std::marker::PhantomData<T>); trait AssertImpl { fn assert() {} } impl<T: "@
        + s_path_text(a.trait_path) + "> AssertImpl for AssertHelper<T> {} AssertHelper::<"@
        + a.ty + ">::assert(); }\n"@
}

/// Every obligation block, in order.
pub open spec fn s_asserts_text(xs: Seq<TraitAssertionV>) -> Seq<char>
    decreases xs.len(),
{
    if xs.len() == 0 {
        Seq::empty()
    } else {
        s_assert_text(xs[0]) + s_asserts_text(xs.drop_first())
    }
}

/// Renders the obligation blocks.
fn emit_asserts(xs: &Vec<TraitAssertion>) -> (r: String)
    ensures
        r@ == s_asserts_text(xs.deep_view()),
{
    let ghost xsd = xs.deep_view();
    let mut out = String::new();
    let mut i: usize = 0;
    proof {
        assert(xsd.skip(0) =~= xsd);
        assert(out@ + s_asserts_text(xsd) =~= s_asserts_text(xsd));
    }
    while i < xs.len()
        invariant
            0 <= i <= xs@.len(),
            xs@.len() == xsd.len(),
            xsd == xs.deep_view(),
            out@ + s_asserts_text(xsd.skip(i as int)) == s_asserts_text(xsd),
        decreases xs@.len() - i,
    {
        let ghost tail = xsd.skip(i as int);
        let ghost pre = out@;
        proof {
            assert(tail[0] == xsd[i as int]);
            assert(tail.drop_first() =~= xsd.skip(i as int + 1));
        }
        out.append(
            "        { struct AssertHelper<T>(::std::marker::PhantomData<T>); trait AssertImpl { fn assert() {} } impl<T: ",
        );
        let p = emit_path(&xs[i].trait_path);
        out.append(p.as_str());
        out.append("> AssertImpl for AssertHelper<T> {} AssertHelper::<");
        out.append(xs[i].ty.as_str());
        out.append(">::assert(); }\n");
        proof {
            assert(pre + (s_assert_text(tail[0]) + s_asserts_text(tail.drop_first())) =~= out@
                + s_asserts_text(xsd.skip(i as int + 1)));
        }
        i = i + 1;
    }
    proof {
        assert(xsd.skip(xs@.len() as int) =~= Seq::<TraitAssertionV>::empty());
        assert(out@ + Seq::<char>::empty() =~= out@);
    }
    out
}

/// One classification match arm.  A positional case's locals are the
/// underscore-prefixed positions; a named case's locals are the field
/// names themselves.
pub open spec fn s_classify_arm(src_ty: Seq<char>, name: Seq<char>, kind: ErrorKindV) -> Seq<
    char,
> {
    let prefix: Seq<char> = match kind.included_fields {
        FieldsV::Unnamed(_) => "_"@,
        _ => Seq::empty(),
    };
    "            super::"@ + src_ty + "::"@ + name + s_case_pattern(kind) + " => "@
        + s_kind_construct(name, kind.included_fields, prefix) + ",\n"@
}

/// Every classification match arm, in case order.
pub open spec fn s_classify_arms(src_ty: Seq<char>, vs: Seq<NamedFieldV<ErrorKindV>>) -> Seq<
    char,
>
    decreases vs.len(),
{
    if vs.len() == 0 {
        Seq::empty()
    } else {
        s_classify_arm(src_ty, vs[0].name, vs[0].value) + s_classify_arms(
            src_ty,
            vs.drop_first(),
        )
    }
}

/// The whole classification implementation: the obligation checks and the
/// function from a borrowed context to its discriminant value, marked
/// `#[inline]` exactly when the discriminant is trivially duplicable.
pub open spec fn s_from_context_text(ks: ErrorKindsV) -> Seq<char> {
    let src_ty = match ks {
        ErrorKindsV::Struct { ident, .. } => ident,
        ErrorKindsV::Enum { ident, .. } => ident,
    };
    let body = match ks {
        ErrorKindsV::Struct { ident, kind, .. } => "        "@ + s_kind_construct(
            ident,
            kind.included_fields,
            "&context."@,
        ) + "\n"@,
        ErrorKindsV::Enum { variants, .. } => "        match context {\n"@ + s_classify_arms(
            src_ty,
            variants,
        ) + "        }\n"@,
    };
    "impl ErrorKind {\n    fn __kind_type_asserts() {\n"@ + s_asserts_text(
        s_kinds_assertions(ks),
    ) + "    }\n"@ + (if s_kinds_is_copy(ks) {
        "    #[inline]\n"@
    } else {
        Seq::<char>::empty()
    }) + "    pub(super) fn from_context(context: &super::"@ + src_ty + ") -> Self {\n"@ + body
        + "    }\n}\n"@
}

/// Renders the classification implementation.
pub fn emit_from_context(ks: &ErrorKinds) -> (r: String)
    ensures
        r@ == s_from_context_text(ks.deep_view()),
{
    let mut out: String = "impl ErrorKind {\n    fn __kind_type_asserts() {\n".to_owned();
    let obligations = crate::trait_assert::assertions_for(ks);
    let asserts = emit_asserts(&obligations);
    out.append(asserts.as_str());
    out.append("    }\n");
    if ks.is_copy() {
        out.append("    #[inline]\n");
    }
    out.append("    pub(super) fn from_context(context: &super::");
    match ks {
        ErrorKinds::Struct { ident, kind, .. } => {
            out.append(ident.as_str());
            out.append(") -> Self {\n");
            out.append("        ");
            let construct = emit_kind_construct(ident.as_str(), &kind.included_fields, "&context.");
            out.append(construct.as_str());
            out.append("\n");
        },
        ErrorKinds::Enum { ident, variants, .. } => {
            out.append(ident.as_str());
            out.append(") -> Self {\n");
            out.append("        match context {\n");
            let ghost vsd = variants.deep_view();
            let ghost base = out@;
            let mut i: usize = 0;
            proof {
                assert(vsd.skip(0) =~= vsd);
            }
            while i < variants.len()
                invariant
                    0 <= i <= variants@.len(),
                    variants@.len() == vsd.len(),
                    vsd == variants.deep_view(),
                    out@ + s_classify_arms(ks.deep_view()->Enum_ident, vsd.skip(i as int)) == base
                        + s_classify_arms(ks.deep_view()->Enum_ident, vsd),
                    ks.deep_view() matches ErrorKindsV::Enum { ident: ii, .. } && ii == ident@,
                decreases variants@.len() - i,
            {
                let ghost tail = vsd.skip(i as int);
                let ghost pre = out@;
                proof {
                    assert(tail[0] == vsd[i as int]);
                    assert(tail.drop_first() =~= vsd.skip(i as int + 1));
                }
                out.append("            super::");
                out.append(ident.as_str());
                out.append("::");
                out.append(variants[i].name.as_str());
                let pat = emit_case_pattern(&variants[i].value);
                out.append(pat.as_str());
                out.append(" => ");
                let prefix: &str = match &variants[i].value.included_fields {
                    Fields::Unnamed(_) => "_",
                    _ => "",
                };
                let construct = emit_kind_construct(
                    variants[i].name.as_str(),
                    &variants[i].value.included_fields,
                    prefix,
                );
                out.append(construct.as_str());
                out.append(",\n");
                proof {
                    reveal_strlit("");
                    assert(""@ =~= Seq::<char>::empty());
                    assert(s_kind_construct(tail[0].name, tail[0].value.included_fields, prefix@)
                        == s_kind_construct(
                        tail[0].name,
                        tail[0].value.included_fields,
                        match tail[0].value.included_fields {
                            FieldsV::Unnamed(_) => "_"@,
                            _ => Seq::<char>::empty(),
                        },
                    ));
                    assert(pre + (s_classify_arm(ident@, tail[0].name, tail[0].value)
                        + s_classify_arms(ident@, tail.drop_first())) =~= out@ + s_classify_arms(
                        ident@,
                        vsd.skip(i as int + 1),
                    ));
                }
                i = i + 1;
            }
            proof {
                assert(vsd.skip(variants@.len() as int)
                    =~= Seq::<NamedFieldV<ErrorKindV>>::empty());
                assert(out@ + Seq::<char>::empty() =~= out@);
            }
            out.append("        }\n");
        },
    }
    out.append("    }\n}\n");
    out
}

// ---------------------------------------------------------------------------
// The conversions, the wrapper, and the whole generated text.
// ---------------------------------------------------------------------------

/// The construction expression of a conversion's fieldless context value.
pub open spec fn s_ctor_expr(ctor: ConstructorV, owner: Seq<char>) -> Seq<char> {
    match ctor {
        ConstructorV::Unit => owner,
        ConstructorV::Named => "("@ + owner + " {})"@,
        ConstructorV::Unnamed => "("@ + owner + "())"@,
        ConstructorV::VariantUnit(v) => owner + "::"@ + v,
        ConstructorV::VariantNamed(v) => "("@ + owner + "::"@ + v + " {})"@,
        ConstructorV::VariantUnnamed(v) => "("@ + owner + "::"@ + v + "())"@,
    }
}

/// One conversion implementation's text.
pub open spec fn s_from_impl_text(f: FromImplForV) -> Seq<char> {
    "impl ::std::convert::From<"@ + s_path_text(f.from_impl.path) + "> for "@ + f.mod_name
        + "::Error {\n    fn from(err: "@ + s_path_text(f.from_impl.path)
        + ") -> Self {\n        "@ + s_ctor_expr(f.ctor, f.owner)
        + ".into_error(err)\n    }\n}\n"@
}

/// Every conversion implementation, in declaration order.
pub open spec fn s_from_impls_text(fs: Seq<FromImplForV>) -> Seq<char>
    decreases fs.len(),
{
    if fs.len() == 0 {
        Seq::empty()
    } else {
        s_from_impl_text(fs[0]) + s_from_impls_text(fs.drop_first())
    }
}

/// Renders the construction expression of a conversion.
fn emit_ctor_expr(ctor: &Constructor, owner: &str) -> (r: String)
    ensures
        r@ == s_ctor_expr(ctor.deep_view(), owner@),
{
    match ctor {
        Constructor::Unit => owner.to_owned(),
        Constructor::Named => {
            let mut out: String = "(".to_owned();
            out.append(owner);
            out.append(" {})");
            out
        },
        Constructor::Unnamed => {
            let mut out: String = "(".to_owned();
            out.append(owner);
            out.append("())");
            out
        },
        Constructor::VariantUnit(v) => {
            let mut out: String = owner.to_owned();
            out.append("::");
            out.append(v.as_str());
            out
        },
        Constructor::VariantNamed(v) => {
            let mut out: String = "(".to_owned();
            out.append(owner);
            out.append("::");
            out.append(v.as_str());
            out.append(" {})");
            out
        },
        Constructor::VariantUnnamed(v) => {
            let mut out: String = "(".to_owned();
            out.append(owner);
            out.append("::");
            out.append(v.as_str());
            out.append("())");
            out
        },
    }
}

/// Renders every conversion implementation.
pub fn emit_from_impls(fs: &Vec<FromImplFor>) -> (r: String)
    ensures
        r@ == s_from_impls_text(fs.deep_view()),
{
    let ghost fsd = fs.deep_view();
    let mut out = String::new();
    let mut i: usize = 0;
    proof {
        assert(fsd.skip(0) =~= fsd);
        assert(out@ + s_from_impls_text(fsd) =~= s_from_impls_text(fsd));
    }
    while i < fs.len()
        invariant
            0 <= i <= fs@.len(),
            fs@.len() == fsd.len(),
            fsd == fs.deep_view(),
            out@ + s_from_impls_text(fsd.skip(i as int)) == s_from_impls_text(fsd),
        decreases fs@.len() - i,
    {
        let ghost tail = fsd.skip(i as int);
        let ghost pre = out@;
        proof {
            assert(tail[0] == fsd[i as int]);
            assert(tail.drop_first() =~= fsd.skip(i as int + 1));
        }
        out.append("impl ::std::convert::From<");
        let p = emit_path(&fs[i].from_impl.path);
        out.append(p.as_str());
        out.append("> for ");
        out.append(fs[i].mod_name.as_str());
        out.append("::Error {\n    fn from(err: ");
        out.append(p.as_str());
        out.append(") -> Self {\n        ");
        let ctor = emit_ctor_expr(&fs[i].ctor, fs[i].owner.as_str());
        out.append(ctor.as_str());
        out.append(".into_error(err)\n    }\n}\n");
        proof {
            assert(pre + (s_from_impl_text(tail[0]) + s_from_impls_text(tail.drop_first()))
                =~= out@ + s_from_impls_text(fsd.skip(i as int + 1)));
        }
        i = i + 1;
    }
    proof {
        assert(fsd.skip(fs@.len() as int) =~= Seq::<FromImplForV>::empty());
        assert(out@ + Seq::<char>::empty() =~= out@);
    }
    out
}

/// The wrapper type's text: the struct holding the context, the captured
/// stack and the optional cause, with its accessors, conversions and
/// formatting, and the runtime-trait implementation.
pub open spec fn s_wrapper_text(ty: Seq<char>, mod_item_vis: Seq<char>) -> Seq<char> {
    "    "@ + mod_item_vis + "struct Error {\n        context: super::"@ + ty
        + ",\n        backtrace: ::evitable::Backtrace,\n        source: Option<Box<dyn ::std::error::Error + ::std::marker::Send + ::std::marker::Sync + 'static>>,\n    }\n"@
        + "    impl Error {\n        fn context(&self) -> &super::"@ + ty
        + " { &self.context }\n        fn backtrace(&self) -> &::evitable::Backtrace { &self.backtrace }\n        fn kind(&self) -> ErrorKind { ::evitable::ErrorContext::kind(&self.context) }\n    }\n"@
        + "    impl ::std::convert::From<super::"@ + ty
        + "> for Error {\n        fn from(context: super::"@ + ty
        + ") -> Self {\n            <Error as ::evitable::EvitableError>::new(context, None)\n        }\n    }\n"@
        + "    impl ::std::fmt::Display for Error {\n        fn fmt(&self, f: &mut ::std::fmt::Formatter) -> ::std::fmt::Result {\n            ::std::fmt::Display::fmt(&self.context, f)?;\n            if let Some(source) = &self.source {\n                f.write_str(\"\\n---- source ----\\n\")?;\n                ::std::fmt::Display::fmt(source, f)?;\n            }\n            Ok(())\n        }\n    }\n"@
        + "    impl ::std::fmt::Debug for Error {\n        fn fmt(&self, f: &mut ::std::fmt::Formatter) -> ::std::fmt::Result {\n            ::std::fmt::Debug::fmt(&self.context, f)?;\n            if let Some(source) = &self.source {\n                f.write_str(\"\\n---- source ----\\n\")?;\n                ::std::fmt::Debug::fmt(source, f)?;\n            }\n            Ok(())\n        }\n    }\n"@
        + "    impl ::std::error::Error for Error {\n        fn source(&self) -> Option<&(dyn ::std::error::Error + 'static)> {\n            match &self.source {\n                None => None,\n                Some(b) => Some(b.as_ref()),\n            }\n        }\n    }\n"@
        + "    impl ::evitable::EvitableError for Error {\n        type Kind = ErrorKind;\n        type Context = super::"@
        + ty
        + ";\n        fn context(&self) -> &Self::Context { Error::context(self) }\n        fn kind(&self) -> Self::Kind { Error::kind(self) }\n        fn backtrace(&self) -> &::evitable::Backtrace { Error::backtrace(self) }\n        fn new(context: Self::Context, source: Option<Box<dyn ::std::error::Error + ::std::marker::Send + ::std::marker::Sync + 'static>>) -> Self {\n            let backtrace = ::evitable::Backtrace::new();\n            Self { context, source, backtrace }\n        }\n    }\n"@
}

/// Renders the wrapper type.
fn emit_wrapper(ty: &str, mod_item_vis: &str) -> (r: String)
    ensures
        r@ == s_wrapper_text(ty@, mod_item_vis@),
{
    let mut out: String = "    ".to_owned();
    out.append(mod_item_vis);
    out.append("struct Error {\n        context: super::");
    out.append(ty);
    out.append(
        ",\n        backtrace: ::evitable::Backtrace,\n        source: Option<Box<dyn ::std::error::Error + ::std::marker::Send + ::std::marker::Sync + 'static>>,\n    }\n",
    );
    out.append("    impl Error {\n        fn context(&self) -> &super::");
    out.append(ty);
    out.append(
        " { &self.context }\n        fn backtrace(&self) -> &::evitable::Backtrace { &self.backtrace }\n        fn kind(&self) -> ErrorKind { ::evitable::ErrorContext::kind(&self.context) }\n    }\n",
    );
    out.append("    impl ::std::convert::From<super::");
    out.append(ty);
    out.append("> for Error {\n        fn from(context: super::");
    out.append(ty);
    out.append(
        ") -> Self {\n            <Error as ::evitable::EvitableError>::new(context, None)\n        }\n    }\n",
    );
    out.append(
        "    impl ::std::fmt::Display for Error {\n        fn fmt(&self, f: &mut ::std::fmt::Formatter) -> ::std::fmt::Result {\n            ::std::fmt::Display::fmt(&self.context, f)?;\n            if let Some(source) = &self.source {\n                f.write_str(\"\\n---- source ----\\n\")?;\n                ::std::fmt::Display::fmt(source, f)?;\n            }\n            Ok(())\n        }\n    }\n",
    );
    out.append(
        "    impl ::std::fmt::Debug for Error {\n        fn fmt(&self, f: &mut ::std::fmt::Formatter) -> ::std::fmt::Result {\n            ::std::fmt::Debug::fmt(&self.context, f)?;\n            if let Some(source) = &self.source {\n                f.write_str(\"\\n---- source ----\\n\")?;\n                ::std::fmt::Debug::fmt(source, f)?;\n            }\n            Ok(())\n        }\n    }\n",
    );
    out.append(
        "    impl ::std::error::Error for Error {\n        fn source(&self) -> Option<&(dyn ::std::error::Error + 'static)> {\n            match &self.source {\n                None => None,\n                Some(b) => Some(b.as_ref()),\n            }\n        }\n    }\n",
    );
    out.append("    impl ::evitable::EvitableError for Error {\n        type Kind = ErrorKind;\n        type Context = super::");
    out.append(ty);
    out.append(
        ";\n        fn context(&self) -> &Self::Context { Error::context(self) }\n        fn kind(&self) -> Self::Kind { Error::kind(self) }\n        fn backtrace(&self) -> &::evitable::Backtrace { Error::backtrace(self) }\n        fn new(context: Self::Context, source: Option<Box<dyn ::std::error::Error + ::std::marker::Send + ::std::marker::Sync + 'static>>) -> Self {\n            let backtrace = ::evitable::Backtrace::new();\n            Self { context, source, backtrace }\n        }\n    }\n",
    );
    out
}

/// The alias items emitted after the module, as the overrides ask.
pub open spec fn s_alias_text(ty: ErrorTypeV) -> Seq<char> {
    let err_part: Seq<char> = match s_alias_ident(ty.attrs.error_type_name, "Error"@) {
        None => Seq::empty(),
        Some(n) => s_vis_text(ty.vis) + "type "@ + n + " = "@ + ty.mod_name + "::Error;\n"@,
    };
    let res_part: Seq<char> = match s_alias_ident(ty.attrs.result_type_name, "Result"@) {
        None => Seq::empty(),
        Some(n) => s_vis_text(ty.vis) + "type "@ + n + "<T> = "@ + ty.mod_name
            + "::Result<T>;\n"@,
    };
    let kind_part: Seq<char> = match s_alias_ident(ty.attrs.kind_type_name, "ErrorKind"@) {
        None => Seq::empty(),
        Some(n) => s_vis_text(ty.vis) + "type "@ + n + " = "@ + ty.mod_name + "::ErrorKind;\n"@,
    };
    err_part + res_part + kind_part
}

/// Renders the alias items.
fn emit_aliases(ty: &ErrorType) -> (r: String)
    ensures
        r@ == s_alias_text(ty.deep_view()),
{
    let vis_text = emit_vis(&ty.vis);
    let mut out = String::new();
    proof {
        assert(out@ =~= Seq::<char>::empty());
    }
    match ty.attrs.error_type_name.ident("Error") {
        None => {},
        Some(n) => {
            out.append(vis_text.as_str());
            out.append("type ");
            out.append(n.as_str());
            out.append(" = ");
            out.append(ty.mod_name.as_str());
            out.append("::Error;\n");
        },
    }
    let ghost err_done = out@;
    match ty.attrs.result_type_name.ident("Result") {
        None => {},
        Some(n) => {
            out.append(vis_text.as_str());
            out.append("type ");
            out.append(n.as_str());
            out.append("<T> = ");
            out.append(ty.mod_name.as_str());
            out.append("::Result<T>;\n");
        },
    }
    match ty.attrs.kind_type_name.ident("ErrorKind") {
        None => {},
        Some(n) => {
            out.append(vis_text.as_str());
            out.append("type ");
            out.append(n.as_str());
            out.append(" = ");
            out.append(ty.mod_name.as_str());
            out.append("::ErrorKind;\n");
        },
    }
    out
}

/// The runtime-trait implementation on the annotated type itself.
pub open spec fn s_error_context_text(ty: Seq<char>, mod_name: Seq<char>) -> Seq<char> {
    "impl ::evitable::ErrorContext for "@ + ty + " {\n    type Kind = "@ + mod_name
        + "::ErrorKind;\n    type Error = "@ + mod_name
        + "::Error;\n    fn kind(&self) -> Self::Kind {\n        "@ + mod_name
        + "::ErrorKind::from_context(self)\n    }\n}\n"@
}

/// The generated module's text: the discriminant, the classification, the
/// wrapper, the conversions, and the result alias.
pub open spec fn s_module_text(ty: ErrorTypeV) -> Seq<char> {
    let ks = s_for_type(ty);
    s_vis_text(ty.vis) + "mod "@ + ty.mod_name + " {\n    use super::*;\n"@
        + s_kind_enum_text(ks) + s_from_context_text(ks) + s_wrapper_text(
        ty.ident,
        s_vis_text(ty.mod_vis),
    ) + s_from_impls_text(ty.impls_from) + "    "@ + s_vis_text(ty.mod_vis)
        + "type Result<T> = ::std::result::Result<T, Error>;\n}\n"@
}

/// Renders the generated module.
fn emit_module(ty: &ErrorType) -> (r: String)
    requires
        ty.vis.deep_view().wf(),
    ensures
        r@ == s_module_text(ty.deep_view()),
{
    let ks = crate::kinds::for_type(ty);
    let mut out = emit_vis(&ty.vis);
    out.append("mod ");
    out.append(ty.mod_name.as_str());
    out.append(" {\n    use super::*;\n");
    let kind_enum = emit_kind_enum(&ks);
    out.append(kind_enum.as_str());
    let classify = emit_from_context(&ks);
    out.append(classify.as_str());
    let mod_vis_text = emit_vis(&ty.mod_vis);
    let wrapper = emit_wrapper(ty.ident.as_str(), mod_vis_text.as_str());
    out.append(wrapper.as_str());
    let froms = emit_from_impls(&ty.impls_from);
    out.append(froms.as_str());
    out.append("    ");
    out.append(mod_vis_text.as_str());
    out.append("type Result<T> = ::std::result::Result<T, Error>;\n}\n");
    out
}

/// Renders the runtime-trait implementation on the annotated type.
fn emit_error_context_impl(ty: &ErrorType) -> (r: String)
    ensures
        r@ == s_error_context_text(ty.deep_view().ident, ty.deep_view().mod_name),
{
    let mut out: String = "impl ::evitable::ErrorContext for ".to_owned();
    out.append(ty.ident.as_str());
    out.append(" {\n    type Kind = ");
    out.append(ty.mod_name.as_str());
    out.append("::ErrorKind;\n    type Error = ");
    out.append(ty.mod_name.as_str());
    out.append("::Error;\n    fn kind(&self) -> Self::Kind {\n        ");
    out.append(ty.mod_name.as_str());
    out.append("::ErrorKind::from_context(self)\n    }\n}\n");
    out
}

/// The whole generated text for one error type: the module holding the
/// discriminant, the classification, the wrapper, the conversions and the
/// result alias; then the formatting implementation of the annotated type,
/// its runtime-trait implementation, and the alias items.
pub open spec fn s_error_type_text(ty: ErrorTypeV) -> Seq<char> {
    s_module_text(ty) + s_display_impl_text(ty) + s_error_context_text(ty.ident, ty.mod_name)
        + s_alias_text(ty)
}

/// Renders the whole generated text for one error type.
pub fn emit_error_type(ty: &ErrorType) -> (r: String)
    requires
        ty.vis.deep_view().wf(),
    ensures
        r@ == s_error_type_text(ty.deep_view()),
{
    let mut out = emit_module(ty);
    let display = emit_display_impl(ty);
    out.append(display.as_str());
    let ctx = emit_error_context_impl(ty);
    out.append(ctx.as_str());
    let aliases = emit_aliases(ty);
    out.append(aliases.as_str());
    out
}

} // verus!




