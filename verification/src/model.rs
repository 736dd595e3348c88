//! The error-type model built from a declaration and its attributes.
//!
//! A declaration (a struct or an enum, each field and variant carrying its
//! attribute nodes) is turned into an [`ErrorType`]: which fields take part
//! in the discriminant and how they are duplicated, the per-case resolved
//! description, the declared conversions, and the generated module's name
//! and visibility.  Building fails on the first diagnostic.

use vstd::prelude::*;
use crate::attrs::{Attrs, AttrV, s_collect, s_get_optional, s_get_list, s_get_required, s_close};
use crate::description::{Description, DescriptionV, ResolvedDescription, ResolvedDescriptionV,
    s_resolve_desc};
use crate::error::{Error, ErrorV, FmResult, res_dv};
use crate::fields::{Fields, FieldsV, NamedField, NamedFieldV, IndexedField, IndexedFieldV};
use crate::from_impl::{FromImpl, FromImplV, FromImplFor, FromImplForV, s_struct_ctor,
    s_variant_ctor};
use crate::from_meta::FromMeta;
use crate::meta::{Lit, LitV, Meta, MetaV, MetaValue, MetaValueV, NestedMeta, NestedMetaV, Path,
    PathV, lemma_vec_nested_dv};
use crate::visibility::{Visibility, VisibilityV, inherited, s_inherited};
use crate::idents::{module_name_for, snake_of};

verus! {

/// The recognized attribute namespace.
pub const NAMESPACE: &'static str = "evitable";

// ---------------------------------------------------------------------------
// Duplication strategy.
// ---------------------------------------------------------------------------

/// How an included field is extracted into the discriminant: direct bitwise
/// duplication, or an explicit duplication call.
#[derive(Debug, Clone, Copy, PartialEq, Eq, Structural)]
pub enum CopyMethod {
    Copy,
    Clone,
}

impl DeepView for CopyMethod {
    type V = CopyMethod;

    open spec fn deep_view(&self) -> CopyMethod {
        *self
    }
}

impl Default for CopyMethod {
    /// The default strategy is direct duplication.
    fn default() -> (r: CopyMethod)
        ensures
            r == CopyMethod::Copy,
    {
        CopyMethod::Copy
    }
}

/// The marker-trait path a strategy requires of the field type.
pub open spec fn s_trait_path(m: CopyMethod) -> PathV {
    match m {
        CopyMethod::Copy => PathV {
            leading_colon: true,
            segments: seq!["std"@, "marker"@, "Copy"@],
        },
        CopyMethod::Clone => PathV {
            leading_colon: true,
            segments: seq!["std"@, "clone"@, "Clone"@],
        },
    }
}

/// The expression a strategy uses to take a field out of a borrowed place.
pub open spec fn s_copy_expr(m: CopyMethod, from_expr: Seq<char>) -> Seq<char> {
    match m {
        CopyMethod::Copy => "*"@ + from_expr,
        CopyMethod::Clone => "::std::clone::Clone::clone("@ + from_expr + ")"@,
    }
}

impl CopyMethod {
    /// The marker-trait path this strategy requires of the field type.
    pub fn trait_path(&self) -> (r: Path)
        ensures
            r.deep_view() == s_trait_path(*self),
    {
        let mut segments: Vec<String> = Vec::new();
        segments.push("std".to_owned());
        match self {
            CopyMethod::Copy => {
                segments.push("marker".to_owned());
                segments.push("Copy".to_owned());
            },
            CopyMethod::Clone => {
                segments.push("clone".to_owned());
                segments.push("Clone".to_owned());
            },
        }
        let r = Path { leading_colon: true, segments };
        proof {
            assert(r.deep_view().segments =~= s_trait_path(*self).segments);
        }
        r
    }

    /// The expression that takes a field out of a borrowed place.
    pub fn copy(&self, from_expr: &str) -> (r: String)
        ensures
            r@ == s_copy_expr(*self, from_expr@),
    {
        match self {
            CopyMethod::Copy => {
                let mut s: String = "*".to_owned();
                s.append(from_expr);
                s
            },
            CopyMethod::Clone => {
                let mut s: String = "::std::clone::Clone::clone(".to_owned();
                s.append(from_expr);
                s.append(")");
                s
            },
        }
    }

    /// Whether this is the direct (bitwise) strategy.
    pub fn is_copy(&self) -> (r: bool)
        ensures
            r == (*self == CopyMethod::Copy),
    {
        match self {
            CopyMethod::Copy => true,
            _ => false,
        }
    }
}

/// A strategy is named by the word `copy` or `clone`, as an identifier or a
/// string.
impl FromMeta for CopyMethod {
    open spec fn s_from_string(value: Seq<char>) -> Result<CopyMethod, ErrorV> {
        if value == "copy"@ {
            Ok(CopyMethod::Copy)
        } else if value == "clone"@ {
            Ok(CopyMethod::Clone)
        } else {
            Err(ErrorV::UnknownValue(value))
        }
    }

    open spec fn s_from_ident(value: Seq<char>) -> Result<CopyMethod, ErrorV> {
        Self::s_from_string(value)
    }

    fn from_empty() -> (r: FmResult<CopyMethod>) {
        Err(Error::unsupported_format("empty"))
    }

    fn from_bool(value: bool) -> (r: FmResult<CopyMethod>) {
        Err(Error::unexpected_type("bool"))
    }

    fn from_char(value: char) -> (r: FmResult<CopyMethod>) {
        Err(Error::unexpected_type("char"))
    }

    fn from_int(value: u64) -> (r: FmResult<CopyMethod>) {
        Err(Error::unexpected_type("int"))
    }

    fn from_string(value: &str) -> (r: FmResult<CopyMethod>) {
        if crate::util::str_eq(value, "copy") {
            Ok(CopyMethod::Copy)
        } else if crate::util::str_eq(value, "clone") {
            Ok(CopyMethod::Clone)
        } else {
            Err(Error::unknown_value(value))
        }
    }

    fn from_ident(value: &str) -> (r: FmResult<CopyMethod>) {
        Self::from_string(value)
    }

    fn from_path(value: &Path) -> (r: FmResult<CopyMethod>) {
        match value.single_ident() {
            Some(id) => Self::from_ident(id.as_str()),
            None => Err(Error::unexpected_type("path")),
        }
    }

    fn from_lit(lit: &Lit) -> (r: FmResult<CopyMethod>) {
        match lit {
            Lit::Bool(b) => Self::from_bool(*b),
            Lit::Str(s) => Self::from_string(s.as_str()),
            Lit::Char(c) => Self::from_char(*c),
            Lit::Int(v, _) => Self::from_int(*v),
            Lit::Float(_) => Err(Error::unexpected_lit_type(lit)),
        }
    }

    fn from_list(items: &Vec<NestedMeta>) -> (r: FmResult<CopyMethod>) {
        if items.len() == 0 {
            Self::from_empty()
        } else if items.len() == 1 {
            Self::from_nested_meta(&items[0])
        } else {
            Err(Error::unsupported_format("list"))
        }
    }

    fn from_value(value: &MetaValue) -> (r: FmResult<CopyMethod>) {
        match value {
            MetaValue::Path(p) => Self::from_path(p),
            MetaValue::Lit(l) => Self::from_lit(l),
        }
    }

    fn from_nested_meta(item: &NestedMeta) -> (r: FmResult<CopyMethod>) {
        match item {
            NestedMeta::Lit(l) => Self::from_lit(l),
            NestedMeta::Meta(m) => match m {
                Meta::Path(p) => Self::from_path(p),
                Meta::NameValue(_) => Err(Error::unexpected_type("name value")),
                Meta::List(_) => Err(Error::unexpected_type("list")),
            },
        }
    }

    fn from_meta(item: &Meta) -> (r: FmResult<CopyMethod>) {
        match item {
            Meta::Path(_) => Self::from_empty(),
            Meta::List(ml) => {
                proof {
                    lemma_vec_nested_dv(ml.nested);
                }
                Self::from_list(&ml.nested)
            },
            Meta::NameValue(nv) => Self::from_value(&nv.val),
        }
    }
}

// ---------------------------------------------------------------------------
// Generated type-alias names.
// ---------------------------------------------------------------------------

/// Whether and under what name an alias for a generated type is emitted.
#[derive(Debug, PartialEq, Eq)]
pub enum TypeAliasName {
    /// Nothing was said: the conventional name.
    Default,
    /// An explicit name.
    Override(String),
    /// Explicitly disabled.
    Disabled,
    /// Explicitly enabled under the conventional name.
    Enabled,
}

/// Mathematical image of [`TypeAliasName`].
pub enum TypeAliasNameV {
    Default,
    Override(Seq<char>),
    Disabled,
    Enabled,
}

impl DeepView for TypeAliasName {
    type V = TypeAliasNameV;

    open spec fn deep_view(&self) -> TypeAliasNameV {
        match self {
            TypeAliasName::Default => TypeAliasNameV::Default,
            TypeAliasName::Override(s) => TypeAliasNameV::Override(s@),
            TypeAliasName::Disabled => TypeAliasNameV::Disabled,
            TypeAliasName::Enabled => TypeAliasNameV::Enabled,
        }
    }
}

/// The alias identifier actually emitted, if any.
pub open spec fn s_alias_ident(t: TypeAliasNameV, default: Seq<char>) -> Option<Seq<char>> {
    match t {
        TypeAliasNameV::Disabled => None,
        TypeAliasNameV::Override(i) => Some(i),
        TypeAliasNameV::Default => Some(default),
        TypeAliasNameV::Enabled => Some(default),
    }
}

impl TypeAliasName {
    /// The alias identifier actually emitted, if any.
    pub fn ident(&self, default: &str) -> (r: Option<String>)
        ensures
            match r {
                Some(s) => s_alias_ident(self.deep_view(), default@) == Some(s@),
                None => s_alias_ident(self.deep_view(), default@) is None,
            },
    {
        match self {
            TypeAliasName::Disabled => None,
            TypeAliasName::Override(i) => Some(i.clone()),
            TypeAliasName::Default => Some(default.to_owned()),
            TypeAliasName::Enabled => Some(default.to_owned()),
        }
    }
}

/// An alias is a boolean (on under the conventional name, or off), a bare
/// word (on), or an explicit identifier.
impl FromMeta for TypeAliasName {
    open spec fn s_from_empty() -> Result<TypeAliasNameV, ErrorV> {
        Ok(TypeAliasNameV::Enabled)
    }

    open spec fn s_from_bool(value: bool) -> Result<TypeAliasNameV, ErrorV> {
        if value {
            Ok(TypeAliasNameV::Enabled)
        } else {
            Ok(TypeAliasNameV::Disabled)
        }
    }

    open spec fn s_from_string(value: Seq<char>) -> Result<TypeAliasNameV, ErrorV> {
        Ok(TypeAliasNameV::Override(value))
    }

    open spec fn s_from_ident(value: Seq<char>) -> Result<TypeAliasNameV, ErrorV> {
        Ok(TypeAliasNameV::Override(value))
    }

    fn from_empty() -> (r: FmResult<TypeAliasName>) {
        Ok(TypeAliasName::Enabled)
    }

    fn from_bool(value: bool) -> (r: FmResult<TypeAliasName>) {
        if value {
            Ok(TypeAliasName::Enabled)
        } else {
            Ok(TypeAliasName::Disabled)
        }
    }

    fn from_char(value: char) -> (r: FmResult<TypeAliasName>) {
        Err(Error::unexpected_type("char"))
    }

    fn from_int(value: u64) -> (r: FmResult<TypeAliasName>) {
        Err(Error::unexpected_type("int"))
    }

    fn from_string(value: &str) -> (r: FmResult<TypeAliasName>) {
        Ok(TypeAliasName::Override(value.to_owned()))
    }

    fn from_ident(value: &str) -> (r: FmResult<TypeAliasName>) {
        Ok(TypeAliasName::Override(value.to_owned()))
    }

    fn from_path(value: &Path) -> (r: FmResult<TypeAliasName>) {
        match value.single_ident() {
            Some(id) => Self::from_ident(id.as_str()),
            None => Err(Error::unexpected_type("path")),
        }
    }

    fn from_lit(lit: &Lit) -> (r: FmResult<TypeAliasName>) {
        match lit {
            Lit::Bool(b) => Self::from_bool(*b),
            Lit::Str(s) => Self::from_string(s.as_str()),
            Lit::Char(c) => Self::from_char(*c),
            Lit::Int(v, _) => Self::from_int(*v),
            Lit::Float(_) => Err(Error::unexpected_lit_type(lit)),
        }
    }

    fn from_list(items: &Vec<NestedMeta>) -> (r: FmResult<TypeAliasName>) {
        if items.len() == 0 {
            Self::from_empty()
        } else if items.len() == 1 {
            Self::from_nested_meta(&items[0])
        } else {
            Err(Error::unsupported_format("list"))
        }
    }

    fn from_value(value: &MetaValue) -> (r: FmResult<TypeAliasName>) {
        match value {
            MetaValue::Path(p) => Self::from_path(p),
            MetaValue::Lit(l) => Self::from_lit(l),
        }
    }

    fn from_nested_meta(item: &NestedMeta) -> (r: FmResult<TypeAliasName>) {
        match item {
            NestedMeta::Lit(l) => Self::from_lit(l),
            NestedMeta::Meta(m) => match m {
                Meta::Path(p) => Self::from_path(p),
                Meta::NameValue(_) => Err(Error::unexpected_type("name value")),
                Meta::List(_) => Err(Error::unexpected_type("list")),
            },
        }
    }

    fn from_meta(item: &Meta) -> (r: FmResult<TypeAliasName>) {
        match item {
            Meta::Path(_) => Self::from_empty(),
            Meta::List(ml) => {
                proof {
                    lemma_vec_nested_dv(ml.nested);
                }
                Self::from_list(&ml.nested)
            },
            Meta::NameValue(nv) => Self::from_value(&nv.val),
        }
    }
}

// ---------------------------------------------------------------------------
// The input declaration shape.
// ---------------------------------------------------------------------------

/// One field of the annotated declaration: its attribute nodes and the text
/// of its type.
pub struct FieldDecl {
    pub attrs: Vec<Meta>,
    pub ty: String,
}

/// Mathematical image of [`FieldDecl`].
pub struct FieldDeclV {
    pub attrs: Seq<MetaV>,
    pub ty: Seq<char>,
}

impl DeepView for FieldDecl {
    type V = FieldDeclV;

    open spec fn deep_view(&self) -> FieldDeclV {
        FieldDeclV { attrs: self.attrs.deep_view(), ty: self.ty@ }
    }
}

/// One variant of an annotated enum.
pub struct VariantDecl {
    pub ident: String,
    pub attrs: Vec<Meta>,
    pub fields: Fields<FieldDecl>,
}

/// Mathematical image of [`VariantDecl`].
pub struct VariantDeclV {
    pub ident: Seq<char>,
    pub attrs: Seq<MetaV>,
    pub fields: FieldsV<FieldDeclV>,
}

impl DeepView for VariantDecl {
    type V = VariantDeclV;

    open spec fn deep_view(&self) -> VariantDeclV {
        VariantDeclV {
            ident: self.ident@,
            attrs: self.attrs.deep_view(),
            fields: self.fields.deep_view(),
        }
    }
}

// ---------------------------------------------------------------------------
// The built model.
// ---------------------------------------------------------------------------

/// A field of the error-type model.
pub struct ErrorField {
    pub ty: String,
    pub include_in_kind: bool,
    pub method: CopyMethod,
}

/// Mathematical image of [`ErrorField`].
pub struct ErrorFieldV {
    pub ty: Seq<char>,
    pub include_in_kind: bool,
    pub method: CopyMethod,
}

impl DeepView for ErrorField {
    type V = ErrorFieldV;

    open spec fn deep_view(&self) -> ErrorFieldV {
        ErrorFieldV { ty: self.ty@, include_in_kind: self.include_in_kind, method: self.method }
    }
}

impl ErrorField {
    /// Whether the field uses the direct duplication strategy.
    pub fn is_copy(&self) -> (r: bool)
        ensures
            r == (self.method == CopyMethod::Copy),
    {
        self.method.is_copy()
    }
}

/// One variant of the error-type model.
pub struct ErrorVariant {
    pub ident: String,
    pub description: ResolvedDescription,
    pub from_impls: Vec<FromImpl>,
    pub fields: Fields<ErrorField>,
}

/// Mathematical image of [`ErrorVariant`].
pub struct ErrorVariantV {
    pub ident: Seq<char>,
    pub description: ResolvedDescriptionV,
    pub from_impls: Seq<FromImplV>,
    pub fields: FieldsV<ErrorFieldV>,
}

impl DeepView for ErrorVariant {
    type V = ErrorVariantV;

    open spec fn deep_view(&self) -> ErrorVariantV {
        ErrorVariantV {
            ident: self.ident@,
            description: self.description.deep_view(),
            from_impls: self.from_impls.deep_view(),
            fields: self.fields.deep_view(),
        }
    }
}

/// The sole body of an annotated struct.
pub struct ErrorStruct {
    pub description: ResolvedDescription,
    pub from_impls: Vec<FromImpl>,
    pub fields: Fields<ErrorField>,
}

/// Mathematical image of [`ErrorStruct`].
pub struct ErrorStructV {
    pub description: ResolvedDescriptionV,
    pub from_impls: Seq<FromImplV>,
    pub fields: FieldsV<ErrorFieldV>,
}

impl DeepView for ErrorStruct {
    type V = ErrorStructV;

    open spec fn deep_view(&self) -> ErrorStructV {
        ErrorStructV {
            description: self.description.deep_view(),
            from_impls: self.from_impls.deep_view(),
            fields: self.fields.deep_view(),
        }
    }
}

/// The data of the whole annotated declaration.
pub enum ErrorData {
    Struct(ErrorStruct),
    Enum(Vec<ErrorVariant>),
}

/// Mathematical image of [`ErrorData`].
pub enum ErrorDataV {
    Struct(ErrorStructV),
    Enum(Seq<ErrorVariantV>),
}

impl DeepView for ErrorData {
    type V = ErrorDataV;

    open spec fn deep_view(&self) -> ErrorDataV {
        match self {
            ErrorData::Struct(s) => ErrorDataV::Struct(s.deep_view()),
            ErrorData::Enum(vs) => ErrorDataV::Enum(vs.deep_view()),
        }
    }
}

/// The type-level alias overrides.
pub struct ErrorTypeAttrs {
    pub error_type_name: TypeAliasName,
    pub result_type_name: TypeAliasName,
    pub kind_type_name: TypeAliasName,
}

/// Mathematical image of [`ErrorTypeAttrs`].
pub struct ErrorTypeAttrsV {
    pub error_type_name: TypeAliasNameV,
    pub result_type_name: TypeAliasNameV,
    pub kind_type_name: TypeAliasNameV,
}

impl DeepView for ErrorTypeAttrs {
    type V = ErrorTypeAttrsV;

    open spec fn deep_view(&self) -> ErrorTypeAttrsV {
        ErrorTypeAttrsV {
            error_type_name: self.error_type_name.deep_view(),
            result_type_name: self.result_type_name.deep_view(),
            kind_type_name: self.kind_type_name.deep_view(),
        }
    }
}

/// The whole error-type model.
pub struct ErrorType {
    pub ident: String,
    pub vis: Visibility,
    pub data: ErrorData,
    pub attrs: ErrorTypeAttrs,
    pub mod_name: String,
    pub mod_vis: Visibility,
    pub impls_from: Vec<FromImplFor>,
}

/// Mathematical image of [`ErrorType`].
pub struct ErrorTypeV {
    pub ident: Seq<char>,
    pub vis: VisibilityV,
    pub data: ErrorDataV,
    pub attrs: ErrorTypeAttrsV,
    pub mod_name: Seq<char>,
    pub mod_vis: VisibilityV,
    pub impls_from: Seq<FromImplForV>,
}

impl DeepView for ErrorType {
    type V = ErrorTypeV;

    open spec fn deep_view(&self) -> ErrorTypeV {
        ErrorTypeV {
            ident: self.ident@,
            vis: self.vis.deep_view(),
            data: self.data.deep_view(),
            attrs: self.attrs.deep_view(),
            mod_name: self.mod_name@,
            mod_vis: self.mod_vis.deep_view(),
            impls_from: self.impls_from.deep_view(),
        }
    }
}

// ---------------------------------------------------------------------------
// Building the model.
// ---------------------------------------------------------------------------

/// What finishing a field build yields once its attributes are read: the
/// collection must be exhausted.
pub open spec fn s_finish_field(
    attrs: Seq<AttrV>,
    ty: Seq<char>,
    included: bool,
    method: CopyMethod,
) -> Result<ErrorFieldV, ErrorV> {
    match s_close(attrs) {
        Ok(_) => Ok(ErrorFieldV { ty, include_in_kind: included, method }),
        Err(e) => Err(e),
    }
}

/// What building one field yields: `include_in_kind` defaults to false;
/// only an included field reads a strategy, from `method` or, failing that,
/// from the legacy boolean `clone` flag; any entry left unread rejects the
/// build.
pub open spec fn s_build_field(fd: FieldDeclV) -> Result<ErrorFieldV, ErrorV> {
    match s_collect(fd.attrs, "evitable"@) {
        Err(e) => Err(e),
        Ok(a0) => {
            let g1 = s_get_optional::<bool>(a0, "include_in_kind"@);
            match g1.1 {
                Err(e) => Err(e),
                Ok(inc_opt) => {
                    let included = match inc_opt {
                        Some(b) => b,
                        None => false,
                    };
                    if included {
                        let g2 = s_get_optional::<CopyMethod>(g1.0, "method"@);
                        match g2.1 {
                            Err(e) => Err(e),
                            Ok(Some(m)) => s_finish_field(g2.0, fd.ty, included, m),
                            Ok(None) => {
                                let g3 = s_get_optional::<bool>(g2.0, "clone"@);
                                match g3.1 {
                                    Err(e) => Err(e),
                                    Ok(c) => s_finish_field(
                                        g3.0,
                                        fd.ty,
                                        included,
                                        match c {
                                            None => CopyMethod::Copy,
                                            Some(true) => CopyMethod::Clone,
                                            Some(false) => CopyMethod::Copy,
                                        },
                                    ),
                                }
                            },
                        }
                    } else {
                        s_finish_field(g1.0, fd.ty, included, CopyMethod::Copy)
                    }
                },
            }
        },
    }
}

impl ErrorField {
    /// Builds one field of the model from its declaration.
    pub fn from_field(field: &FieldDecl) -> (r: FmResult<ErrorField>)
        ensures
            res_dv(r) == s_build_field(field.deep_view()),
    {
        let mut attrs = match Attrs::from_metas(&field.attrs, NAMESPACE) {
            Ok(a) => a,
            Err(e) => {
                return Err(e);
            },
        };
        let include_in_kind = match attrs.get_optional::<bool>("include_in_kind") {
            Ok(Some(b)) => b,
            Ok(None) => false,
            Err(e) => {
                return Err(e);
            },
        };
        let method = if include_in_kind {
            match attrs.get_optional::<CopyMethod>("method") {
                Err(e) => {
                    return Err(e);
                },
                Ok(Some(m)) => m,
                Ok(None) => match attrs.get_optional::<bool>("clone") {
                    Err(e) => {
                        return Err(e);
                    },
                    Ok(None) => CopyMethod::Copy,
                    Ok(Some(true)) => CopyMethod::Clone,
                    Ok(Some(false)) => CopyMethod::Copy,
                },
            }
        } else {
            CopyMethod::Copy
        };
        match attrs.ensure_used() {
            Err(e) => Err(e),
            Ok(_) => Ok(
                ErrorField { ty: field.ty.clone(), include_in_kind, method },
            ),
        }
    }
}

/// What building every named field yields, keeping names and order.
pub open spec fn s_build_named_fields(fs: Seq<NamedFieldV<FieldDeclV>>) -> Result<
    Seq<NamedFieldV<ErrorFieldV>>,
    ErrorV,
>
    decreases fs.len(),
{
    if fs.len() == 0 {
        Ok(Seq::empty())
    } else {
        match s_build_field(fs[0].value) {
            Err(e) => Err(e),
            Ok(v) => match s_build_named_fields(fs.drop_first()) {
                Err(e) => Err(e),
                Ok(rest) => Ok(seq![NamedFieldV { name: fs[0].name, value: v }] + rest),
            },
        }
    }
}

/// What building every positional field yields, keeping positions and
/// order.
pub open spec fn s_build_indexed_fields(fs: Seq<IndexedFieldV<FieldDeclV>>) -> Result<
    Seq<IndexedFieldV<ErrorFieldV>>,
    ErrorV,
>
    decreases fs.len(),
{
    if fs.len() == 0 {
        Ok(Seq::empty())
    } else {
        match s_build_field(fs[0].value) {
            Err(e) => Err(e),
            Ok(v) => match s_build_indexed_fields(fs.drop_first()) {
                Err(e) => Err(e),
                Ok(rest) => Ok(seq![IndexedFieldV { index: fs[0].index, value: v }] + rest),
            },
        }
    }
}

/// What building a whole field shape yields.
pub open spec fn s_build_fields(fields: FieldsV<FieldDeclV>) -> Result<
    FieldsV<ErrorFieldV>,
    ErrorV,
> {
    match fields {
        FieldsV::Unit => Ok(FieldsV::Unit),
        FieldsV::Named(fs) => match s_build_named_fields(fs) {
            Err(e) => Err(e),
            Ok(out) => Ok(FieldsV::Named(out)),
        },
        FieldsV::Unnamed(fs) => match s_build_indexed_fields(fs) {
            Err(e) => Err(e),
            Ok(out) => Ok(FieldsV::Unnamed(out)),
        },
    }
}

/// Builds every field of a declaration shape, keeping the shape.
pub fn build_fields(fields: &Fields<FieldDecl>) -> (r: FmResult<Fields<ErrorField>>)
    ensures
        res_dv(r) == s_build_fields(fields.deep_view()),
{
    match fields {
        Fields::Unit => Ok(Fields::Unit),
        Fields::Named(fs) => {
            let ghost fsd = fs.deep_view();
            let mut out: Vec<NamedField<ErrorField>> = Vec::new();
            let mut i: usize = 0;
            proof {
                assert(fsd.skip(0) =~= fsd);
            }
            while i < fs.len()
                invariant
                    0 <= i <= fs@.len(),
                    fs@.len() == fsd.len(),
                    fsd == fs.deep_view(),
                    fields.deep_view() == FieldsV::<FieldDeclV>::Named(fsd),
                    s_build_named_fields(fsd) == match s_build_named_fields(fsd.skip(i as int)) {
                        Err(e) => Err::<Seq<NamedFieldV<ErrorFieldV>>, ErrorV>(e),
                        Ok(rest) => Ok::<Seq<NamedFieldV<ErrorFieldV>>, ErrorV>(
                            out.deep_view() + rest,
                        ),
                    },
                decreases fs@.len() - i,
            {
                let ghost tail = fsd.skip(i as int);
                proof {
                    assert(tail[0] == fsd[i as int]);
                    assert(tail.drop_first() =~= fsd.skip(i as int + 1));
                }
                match ErrorField::from_field(&fs[i].value) {
                    Err(e) => {
                        return Err(e);
                    },
                    Ok(v) => {
                        let ghost pre = out.deep_view();
                        let entry = NamedField { name: fs[i].name.clone(), value: v };
                        let ghost entryd = entry.deep_view();
                        out.push(entry);
                        proof {
                            assert(out.deep_view() =~= pre.push(entryd));
                            if s_build_named_fields(fsd.skip(i as int + 1)) is Ok {
                                let rest = s_build_named_fields(fsd.skip(i as int + 1))->Ok_0;
                                assert(pre + (seq![entryd] + rest) =~= out.deep_view() + rest);
                            }
                        }
                    },
                }
                i = i + 1;
            }
            proof {
                assert(fsd.skip(fs@.len() as int) =~= Seq::<NamedFieldV<FieldDeclV>>::empty());
                assert(out.deep_view() + Seq::<NamedFieldV<ErrorFieldV>>::empty()
                    =~= out.deep_view());
            }
            Ok(Fields::Named(out))
        },
        Fields::Unnamed(fs) => {
            let ghost fsd = fs.deep_view();
            let mut out: Vec<IndexedField<ErrorField>> = Vec::new();
            let mut i: usize = 0;
            proof {
                assert(fsd.skip(0) =~= fsd);
            }
            while i < fs.len()
                invariant
                    0 <= i <= fs@.len(),
                    fs@.len() == fsd.len(),
                    fsd == fs.deep_view(),
                    fields.deep_view() == FieldsV::<FieldDeclV>::Unnamed(fsd),
                    s_build_indexed_fields(fsd) == match s_build_indexed_fields(
                        fsd.skip(i as int),
                    ) {
                        Err(e) => Err::<Seq<IndexedFieldV<ErrorFieldV>>, ErrorV>(e),
                        Ok(rest) => Ok::<Seq<IndexedFieldV<ErrorFieldV>>, ErrorV>(
                            out.deep_view() + rest,
                        ),
                    },
                decreases fs@.len() - i,
            {
                let ghost tail = fsd.skip(i as int);
                proof {
                    assert(tail[0] == fsd[i as int]);
                    assert(tail.drop_first() =~= fsd.skip(i as int + 1));
                }
                match ErrorField::from_field(&fs[i].value) {
                    Err(e) => {
                        return Err(e);
                    },
                    Ok(v) => {
                        let ghost pre = out.deep_view();
                        let entry = IndexedField { index: fs[i].index, value: v };
                        let ghost entryd = entry.deep_view();
                        out.push(entry);
                        proof {
                            assert(out.deep_view() =~= pre.push(entryd));
                            if s_build_indexed_fields(fsd.skip(i as int + 1)) is Ok {
                                let rest = s_build_indexed_fields(fsd.skip(i as int + 1))->Ok_0;
                                assert(pre + (seq![entryd] + rest) =~= out.deep_view() + rest);
                            }
                        }
                    },
                }
                i = i + 1;
            }
            proof {
                assert(fsd.skip(fs@.len() as int) =~= Seq::<IndexedFieldV<FieldDeclV>>::empty());
                assert(out.deep_view() + Seq::<IndexedFieldV<ErrorFieldV>>::empty()
                    =~= out.deep_view());
            }
            Ok(Fields::Unnamed(out))
        },
    }
}

/// What building one variant yields: its fields, a required description
/// resolved against them, its declared conversions, and an exhausted
/// attribute collection.
pub open spec fn s_build_variant(vd: VariantDeclV) -> Result<ErrorVariantV, ErrorV> {
    match s_collect(vd.attrs, "evitable"@) {
        Err(e) => Err(e),
        Ok(a0) => match s_build_fields(vd.fields) {
            Err(e) => Err(e),
            Ok(fields) => {
                let g1 = s_get_required::<Description>(a0, "description"@);
                match g1.1 {
                    Err(e) => Err(e),
                    Ok(desc) => match s_resolve_desc(None, fields, desc) {
                        Err(e) => Err(e),
                        Ok(rdesc) => {
                            let g2 = s_get_list::<FromImpl>(g1.0, "from"@);
                            match g2.1 {
                                Err(e) => Err(e),
                                Ok(froms) => match s_close(g2.0) {
                                    Err(e) => Err(e),
                                    Ok(_) => Ok(
                                        ErrorVariantV {
                                            ident: vd.ident,
                                            description: rdesc,
                                            from_impls: froms,
                                            fields,
                                        },
                                    ),
                                },
                            }
                        },
                    },
                }
            },
        },
    }
}

impl ErrorVariant {
    /// Builds one variant of the model from its declaration.
    pub fn from_variant(variant: &VariantDecl) -> (r: FmResult<ErrorVariant>)
        ensures
            res_dv(r) == s_build_variant(variant.deep_view()),
    {
        let mut attrs = match Attrs::from_metas(&variant.attrs, NAMESPACE) {
            Ok(a) => a,
            Err(e) => {
                return Err(e);
            },
        };
        let fields = match build_fields(&variant.fields) {
            Ok(f) => f,
            Err(e) => {
                return Err(e);
            },
        };
        let description = match attrs.get_required::<Description>("description") {
            Ok(d) => d,
            Err(e) => {
                return Err(e);
            },
        };
        let description = match description.resolve_from_variant(&fields) {
            Ok(d) => d,
            Err(e) => {
                return Err(e);
            },
        };
        let from_impls = match attrs.get_list::<FromImpl>("from") {
            Ok(f) => f,
            Err(e) => {
                return Err(e);
            },
        };
        match attrs.ensure_used() {
            Err(e) => Err(e),
            Ok(_) => Ok(
                ErrorVariant { ident: variant.ident.clone(), description, from_impls, fields },
            ),
        }
    }
}

impl ErrorTypeAttrs {
    /// Reads the three alias overrides from a type's attribute collection.
    pub fn from_attrs(attrs: &mut Attrs) -> (r: FmResult<ErrorTypeAttrs>)
        ensures
            ({
                let g1 = s_get_optional::<TypeAliasName>(old(attrs).deep_view(), "error_type"@);
                let g2 = s_get_optional::<TypeAliasName>(g1.0, "result_type"@);
                let g3 = s_get_optional::<TypeAliasName>(g2.0, "kind_type"@);
                match g1.1 {
                    Err(e) => res_dv(r) == Err::<ErrorTypeAttrsV, ErrorV>(e)
                        && final(attrs).deep_view() == g1.0,
                    Ok(et) => match g2.1 {
                        Err(e) => res_dv(r) == Err::<ErrorTypeAttrsV, ErrorV>(e)
                            && final(attrs).deep_view() == g2.0,
                        Ok(rt) => match g3.1 {
                            Err(e) => res_dv(r) == Err::<ErrorTypeAttrsV, ErrorV>(e)
                                && final(attrs).deep_view() == g3.0,
                            Ok(kt) => res_dv(r) == Ok::<ErrorTypeAttrsV, ErrorV>(
                                ErrorTypeAttrsV {
                                    error_type_name: alias_or_default(et),
                                    result_type_name: alias_or_default(rt),
                                    kind_type_name: alias_or_default(kt),
                                },
                            ) && final(attrs).deep_view() == g3.0,
                        },
                    },
                }
            }),
    {
        let error_type_name = match attrs.get_optional::<TypeAliasName>("error_type") {
            Ok(Some(t)) => t,
            Ok(None) => TypeAliasName::Default,
            Err(e) => {
                return Err(e);
            },
        };
        let result_type_name = match attrs.get_optional::<TypeAliasName>("result_type") {
            Ok(Some(t)) => t,
            Ok(None) => TypeAliasName::Default,
            Err(e) => {
                return Err(e);
            },
        };
        let kind_type_name = match attrs.get_optional::<TypeAliasName>("kind_type") {
            Ok(Some(t)) => t,
            Ok(None) => TypeAliasName::Default,
            Err(e) => {
                return Err(e);
            },
        };
        Ok(ErrorTypeAttrs { error_type_name, result_type_name, kind_type_name })
    }
}

/// An absent alias override is the conventional name.
pub open spec fn alias_or_default(t: Option<TypeAliasNameV>) -> TypeAliasNameV {
    match t {
        Some(v) => v,
        None => TypeAliasNameV::Default,
    }
}

// ---------------------------------------------------------------------------
// The whole-type build.
// ---------------------------------------------------------------------------

/// The annotated declaration: identity, visibility, type-level attribute
/// nodes, and its data.
pub struct TypeDecl {
    pub ident: String,
    pub vis: Visibility,
    pub attrs: Vec<Meta>,
    pub data: DataDecl,
}

/// The declaration's data: a struct body, enum variants, or a union (which
/// the generator does not support).
pub enum DataDecl {
    Struct(Fields<FieldDecl>),
    Enum(Vec<VariantDecl>),
    Union,
}

/// What reading the three alias overrides yields, and the collection state
/// it leaves behind.
pub open spec fn s_build_type_attrs(a0: Seq<AttrV>) -> (Seq<AttrV>, Result<
    ErrorTypeAttrsV,
    ErrorV,
>) {
    let g1 = s_get_optional::<TypeAliasName>(a0, "error_type"@);
    let g2 = s_get_optional::<TypeAliasName>(g1.0, "result_type"@);
    let g3 = s_get_optional::<TypeAliasName>(g2.0, "kind_type"@);
    match g1.1 {
        Err(e) => (g1.0, Err(e)),
        Ok(et) => match g2.1 {
            Err(e) => (g2.0, Err(e)),
            Ok(rt) => match g3.1 {
                Err(e) => (g3.0, Err(e)),
                Ok(kt) => (
                    g3.0,
                    Ok(
                        ErrorTypeAttrsV {
                            error_type_name: alias_or_default(et),
                            result_type_name: alias_or_default(rt),
                            kind_type_name: alias_or_default(kt),
                        },
                    ),
                ),
            },
        },
    }
}

/// What binding every conversion of a struct body yields.
pub open spec fn s_froms_of_struct(
    froms: Seq<FromImplV>,
    fields: FieldsV<ErrorFieldV>,
    mod_name: Seq<char>,
    owner: Seq<char>,
) -> Result<Seq<FromImplForV>, ErrorV>
    decreases froms.len(),
{
    if froms.len() == 0 {
        Ok(Seq::empty())
    } else {
        match s_struct_ctor(fields) {
            Err(e) => Err(e),
            Ok(ctor) => match s_froms_of_struct(froms.drop_first(), fields, mod_name, owner) {
                Err(e) => Err(e),
                Ok(rest) => Ok(
                    seq![
                        FromImplForV { from_impl: froms[0], mod_name, owner, ctor },
                    ] + rest,
                ),
            },
        }
    }
}

/// What binding every conversion of one variant yields.
pub open spec fn s_froms_of_variant(
    froms: Seq<FromImplV>,
    ident: Seq<char>,
    fields: FieldsV<ErrorFieldV>,
    mod_name: Seq<char>,
    owner: Seq<char>,
) -> Result<Seq<FromImplForV>, ErrorV>
    decreases froms.len(),
{
    if froms.len() == 0 {
        Ok(Seq::empty())
    } else {
        match s_variant_ctor(ident, fields) {
            Err(e) => Err(e),
            Ok(ctor) => match s_froms_of_variant(
                froms.drop_first(),
                ident,
                fields,
                mod_name,
                owner,
            ) {
                Err(e) => Err(e),
                Ok(rest) => Ok(
                    seq![
                        FromImplForV { from_impl: froms[0], mod_name, owner, ctor },
                    ] + rest,
                ),
            },
        }
    }
}

/// What binding the conversions of every variant yields, flattened in
/// variant order.
pub open spec fn s_froms_of_variants(
    vs: Seq<ErrorVariantV>,
    mod_name: Seq<char>,
    owner: Seq<char>,
) -> Result<Seq<FromImplForV>, ErrorV>
    decreases vs.len(),
{
    if vs.len() == 0 {
        Ok(Seq::empty())
    } else {
        match s_froms_of_variant(vs[0].from_impls, vs[0].ident, vs[0].fields, mod_name, owner) {
            Err(e) => Err(e),
            Ok(hs) => match s_froms_of_variants(vs.drop_first(), mod_name, owner) {
                Err(e) => Err(e),
                Ok(rest) => Ok(hs + rest),
            },
        }
    }
}

/// What binding every declared conversion of the whole declaration yields.
pub open spec fn s_impl_froms(
    data: ErrorDataV,
    mod_name: Seq<char>,
    owner: Seq<char>,
) -> Result<Seq<FromImplForV>, ErrorV> {
    match data {
        ErrorDataV::Struct(s) => s_froms_of_struct(s.from_impls, s.fields, mod_name, owner),
        ErrorDataV::Enum(vs) => s_froms_of_variants(vs, mod_name, owner),
    }
}

/// What assembling the whole model yields: the generated module's name and
/// stepped-in visibility, and every conversion bound, or the first failure.
pub open spec fn s_type_new(
    ident: Seq<char>,
    vis: VisibilityV,
    data: ErrorDataV,
    attrs: ErrorTypeAttrsV,
) -> Result<ErrorTypeV, ErrorV> {
    let mod_name = "evitable_"@ + snake_of(ident);
    match s_impl_froms(data, mod_name, ident) {
        Err(e) => Err(e),
        Ok(impls_from) => Ok(
            ErrorTypeV {
                ident,
                vis,
                data,
                attrs,
                mod_name,
                mod_vis: s_inherited(vis, 1),
                impls_from,
            },
        ),
    }
}

/// Binds every conversion of a struct body.
fn froms_for_struct(s: &ErrorStruct, mod_name: &str, owner: &str) -> (r: FmResult<
    Vec<FromImplFor>,
>)
    ensures
        res_dv(r) == s_froms_of_struct(
            s.from_impls.deep_view(),
            s.fields.deep_view(),
            mod_name@,
            owner@,
        ),
{
    let ghost fsd = s.from_impls.deep_view();
    let mut out: Vec<FromImplFor> = Vec::new();
    let mut i: usize = 0;
    proof {
        assert(fsd.skip(0) =~= fsd);
    }
    while i < s.from_impls.len()
        invariant
            0 <= i <= s.from_impls@.len(),
            s.from_impls@.len() == fsd.len(),
            fsd == s.from_impls.deep_view(),
            s_froms_of_struct(fsd, s.fields.deep_view(), mod_name@, owner@) == match
                s_froms_of_struct(fsd.skip(i as int), s.fields.deep_view(), mod_name@, owner@) {
                Err(e) => Err::<Seq<FromImplForV>, ErrorV>(e),
                Ok(rest) => Ok::<Seq<FromImplForV>, ErrorV>(out.deep_view() + rest),
            },
        decreases s.from_impls@.len() - i,
    {
        let ghost tail = fsd.skip(i as int);
        proof {
            assert(tail[0] == fsd[i as int]);
            assert(tail.drop_first() =~= fsd.skip(i as int + 1));
        }
        match s.from_impls[i].for_struct(s, mod_name, owner) {
            Err(e) => {
                return Err(e);
            },
            Ok(b) => {
                let ghost pre = out.deep_view();
                let ghost bd = b.deep_view();
                out.push(b);
                proof {
                    assert(out.deep_view() =~= pre.push(bd));
                    if s_froms_of_struct(fsd.skip(i as int + 1), s.fields.deep_view(), mod_name@,
                        owner@) is Ok {
                        let rest = s_froms_of_struct(
                            fsd.skip(i as int + 1),
                            s.fields.deep_view(),
                            mod_name@,
                            owner@,
                        )->Ok_0;
                        assert(pre + (seq![bd] + rest) =~= out.deep_view() + rest);
                    }
                }
            },
        }
        i = i + 1;
    }
    proof {
        assert(fsd.skip(s.from_impls@.len() as int) =~= Seq::<FromImplV>::empty());
        assert(out.deep_view() + Seq::<FromImplForV>::empty() =~= out.deep_view());
    }
    Ok(out)
}

/// Binds every conversion of one variant.
fn froms_for_variant(v: &ErrorVariant, mod_name: &str, owner: &str) -> (r: FmResult<
    Vec<FromImplFor>,
>)
    ensures
        res_dv(r) == s_froms_of_variant(
            v.from_impls.deep_view(),
            v.ident@,
            v.fields.deep_view(),
            mod_name@,
            owner@,
        ),
{
    let ghost fsd = v.from_impls.deep_view();
    let mut out: Vec<FromImplFor> = Vec::new();
    let mut i: usize = 0;
    proof {
        assert(fsd.skip(0) =~= fsd);
    }
    while i < v.from_impls.len()
        invariant
            0 <= i <= v.from_impls@.len(),
            v.from_impls@.len() == fsd.len(),
            fsd == v.from_impls.deep_view(),
            s_froms_of_variant(fsd, v.ident@, v.fields.deep_view(), mod_name@, owner@) == match
                s_froms_of_variant(fsd.skip(i as int), v.ident@, v.fields.deep_view(), mod_name@,
                owner@) {
                Err(e) => Err::<Seq<FromImplForV>, ErrorV>(e),
                Ok(rest) => Ok::<Seq<FromImplForV>, ErrorV>(out.deep_view() + rest),
            },
        decreases v.from_impls@.len() - i,
    {
        let ghost tail = fsd.skip(i as int);
        proof {
            assert(tail[0] == fsd[i as int]);
            assert(tail.drop_first() =~= fsd.skip(i as int + 1));
        }
        match v.from_impls[i].for_variant(v, mod_name, owner) {
            Err(e) => {
                return Err(e);
            },
            Ok(b) => {
                let ghost pre = out.deep_view();
                let ghost bd = b.deep_view();
                out.push(b);
                proof {
                    assert(out.deep_view() =~= pre.push(bd));
                    if s_froms_of_variant(fsd.skip(i as int + 1), v.ident@, v.fields.deep_view(),
                        mod_name@, owner@) is Ok {
                        let rest = s_froms_of_variant(
                            fsd.skip(i as int + 1),
                            v.ident@,
                            v.fields.deep_view(),
                            mod_name@,
                            owner@,
                        )->Ok_0;
                        assert(pre + (seq![bd] + rest) =~= out.deep_view() + rest);
                    }
                }
            },
        }
        i = i + 1;
    }
    proof {
        assert(fsd.skip(v.from_impls@.len() as int) =~= Seq::<FromImplV>::empty());
        assert(out.deep_view() + Seq::<FromImplForV>::empty() =~= out.deep_view());
    }
    Ok(out)
}

impl ErrorType {
    /// Binds every declared conversion of the whole declaration, in
    /// declaration order.
    pub fn impl_froms(data: &ErrorData, ident: &str, mod_name: &str) -> (r: FmResult<
        Vec<FromImplFor>,
    >)
        ensures
            res_dv(r) == s_impl_froms(data.deep_view(), mod_name@, ident@),
    {
        match data {
            ErrorData::Struct(s) => froms_for_struct(s, mod_name, ident),
            ErrorData::Enum(vs) => {
                let ghost vsd = vs.deep_view();
                let mut out: Vec<FromImplFor> = Vec::new();
                let mut i: usize = 0;
                proof {
                    assert(vsd.skip(0) =~= vsd);
                }
                while i < vs.len()
                    invariant
                        0 <= i <= vs@.len(),
                        vs@.len() == vsd.len(),
                        vsd == vs.deep_view(),
                        data.deep_view() == ErrorDataV::Enum(vsd),
                        s_froms_of_variants(vsd, mod_name@, ident@) == match s_froms_of_variants(
                            vsd.skip(i as int),
                            mod_name@,
                            ident@,
                        ) {
                            Err(e) => Err::<Seq<FromImplForV>, ErrorV>(e),
                            Ok(rest) => Ok::<Seq<FromImplForV>, ErrorV>(out.deep_view() + rest),
                        },
                    decreases vs@.len() - i,
                {
                    let ghost tail = vsd.skip(i as int);
                    proof {
                        assert(tail[0] == vsd[i as int]);
                        assert(tail.drop_first() =~= vsd.skip(i as int + 1));
                    }
                    match froms_for_variant(&vs[i], mod_name, ident) {
                        Err(e) => {
                            return Err(e);
                        },
                        Ok(mut hs) => {
                            let ghost pre = out.deep_view();
                            let ghost hsd = hs.deep_view();
                            out.append(&mut hs);
                            proof {
                                assert(out.deep_view() =~= pre + hsd);
                                if s_froms_of_variants(vsd.skip(i as int + 1), mod_name@, ident@)
                                    is Ok {
                                    let rest = s_froms_of_variants(
                                        vsd.skip(i as int + 1),
                                        mod_name@,
                                        ident@,
                                    )->Ok_0;
                                    assert(pre + (hsd + rest) =~= (pre + hsd) + rest);
                                }
                            }
                        },
                    }
                    i = i + 1;
                }
                proof {
                    assert(vsd.skip(vs@.len() as int) =~= Seq::<ErrorVariantV>::empty());
                    assert(out.deep_view() + Seq::<FromImplForV>::empty() =~= out.deep_view());
                }
                Ok(out)
            },
        }
    }

    /// Assembles the whole model: derives the generated module's name and
    /// visibility, and binds every declared conversion.
    pub fn new(
        ident: String,
        vis: Visibility,
        data: ErrorData,
        attrs: ErrorTypeAttrs,
    ) -> (r: FmResult<ErrorType>)
        requires
            vis.deep_view().wf(),
        ensures
            res_dv(r) == s_type_new(ident@, vis.deep_view(), data.deep_view(), attrs.deep_view()),
    {
        let mod_name = module_name_for(ident.as_str());
        let mod_vis = inherited(&vis, 1);
        let impls_from = match Self::impl_froms(&data, ident.as_str(), mod_name.as_str()) {
            Ok(v) => v,
            Err(e) => {
                return Err(e);
            },
        };
        Ok(ErrorType { ident, vis, data, attrs, mod_name, mod_vis, impls_from })
    }

    /// Builds the model of an annotated struct.
    pub fn from_struct(
        attrs: &Vec<Meta>,
        vis: &Visibility,
        ident: &str,
        fields: &Fields<FieldDecl>,
    ) -> (r: FmResult<ErrorType>)
        requires
            vis.deep_view().wf(),
        ensures
            res_dv(r) == s_build_struct(
                attrs.deep_view(),
                vis.deep_view(),
                ident@,
                fields.deep_view(),
            ),
    {
        let built = match build_fields(fields) {
            Ok(f) => f,
            Err(e) => {
                return Err(e);
            },
        };
        let mut evitable_attrs = match Attrs::from_metas(attrs, NAMESPACE) {
            Ok(a) => a,
            Err(e) => {
                return Err(e);
            },
        };
        let type_attrs = match ErrorTypeAttrs::from_attrs(&mut evitable_attrs) {
            Ok(a) => a,
            Err(e) => {
                return Err(e);
            },
        };
        let description = match evitable_attrs.get_required::<Description>("description") {
            Ok(d) => d,
            Err(e) => {
                return Err(e);
            },
        };
        let description = match description.resolve_from_inst(&built, "self") {
            Ok(d) => d,
            Err(e) => {
                return Err(e);
            },
        };
        let from_impls = match evitable_attrs.get_list::<FromImpl>("from") {
            Ok(f) => f,
            Err(e) => {
                return Err(e);
            },
        };
        match evitable_attrs.ensure_used() {
            Err(e) => {
                return Err(e);
            },
            Ok(_) => {},
        }
        let data = ErrorData::Struct(
            ErrorStruct { description, from_impls, fields: built },
        );
        Self::new(ident.to_owned(), vis.duplicate(), data, type_attrs)
    }

    /// Builds the model of an annotated enum.  Type-level attribute
    /// failures surface before variant failures.
    pub fn from_enum(
        attrs: &Vec<Meta>,
        vis: &Visibility,
        ident: &str,
        variants: &Vec<VariantDecl>,
    ) -> (r: FmResult<ErrorType>)
        requires
            vis.deep_view().wf(),
        ensures
            res_dv(r) == s_build_enum(
                attrs.deep_view(),
                vis.deep_view(),
                ident@,
                variants.deep_view(),
            ),
    {
        let built_result = build_variants(variants);
        let mut evitable_attrs = match Attrs::from_metas(attrs, NAMESPACE) {
            Ok(a) => a,
            Err(e) => {
                return Err(e);
            },
        };
        let type_attrs = match ErrorTypeAttrs::from_attrs(&mut evitable_attrs) {
            Ok(a) => a,
            Err(e) => {
                return Err(e);
            },
        };
        match evitable_attrs.ensure_used() {
            Err(e) => {
                return Err(e);
            },
            Ok(_) => {},
        }
        let built = match built_result {
            Ok(b) => b,
            Err(e) => {
                return Err(e);
            },
        };
        let data = ErrorData::Enum(built);
        Self::new(ident.to_owned(), vis.duplicate(), data, type_attrs)
    }

    /// Builds the model of any declaration; a union is an unsupported
    /// shape.
    pub fn from_decl(decl: &TypeDecl) -> (r: FmResult<ErrorType>)
        requires
            decl.vis.deep_view().wf(),
        ensures
            res_dv(r) == (match decl.data {
                DataDecl::Struct(fields) => s_build_struct(
                    decl.attrs.deep_view(),
                    decl.vis.deep_view(),
                    decl.ident@,
                    fields.deep_view(),
                ),
                DataDecl::Enum(vs) => s_build_enum(
                    decl.attrs.deep_view(),
                    decl.vis.deep_view(),
                    decl.ident@,
                    vs.deep_view(),
                ),
                DataDecl::Union => Err(ErrorV::UnsupportedShape("union"@)),
            }),
    {
        match &decl.data {
            DataDecl::Struct(fields) => Self::from_struct(
                &decl.attrs,
                &decl.vis,
                decl.ident.as_str(),
                fields,
            ),
            DataDecl::Enum(vs) => Self::from_enum(&decl.attrs, &decl.vis, decl.ident.as_str(), vs),
            DataDecl::Union => Err(Error::unsupported_shape("union")),
        }
    }
}

/// Builds every variant, in order, stopping at the first failure.
fn build_variants(variants: &Vec<VariantDecl>) -> (r: FmResult<Vec<ErrorVariant>>)
    ensures
        res_dv(r) == s_build_variants(variants.deep_view()),
{
    let ghost vsd = variants.deep_view();
    let mut built: Vec<ErrorVariant> = Vec::new();
    let mut i: usize = 0;
    proof {
        assert(vsd.skip(0) =~= vsd);
    }
    while i < variants.len()
        invariant
            0 <= i <= variants@.len(),
            variants@.len() == vsd.len(),
            vsd == variants.deep_view(),
            s_build_variants(vsd) == match s_build_variants(vsd.skip(i as int)) {
                Err(e) => Err::<Seq<ErrorVariantV>, ErrorV>(e),
                Ok(rest) => Ok::<Seq<ErrorVariantV>, ErrorV>(built.deep_view() + rest),
            },
        decreases variants@.len() - i,
    {
        let ghost tail = vsd.skip(i as int);
        proof {
            assert(tail[0] == vsd[i as int]);
            assert(tail.drop_first() =~= vsd.skip(i as int + 1));
        }
        match ErrorVariant::from_variant(&variants[i]) {
            Err(e) => {
                return Err(e);
            },
            Ok(v) => {
                let ghost pre = built.deep_view();
                let ghost vd = v.deep_view();
                built.push(v);
                proof {
                    assert(built.deep_view() =~= pre.push(vd));
                    if s_build_variants(vsd.skip(i as int + 1)) is Ok {
                        let rest = s_build_variants(vsd.skip(i as int + 1))->Ok_0;
                        assert(pre + (seq![vd] + rest) =~= built.deep_view() + rest);
                    }
                }
            },
        }
        i = i + 1;
    }
    proof {
        assert(vsd.skip(variants@.len() as int) =~= Seq::<VariantDeclV>::empty());
        assert(built.deep_view() + Seq::<ErrorVariantV>::empty() =~= built.deep_view());
    }
    Ok(built)
}

/// What building every variant yields, in order.
pub open spec fn s_build_variants(vs: Seq<VariantDeclV>) -> Result<Seq<ErrorVariantV>, ErrorV>
    decreases vs.len(),
{
    if vs.len() == 0 {
        Ok(Seq::empty())
    } else {
        match s_build_variant(vs[0]) {
            Err(e) => Err(e),
            Ok(v) => match s_build_variants(vs.drop_first()) {
                Err(e) => Err(e),
                Ok(rest) => Ok(seq![v] + rest),
            },
        }
    }
}

/// What building a whole annotated struct yields.
pub open spec fn s_build_struct(
    attrs: Seq<MetaV>,
    vis: VisibilityV,
    ident: Seq<char>,
    fields: FieldsV<FieldDeclV>,
) -> Result<ErrorTypeV, ErrorV> {
    match s_build_fields(fields) {
        Err(e) => Err(e),
        Ok(built) => match s_collect(attrs, "evitable"@) {
            Err(e) => Err(e),
            Ok(a0) => {
                let ta = s_build_type_attrs(a0);
                match ta.1 {
                    Err(e) => Err(e),
                    Ok(type_attrs) => {
                        let g1 = s_get_required::<Description>(ta.0, "description"@);
                        match g1.1 {
                            Err(e) => Err(e),
                            Ok(desc) => match s_resolve_desc(Some("self"@), built, desc) {
                                Err(e) => Err(e),
                                Ok(rdesc) => {
                                    let g2 = s_get_list::<FromImpl>(g1.0, "from"@);
                                    match g2.1 {
                                        Err(e) => Err(e),
                                        Ok(froms) => match s_close(g2.0) {
                                            Err(e) => Err(e),
                                            Ok(_) => s_type_new(
                                                ident,
                                                vis,
                                                ErrorDataV::Struct(
                                                    ErrorStructV {
                                                        description: rdesc,
                                                        from_impls: froms,
                                                        fields: built,
                                                    },
                                                ),
                                                type_attrs,
                                            ),
                                        },
                                    }
                                },
                            },
                        }
                    },
                }
            },
        },
    }
}

/// What building a whole annotated enum yields.
pub open spec fn s_build_enum(
    attrs: Seq<MetaV>,
    vis: VisibilityV,
    ident: Seq<char>,
    variants: Seq<VariantDeclV>,
) -> Result<ErrorTypeV, ErrorV> {
    match s_collect(attrs, "evitable"@) {
        Err(e) => Err(e),
        Ok(a0) => {
            let ta = s_build_type_attrs(a0);
            match ta.1 {
                Err(e) => Err(e),
                Ok(type_attrs) => match s_close(ta.0) {
                    Err(e) => Err(e),
                    Ok(_) => match s_build_variants(variants) {
                        Err(e) => Err(e),
                        Ok(built) => s_type_new(ident, vis, ErrorDataV::Enum(built), type_attrs),
                    },
                },
            }
        },
    }
}

/// A field with no attributes takes the defaults: not part of the
/// discriminant, with the direct duplication strategy.
pub proof fn lemma_field_defaults(ty: Seq<char>)
    ensures
        s_build_field(FieldDeclV { attrs: Seq::empty(), ty }) == Ok::<ErrorFieldV, ErrorV>(
            ErrorFieldV { ty, include_in_kind: false, method: CopyMethod::Copy },
        ),
{
}

} // verus!



