//! Declared conversions from external error types.
//!
//! A `from` attribute names one external error type; a conversion is only
//! generated for a fieldless shape (a unit declaration, or a named or
//! positional body with zero fields), since a generated conversion has no
//! way to populate fields from the incoming external error.

use vstd::prelude::*;
use crate::error::{Error, ErrorV, FmResult, res_dv};
use crate::fields::FieldsV;
use crate::from_meta::FromMeta;
use crate::meta::{Lit, Meta, MetaValue, NestedMeta, Path, PathV, path_dv, lemma_vec_nested_dv};
use crate::model::{ErrorStruct, ErrorVariant};

verus! {

/// One declared conversion source: the path of the external error type.
pub struct FromImpl {
    pub path: Path,
}

/// Mathematical image of [`FromImpl`].
pub struct FromImplV {
    pub path: PathV,
}

impl DeepView for FromImpl {
    type V = FromImplV;

    open spec fn deep_view(&self) -> FromImplV {
        FromImplV { path: path_dv(self.path) }
    }
}

/// A conversion source accepts any path.
impl FromMeta for FromImpl {
    open spec fn s_from_path(value: PathV) -> Result<FromImplV, ErrorV> {
        Ok(FromImplV { path: value })
    }

    fn from_empty() -> (r: FmResult<FromImpl>) {
        Err(Error::unsupported_format("empty"))
    }

    fn from_bool(value: bool) -> (r: FmResult<FromImpl>) {
        Err(Error::unexpected_type("bool"))
    }

    fn from_char(value: char) -> (r: FmResult<FromImpl>) {
        Err(Error::unexpected_type("char"))
    }

    fn from_int(value: u64) -> (r: FmResult<FromImpl>) {
        Err(Error::unexpected_type("int"))
    }

    fn from_string(value: &str) -> (r: FmResult<FromImpl>) {
        Err(Error::unexpected_type("string"))
    }

    fn from_ident(value: &str) -> (r: FmResult<FromImpl>) {
        Err(Error::unexpected_type("ident"))
    }

    fn from_path(value: &Path) -> (r: FmResult<FromImpl>) {
        Ok(FromImpl { path: value.duplicate() })
    }

    fn from_lit(lit: &Lit) -> (r: FmResult<FromImpl>) {
        match lit {
            Lit::Bool(b) => Self::from_bool(*b),
            Lit::Str(s) => Self::from_string(s.as_str()),
            Lit::Char(c) => Self::from_char(*c),
            Lit::Int(v, _) => Self::from_int(*v),
            Lit::Float(_) => Err(Error::unexpected_lit_type(lit)),
        }
    }

    fn from_list(items: &Vec<NestedMeta>) -> (r: FmResult<FromImpl>) {
        if items.len() == 0 {
            Self::from_empty()
        } else if items.len() == 1 {
            Self::from_nested_meta(&items[0])
        } else {
            Err(Error::unsupported_format("list"))
        }
    }

    fn from_value(value: &MetaValue) -> (r: FmResult<FromImpl>) {
        match value {
            MetaValue::Path(p) => Self::from_path(p),
            MetaValue::Lit(l) => Self::from_lit(l),
        }
    }

    fn from_nested_meta(item: &NestedMeta) -> (r: FmResult<FromImpl>) {
        match item {
            NestedMeta::Lit(l) => Self::from_lit(l),
            NestedMeta::Meta(m) => match m {
                Meta::Path(p) => Self::from_path(p),
                Meta::NameValue(_) => Err(Error::unexpected_type("name value")),
                Meta::List(_) => Err(Error::unexpected_type("list")),
            },
        }
    }

    fn from_meta(item: &Meta) -> (r: FmResult<FromImpl>) {
        match item {
            Meta::Path(_) => Self::from_empty(),
            Meta::List(ml) => {
                proof {
                    lemma_vec_nested_dv(ml.nested);
                }
                Self::from_list(&ml.nested)
            },
            Meta::NameValue(nv) => Self::from_value(&nv.val),
        }
    }
}

/// The construction expression shape for a conversion target.
#[derive(Debug, PartialEq, Eq)]
pub enum Constructor {
    /// `struct Foo;`
    Unit,
    /// `struct Foo {}`
    Named,
    /// `struct Foo();`
    Unnamed,
    /// `enum Foo { Variant }`
    VariantUnit(String),
    /// `enum Foo { Variant {} }`
    VariantNamed(String),
    /// `enum Foo { Variant() }`
    VariantUnnamed(String),
}

/// Mathematical image of [`Constructor`].
pub enum ConstructorV {
    Unit,
    Named,
    Unnamed,
    VariantUnit(Seq<char>),
    VariantNamed(Seq<char>),
    VariantUnnamed(Seq<char>),
}

impl DeepView for Constructor {
    type V = ConstructorV;

    open spec fn deep_view(&self) -> ConstructorV {
        match self {
            Constructor::Unit => ConstructorV::Unit,
            Constructor::Named => ConstructorV::Named,
            Constructor::Unnamed => ConstructorV::Unnamed,
            Constructor::VariantUnit(v) => ConstructorV::VariantUnit(v@),
            Constructor::VariantNamed(v) => ConstructorV::VariantNamed(v@),
            Constructor::VariantUnnamed(v) => ConstructorV::VariantUnnamed(v@),
        }
    }
}

/// A conversion bound to its target: the source path, the generated module,
/// the owning type, and how to construct the fieldless context value.
pub struct FromImplFor {
    pub from_impl: FromImpl,
    pub mod_name: String,
    pub owner: String,
    pub ctor: Constructor,
}

/// Mathematical image of [`FromImplFor`].
pub struct FromImplForV {
    pub from_impl: FromImplV,
    pub mod_name: Seq<char>,
    pub owner: Seq<char>,
    pub ctor: ConstructorV,
}

impl DeepView for FromImplFor {
    type V = FromImplForV;

    open spec fn deep_view(&self) -> FromImplForV {
        FromImplForV {
            from_impl: self.from_impl.deep_view(),
            mod_name: self.mod_name@,
            owner: self.owner@,
            ctor: self.ctor.deep_view(),
        }
    }
}

/// What binding a conversion to a struct body yields: a constructor for a
/// fieldless shape; an unsupported-shape failure for any shape with fields.
pub open spec fn s_struct_ctor<V>(fields: FieldsV<V>) -> Result<ConstructorV, ErrorV> {
    match fields {
        FieldsV::Unit => Ok(ConstructorV::Unit),
        FieldsV::Named(f) => if f.len() == 0 {
            Ok(ConstructorV::Named)
        } else {
            Err(ErrorV::UnsupportedShape(
                "Can't derive From for context types that has fields."@,
            ))
        },
        FieldsV::Unnamed(f) => if f.len() == 0 {
            Ok(ConstructorV::Unnamed)
        } else {
            Err(ErrorV::UnsupportedShape(
                "Can't derive From for context types that has fields."@,
            ))
        },
    }
}

/// What binding a conversion to one enum variant yields.
pub open spec fn s_variant_ctor<V>(ident: Seq<char>, fields: FieldsV<V>) -> Result<
    ConstructorV,
    ErrorV,
> {
    match fields {
        FieldsV::Unit => Ok(ConstructorV::VariantUnit(ident)),
        FieldsV::Named(f) => if f.len() == 0 {
            Ok(ConstructorV::VariantNamed(ident))
        } else {
            Err(ErrorV::UnsupportedShape(
                "Can't derive From for context types that has fields."@,
            ))
        },
        FieldsV::Unnamed(f) => if f.len() == 0 {
            Ok(ConstructorV::VariantUnnamed(ident))
        } else {
            Err(ErrorV::UnsupportedShape(
                "Can't derive From for context types that has fields."@,
            ))
        },
    }
}

impl FromImpl {
    /// An exact copy, with a contract.
    pub fn duplicate(&self) -> (r: FromImpl)
        ensures
            r.deep_view() == self.deep_view(),
    {
        FromImpl { path: self.path.duplicate() }
    }

    /// Binds this conversion to a struct body.  Succeeds exactly when the
    /// body is fieldless; a body with one or more fields is an unsupported
    /// shape.
    pub fn for_struct(&self, struct_data: &ErrorStruct, mod_name: &str, ty: &str) -> (r: FmResult<
        FromImplFor,
    >)
        ensures
            res_dv(r) == (match s_struct_ctor(struct_data.fields.deep_view()) {
                Err(e) => Err::<FromImplForV, ErrorV>(e),
                Ok(ctor) => Ok::<FromImplForV, ErrorV>(
                    FromImplForV {
                        from_impl: self.deep_view(),
                        mod_name: mod_name@,
                        owner: ty@,
                        ctor,
                    },
                ),
            }),
    {
        let ctor = match &struct_data.fields {
            crate::fields::Fields::Unit => Constructor::Unit,
            crate::fields::Fields::Named(f) => if f.len() == 0 {
                Constructor::Named
            } else {
                return Err(
                    Error::unsupported_shape(
                        "Can't derive From for context types that has fields.",
                    ),
                );
            },
            crate::fields::Fields::Unnamed(f) => if f.len() == 0 {
                Constructor::Unnamed
            } else {
                return Err(
                    Error::unsupported_shape(
                        "Can't derive From for context types that has fields.",
                    ),
                );
            },
        };
        Ok(
            FromImplFor {
                from_impl: self.duplicate(),
                mod_name: mod_name.to_owned(),
                owner: ty.to_owned(),
                ctor,
            },
        )
    }

    /// Binds this conversion to one enum variant.  Succeeds exactly when
    /// the variant is fieldless.
    pub fn for_variant(&self, variant: &ErrorVariant, mod_name: &str, ty: &str) -> (r: FmResult<
        FromImplFor,
    >)
        ensures
            res_dv(r) == (match s_variant_ctor(variant.ident@, variant.fields.deep_view()) {
                Err(e) => Err::<FromImplForV, ErrorV>(e),
                Ok(ctor) => Ok::<FromImplForV, ErrorV>(
                    FromImplForV {
                        from_impl: self.deep_view(),
                        mod_name: mod_name@,
                        owner: ty@,
                        ctor,
                    },
                ),
            }),
    {
        let ctor = match &variant.fields {
            crate::fields::Fields::Unit => Constructor::VariantUnit(variant.ident.clone()),
            crate::fields::Fields::Named(f) => if f.len() == 0 {
                Constructor::VariantNamed(variant.ident.clone())
            } else {
                return Err(
                    Error::unsupported_shape(
                        "Can't derive From for context types that has fields.",
                    ),
                );
            },
            crate::fields::Fields::Unnamed(f) => if f.len() == 0 {
                Constructor::VariantUnnamed(variant.ident.clone())
            } else {
                return Err(
                    Error::unsupported_shape(
                        "Can't derive From for context types that has fields.",
                    ),
                );
            },
        };
        Ok(
            FromImplFor {
                from_impl: self.duplicate(),
                mod_name: mod_name.to_owned(),
                owner: ty.to_owned(),
                ctor,
            },
        )
    }
}

/// A conversion may only target a fieldless shape: binding one to a shape
/// with any field fails with an unsupported-shape diagnostic, and binding
/// one to a fieldless shape always succeeds.
pub proof fn lemma_conversion_requires_fieldless<V>(fields: FieldsV<V>)
    ensures
        (s_struct_ctor(fields) is Ok) <==> fields.is_fieldless(),
        !fields.is_fieldless() ==> s_struct_ctor(fields) == Err::<ConstructorV, ErrorV>(
            ErrorV::UnsupportedShape("Can't derive From for context types that has fields."@),
        ),
        forall|ident: Seq<char>| (#[trigger] s_variant_ctor(ident, fields) is Ok)
            <==> fields.is_fieldless(),
{
}

} // verus!
