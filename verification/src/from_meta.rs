//! Typed extraction of values from attribute grammar nodes.
//!
//! A target type implements [`FromMeta`] by supplying a hook for each node
//! shape it accepts (`from_bool`, `from_string`, ...) together with the spec
//! hook saying exactly what the extraction yields.  Every spec hook a type
//! does not override keeps its trait-level default, which either fails with
//! an "unexpected type" diagnostic (the leaf hooks) or dispatches on the node
//! shape (`s_from_meta`, `s_from_nested_meta`, `s_from_value`, `s_from_lit`,
//! `s_from_list`, `s_from_path`).  Adding a new attribute value type
//! therefore needs no change to the dispatch rules.

use vstd::prelude::*;
use crate::error::{Error, ErrorV, FmResult, res_dv};
use crate::meta::{
    seg_join,
    Lit, LitV, Meta, MetaV, MetaValue, MetaValueV, NestedMeta, NestedMetaV, Path, PathV,
    lemma_vec_nested_dv,
};
use crate::util::{parse_dec, dec_str, str_parse_u64, u64_to_string, str_eq};

verus! {

/// Typed extraction from one attribute grammar node.
///
/// The four dispatchers (`from_meta`, `from_nested_meta`, `from_value`,
/// `from_lit`) generally keep the shared shape-directed behaviour; the leaf
/// hooks say which shapes the type accepts.
pub trait FromMeta: Sized + DeepView {
    /// What extraction from the bare presence of the word yields.
    open spec fn s_from_empty() -> Result<Self::V, ErrorV> {
        Err(ErrorV::UnsupportedFormat("empty"@))
    }

    /// What extraction from a boolean literal yields.
    open spec fn s_from_bool(value: bool) -> Result<Self::V, ErrorV> {
        Err(ErrorV::UnexpectedType("bool"@))
    }

    /// What extraction from a char literal yields.
    open spec fn s_from_char(value: char) -> Result<Self::V, ErrorV> {
        Err(ErrorV::UnexpectedType("char"@))
    }

    /// What extraction from an integer literal yields.
    open spec fn s_from_int(value: u64) -> Result<Self::V, ErrorV> {
        Err(ErrorV::UnexpectedType("int"@))
    }

    /// What extraction from a string literal yields.
    open spec fn s_from_string(value: Seq<char>) -> Result<Self::V, ErrorV> {
        Err(ErrorV::UnexpectedType("string"@))
    }

    /// What extraction from a single bare identifier yields.
    open spec fn s_from_ident(value: Seq<char>) -> Result<Self::V, ErrorV> {
        Err(ErrorV::UnexpectedType("ident"@))
    }

    /// What extraction from a path yields: a plain one-segment path is its
    /// identifier, any other path fails.
    open spec fn s_from_path(value: PathV) -> Result<Self::V, ErrorV> {
        match value.single_ident() {
            Some(id) => Self::s_from_ident(id),
            None => Err(ErrorV::UnexpectedType("path"@)),
        }
    }

    /// What extraction from a literal yields, by literal subtype.
    open spec fn s_from_lit(lit: LitV) -> Result<Self::V, ErrorV> {
        match lit {
            LitV::Bool(b) => Self::s_from_bool(b),
            LitV::Str(s) => Self::s_from_string(s),
            LitV::Char(c) => Self::s_from_char(c),
            LitV::Int(v, _) => Self::s_from_int(v),
            LitV::Float(_) => Err(ErrorV::UnexpectedLitType(lit)),
        }
    }

    /// What extraction from the item sequence of a list node yields: zero
    /// items is the word form, one item is single-item extraction, more are
    /// not accepted by default.
    open spec fn s_from_list(items: Seq<NestedMetaV>) -> Result<Self::V, ErrorV> {
        if items.len() == 0 {
            Self::s_from_empty()
        } else if items.len() == 1 {
            Self::s_from_nested_meta(items[0])
        } else {
            Err(ErrorV::UnsupportedFormat("list"@))
        }
    }

    /// What extraction from the right-hand side of a name/value node yields.
    open spec fn s_from_value(value: MetaValueV) -> Result<Self::V, ErrorV> {
        match value {
            MetaValueV::Path(p) => Self::s_from_path(p),
            MetaValueV::Lit(l) => Self::s_from_lit(l),
        }
    }

    /// What extraction from one list item yields: a literal, or a structured
    /// node that must be a bare path.
    open spec fn s_from_nested_meta(item: NestedMetaV) -> Result<Self::V, ErrorV> {
        match item {
            NestedMetaV::Lit(l) => Self::s_from_lit(l),
            NestedMetaV::Meta(m) => match m {
                MetaV::Path(p) => Self::s_from_path(p),
                MetaV::NameValue(_) => Err(ErrorV::UnexpectedType("name value"@)),
                MetaV::List(_) => Err(ErrorV::UnexpectedType("list"@)),
            },
        }
    }

    /// What extraction from a whole node yields, by node shape.
    open spec fn s_from_meta(item: MetaV) -> Result<Self::V, ErrorV> {
        match item {
            MetaV::Path(_) => Self::s_from_empty(),
            MetaV::List(ml) => Self::s_from_list(ml.nested),
            MetaV::NameValue(nv) => Self::s_from_value(nv.val),
        }
    }

    fn from_empty() -> (r: FmResult<Self>)
        ensures
            res_dv(r) == Self::s_from_empty(),
    ;

    fn from_bool(value: bool) -> (r: FmResult<Self>)
        ensures
            res_dv(r) == Self::s_from_bool(value),
    ;

    fn from_char(value: char) -> (r: FmResult<Self>)
        ensures
            res_dv(r) == Self::s_from_char(value),
    ;

    fn from_int(value: u64) -> (r: FmResult<Self>)
        ensures
            res_dv(r) == Self::s_from_int(value),
    ;

    fn from_string(value: &str) -> (r: FmResult<Self>)
        ensures
            res_dv(r) == Self::s_from_string(value@),
    ;

    fn from_ident(value: &str) -> (r: FmResult<Self>)
        ensures
            res_dv(r) == Self::s_from_ident(value@),
    ;

    fn from_path(value: &Path) -> (r: FmResult<Self>)
        ensures
            res_dv(r) == Self::s_from_path(value.deep_view()),
    ;

    fn from_lit(lit: &Lit) -> (r: FmResult<Self>)
        ensures
            res_dv(r) == Self::s_from_lit(lit.deep_view()),
    ;

    fn from_list(items: &Vec<NestedMeta>) -> (r: FmResult<Self>)
        ensures
            res_dv(r) == Self::s_from_list(items.deep_view()),
    ;

    fn from_value(value: &MetaValue) -> (r: FmResult<Self>)
        ensures
            res_dv(r) == Self::s_from_value(value.deep_view()),
    ;

    fn from_nested_meta(item: &NestedMeta) -> (r: FmResult<Self>)
        ensures
            res_dv(r) == Self::s_from_nested_meta(item.deep_view()),
    ;

    fn from_meta(item: &Meta) -> (r: FmResult<Self>)
        ensures
            res_dv(r) == Self::s_from_meta(item.deep_view()),
    ;
}

/// The unit type accepts exactly the bare word form.
impl FromMeta for () {
    open spec fn s_from_empty() -> Result<(), ErrorV> {
        Ok(())
    }

    fn from_empty() -> (r: FmResult<()>) {
        Ok(())
    }

    fn from_bool(value: bool) -> (r: FmResult<()>) {
        Err(Error::unexpected_type("bool"))
    }

    fn from_char(value: char) -> (r: FmResult<()>) {
        Err(Error::unexpected_type("char"))
    }

    fn from_int(value: u64) -> (r: FmResult<()>) {
        Err(Error::unexpected_type("int"))
    }

    fn from_string(value: &str) -> (r: FmResult<()>) {
        Err(Error::unexpected_type("string"))
    }

    fn from_ident(value: &str) -> (r: FmResult<()>) {
        Err(Error::unexpected_type("ident"))
    }

    fn from_path(value: &Path) -> (r: FmResult<()>) {
        match value.single_ident() {
            Some(id) => Self::from_ident(id.as_str()),
            None => Err(Error::unexpected_type("path")),
        }
    }

    fn from_lit(lit: &Lit) -> (r: FmResult<()>) {
        match lit {
            Lit::Bool(b) => Self::from_bool(*b),
            Lit::Str(s) => Self::from_string(s.as_str()),
            Lit::Char(c) => Self::from_char(*c),
            Lit::Int(v, _) => Self::from_int(*v),
            Lit::Float(_) => Err(Error::unexpected_lit_type(lit)),
        }
    }

    fn from_list(items: &Vec<NestedMeta>) -> (r: FmResult<()>) {
        if items.len() == 0 {
            Self::from_empty()
        } else if items.len() == 1 {
            Self::from_nested_meta(&items[0])
        } else {
            Err(Error::unsupported_format("list"))
        }
    }

    fn from_value(value: &MetaValue) -> (r: FmResult<()>) {
        match value {
            MetaValue::Path(p) => Self::from_path(p),
            MetaValue::Lit(l) => Self::from_lit(l),
        }
    }

    fn from_nested_meta(item: &NestedMeta) -> (r: FmResult<()>) {
        match item {
            NestedMeta::Lit(l) => Self::from_lit(l),
            NestedMeta::Meta(m) => match m {
                Meta::Path(p) => Self::from_path(p),
                Meta::NameValue(_) => Err(Error::unexpected_type("name value")),
                Meta::List(_) => Err(Error::unexpected_type("list")),
            },
        }
    }

    fn from_meta(item: &Meta) -> (r: FmResult<()>) {
        match item {
            Meta::Path(_) => Self::from_empty(),
            Meta::List(ml) => {
                proof {
                    lemma_vec_nested_dv(ml.nested);
                }
                Self::from_list(&ml.nested)
            },
            Meta::NameValue(nv) => Self::from_value(&nv.val),
        }
    }
}

/// A boolean flag: the bare word means `true`; boolean and string literals
/// are accepted.

impl FromMeta for bool {

    open spec fn s_from_empty() -> Result<bool, ErrorV> {
        Ok(true)
    }

    open spec fn s_from_bool(value: bool) -> Result<bool, ErrorV> {
        Ok(value)
    }

    open spec fn s_from_string(value: Seq<char>) -> Result<bool, ErrorV> {
        if value == "true"@ {
            Ok(true)
        } else if value == "false"@ {
            Ok(false)
        } else {
            Err(ErrorV::UnknownValue(value))
        }
    }

    fn from_empty() -> (r: FmResult<bool>) {
        Ok(true)
    }

    fn from_bool(value: bool) -> (r: FmResult<bool>) {
        Ok(value)
    }

    fn from_char(value: char) -> (r: FmResult<bool>) {
        Err(Error::unexpected_type("char"))
    }

    fn from_int(value: u64) -> (r: FmResult<bool>) {
        Err(Error::unexpected_type("int"))
    }

    fn from_string(value: &str) -> (r: FmResult<bool>) {
        if str_eq(value, "true") {
            Ok(true)
        } else if str_eq(value, "false") {
            Ok(false)
        } else {
            Err(Error::unknown_value(value))
        }
    }

    fn from_ident(value: &str) -> (r: FmResult<bool>) {
        Err(Error::unexpected_type("ident"))
    }

    fn from_path(value: &Path) -> (r: FmResult<bool>) {
        match value.single_ident() {
            Some(id) => Self::from_ident(id.as_str()),
            None => Err(Error::unexpected_type("path")),
        }
    }

    fn from_lit(lit: &Lit) -> (r: FmResult<bool>) {
        match lit {
            Lit::Bool(b) => Self::from_bool(*b),
            Lit::Str(s) => Self::from_string(s.as_str()),
            Lit::Char(c) => Self::from_char(*c),
            Lit::Int(v, _) => Self::from_int(*v),
            Lit::Float(_) => Err(Error::unexpected_lit_type(lit)),
        }
    }

    fn from_list(items: &Vec<NestedMeta>) -> (r: FmResult<bool>) {
        if items.len() == 0 {
            Self::from_empty()
        } else if items.len() == 1 {
            Self::from_nested_meta(&items[0])
        } else {
            Err(Error::unsupported_format("list"))
        }
    }

    fn from_value(value: &MetaValue) -> (r: FmResult<bool>) {
        match value {
            MetaValue::Path(p) => Self::from_path(p),
            MetaValue::Lit(l) => Self::from_lit(l),
        }
    }

    fn from_nested_meta(item: &NestedMeta) -> (r: FmResult<bool>) {
        match item {
            NestedMeta::Lit(l) => Self::from_lit(l),
            NestedMeta::Meta(m) => match m {
                Meta::Path(p) => Self::from_path(p),
                Meta::NameValue(_) => Err(Error::unexpected_type("name value")),
                Meta::List(_) => Err(Error::unexpected_type("list")),
            },
        }
    }

    fn from_meta(item: &Meta) -> (r: FmResult<bool>) {
        match item {
            Meta::Path(_) => Self::from_empty(),
            Meta::List(ml) => {
                proof {
                    lemma_vec_nested_dv(ml.nested);
                }
                Self::from_list(&ml.nested)
            },
            Meta::NameValue(nv) => Self::from_value(&nv.val),
        }
    }

}

/// A string: string literals are taken as they are; a path is rendered
/// compactly.

impl FromMeta for String {

    open spec fn s_from_string(value: Seq<char>) -> Result<Seq<char>, ErrorV> {
        Ok(value)
    }

    open spec fn s_from_path(value: PathV) -> Result<Seq<char>, ErrorV> {
        Ok(seg_join(value.segments))
    }

    fn from_empty() -> (r: FmResult<String>) {
        Err(Error::unsupported_format("empty"))
    }

    fn from_bool(value: bool) -> (r: FmResult<String>) {
        Err(Error::unexpected_type("bool"))
    }

    fn from_char(value: char) -> (r: FmResult<String>) {
        Err(Error::unexpected_type("char"))
    }

    fn from_int(value: u64) -> (r: FmResult<String>) {
        Err(Error::unexpected_type("int"))
    }

    fn from_string(value: &str) -> (r: FmResult<String>) {
        Ok(value.to_owned())
    }

    fn from_ident(value: &str) -> (r: FmResult<String>) {
        Err(Error::unexpected_type("ident"))
    }

    fn from_path(value: &Path) -> (r: FmResult<String>) {
        Ok(value.to_compact_string())
    }

    fn from_lit(lit: &Lit) -> (r: FmResult<String>) {
        match lit {
            Lit::Bool(b) => Self::from_bool(*b),
            Lit::Str(s) => Self::from_string(s.as_str()),
            Lit::Char(c) => Self::from_char(*c),
            Lit::Int(v, _) => Self::from_int(*v),
            Lit::Float(_) => Err(Error::unexpected_lit_type(lit)),
        }
    }

    fn from_list(items: &Vec<NestedMeta>) -> (r: FmResult<String>) {
        if items.len() == 0 {
            Self::from_empty()
        } else if items.len() == 1 {
            Self::from_nested_meta(&items[0])
        } else {
            Err(Error::unsupported_format("list"))
        }
    }

    fn from_value(value: &MetaValue) -> (r: FmResult<String>) {
        match value {
            MetaValue::Path(p) => Self::from_path(p),
            MetaValue::Lit(l) => Self::from_lit(l),
        }
    }

    fn from_nested_meta(item: &NestedMeta) -> (r: FmResult<String>) {
        match item {
            NestedMeta::Lit(l) => Self::from_lit(l),
            NestedMeta::Meta(m) => match m {
                Meta::Path(p) => Self::from_path(p),
                Meta::NameValue(_) => Err(Error::unexpected_type("name value")),
                Meta::List(_) => Err(Error::unexpected_type("list")),
            },
        }
    }

    fn from_meta(item: &Meta) -> (r: FmResult<String>) {
        match item {
            Meta::Path(_) => Self::from_empty(),
            Meta::List(ml) => {
                proof {
                    lemma_vec_nested_dv(ml.nested);
                }
                Self::from_list(&ml.nested)
            },
            Meta::NameValue(nv) => Self::from_value(&nv.val),
        }
    }

}

/// An unsigned number: accepts integer literals in range (whatever their
/// suffix) and strings that read as one, with an optional leading plus
/// sign.

impl FromMeta for u8 {

    open spec fn s_from_int(value: u64) -> Result<u8, ErrorV> {
        if value <= 255 {
            Ok(value as u8)
        } else {
            Err(ErrorV::UnknownValue(dec_str(value)))
        }
    }

    open spec fn s_from_string(value: Seq<char>) -> Result<u8, ErrorV> {
        let digits = if value.len() > 0 && value[0] == '+' {
            value.drop_first()
        } else {
            value
        };
        match parse_dec(digits) {
            Some(v) => if v <= 255 {
                Ok(v as u8)
            } else {
                Err(ErrorV::UnknownValue(value))
            },
            None => Err(ErrorV::UnknownValue(value)),
        }
    }

    open spec fn s_from_lit(lit: LitV) -> Result<u8, ErrorV> {
        match lit {
            LitV::Str(s) => Self::s_from_string(s),
            LitV::Int(v, _) => Self::s_from_int(v),
            _ => Err(ErrorV::UnexpectedLitType(lit)),
        }
    }

    fn from_empty() -> (r: FmResult<u8>) {
        Err(Error::unsupported_format("empty"))
    }

    fn from_bool(value: bool) -> (r: FmResult<u8>) {
        Err(Error::unexpected_type("bool"))
    }

    fn from_char(value: char) -> (r: FmResult<u8>) {
        Err(Error::unexpected_type("char"))
    }

    fn from_int(value: u64) -> (r: FmResult<u8>) {
        if value <= 255 {
            Ok(value as u8)
        } else {
            Err(Error::UnknownValue(u64_to_string(value)))
        }
    }

    fn from_string(value: &str) -> (r: FmResult<u8>) {
        let n = value.unicode_len();
        let digits: &str = if n > 0 && value.get_char(0) == '+' {
            let rest = value.substring_char(1, n);
            proof {
                assert(rest@ =~= value@.drop_first());
            }
            rest
        } else {
            value
        };
        match str_parse_u64(digits) {
            Some(v) => if v <= 255 {
                Ok(v as u8)
            } else {
                Err(Error::unknown_value(value))
            },
            None => Err(Error::unknown_value(value)),
        }
    }

    fn from_ident(value: &str) -> (r: FmResult<u8>) {
        Err(Error::unexpected_type("ident"))
    }

    fn from_path(value: &Path) -> (r: FmResult<u8>) {
        match value.single_ident() {
            Some(id) => Self::from_ident(id.as_str()),
            None => Err(Error::unexpected_type("path")),
        }
    }

    fn from_lit(lit: &Lit) -> (r: FmResult<u8>) {
        match lit {
            Lit::Str(s) => Self::from_string(s.as_str()),
            Lit::Int(v, _) => Self::from_int(*v),
            _ => Err(Error::unexpected_lit_type(lit)),
        }
    }

    fn from_list(items: &Vec<NestedMeta>) -> (r: FmResult<u8>) {
        if items.len() == 0 {
            Self::from_empty()
        } else if items.len() == 1 {
            Self::from_nested_meta(&items[0])
        } else {
            Err(Error::unsupported_format("list"))
        }
    }

    fn from_value(value: &MetaValue) -> (r: FmResult<u8>) {
        match value {
            MetaValue::Path(p) => Self::from_path(p),
            MetaValue::Lit(l) => Self::from_lit(l),
        }
    }

    fn from_nested_meta(item: &NestedMeta) -> (r: FmResult<u8>) {
        match item {
            NestedMeta::Lit(l) => Self::from_lit(l),
            NestedMeta::Meta(m) => match m {
                Meta::Path(p) => Self::from_path(p),
                Meta::NameValue(_) => Err(Error::unexpected_type("name value")),
                Meta::List(_) => Err(Error::unexpected_type("list")),
            },
        }
    }

    fn from_meta(item: &Meta) -> (r: FmResult<u8>) {
        match item {
            Meta::Path(_) => Self::from_empty(),
            Meta::List(ml) => {
                proof {
                    lemma_vec_nested_dv(ml.nested);
                }
                Self::from_list(&ml.nested)
            },
            Meta::NameValue(nv) => Self::from_value(&nv.val),
        }
    }
}

/// An unsigned number: accepts integer literals in range (whatever their
/// suffix) and strings that read as one, with an optional leading plus
/// sign.

impl FromMeta for u16 {

    open spec fn s_from_int(value: u64) -> Result<u16, ErrorV> {
        if value <= 65535 {
            Ok(value as u16)
        } else {
            Err(ErrorV::UnknownValue(dec_str(value)))
        }
    }

    open spec fn s_from_string(value: Seq<char>) -> Result<u16, ErrorV> {
        let digits = if value.len() > 0 && value[0] == '+' {
            value.drop_first()
        } else {
            value
        };
        match parse_dec(digits) {
            Some(v) => if v <= 65535 {
                Ok(v as u16)
            } else {
                Err(ErrorV::UnknownValue(value))
            },
            None => Err(ErrorV::UnknownValue(value)),
        }
    }

    open spec fn s_from_lit(lit: LitV) -> Result<u16, ErrorV> {
        match lit {
            LitV::Str(s) => Self::s_from_string(s),
            LitV::Int(v, _) => Self::s_from_int(v),
            _ => Err(ErrorV::UnexpectedLitType(lit)),
        }
    }

    fn from_empty() -> (r: FmResult<u16>) {
        Err(Error::unsupported_format("empty"))
    }

    fn from_bool(value: bool) -> (r: FmResult<u16>) {
        Err(Error::unexpected_type("bool"))
    }

    fn from_char(value: char) -> (r: FmResult<u16>) {
        Err(Error::unexpected_type("char"))
    }

    fn from_int(value: u64) -> (r: FmResult<u16>) {
        if value <= 65535 {
            Ok(value as u16)
        } else {
            Err(Error::UnknownValue(u64_to_string(value)))
        }
    }

    fn from_string(value: &str) -> (r: FmResult<u16>) {
        let n = value.unicode_len();
        let digits: &str = if n > 0 && value.get_char(0) == '+' {
            let rest = value.substring_char(1, n);
            proof {
                assert(rest@ =~= value@.drop_first());
            }
            rest
        } else {
            value
        };
        match str_parse_u64(digits) {
            Some(v) => if v <= 65535 {
                Ok(v as u16)
            } else {
                Err(Error::unknown_value(value))
            },
            None => Err(Error::unknown_value(value)),
        }
    }

    fn from_ident(value: &str) -> (r: FmResult<u16>) {
        Err(Error::unexpected_type("ident"))
    }

    fn from_path(value: &Path) -> (r: FmResult<u16>) {
        match value.single_ident() {
            Some(id) => Self::from_ident(id.as_str()),
            None => Err(Error::unexpected_type("path")),
        }
    }

    fn from_lit(lit: &Lit) -> (r: FmResult<u16>) {
        match lit {
            Lit::Str(s) => Self::from_string(s.as_str()),
            Lit::Int(v, _) => Self::from_int(*v),
            _ => Err(Error::unexpected_lit_type(lit)),
        }
    }

    fn from_list(items: &Vec<NestedMeta>) -> (r: FmResult<u16>) {
        if items.len() == 0 {
            Self::from_empty()
        } else if items.len() == 1 {
            Self::from_nested_meta(&items[0])
        } else {
            Err(Error::unsupported_format("list"))
        }
    }

    fn from_value(value: &MetaValue) -> (r: FmResult<u16>) {
        match value {
            MetaValue::Path(p) => Self::from_path(p),
            MetaValue::Lit(l) => Self::from_lit(l),
        }
    }

    fn from_nested_meta(item: &NestedMeta) -> (r: FmResult<u16>) {
        match item {
            NestedMeta::Lit(l) => Self::from_lit(l),
            NestedMeta::Meta(m) => match m {
                Meta::Path(p) => Self::from_path(p),
                Meta::NameValue(_) => Err(Error::unexpected_type("name value")),
                Meta::List(_) => Err(Error::unexpected_type("list")),
            },
        }
    }

    fn from_meta(item: &Meta) -> (r: FmResult<u16>) {
        match item {
            Meta::Path(_) => Self::from_empty(),
            Meta::List(ml) => {
                proof {
                    lemma_vec_nested_dv(ml.nested);
                }
                Self::from_list(&ml.nested)
            },
            Meta::NameValue(nv) => Self::from_value(&nv.val),
        }
    }
}

/// An unsigned number: accepts integer literals in range (whatever their
/// suffix) and strings that read as one, with an optional leading plus
/// sign.

impl FromMeta for u32 {

    open spec fn s_from_int(value: u64) -> Result<u32, ErrorV> {
        if value <= 4294967295 {
            Ok(value as u32)
        } else {
            Err(ErrorV::UnknownValue(dec_str(value)))
        }
    }

    open spec fn s_from_string(value: Seq<char>) -> Result<u32, ErrorV> {
        let digits = if value.len() > 0 && value[0] == '+' {
            value.drop_first()
        } else {
            value
        };
        match parse_dec(digits) {
            Some(v) => if v <= 4294967295 {
                Ok(v as u32)
            } else {
                Err(ErrorV::UnknownValue(value))
            },
            None => Err(ErrorV::UnknownValue(value)),
        }
    }

    open spec fn s_from_lit(lit: LitV) -> Result<u32, ErrorV> {
        match lit {
            LitV::Str(s) => Self::s_from_string(s),
            LitV::Int(v, _) => Self::s_from_int(v),
            _ => Err(ErrorV::UnexpectedLitType(lit)),
        }
    }

    fn from_empty() -> (r: FmResult<u32>) {
        Err(Error::unsupported_format("empty"))
    }

    fn from_bool(value: bool) -> (r: FmResult<u32>) {
        Err(Error::unexpected_type("bool"))
    }

    fn from_char(value: char) -> (r: FmResult<u32>) {
        Err(Error::unexpected_type("char"))
    }

    fn from_int(value: u64) -> (r: FmResult<u32>) {
        if value <= 4294967295 {
            Ok(value as u32)
        } else {
            Err(Error::UnknownValue(u64_to_string(value)))
        }
    }

    fn from_string(value: &str) -> (r: FmResult<u32>) {
        let n = value.unicode_len();
        let digits: &str = if n > 0 && value.get_char(0) == '+' {
            let rest = value.substring_char(1, n);
            proof {
                assert(rest@ =~= value@.drop_first());
            }
            rest
        } else {
            value
        };
        match str_parse_u64(digits) {
            Some(v) => if v <= 4294967295 {
                Ok(v as u32)
            } else {
                Err(Error::unknown_value(value))
            },
            None => Err(Error::unknown_value(value)),
        }
    }

    fn from_ident(value: &str) -> (r: FmResult<u32>) {
        Err(Error::unexpected_type("ident"))
    }

    fn from_path(value: &Path) -> (r: FmResult<u32>) {
        match value.single_ident() {
            Some(id) => Self::from_ident(id.as_str()),
            None => Err(Error::unexpected_type("path")),
        }
    }

    fn from_lit(lit: &Lit) -> (r: FmResult<u32>) {
        match lit {
            Lit::Str(s) => Self::from_string(s.as_str()),
            Lit::Int(v, _) => Self::from_int(*v),
            _ => Err(Error::unexpected_lit_type(lit)),
        }
    }

    fn from_list(items: &Vec<NestedMeta>) -> (r: FmResult<u32>) {
        if items.len() == 0 {
            Self::from_empty()
        } else if items.len() == 1 {
            Self::from_nested_meta(&items[0])
        } else {
            Err(Error::unsupported_format("list"))
        }
    }

    fn from_value(value: &MetaValue) -> (r: FmResult<u32>) {
        match value {
            MetaValue::Path(p) => Self::from_path(p),
            MetaValue::Lit(l) => Self::from_lit(l),
        }
    }

    fn from_nested_meta(item: &NestedMeta) -> (r: FmResult<u32>) {
        match item {
            NestedMeta::Lit(l) => Self::from_lit(l),
            NestedMeta::Meta(m) => match m {
                Meta::Path(p) => Self::from_path(p),
                Meta::NameValue(_) => Err(Error::unexpected_type("name value")),
                Meta::List(_) => Err(Error::unexpected_type("list")),
            },
        }
    }

    fn from_meta(item: &Meta) -> (r: FmResult<u32>) {
        match item {
            Meta::Path(_) => Self::from_empty(),
            Meta::List(ml) => {
                proof {
                    lemma_vec_nested_dv(ml.nested);
                }
                Self::from_list(&ml.nested)
            },
            Meta::NameValue(nv) => Self::from_value(&nv.val),
        }
    }
}

/// An unsigned number: accepts integer literals in range (whatever their
/// suffix) and strings that read as one, with an optional leading plus
/// sign.

impl FromMeta for u64 {

    open spec fn s_from_int(value: u64) -> Result<u64, ErrorV> {
        if value <= u64::MAX {
            Ok(value as u64)
        } else {
            Err(ErrorV::UnknownValue(dec_str(value)))
        }
    }

    open spec fn s_from_string(value: Seq<char>) -> Result<u64, ErrorV> {
        let digits = if value.len() > 0 && value[0] == '+' {
            value.drop_first()
        } else {
            value
        };
        match parse_dec(digits) {
            Some(v) => if v <= u64::MAX {
                Ok(v as u64)
            } else {
                Err(ErrorV::UnknownValue(value))
            },
            None => Err(ErrorV::UnknownValue(value)),
        }
    }

    open spec fn s_from_lit(lit: LitV) -> Result<u64, ErrorV> {
        match lit {
            LitV::Str(s) => Self::s_from_string(s),
            LitV::Int(v, _) => Self::s_from_int(v),
            _ => Err(ErrorV::UnexpectedLitType(lit)),
        }
    }

    fn from_empty() -> (r: FmResult<u64>) {
        Err(Error::unsupported_format("empty"))
    }

    fn from_bool(value: bool) -> (r: FmResult<u64>) {
        Err(Error::unexpected_type("bool"))
    }

    fn from_char(value: char) -> (r: FmResult<u64>) {
        Err(Error::unexpected_type("char"))
    }

    fn from_int(value: u64) -> (r: FmResult<u64>) {
        if value <= u64::MAX {
            Ok(value as u64)
        } else {
            Err(Error::UnknownValue(u64_to_string(value)))
        }
    }

    fn from_string(value: &str) -> (r: FmResult<u64>) {
        let n = value.unicode_len();
        let digits: &str = if n > 0 && value.get_char(0) == '+' {
            let rest = value.substring_char(1, n);
            proof {
                assert(rest@ =~= value@.drop_first());
            }
            rest
        } else {
            value
        };
        match str_parse_u64(digits) {
            Some(v) => if v <= u64::MAX {
                Ok(v as u64)
            } else {
                Err(Error::unknown_value(value))
            },
            None => Err(Error::unknown_value(value)),
        }
    }

    fn from_ident(value: &str) -> (r: FmResult<u64>) {
        Err(Error::unexpected_type("ident"))
    }

    fn from_path(value: &Path) -> (r: FmResult<u64>) {
        match value.single_ident() {
            Some(id) => Self::from_ident(id.as_str()),
            None => Err(Error::unexpected_type("path")),
        }
    }

    fn from_lit(lit: &Lit) -> (r: FmResult<u64>) {
        match lit {
            Lit::Str(s) => Self::from_string(s.as_str()),
            Lit::Int(v, _) => Self::from_int(*v),
            _ => Err(Error::unexpected_lit_type(lit)),
        }
    }

    fn from_list(items: &Vec<NestedMeta>) -> (r: FmResult<u64>) {
        if items.len() == 0 {
            Self::from_empty()
        } else if items.len() == 1 {
            Self::from_nested_meta(&items[0])
        } else {
            Err(Error::unsupported_format("list"))
        }
    }

    fn from_value(value: &MetaValue) -> (r: FmResult<u64>) {
        match value {
            MetaValue::Path(p) => Self::from_path(p),
            MetaValue::Lit(l) => Self::from_lit(l),
        }
    }

    fn from_nested_meta(item: &NestedMeta) -> (r: FmResult<u64>) {
        match item {
            NestedMeta::Lit(l) => Self::from_lit(l),
            NestedMeta::Meta(m) => match m {
                Meta::Path(p) => Self::from_path(p),
                Meta::NameValue(_) => Err(Error::unexpected_type("name value")),
                Meta::List(_) => Err(Error::unexpected_type("list")),
            },
        }
    }

    fn from_meta(item: &Meta) -> (r: FmResult<u64>) {
        match item {
            Meta::Path(_) => Self::from_empty(),
            Meta::List(ml) => {
                proof {
                    lemma_vec_nested_dv(ml.nested);
                }
                Self::from_list(&ml.nested)
            },
            Meta::NameValue(nv) => Self::from_value(&nv.val),
        }
    }
}

/// An unsigned number: accepts integer literals in range (whatever their
/// suffix) and strings that read as one, with an optional leading plus
/// sign.

impl FromMeta for usize {

    open spec fn s_from_int(value: u64) -> Result<usize, ErrorV> {
        if value <= usize::MAX as u64 {
            Ok(value as usize)
        } else {
            Err(ErrorV::UnknownValue(dec_str(value)))
        }
    }

    open spec fn s_from_string(value: Seq<char>) -> Result<usize, ErrorV> {
        let digits = if value.len() > 0 && value[0] == '+' {
            value.drop_first()
        } else {
            value
        };
        match parse_dec(digits) {
            Some(v) => if v <= usize::MAX as u64 {
                Ok(v as usize)
            } else {
                Err(ErrorV::UnknownValue(value))
            },
            None => Err(ErrorV::UnknownValue(value)),
        }
    }

    open spec fn s_from_lit(lit: LitV) -> Result<usize, ErrorV> {
        match lit {
            LitV::Str(s) => Self::s_from_string(s),
            LitV::Int(v, _) => Self::s_from_int(v),
            _ => Err(ErrorV::UnexpectedLitType(lit)),
        }
    }

    fn from_empty() -> (r: FmResult<usize>) {
        Err(Error::unsupported_format("empty"))
    }

    fn from_bool(value: bool) -> (r: FmResult<usize>) {
        Err(Error::unexpected_type("bool"))
    }

    fn from_char(value: char) -> (r: FmResult<usize>) {
        Err(Error::unexpected_type("char"))
    }

    fn from_int(value: u64) -> (r: FmResult<usize>) {
        if value <= usize::MAX as u64 {
            Ok(value as usize)
        } else {
            Err(Error::UnknownValue(u64_to_string(value)))
        }
    }

    fn from_string(value: &str) -> (r: FmResult<usize>) {
        let n = value.unicode_len();
        let digits: &str = if n > 0 && value.get_char(0) == '+' {
            let rest = value.substring_char(1, n);
            proof {
                assert(rest@ =~= value@.drop_first());
            }
            rest
        } else {
            value
        };
        match str_parse_u64(digits) {
            Some(v) => if v <= usize::MAX as u64 {
                Ok(v as usize)
            } else {
                Err(Error::unknown_value(value))
            },
            None => Err(Error::unknown_value(value)),
        }
    }

    fn from_ident(value: &str) -> (r: FmResult<usize>) {
        Err(Error::unexpected_type("ident"))
    }

    fn from_path(value: &Path) -> (r: FmResult<usize>) {
        match value.single_ident() {
            Some(id) => Self::from_ident(id.as_str()),
            None => Err(Error::unexpected_type("path")),
        }
    }

    fn from_lit(lit: &Lit) -> (r: FmResult<usize>) {
        match lit {
            Lit::Str(s) => Self::from_string(s.as_str()),
            Lit::Int(v, _) => Self::from_int(*v),
            _ => Err(Error::unexpected_lit_type(lit)),
        }
    }

    fn from_list(items: &Vec<NestedMeta>) -> (r: FmResult<usize>) {
        if items.len() == 0 {
            Self::from_empty()
        } else if items.len() == 1 {
            Self::from_nested_meta(&items[0])
        } else {
            Err(Error::unsupported_format("list"))
        }
    }

    fn from_value(value: &MetaValue) -> (r: FmResult<usize>) {
        match value {
            MetaValue::Path(p) => Self::from_path(p),
            MetaValue::Lit(l) => Self::from_lit(l),
        }
    }

    fn from_nested_meta(item: &NestedMeta) -> (r: FmResult<usize>) {
        match item {
            NestedMeta::Lit(l) => Self::from_lit(l),
            NestedMeta::Meta(m) => match m {
                Meta::Path(p) => Self::from_path(p),
                Meta::NameValue(_) => Err(Error::unexpected_type("name value")),
                Meta::List(_) => Err(Error::unexpected_type("list")),
            },
        }
    }

    fn from_meta(item: &Meta) -> (r: FmResult<usize>) {
        match item {
            Meta::Path(_) => Self::from_empty(),
            Meta::List(ml) => {
                proof {
                    lemma_vec_nested_dv(ml.nested);
                }
                Self::from_list(&ml.nested)
            },
            Meta::NameValue(nv) => Self::from_value(&nv.val),
        }
    }
}

/// A signed number: accepts integer literals in range and strings that
/// read as one, with an optional leading sign.

impl FromMeta for i8 {

    open spec fn s_from_int(value: u64) -> Result<i8, ErrorV> {
        if value <= 127 {
            Ok(value as i8)
        } else {
            Err(ErrorV::UnknownValue(dec_str(value)))
        }
    }

    open spec fn s_from_string(value: Seq<char>) -> Result<i8, ErrorV> {
        if value.len() > 0 && value[0] == '-' {
            match parse_dec(value.drop_first()) {
                Some(v) => if v <= 128 {
                    Ok((0 - v as int) as i8)
                } else {
                    Err(ErrorV::UnknownValue(value))
                },
                None => Err(ErrorV::UnknownValue(value)),
            }
        } else {
            let digits = if value.len() > 0 && value[0] == '+' {
                value.drop_first()
            } else {
                value
            };
            match parse_dec(digits) {
                Some(v) => if v <= 127 {
                    Ok(v as i8)
                } else {
                    Err(ErrorV::UnknownValue(value))
                },
                None => Err(ErrorV::UnknownValue(value)),
            }
        }
    }

    open spec fn s_from_lit(lit: LitV) -> Result<i8, ErrorV> {
        match lit {
            LitV::Str(s) => Self::s_from_string(s),
            LitV::Int(v, _) => Self::s_from_int(v),
            _ => Err(ErrorV::UnexpectedLitType(lit)),
        }
    }

    fn from_empty() -> (r: FmResult<i8>) {
        Err(Error::unsupported_format("empty"))
    }

    fn from_bool(value: bool) -> (r: FmResult<i8>) {
        Err(Error::unexpected_type("bool"))
    }

    fn from_char(value: char) -> (r: FmResult<i8>) {
        Err(Error::unexpected_type("char"))
    }

    fn from_int(value: u64) -> (r: FmResult<i8>) {
        if value <= 127 {
            Ok(value as i8)
        } else {
            Err(Error::UnknownValue(u64_to_string(value)))
        }
    }

    fn from_string(value: &str) -> (r: FmResult<i8>) {
        let n = value.unicode_len();
        if n > 0 && value.get_char(0) == '-' {
            let rest = value.substring_char(1, n);
            proof {
                assert(rest@ =~= value@.drop_first());
            }
            match str_parse_u64(rest) {
                Some(v) => if v <= 128 {
                    let neg: i128 = 0i128 - (v as i128);
                    Ok(neg as i8)
                } else {
                    Err(Error::unknown_value(value))
                },
                None => Err(Error::unknown_value(value)),
            }
        } else {
            let digits: &str = if n > 0 && value.get_char(0) == '+' {
                let rest = value.substring_char(1, n);
                proof {
                    assert(rest@ =~= value@.drop_first());
                }
                rest
            } else {
                value
            };
            match str_parse_u64(digits) {
                Some(v) => if v <= 127 {
                    Ok(v as i8)
                } else {
                    Err(Error::unknown_value(value))
                },
                None => Err(Error::unknown_value(value)),
            }
        }
    }

    fn from_ident(value: &str) -> (r: FmResult<i8>) {
        Err(Error::unexpected_type("ident"))
    }

    fn from_path(value: &Path) -> (r: FmResult<i8>) {
        match value.single_ident() {
            Some(id) => Self::from_ident(id.as_str()),
            None => Err(Error::unexpected_type("path")),
        }
    }

    fn from_lit(lit: &Lit) -> (r: FmResult<i8>) {
        match lit {
            Lit::Str(s) => Self::from_string(s.as_str()),
            Lit::Int(v, _) => Self::from_int(*v),
            _ => Err(Error::unexpected_lit_type(lit)),
        }
    }

    fn from_list(items: &Vec<NestedMeta>) -> (r: FmResult<i8>) {
        if items.len() == 0 {
            Self::from_empty()
        } else if items.len() == 1 {
            Self::from_nested_meta(&items[0])
        } else {
            Err(Error::unsupported_format("list"))
        }
    }

    fn from_value(value: &MetaValue) -> (r: FmResult<i8>) {
        match value {
            MetaValue::Path(p) => Self::from_path(p),
            MetaValue::Lit(l) => Self::from_lit(l),
        }
    }

    fn from_nested_meta(item: &NestedMeta) -> (r: FmResult<i8>) {
        match item {
            NestedMeta::Lit(l) => Self::from_lit(l),
            NestedMeta::Meta(m) => match m {
                Meta::Path(p) => Self::from_path(p),
                Meta::NameValue(_) => Err(Error::unexpected_type("name value")),
                Meta::List(_) => Err(Error::unexpected_type("list")),
            },
        }
    }

    fn from_meta(item: &Meta) -> (r: FmResult<i8>) {
        match item {
            Meta::Path(_) => Self::from_empty(),
            Meta::List(ml) => {
                proof {
                    lemma_vec_nested_dv(ml.nested);
                }
                Self::from_list(&ml.nested)
            },
            Meta::NameValue(nv) => Self::from_value(&nv.val),
        }
    }
}

/// A signed number: accepts integer literals in range and strings that
/// read as one, with an optional leading sign.

impl FromMeta for i16 {

    open spec fn s_from_int(value: u64) -> Result<i16, ErrorV> {
        if value <= 32767 {
            Ok(value as i16)
        } else {
            Err(ErrorV::UnknownValue(dec_str(value)))
        }
    }

    open spec fn s_from_string(value: Seq<char>) -> Result<i16, ErrorV> {
        if value.len() > 0 && value[0] == '-' {
            match parse_dec(value.drop_first()) {
                Some(v) => if v <= 32768 {
                    Ok((0 - v as int) as i16)
                } else {
                    Err(ErrorV::UnknownValue(value))
                },
                None => Err(ErrorV::UnknownValue(value)),
            }
        } else {
            let digits = if value.len() > 0 && value[0] == '+' {
                value.drop_first()
            } else {
                value
            };
            match parse_dec(digits) {
                Some(v) => if v <= 32767 {
                    Ok(v as i16)
                } else {
                    Err(ErrorV::UnknownValue(value))
                },
                None => Err(ErrorV::UnknownValue(value)),
            }
        }
    }

    open spec fn s_from_lit(lit: LitV) -> Result<i16, ErrorV> {
        match lit {
            LitV::Str(s) => Self::s_from_string(s),
            LitV::Int(v, _) => Self::s_from_int(v),
            _ => Err(ErrorV::UnexpectedLitType(lit)),
        }
    }

    fn from_empty() -> (r: FmResult<i16>) {
        Err(Error::unsupported_format("empty"))
    }

    fn from_bool(value: bool) -> (r: FmResult<i16>) {
        Err(Error::unexpected_type("bool"))
    }

    fn from_char(value: char) -> (r: FmResult<i16>) {
        Err(Error::unexpected_type("char"))
    }

    fn from_int(value: u64) -> (r: FmResult<i16>) {
        if value <= 32767 {
            Ok(value as i16)
        } else {
            Err(Error::UnknownValue(u64_to_string(value)))
        }
    }

    fn from_string(value: &str) -> (r: FmResult<i16>) {
        let n = value.unicode_len();
        if n > 0 && value.get_char(0) == '-' {
            let rest = value.substring_char(1, n);
            proof {
                assert(rest@ =~= value@.drop_first());
            }
            match str_parse_u64(rest) {
                Some(v) => if v <= 32768 {
                    let neg: i128 = 0i128 - (v as i128);
                    Ok(neg as i16)
                } else {
                    Err(Error::unknown_value(value))
                },
                None => Err(Error::unknown_value(value)),
            }
        } else {
            let digits: &str = if n > 0 && value.get_char(0) == '+' {
                let rest = value.substring_char(1, n);
                proof {
                    assert(rest@ =~= value@.drop_first());
                }
                rest
            } else {
                value
            };
            match str_parse_u64(digits) {
                Some(v) => if v <= 32767 {
                    Ok(v as i16)
                } else {
                    Err(Error::unknown_value(value))
                },
                None => Err(Error::unknown_value(value)),
            }
        }
    }

    fn from_ident(value: &str) -> (r: FmResult<i16>) {
        Err(Error::unexpected_type("ident"))
    }

    fn from_path(value: &Path) -> (r: FmResult<i16>) {
        match value.single_ident() {
            Some(id) => Self::from_ident(id.as_str()),
            None => Err(Error::unexpected_type("path")),
        }
    }

    fn from_lit(lit: &Lit) -> (r: FmResult<i16>) {
        match lit {
            Lit::Str(s) => Self::from_string(s.as_str()),
            Lit::Int(v, _) => Self::from_int(*v),
            _ => Err(Error::unexpected_lit_type(lit)),
        }
    }

    fn from_list(items: &Vec<NestedMeta>) -> (r: FmResult<i16>) {
        if items.len() == 0 {
            Self::from_empty()
        } else if items.len() == 1 {
            Self::from_nested_meta(&items[0])
        } else {
            Err(Error::unsupported_format("list"))
        }
    }

    fn from_value(value: &MetaValue) -> (r: FmResult<i16>) {
        match value {
            MetaValue::Path(p) => Self::from_path(p),
            MetaValue::Lit(l) => Self::from_lit(l),
        }
    }

    fn from_nested_meta(item: &NestedMeta) -> (r: FmResult<i16>) {
        match item {
            NestedMeta::Lit(l) => Self::from_lit(l),
            NestedMeta::Meta(m) => match m {
                Meta::Path(p) => Self::from_path(p),
                Meta::NameValue(_) => Err(Error::unexpected_type("name value")),
                Meta::List(_) => Err(Error::unexpected_type("list")),
            },
        }
    }

    fn from_meta(item: &Meta) -> (r: FmResult<i16>) {
        match item {
            Meta::Path(_) => Self::from_empty(),
            Meta::List(ml) => {
                proof {
                    lemma_vec_nested_dv(ml.nested);
                }
                Self::from_list(&ml.nested)
            },
            Meta::NameValue(nv) => Self::from_value(&nv.val),
        }
    }
}

/// A signed number: accepts integer literals in range and strings that
/// read as one, with an optional leading sign.

impl FromMeta for i32 {

    open spec fn s_from_int(value: u64) -> Result<i32, ErrorV> {
        if value <= 2147483647 {
            Ok(value as i32)
        } else {
            Err(ErrorV::UnknownValue(dec_str(value)))
        }
    }

    open spec fn s_from_string(value: Seq<char>) -> Result<i32, ErrorV> {
        if value.len() > 0 && value[0] == '-' {
            match parse_dec(value.drop_first()) {
                Some(v) => if v <= 2147483648 {
                    Ok((0 - v as int) as i32)
                } else {
                    Err(ErrorV::UnknownValue(value))
                },
                None => Err(ErrorV::UnknownValue(value)),
            }
        } else {
            let digits = if value.len() > 0 && value[0] == '+' {
                value.drop_first()
            } else {
                value
            };
            match parse_dec(digits) {
                Some(v) => if v <= 2147483647 {
                    Ok(v as i32)
                } else {
                    Err(ErrorV::UnknownValue(value))
                },
                None => Err(ErrorV::UnknownValue(value)),
            }
        }
    }

    open spec fn s_from_lit(lit: LitV) -> Result<i32, ErrorV> {
        match lit {
            LitV::Str(s) => Self::s_from_string(s),
            LitV::Int(v, _) => Self::s_from_int(v),
            _ => Err(ErrorV::UnexpectedLitType(lit)),
        }
    }

    fn from_empty() -> (r: FmResult<i32>) {
        Err(Error::unsupported_format("empty"))
    }

    fn from_bool(value: bool) -> (r: FmResult<i32>) {
        Err(Error::unexpected_type("bool"))
    }

    fn from_char(value: char) -> (r: FmResult<i32>) {
        Err(Error::unexpected_type("char"))
    }

    fn from_int(value: u64) -> (r: FmResult<i32>) {
        if value <= 2147483647 {
            Ok(value as i32)
        } else {
            Err(Error::UnknownValue(u64_to_string(value)))
        }
    }

    fn from_string(value: &str) -> (r: FmResult<i32>) {
        let n = value.unicode_len();
        if n > 0 && value.get_char(0) == '-' {
            let rest = value.substring_char(1, n);
            proof {
                assert(rest@ =~= value@.drop_first());
            }
            match str_parse_u64(rest) {
                Some(v) => if v <= 2147483648 {
                    let neg: i128 = 0i128 - (v as i128);
                    Ok(neg as i32)
                } else {
                    Err(Error::unknown_value(value))
                },
                None => Err(Error::unknown_value(value)),
            }
        } else {
            let digits: &str = if n > 0 && value.get_char(0) == '+' {
                let rest = value.substring_char(1, n);
                proof {
                    assert(rest@ =~= value@.drop_first());
                }
                rest
            } else {
                value
            };
            match str_parse_u64(digits) {
                Some(v) => if v <= 2147483647 {
                    Ok(v as i32)
                } else {
                    Err(Error::unknown_value(value))
                },
                None => Err(Error::unknown_value(value)),
            }
        }
    }

    fn from_ident(value: &str) -> (r: FmResult<i32>) {
        Err(Error::unexpected_type("ident"))
    }

    fn from_path(value: &Path) -> (r: FmResult<i32>) {
        match value.single_ident() {
            Some(id) => Self::from_ident(id.as_str()),
            None => Err(Error::unexpected_type("path")),
        }
    }

    fn from_lit(lit: &Lit) -> (r: FmResult<i32>) {
        match lit {
            Lit::Str(s) => Self::from_string(s.as_str()),
            Lit::Int(v, _) => Self::from_int(*v),
            _ => Err(Error::unexpected_lit_type(lit)),
        }
    }

    fn from_list(items: &Vec<NestedMeta>) -> (r: FmResult<i32>) {
        if items.len() == 0 {
            Self::from_empty()
        } else if items.len() == 1 {
            Self::from_nested_meta(&items[0])
        } else {
            Err(Error::unsupported_format("list"))
        }
    }

    fn from_value(value: &MetaValue) -> (r: FmResult<i32>) {
        match value {
            MetaValue::Path(p) => Self::from_path(p),
            MetaValue::Lit(l) => Self::from_lit(l),
        }
    }

    fn from_nested_meta(item: &NestedMeta) -> (r: FmResult<i32>) {
        match item {
            NestedMeta::Lit(l) => Self::from_lit(l),
            NestedMeta::Meta(m) => match m {
                Meta::Path(p) => Self::from_path(p),
                Meta::NameValue(_) => Err(Error::unexpected_type("name value")),
                Meta::List(_) => Err(Error::unexpected_type("list")),
            },
        }
    }

    fn from_meta(item: &Meta) -> (r: FmResult<i32>) {
        match item {
            Meta::Path(_) => Self::from_empty(),
            Meta::List(ml) => {
                proof {
                    lemma_vec_nested_dv(ml.nested);
                }
                Self::from_list(&ml.nested)
            },
            Meta::NameValue(nv) => Self::from_value(&nv.val),
        }
    }
}

/// A signed number: accepts integer literals in range and strings that
/// read as one, with an optional leading sign.

impl FromMeta for i64 {

    open spec fn s_from_int(value: u64) -> Result<i64, ErrorV> {
        if value <= 9223372036854775807 {
            Ok(value as i64)
        } else {
            Err(ErrorV::UnknownValue(dec_str(value)))
        }
    }

    open spec fn s_from_string(value: Seq<char>) -> Result<i64, ErrorV> {
        if value.len() > 0 && value[0] == '-' {
            match parse_dec(value.drop_first()) {
                Some(v) => if v <= 9223372036854775808 {
                    Ok((0 - v as int) as i64)
                } else {
                    Err(ErrorV::UnknownValue(value))
                },
                None => Err(ErrorV::UnknownValue(value)),
            }
        } else {
            let digits = if value.len() > 0 && value[0] == '+' {
                value.drop_first()
            } else {
                value
            };
            match parse_dec(digits) {
                Some(v) => if v <= 9223372036854775807 {
                    Ok(v as i64)
                } else {
                    Err(ErrorV::UnknownValue(value))
                },
                None => Err(ErrorV::UnknownValue(value)),
            }
        }
    }

    open spec fn s_from_lit(lit: LitV) -> Result<i64, ErrorV> {
        match lit {
            LitV::Str(s) => Self::s_from_string(s),
            LitV::Int(v, _) => Self::s_from_int(v),
            _ => Err(ErrorV::UnexpectedLitType(lit)),
        }
    }

    fn from_empty() -> (r: FmResult<i64>) {
        Err(Error::unsupported_format("empty"))
    }

    fn from_bool(value: bool) -> (r: FmResult<i64>) {
        Err(Error::unexpected_type("bool"))
    }

    fn from_char(value: char) -> (r: FmResult<i64>) {
        Err(Error::unexpected_type("char"))
    }

    fn from_int(value: u64) -> (r: FmResult<i64>) {
        if value <= 9223372036854775807 {
            Ok(value as i64)
        } else {
            Err(Error::UnknownValue(u64_to_string(value)))
        }
    }

    fn from_string(value: &str) -> (r: FmResult<i64>) {
        let n = value.unicode_len();
        if n > 0 && value.get_char(0) == '-' {
            let rest = value.substring_char(1, n);
            proof {
                assert(rest@ =~= value@.drop_first());
            }
            match str_parse_u64(rest) {
                Some(v) => if v <= 9223372036854775808 {
                    let neg: i128 = 0i128 - (v as i128);
                    Ok(neg as i64)
                } else {
                    Err(Error::unknown_value(value))
                },
                None => Err(Error::unknown_value(value)),
            }
        } else {
            let digits: &str = if n > 0 && value.get_char(0) == '+' {
                let rest = value.substring_char(1, n);
                proof {
                    assert(rest@ =~= value@.drop_first());
                }
                rest
            } else {
                value
            };
            match str_parse_u64(digits) {
                Some(v) => if v <= 9223372036854775807 {
                    Ok(v as i64)
                } else {
                    Err(Error::unknown_value(value))
                },
                None => Err(Error::unknown_value(value)),
            }
        }
    }

    fn from_ident(value: &str) -> (r: FmResult<i64>) {
        Err(Error::unexpected_type("ident"))
    }

    fn from_path(value: &Path) -> (r: FmResult<i64>) {
        match value.single_ident() {
            Some(id) => Self::from_ident(id.as_str()),
            None => Err(Error::unexpected_type("path")),
        }
    }

    fn from_lit(lit: &Lit) -> (r: FmResult<i64>) {
        match lit {
            Lit::Str(s) => Self::from_string(s.as_str()),
            Lit::Int(v, _) => Self::from_int(*v),
            _ => Err(Error::unexpected_lit_type(lit)),
        }
    }

    fn from_list(items: &Vec<NestedMeta>) -> (r: FmResult<i64>) {
        if items.len() == 0 {
            Self::from_empty()
        } else if items.len() == 1 {
            Self::from_nested_meta(&items[0])
        } else {
            Err(Error::unsupported_format("list"))
        }
    }

    fn from_value(value: &MetaValue) -> (r: FmResult<i64>) {
        match value {
            MetaValue::Path(p) => Self::from_path(p),
            MetaValue::Lit(l) => Self::from_lit(l),
        }
    }

    fn from_nested_meta(item: &NestedMeta) -> (r: FmResult<i64>) {
        match item {
            NestedMeta::Lit(l) => Self::from_lit(l),
            NestedMeta::Meta(m) => match m {
                Meta::Path(p) => Self::from_path(p),
                Meta::NameValue(_) => Err(Error::unexpected_type("name value")),
                Meta::List(_) => Err(Error::unexpected_type("list")),
            },
        }
    }

    fn from_meta(item: &Meta) -> (r: FmResult<i64>) {
        match item {
            Meta::Path(_) => Self::from_empty(),
            Meta::List(ml) => {
                proof {
                    lemma_vec_nested_dv(ml.nested);
                }
                Self::from_list(&ml.nested)
            },
            Meta::NameValue(nv) => Self::from_value(&nv.val),
        }
    }
}

/// A signed number: accepts integer literals in range and strings that
/// read as one, with an optional leading sign.

impl FromMeta for isize {

    open spec fn s_from_int(value: u64) -> Result<isize, ErrorV> {
        if value <= isize::MAX as u64 {
            Ok(value as isize)
        } else {
            Err(ErrorV::UnknownValue(dec_str(value)))
        }
    }

    open spec fn s_from_string(value: Seq<char>) -> Result<isize, ErrorV> {
        if value.len() > 0 && value[0] == '-' {
            match parse_dec(value.drop_first()) {
                Some(v) => if v <= (isize::MAX as u64) + 1 {
                    Ok((0 - v as int) as isize)
                } else {
                    Err(ErrorV::UnknownValue(value))
                },
                None => Err(ErrorV::UnknownValue(value)),
            }
        } else {
            let digits = if value.len() > 0 && value[0] == '+' {
                value.drop_first()
            } else {
                value
            };
            match parse_dec(digits) {
                Some(v) => if v <= isize::MAX as u64 {
                    Ok(v as isize)
                } else {
                    Err(ErrorV::UnknownValue(value))
                },
                None => Err(ErrorV::UnknownValue(value)),
            }
        }
    }

    open spec fn s_from_lit(lit: LitV) -> Result<isize, ErrorV> {
        match lit {
            LitV::Str(s) => Self::s_from_string(s),
            LitV::Int(v, _) => Self::s_from_int(v),
            _ => Err(ErrorV::UnexpectedLitType(lit)),
        }
    }

    fn from_empty() -> (r: FmResult<isize>) {
        Err(Error::unsupported_format("empty"))
    }

    fn from_bool(value: bool) -> (r: FmResult<isize>) {
        Err(Error::unexpected_type("bool"))
    }

    fn from_char(value: char) -> (r: FmResult<isize>) {
        Err(Error::unexpected_type("char"))
    }

    fn from_int(value: u64) -> (r: FmResult<isize>) {
        if value <= isize::MAX as u64 {
            Ok(value as isize)
        } else {
            Err(Error::UnknownValue(u64_to_string(value)))
        }
    }

    fn from_string(value: &str) -> (r: FmResult<isize>) {
        let n = value.unicode_len();
        if n > 0 && value.get_char(0) == '-' {
            let rest = value.substring_char(1, n);
            proof {
                assert(rest@ =~= value@.drop_first());
            }
            match str_parse_u64(rest) {
                Some(v) => if v <= (isize::MAX as u64) + 1 {
                    let neg: i128 = 0i128 - (v as i128);
                    Ok(neg as isize)
                } else {
                    Err(Error::unknown_value(value))
                },
                None => Err(Error::unknown_value(value)),
            }
        } else {
            let digits: &str = if n > 0 && value.get_char(0) == '+' {
                let rest = value.substring_char(1, n);
                proof {
                    assert(rest@ =~= value@.drop_first());
                }
                rest
            } else {
                value
            };
            match str_parse_u64(digits) {
                Some(v) => if v <= isize::MAX as u64 {
                    Ok(v as isize)
                } else {
                    Err(Error::unknown_value(value))
                },
                None => Err(Error::unknown_value(value)),
            }
        }
    }

    fn from_ident(value: &str) -> (r: FmResult<isize>) {
        Err(Error::unexpected_type("ident"))
    }

    fn from_path(value: &Path) -> (r: FmResult<isize>) {
        match value.single_ident() {
            Some(id) => Self::from_ident(id.as_str()),
            None => Err(Error::unexpected_type("path")),
        }
    }

    fn from_lit(lit: &Lit) -> (r: FmResult<isize>) {
        match lit {
            Lit::Str(s) => Self::from_string(s.as_str()),
            Lit::Int(v, _) => Self::from_int(*v),
            _ => Err(Error::unexpected_lit_type(lit)),
        }
    }

    fn from_list(items: &Vec<NestedMeta>) -> (r: FmResult<isize>) {
        if items.len() == 0 {
            Self::from_empty()
        } else if items.len() == 1 {
            Self::from_nested_meta(&items[0])
        } else {
            Err(Error::unsupported_format("list"))
        }
    }

    fn from_value(value: &MetaValue) -> (r: FmResult<isize>) {
        match value {
            MetaValue::Path(p) => Self::from_path(p),
            MetaValue::Lit(l) => Self::from_lit(l),
        }
    }

    fn from_nested_meta(item: &NestedMeta) -> (r: FmResult<isize>) {
        match item {
            NestedMeta::Lit(l) => Self::from_lit(l),
            NestedMeta::Meta(m) => match m {
                Meta::Path(p) => Self::from_path(p),
                Meta::NameValue(_) => Err(Error::unexpected_type("name value")),
                Meta::List(_) => Err(Error::unexpected_type("list")),
            },
        }
    }

    fn from_meta(item: &Meta) -> (r: FmResult<isize>) {
        match item {
            Meta::Path(_) => Self::from_empty(),
            Meta::List(ml) => {
                proof {
                    lemma_vec_nested_dv(ml.nested);
                }
                Self::from_list(&ml.nested)
            },
            Meta::NameValue(nv) => Self::from_value(&nv.val),
        }
    }
}

/// What extracting each item of a list in order yields: the values, or the
/// first failure.
pub open spec fn s_items_from_list<T: FromMeta>(items: Seq<NestedMetaV>) -> Result<
    Seq<T::V>,
    ErrorV,
>
    decreases items.len(),
{
    if items.len() == 0 {
        Ok(Seq::empty())
    } else {
        match T::s_from_nested_meta(items[0]) {
            Err(e) => Err(e),
            Ok(v) => match s_items_from_list::<T>(items.drop_first()) {
                Err(e) => Err(e),
                Ok(rest) => Ok(seq![v] + rest),
            },
        }
    }
}

/// A vector accepts the empty word (no items), a whole list (one value per
/// item, in order, failing on the first bad item), or a single value.
impl<T: FromMeta> FromMeta for Vec<T> {
    open spec fn s_from_empty() -> Result<Seq<T::V>, ErrorV> {
        Ok(Seq::empty())
    }

    open spec fn s_from_list(items: Seq<NestedMetaV>) -> Result<Seq<T::V>, ErrorV> {
        s_items_from_list::<T>(items)
    }

    open spec fn s_from_value(value: MetaValueV) -> Result<Seq<T::V>, ErrorV> {
        match T::s_from_value(value) {
            Ok(v) => Ok(seq![v]),
            Err(e) => Err(e),
        }
    }

    fn from_empty() -> (r: FmResult<Vec<T>>) {
        let out: Vec<T> = Vec::new();
        proof {
            assert(out.deep_view() =~= Seq::<T::V>::empty());
        }
        Ok(out)
    }

    fn from_bool(value: bool) -> (r: FmResult<Vec<T>>) {
        Err(Error::unexpected_type("bool"))
    }

    fn from_char(value: char) -> (r: FmResult<Vec<T>>) {
        Err(Error::unexpected_type("char"))
    }

    fn from_int(value: u64) -> (r: FmResult<Vec<T>>) {
        Err(Error::unexpected_type("int"))
    }

    fn from_string(value: &str) -> (r: FmResult<Vec<T>>) {
        Err(Error::unexpected_type("string"))
    }

    fn from_ident(value: &str) -> (r: FmResult<Vec<T>>) {
        Err(Error::unexpected_type("ident"))
    }

    fn from_path(value: &Path) -> (r: FmResult<Vec<T>>) {
        match value.single_ident() {
            Some(id) => Self::from_ident(id.as_str()),
            None => Err(Error::unexpected_type("path")),
        }
    }

    fn from_lit(lit: &Lit) -> (r: FmResult<Vec<T>>) {
        match lit {
            Lit::Bool(b) => Self::from_bool(*b),
            Lit::Str(s) => Self::from_string(s.as_str()),
            Lit::Char(c) => Self::from_char(*c),
            Lit::Int(v, _) => Self::from_int(*v),
            Lit::Float(_) => Err(Error::unexpected_lit_type(lit)),
        }
    }

    fn from_list(items: &Vec<NestedMeta>) -> (r: FmResult<Vec<T>>) {
        let mut out: Vec<T> = Vec::new();
        let mut i: usize = 0;
        proof {
            assert(items.deep_view().skip(0) =~= items.deep_view());
        }
        while i < items.len()
            invariant
                0 <= i <= items@.len(),
                items@.len() == items.deep_view().len(),
                s_items_from_list::<T>(items.deep_view()) == match s_items_from_list::<T>(
                    items.deep_view().skip(i as int),
                ) {
                    Ok(rest) => Ok::<Seq<T::V>, ErrorV>(out.deep_view() + rest),
                    Err(e) => Err::<Seq<T::V>, ErrorV>(e),
                },
            decreases items@.len() - i,
        {
            let ghost pre = out.deep_view();
            let ghost tail = items.deep_view().skip(i as int);
            proof {
                assert(tail[0] == items.deep_view()[i as int]);
                assert(tail.drop_first() =~= items.deep_view().skip(i as int + 1));
            }
            match T::from_nested_meta(&items[i]) {
                Err(e) => {
                    return Err(e);
                },
                Ok(v) => {
                    out.push(v);
                    proof {
                        assert(out.deep_view() =~= pre.push(v.deep_view()));
                        assert forall|rest: Seq<T::V>|
                            pre + (seq![v.deep_view()] + rest) =~= out.deep_view() + rest by {}
                    }
                },
            }
            i = i + 1;
        }
        proof {
            assert(items.deep_view().skip(items@.len() as int) =~= Seq::<NestedMetaV>::empty());
            assert(out.deep_view() + Seq::<T::V>::empty() =~= out.deep_view());
        }
        Ok(out)
    }

    fn from_value(value: &MetaValue) -> (r: FmResult<Vec<T>>) {
        match T::from_value(value) {
            Ok(v) => {
                let mut out: Vec<T> = Vec::new();
                out.push(v);
                proof {
                    assert(out.deep_view() =~= seq![v.deep_view()]);
                }
                Ok(out)
            },
            Err(e) => Err(e),
        }
    }

    fn from_nested_meta(item: &NestedMeta) -> (r: FmResult<Vec<T>>) {
        match item {
            NestedMeta::Lit(l) => Self::from_lit(l),
            NestedMeta::Meta(m) => match m {
                Meta::Path(p) => Self::from_path(p),
                Meta::NameValue(_) => Err(Error::unexpected_type("name value")),
                Meta::List(_) => Err(Error::unexpected_type("list")),
            },
        }
    }

    fn from_meta(item: &Meta) -> (r: FmResult<Vec<T>>) {
        match item {
            Meta::Path(_) => Self::from_empty(),
            Meta::List(ml) => {
                proof {
                    lemma_vec_nested_dv(ml.nested);
                }
                Self::from_list(&ml.nested)
            },
            Meta::NameValue(nv) => Self::from_value(&nv.val),
        }
    }
}

/// An extraction captured as a value: the inner result is the extraction of
/// `T` from the node, and the outer extraction always succeeds.
pub struct Fallible<T>(pub FmResult<T>);

impl<T: FromMeta> DeepView for Fallible<T> {
    type V = Result<T::V, ErrorV>;

    open spec fn deep_view(&self) -> Result<T::V, ErrorV> {
        res_dv(self.0)
    }
}

impl<T: FromMeta> FromMeta for Fallible<T> {
    open spec fn s_from_meta(item: MetaV) -> Result<Result<T::V, ErrorV>, ErrorV> {
        Ok(T::s_from_meta(item))
    }

    fn from_empty() -> (r: FmResult<Fallible<T>>) {
        Err(Error::unsupported_format("empty"))
    }

    fn from_bool(value: bool) -> (r: FmResult<Fallible<T>>) {
        Err(Error::unexpected_type("bool"))
    }

    fn from_char(value: char) -> (r: FmResult<Fallible<T>>) {
        Err(Error::unexpected_type("char"))
    }

    fn from_int(value: u64) -> (r: FmResult<Fallible<T>>) {
        Err(Error::unexpected_type("int"))
    }

    fn from_string(value: &str) -> (r: FmResult<Fallible<T>>) {
        Err(Error::unexpected_type("string"))
    }

    fn from_ident(value: &str) -> (r: FmResult<Fallible<T>>) {
        Err(Error::unexpected_type("ident"))
    }

    fn from_path(value: &Path) -> (r: FmResult<Fallible<T>>) {
        match value.single_ident() {
            Some(id) => Self::from_ident(id.as_str()),
            None => Err(Error::unexpected_type("path")),
        }
    }

    fn from_lit(lit: &Lit) -> (r: FmResult<Fallible<T>>) {
        match lit {
            Lit::Bool(b) => Self::from_bool(*b),
            Lit::Str(s) => Self::from_string(s.as_str()),
            Lit::Char(c) => Self::from_char(*c),
            Lit::Int(v, _) => Self::from_int(*v),
            Lit::Float(_) => Err(Error::unexpected_lit_type(lit)),
        }
    }

    fn from_list(items: &Vec<NestedMeta>) -> (r: FmResult<Fallible<T>>) {
        if items.len() == 0 {
            Self::from_empty()
        } else if items.len() == 1 {
            Self::from_nested_meta(&items[0])
        } else {
            Err(Error::unsupported_format("list"))
        }
    }

    fn from_value(value: &MetaValue) -> (r: FmResult<Fallible<T>>) {
        match value {
            MetaValue::Path(p) => Self::from_path(p),
            MetaValue::Lit(l) => Self::from_lit(l),
        }
    }

    fn from_nested_meta(item: &NestedMeta) -> (r: FmResult<Fallible<T>>) {
        match item {
            NestedMeta::Lit(l) => Self::from_lit(l),
            NestedMeta::Meta(m) => match m {
                Meta::Path(p) => Self::from_path(p),
                Meta::NameValue(_) => Err(Error::unexpected_type("name value")),
                Meta::List(_) => Err(Error::unexpected_type("list")),
            },
        }
    }

    fn from_meta(item: &Meta) -> (r: FmResult<Fallible<T>>) {
        Ok(Fallible(T::from_meta(item)))
    }
}

/// A present optional value: whole-node extraction of the inner type,
/// wrapped.

impl<T: FromMeta> FromMeta for Option<T> {

    open spec fn s_from_meta(item: MetaV) -> Result<Option<T::V>, ErrorV> {
        match T::s_from_meta(item) {
            Ok(v) => Ok(Some(v)),
            Err(e) => Err(e),
        }
    }

    fn from_empty() -> (r: FmResult<Option<T>>) {
        Err(Error::unsupported_format("empty"))
    }

    fn from_bool(value: bool) -> (r: FmResult<Option<T>>) {
        Err(Error::unexpected_type("bool"))
    }

    fn from_char(value: char) -> (r: FmResult<Option<T>>) {
        Err(Error::unexpected_type("char"))
    }

    fn from_int(value: u64) -> (r: FmResult<Option<T>>) {
        Err(Error::unexpected_type("int"))
    }

    fn from_string(value: &str) -> (r: FmResult<Option<T>>) {
        Err(Error::unexpected_type("string"))
    }

    fn from_ident(value: &str) -> (r: FmResult<Option<T>>) {
        Err(Error::unexpected_type("ident"))
    }

    fn from_path(value: &Path) -> (r: FmResult<Option<T>>) {
        match value.single_ident() {
            Some(id) => Self::from_ident(id.as_str()),
            None => Err(Error::unexpected_type("path")),
        }
    }

    fn from_lit(lit: &Lit) -> (r: FmResult<Option<T>>) {
        match lit {
            Lit::Bool(b) => Self::from_bool(*b),
            Lit::Str(s) => Self::from_string(s.as_str()),
            Lit::Char(c) => Self::from_char(*c),
            Lit::Int(v, _) => Self::from_int(*v),
            Lit::Float(_) => Err(Error::unexpected_lit_type(lit)),
        }
    }

    fn from_list(items: &Vec<NestedMeta>) -> (r: FmResult<Option<T>>) {
        if items.len() == 0 {
            Self::from_empty()
        } else if items.len() == 1 {
            Self::from_nested_meta(&items[0])
        } else {
            Err(Error::unsupported_format("list"))
        }
    }

    fn from_value(value: &MetaValue) -> (r: FmResult<Option<T>>) {
        match value {
            MetaValue::Path(p) => Self::from_path(p),
            MetaValue::Lit(l) => Self::from_lit(l),
        }
    }

    fn from_nested_meta(item: &NestedMeta) -> (r: FmResult<Option<T>>) {
        match item {
            NestedMeta::Lit(l) => Self::from_lit(l),
            NestedMeta::Meta(m) => match m {
                Meta::Path(p) => Self::from_path(p),
                Meta::NameValue(_) => Err(Error::unexpected_type("name value")),
                Meta::List(_) => Err(Error::unexpected_type("list")),
            },
        }
    }

    fn from_meta(item: &Meta) -> (r: FmResult<Option<T>>) {
        match T::from_meta(item) {
            Ok(v) => Ok(Some(v)),
            Err(e) => Err(e),
        }
    }
}

/// A boxed value: whole-node extraction of the inner type, boxed.

impl<T: FromMeta> FromMeta for Box<T> {

    open spec fn s_from_meta(item: MetaV) -> Result<T::V, ErrorV> {
        T::s_from_meta(item)
    }

    fn from_empty() -> (r: FmResult<Box<T>>) {
        Err(Error::unsupported_format("empty"))
    }

    fn from_bool(value: bool) -> (r: FmResult<Box<T>>) {
        Err(Error::unexpected_type("bool"))
    }

    fn from_char(value: char) -> (r: FmResult<Box<T>>) {
        Err(Error::unexpected_type("char"))
    }

    fn from_int(value: u64) -> (r: FmResult<Box<T>>) {
        Err(Error::unexpected_type("int"))
    }

    fn from_string(value: &str) -> (r: FmResult<Box<T>>) {
        Err(Error::unexpected_type("string"))
    }

    fn from_ident(value: &str) -> (r: FmResult<Box<T>>) {
        Err(Error::unexpected_type("ident"))
    }

    fn from_path(value: &Path) -> (r: FmResult<Box<T>>) {
        match value.single_ident() {
            Some(id) => Self::from_ident(id.as_str()),
            None => Err(Error::unexpected_type("path")),
        }
    }

    fn from_lit(lit: &Lit) -> (r: FmResult<Box<T>>) {
        match lit {
            Lit::Bool(b) => Self::from_bool(*b),
            Lit::Str(s) => Self::from_string(s.as_str()),
            Lit::Char(c) => Self::from_char(*c),
            Lit::Int(v, _) => Self::from_int(*v),
            Lit::Float(_) => Err(Error::unexpected_lit_type(lit)),
        }
    }

    fn from_list(items: &Vec<NestedMeta>) -> (r: FmResult<Box<T>>) {
        if items.len() == 0 {
            Self::from_empty()
        } else if items.len() == 1 {
            Self::from_nested_meta(&items[0])
        } else {
            Err(Error::unsupported_format("list"))
        }
    }

    fn from_value(value: &MetaValue) -> (r: FmResult<Box<T>>) {
        match value {
            MetaValue::Path(p) => Self::from_path(p),
            MetaValue::Lit(l) => Self::from_lit(l),
        }
    }

    fn from_nested_meta(item: &NestedMeta) -> (r: FmResult<Box<T>>) {
        match item {
            NestedMeta::Lit(l) => Self::from_lit(l),
            NestedMeta::Meta(m) => match m {
                Meta::Path(p) => Self::from_path(p),
                Meta::NameValue(_) => Err(Error::unexpected_type("name value")),
                Meta::List(_) => Err(Error::unexpected_type("list")),
            },
        }
    }

    fn from_meta(item: &Meta) -> (r: FmResult<Box<T>>) {
        match T::from_meta(item) {
            Ok(v) => Ok(Box::new(v)),
            Err(e) => Err(e),
        }
    }
}

/// A reference-counted value: whole-node extraction of the inner type,
/// shared.

impl<T: FromMeta> FromMeta for std::rc::Rc<T> {

    open spec fn s_from_meta(item: MetaV) -> Result<T::V, ErrorV> {
        T::s_from_meta(item)
    }

    fn from_empty() -> (r: FmResult<std::rc::Rc<T>>) {
        Err(Error::unsupported_format("empty"))
    }

    fn from_bool(value: bool) -> (r: FmResult<std::rc::Rc<T>>) {
        Err(Error::unexpected_type("bool"))
    }

    fn from_char(value: char) -> (r: FmResult<std::rc::Rc<T>>) {
        Err(Error::unexpected_type("char"))
    }

    fn from_int(value: u64) -> (r: FmResult<std::rc::Rc<T>>) {
        Err(Error::unexpected_type("int"))
    }

    fn from_string(value: &str) -> (r: FmResult<std::rc::Rc<T>>) {
        Err(Error::unexpected_type("string"))
    }

    fn from_ident(value: &str) -> (r: FmResult<std::rc::Rc<T>>) {
        Err(Error::unexpected_type("ident"))
    }

    fn from_path(value: &Path) -> (r: FmResult<std::rc::Rc<T>>) {
        match value.single_ident() {
            Some(id) => Self::from_ident(id.as_str()),
            None => Err(Error::unexpected_type("path")),
        }
    }

    fn from_lit(lit: &Lit) -> (r: FmResult<std::rc::Rc<T>>) {
        match lit {
            Lit::Bool(b) => Self::from_bool(*b),
            Lit::Str(s) => Self::from_string(s.as_str()),
            Lit::Char(c) => Self::from_char(*c),
            Lit::Int(v, _) => Self::from_int(*v),
            Lit::Float(_) => Err(Error::unexpected_lit_type(lit)),
        }
    }

    fn from_list(items: &Vec<NestedMeta>) -> (r: FmResult<std::rc::Rc<T>>) {
        if items.len() == 0 {
            Self::from_empty()
        } else if items.len() == 1 {
            Self::from_nested_meta(&items[0])
        } else {
            Err(Error::unsupported_format("list"))
        }
    }

    fn from_value(value: &MetaValue) -> (r: FmResult<std::rc::Rc<T>>) {
        match value {
            MetaValue::Path(p) => Self::from_path(p),
            MetaValue::Lit(l) => Self::from_lit(l),
        }
    }

    fn from_nested_meta(item: &NestedMeta) -> (r: FmResult<std::rc::Rc<T>>) {
        match item {
            NestedMeta::Lit(l) => Self::from_lit(l),
            NestedMeta::Meta(m) => match m {
                Meta::Path(p) => Self::from_path(p),
                Meta::NameValue(_) => Err(Error::unexpected_type("name value")),
                Meta::List(_) => Err(Error::unexpected_type("list")),
            },
        }
    }

    fn from_meta(item: &Meta) -> (r: FmResult<std::rc::Rc<T>>) {
        match T::from_meta(item) {
            Ok(v) => Ok(std::rc::Rc::new(v)),
            Err(e) => Err(e),
        }
    }
}

/// An atomically reference-counted value: whole-node extraction of the
/// inner type, shared.

impl<T: FromMeta> FromMeta for std::sync::Arc<T> {

    open spec fn s_from_meta(item: MetaV) -> Result<T::V, ErrorV> {
        T::s_from_meta(item)
    }

    fn from_empty() -> (r: FmResult<std::sync::Arc<T>>) {
        Err(Error::unsupported_format("empty"))
    }

    fn from_bool(value: bool) -> (r: FmResult<std::sync::Arc<T>>) {
        Err(Error::unexpected_type("bool"))
    }

    fn from_char(value: char) -> (r: FmResult<std::sync::Arc<T>>) {
        Err(Error::unexpected_type("char"))
    }

    fn from_int(value: u64) -> (r: FmResult<std::sync::Arc<T>>) {
        Err(Error::unexpected_type("int"))
    }

    fn from_string(value: &str) -> (r: FmResult<std::sync::Arc<T>>) {
        Err(Error::unexpected_type("string"))
    }

    fn from_ident(value: &str) -> (r: FmResult<std::sync::Arc<T>>) {
        Err(Error::unexpected_type("ident"))
    }

    fn from_path(value: &Path) -> (r: FmResult<std::sync::Arc<T>>) {
        match value.single_ident() {
            Some(id) => Self::from_ident(id.as_str()),
            None => Err(Error::unexpected_type("path")),
        }
    }

    fn from_lit(lit: &Lit) -> (r: FmResult<std::sync::Arc<T>>) {
        match lit {
            Lit::Bool(b) => Self::from_bool(*b),
            Lit::Str(s) => Self::from_string(s.as_str()),
            Lit::Char(c) => Self::from_char(*c),
            Lit::Int(v, _) => Self::from_int(*v),
            Lit::Float(_) => Err(Error::unexpected_lit_type(lit)),
        }
    }

    fn from_list(items: &Vec<NestedMeta>) -> (r: FmResult<std::sync::Arc<T>>) {
        if items.len() == 0 {
            Self::from_empty()
        } else if items.len() == 1 {
            Self::from_nested_meta(&items[0])
        } else {
            Err(Error::unsupported_format("list"))
        }
    }

    fn from_value(value: &MetaValue) -> (r: FmResult<std::sync::Arc<T>>) {
        match value {
            MetaValue::Path(p) => Self::from_path(p),
            MetaValue::Lit(l) => Self::from_lit(l),
        }
    }

    fn from_nested_meta(item: &NestedMeta) -> (r: FmResult<std::sync::Arc<T>>) {
        match item {
            NestedMeta::Lit(l) => Self::from_lit(l),
            NestedMeta::Meta(m) => match m {
                Meta::Path(p) => Self::from_path(p),
                Meta::NameValue(_) => Err(Error::unexpected_type("name value")),
                Meta::List(_) => Err(Error::unexpected_type("list")),
            },
        }
    }

    fn from_meta(item: &Meta) -> (r: FmResult<std::sync::Arc<T>>) {
        match T::from_meta(item) {
            Ok(v) => Ok(std::sync::Arc::new(v)),
            Err(e) => Err(e),
        }
    }
}

/// A node taken as it is.

impl FromMeta for Meta {

    open spec fn s_from_meta(item: MetaV) -> Result<MetaV, ErrorV> {
        Ok(item)
    }

    fn from_empty() -> (r: FmResult<Meta>) {
        Err(Error::unsupported_format("empty"))
    }

    fn from_bool(value: bool) -> (r: FmResult<Meta>) {
        Err(Error::unexpected_type("bool"))
    }

    fn from_char(value: char) -> (r: FmResult<Meta>) {
        Err(Error::unexpected_type("char"))
    }

    fn from_int(value: u64) -> (r: FmResult<Meta>) {
        Err(Error::unexpected_type("int"))
    }

    fn from_string(value: &str) -> (r: FmResult<Meta>) {
        Err(Error::unexpected_type("string"))
    }

    fn from_ident(value: &str) -> (r: FmResult<Meta>) {
        Err(Error::unexpected_type("ident"))
    }

    fn from_path(value: &Path) -> (r: FmResult<Meta>) {
        match value.single_ident() {
            Some(id) => Self::from_ident(id.as_str()),
            None => Err(Error::unexpected_type("path")),
        }
    }

    fn from_lit(lit: &Lit) -> (r: FmResult<Meta>) {
        match lit {
            Lit::Bool(b) => Self::from_bool(*b),
            Lit::Str(s) => Self::from_string(s.as_str()),
            Lit::Char(c) => Self::from_char(*c),
            Lit::Int(v, _) => Self::from_int(*v),
            Lit::Float(_) => Err(Error::unexpected_lit_type(lit)),
        }
    }

    fn from_list(items: &Vec<NestedMeta>) -> (r: FmResult<Meta>) {
        if items.len() == 0 {
            Self::from_empty()
        } else if items.len() == 1 {
            Self::from_nested_meta(&items[0])
        } else {
            Err(Error::unsupported_format("list"))
        }
    }

    fn from_value(value: &MetaValue) -> (r: FmResult<Meta>) {
        match value {
            MetaValue::Path(p) => Self::from_path(p),
            MetaValue::Lit(l) => Self::from_lit(l),
        }
    }

    fn from_nested_meta(item: &NestedMeta) -> (r: FmResult<Meta>) {
        match item {
            NestedMeta::Lit(l) => Self::from_lit(l),
            NestedMeta::Meta(m) => match m {
                Meta::Path(p) => Self::from_path(p),
                Meta::NameValue(_) => Err(Error::unexpected_type("name value")),
                Meta::List(_) => Err(Error::unexpected_type("list")),
            },
        }
    }

    fn from_meta(item: &Meta) -> (r: FmResult<Meta>) {
        Ok(item.duplicate())
    }
}

/// A literal taken as it is.

impl FromMeta for Lit {

    open spec fn s_from_lit(lit: LitV) -> Result<LitV, ErrorV> {
        Ok(lit)
    }

    fn from_empty() -> (r: FmResult<Lit>) {
        Err(Error::unsupported_format("empty"))
    }

    fn from_bool(value: bool) -> (r: FmResult<Lit>) {
        Err(Error::unexpected_type("bool"))
    }

    fn from_char(value: char) -> (r: FmResult<Lit>) {
        Err(Error::unexpected_type("char"))
    }

    fn from_int(value: u64) -> (r: FmResult<Lit>) {
        Err(Error::unexpected_type("int"))
    }

    fn from_string(value: &str) -> (r: FmResult<Lit>) {
        Err(Error::unexpected_type("string"))
    }

    fn from_ident(value: &str) -> (r: FmResult<Lit>) {
        Err(Error::unexpected_type("ident"))
    }

    fn from_path(value: &Path) -> (r: FmResult<Lit>) {
        match value.single_ident() {
            Some(id) => Self::from_ident(id.as_str()),
            None => Err(Error::unexpected_type("path")),
        }
    }

    fn from_lit(lit: &Lit) -> (r: FmResult<Lit>) {
        Ok(lit.duplicate())
    }

    fn from_list(items: &Vec<NestedMeta>) -> (r: FmResult<Lit>) {
        if items.len() == 0 {
            Self::from_empty()
        } else if items.len() == 1 {
            Self::from_nested_meta(&items[0])
        } else {
            Err(Error::unsupported_format("list"))
        }
    }

    fn from_value(value: &MetaValue) -> (r: FmResult<Lit>) {
        match value {
            MetaValue::Path(p) => Self::from_path(p),
            MetaValue::Lit(l) => Self::from_lit(l),
        }
    }

    fn from_nested_meta(item: &NestedMeta) -> (r: FmResult<Lit>) {
        match item {
            NestedMeta::Lit(l) => Self::from_lit(l),
            NestedMeta::Meta(m) => match m {
                Meta::Path(p) => Self::from_path(p),
                Meta::NameValue(_) => Err(Error::unexpected_type("name value")),
                Meta::List(_) => Err(Error::unexpected_type("list")),
            },
        }
    }

    fn from_meta(item: &Meta) -> (r: FmResult<Lit>) {
        match item {
            Meta::Path(_) => Self::from_empty(),
            Meta::List(ml) => {
                proof {
                    lemma_vec_nested_dv(ml.nested);
                }
                Self::from_list(&ml.nested)
            },
            Meta::NameValue(nv) => Self::from_value(&nv.val),
        }
    }
}

/// An extraction that preserves its input on failure: the inner result is
/// the extraction of `T`, and a failed one keeps a copy of the offending
/// node for later analysis.  The outer extraction always succeeds.
pub struct Recovered<T>(pub Result<T, Meta>);

impl<T: FromMeta> DeepView for Recovered<T> {
    type V = Result<T::V, MetaV>;

    open spec fn deep_view(&self) -> Result<T::V, MetaV> {
        match self.0 {
            Ok(v) => Ok(v.deep_view()),
            Err(m) => Err(m.deep_view()),
        }
    }
}

impl<T: FromMeta> FromMeta for Recovered<T> {
    open spec fn s_from_meta(item: MetaV) -> Result<Result<T::V, MetaV>, ErrorV> {
        match T::s_from_meta(item) {
            Ok(v) => Ok(Ok(v)),
            Err(_) => Ok(Err(item)),
        }
    }

    fn from_empty() -> (r: FmResult<Recovered<T>>) {
        Err(Error::unsupported_format("empty"))
    }

    fn from_bool(value: bool) -> (r: FmResult<Recovered<T>>) {
        Err(Error::unexpected_type("bool"))
    }

    fn from_char(value: char) -> (r: FmResult<Recovered<T>>) {
        Err(Error::unexpected_type("char"))
    }

    fn from_int(value: u64) -> (r: FmResult<Recovered<T>>) {
        Err(Error::unexpected_type("int"))
    }

    fn from_string(value: &str) -> (r: FmResult<Recovered<T>>) {
        Err(Error::unexpected_type("string"))
    }

    fn from_ident(value: &str) -> (r: FmResult<Recovered<T>>) {
        Err(Error::unexpected_type("ident"))
    }

    fn from_path(value: &Path) -> (r: FmResult<Recovered<T>>) {
        match value.single_ident() {
            Some(id) => Self::from_ident(id.as_str()),
            None => Err(Error::unexpected_type("path")),
        }
    }

    fn from_lit(lit: &Lit) -> (r: FmResult<Recovered<T>>) {
        match lit {
            Lit::Bool(b) => Self::from_bool(*b),
            Lit::Str(s) => Self::from_string(s.as_str()),
            Lit::Char(c) => Self::from_char(*c),
            Lit::Int(v, _) => Self::from_int(*v),
            Lit::Float(_) => Err(Error::unexpected_lit_type(lit)),
        }
    }

    fn from_list(items: &Vec<NestedMeta>) -> (r: FmResult<Recovered<T>>) {
        if items.len() == 0 {
            Self::from_empty()
        } else if items.len() == 1 {
            Self::from_nested_meta(&items[0])
        } else {
            Err(Error::unsupported_format("list"))
        }
    }

    fn from_value(value: &MetaValue) -> (r: FmResult<Recovered<T>>) {
        match value {
            MetaValue::Path(p) => Self::from_path(p),
            MetaValue::Lit(l) => Self::from_lit(l),
        }
    }

    fn from_nested_meta(item: &NestedMeta) -> (r: FmResult<Recovered<T>>) {
        match item {
            NestedMeta::Lit(l) => Self::from_lit(l),
            NestedMeta::Meta(m) => match m {
                Meta::Path(p) => Self::from_path(p),
                Meta::NameValue(_) => Err(Error::unexpected_type("name value")),
                Meta::List(_) => Err(Error::unexpected_type("list")),
            },
        }
    }

    fn from_meta(item: &Meta) -> (r: FmResult<Recovered<T>>) {
        match T::from_meta(item) {
            Ok(v) => Ok(Recovered(Ok(v))),
            Err(_) => Ok(Recovered(Err(item.duplicate()))),
        }
    }
}

} // verus!

