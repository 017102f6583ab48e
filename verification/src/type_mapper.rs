//! From a type reference to the target-language type expression.

use crate::error::result_view;
use crate::error::ErrorKind;
use crate::error::GenError;
use crate::error::GenErrorView;
use crate::schema::Primitive;
use crate::schema::TypeRef;
use crate::schema::TypeRefView;
use crate::text::decimal;
use crate::text::decimal_string;
use vstd::prelude::*;
use vstd::string::StringExecFns;

verus! {

/// The target-language type of a primitive kind. The 256-bit integers
/// have none.
pub open spec fn primitive_text(p: Primitive) -> Result<Seq<char>, GenErrorView> {
    match p {
        Primitive::Bool => Ok("bool"@),
        Primitive::U8 => Ok("u8"@),
        Primitive::I8 => Ok("i8"@),
        Primitive::U16 => Ok("u16"@),
        Primitive::I16 => Ok("i16"@),
        Primitive::U32 => Ok("u32"@),
        Primitive::I32 => Ok("i32"@),
        Primitive::F32 => Ok("f32"@),
        Primitive::U64 => Ok("u64"@),
        Primitive::I64 => Ok("i64"@),
        Primitive::F64 => Ok("f64"@),
        Primitive::U128 => Ok("u128"@),
        Primitive::I128 => Ok("i128"@),
        Primitive::U256 => Err(GenErrorView::of(ErrorKind::UnsupportedType, "u256"@)),
        Primitive::I256 => Err(GenErrorView::of(ErrorKind::UnsupportedType, "i256"@)),
        Primitive::Bytes => Ok("Vec<u8>"@),
        Primitive::Text => Ok("String"@),
        Primitive::PublicKey => Ok("Pubkey"@),
    }
}

/// The target-language type expression of a type reference: a primitive
/// by its fixed equivalent, `[T; n]` for a fixed array, `Vec<T>` for a
/// vector, `Option<T>` for an optional value, and a defined name as it
/// stands. An unsupported primitive anywhere inside is the error of the
/// whole.
pub open spec fn type_text(ty: TypeRefView) -> Result<Seq<char>, GenErrorView>
    decreases ty,
{
    match ty {
        TypeRefView::Primitive(p) => primitive_text(p),
        TypeRefView::FixedArray(element, len) => match type_text(*element) {
            Ok(t) => Ok("["@ + t + "; "@ + decimal(len as nat) + "]"@),
            Err(e) => Err(e),
        },
        TypeRefView::Vector(element) => match type_text(*element) {
            Ok(t) => Ok("Vec<"@ + t + ">"@),
            Err(e) => Err(e),
        },
        TypeRefView::Optional(element) => match type_text(*element) {
            Ok(t) => Ok("Option<"@ + t + ">"@),
            Err(e) => Err(e),
        },
        TypeRefView::Defined(name) => Ok(name),
    }
}

/// The target-language type of a primitive kind.
pub fn primitive_to_rust_type(p: Primitive) -> (r: Result<String, GenError>)
    ensures
        result_view(r) == primitive_text(p),
{
    match p {
        Primitive::Bool => Ok("bool".to_owned()),
        Primitive::U8 => Ok("u8".to_owned()),
        Primitive::I8 => Ok("i8".to_owned()),
        Primitive::U16 => Ok("u16".to_owned()),
        Primitive::I16 => Ok("i16".to_owned()),
        Primitive::U32 => Ok("u32".to_owned()),
        Primitive::I32 => Ok("i32".to_owned()),
        Primitive::F32 => Ok("f32".to_owned()),
        Primitive::U64 => Ok("u64".to_owned()),
        Primitive::I64 => Ok("i64".to_owned()),
        Primitive::F64 => Ok("f64".to_owned()),
        Primitive::U128 => Ok("u128".to_owned()),
        Primitive::I128 => Ok("i128".to_owned()),
        Primitive::U256 => Err(GenError::new(ErrorKind::UnsupportedType, "u256".to_owned())),
        Primitive::I256 => Err(GenError::new(ErrorKind::UnsupportedType, "i256".to_owned())),
        Primitive::Bytes => Ok("Vec<u8>".to_owned()),
        Primitive::Text => Ok("String".to_owned()),
        Primitive::PublicKey => Ok("Pubkey".to_owned()),
    }
}

/// The target-language type expression of `ty`.
pub fn ty_to_rust_type(ty: &TypeRef) -> (r: Result<String, GenError>)
    ensures
        result_view(r) == type_text(ty@),
    decreases ty,
{
    match ty {
        TypeRef::Primitive(p) => primitive_to_rust_type(*p),
        TypeRef::FixedArray(element, len) => match ty_to_rust_type(element) {
            Ok(t) => {
                let n = decimal_string(*len);
                let mut out = "[".to_owned();
                out.append(t.as_str());
                out.append("; ");
                out.append(n.as_str());
                out.append("]");
                Ok(out)
            },
            Err(e) => Err(e),
        },
        TypeRef::Vector(element) => match ty_to_rust_type(element) {
            Ok(t) => {
                let mut out = "Vec<".to_owned();
                out.append(t.as_str());
                out.append(">");
                Ok(out)
            },
            Err(e) => Err(e),
        },
        TypeRef::Optional(element) => match ty_to_rust_type(element) {
            Ok(t) => {
                let mut out = "Option<".to_owned();
                out.append(t.as_str());
                out.append(">");
                Ok(out)
            },
            Err(e) => Err(e),
        },
        TypeRef::Defined(name) => Ok(name.clone()),
    }
}

/// No 256-bit integer occurs in `ty`.
pub open spec fn is_supported(ty: TypeRefView) -> bool
    decreases ty,
{
    match ty {
        TypeRefView::Primitive(p) => !(p is U256 || p is I256),
        TypeRefView::FixedArray(element, _) => is_supported(*element),
        TypeRefView::Vector(element) => is_supported(*element),
        TypeRefView::Optional(element) => is_supported(*element),
        TypeRefView::Defined(_) => true,
    }
}

/// A type has a type expression exactly where no 256-bit integer occurs
/// in it.
pub proof fn lemma_type_text_ok(ty: TypeRefView)
    ensures
        type_text(ty) is Ok <==> is_supported(ty),
    decreases ty,
{
    match ty {
        TypeRefView::Primitive(_) => {},
        TypeRefView::FixedArray(element, _) => {
            lemma_type_text_ok(*element);
        },
        TypeRefView::Vector(element) => {
            lemma_type_text_ok(*element);
        },
        TypeRefView::Optional(element) => {
            lemma_type_text_ok(*element);
        },
        TypeRefView::Defined(_) => {},
    }
}

} // verus!
