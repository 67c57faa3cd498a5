use crate::error::{ResymCoreError, Result};
use vstd::prelude::*;

verus! {

/// How primitive types are spelled in reconstructed declarations.
#[derive(Clone, Copy, PartialEq, Eq, Debug, Structural)]
pub enum PrimitiveReconstructionFlavor {
    /// Fixed-width spellings from `<cstdint>`.
    Portable,
    /// Windows SDK typedefs.
    Microsoft,
    /// Bare C spellings.
    Raw,
    /// MSVC intrinsic spellings.
    Msvc,
}

/// When access specifiers are printed in reconstructed composites.
#[derive(Clone, Copy, PartialEq, Eq, Debug, Structural)]
pub enum AccessSpecifierReconstructionFlavor {
    Disabled,
    Always,
    Automatic,
}

/// How the size of a reconstructed type is reported.
#[derive(Clone, Copy, PartialEq, Eq, Debug, Structural)]
pub enum SizePrintFlavor {
    Disabled,
    Comment,
    StaticAssert,
}

/// The primitive type kinds that a PDB type stream can hold.
#[derive(Clone, Copy, PartialEq, Eq, Debug, Structural)]
pub enum PrimitiveKind {
    NoType,
    Void,
    Char,
    UChar,
    RChar,
    WChar,
    RChar16,
    RChar32,
    Char8,
    I8,
    U8,
    Short,
    UShort,
    I16,
    U16,
    Long,
    ULong,
    I32,
    U32,
    Quad,
    UQuad,
    I64,
    U64,
    Octa,
    UOcta,
    I128,
    U128,
    F16,
    F32,
    F32PP,
    F48,
    F64,
    F80,
    F128,
    Complex32,
    Complex64,
    Complex80,
    Complex128,
    Bool8,
    Bool16,
    Bool32,
    Bool64,
    HRESULT,
}

/// The name of a primitive kind, as it appears in diagnostics.
pub open spec fn kind_name(k: PrimitiveKind) -> Seq<char> {
    match k {
        PrimitiveKind::NoType => "NoType"@,
        PrimitiveKind::Void => "Void"@,
        PrimitiveKind::Char => "Char"@,
        PrimitiveKind::UChar => "UChar"@,
        PrimitiveKind::RChar => "RChar"@,
        PrimitiveKind::WChar => "WChar"@,
        PrimitiveKind::RChar16 => "RChar16"@,
        PrimitiveKind::RChar32 => "RChar32"@,
        PrimitiveKind::Char8 => "Char8"@,
        PrimitiveKind::I8 => "I8"@,
        PrimitiveKind::U8 => "U8"@,
        PrimitiveKind::Short => "Short"@,
        PrimitiveKind::UShort => "UShort"@,
        PrimitiveKind::I16 => "I16"@,
        PrimitiveKind::U16 => "U16"@,
        PrimitiveKind::Long => "Long"@,
        PrimitiveKind::ULong => "ULong"@,
        PrimitiveKind::I32 => "I32"@,
        PrimitiveKind::U32 => "U32"@,
        PrimitiveKind::Quad => "Quad"@,
        PrimitiveKind::UQuad => "UQuad"@,
        PrimitiveKind::I64 => "I64"@,
        PrimitiveKind::U64 => "U64"@,
        PrimitiveKind::Octa => "Octa"@,
        PrimitiveKind::UOcta => "UOcta"@,
        PrimitiveKind::I128 => "I128"@,
        PrimitiveKind::U128 => "U128"@,
        PrimitiveKind::F16 => "F16"@,
        PrimitiveKind::F32 => "F32"@,
        PrimitiveKind::F32PP => "F32PP"@,
        PrimitiveKind::F48 => "F48"@,
        PrimitiveKind::F64 => "F64"@,
        PrimitiveKind::F80 => "F80"@,
        PrimitiveKind::F128 => "F128"@,
        PrimitiveKind::Complex32 => "Complex32"@,
        PrimitiveKind::Complex64 => "Complex64"@,
        PrimitiveKind::Complex80 => "Complex80"@,
        PrimitiveKind::Complex128 => "Complex128"@,
        PrimitiveKind::Bool8 => "Bool8"@,
        PrimitiveKind::Bool16 => "Bool16"@,
        PrimitiveKind::Bool32 => "Bool32"@,
        PrimitiveKind::Bool64 => "Bool64"@,
        PrimitiveKind::HRESULT => "HRESULT"@,
    }
}

impl PrimitiveKind {
    /// The name of this kind, as it appears in diagnostics.
    pub fn name(&self) -> (r: &'static str)
        ensures
            r@ == kind_name(*self),
    {
        match self {
            PrimitiveKind::NoType => "NoType",
            PrimitiveKind::Void => "Void",
            PrimitiveKind::Char => "Char",
            PrimitiveKind::UChar => "UChar",
            PrimitiveKind::RChar => "RChar",
            PrimitiveKind::WChar => "WChar",
            PrimitiveKind::RChar16 => "RChar16",
            PrimitiveKind::RChar32 => "RChar32",
            PrimitiveKind::Char8 => "Char8",
            PrimitiveKind::I8 => "I8",
            PrimitiveKind::U8 => "U8",
            PrimitiveKind::Short => "Short",
            PrimitiveKind::UShort => "UShort",
            PrimitiveKind::I16 => "I16",
            PrimitiveKind::U16 => "U16",
            PrimitiveKind::Long => "Long",
            PrimitiveKind::ULong => "ULong",
            PrimitiveKind::I32 => "I32",
            PrimitiveKind::U32 => "U32",
            PrimitiveKind::Quad => "Quad",
            PrimitiveKind::UQuad => "UQuad",
            PrimitiveKind::I64 => "I64",
            PrimitiveKind::U64 => "U64",
            PrimitiveKind::Octa => "Octa",
            PrimitiveKind::UOcta => "UOcta",
            PrimitiveKind::I128 => "I128",
            PrimitiveKind::U128 => "U128",
            PrimitiveKind::F16 => "F16",
            PrimitiveKind::F32 => "F32",
            PrimitiveKind::F32PP => "F32PP",
            PrimitiveKind::F48 => "F48",
            PrimitiveKind::F64 => "F64",
            PrimitiveKind::F80 => "F80",
            PrimitiveKind::F128 => "F128",
            PrimitiveKind::Complex32 => "Complex32",
            PrimitiveKind::Complex64 => "Complex64",
            PrimitiveKind::Complex80 => "Complex80",
            PrimitiveKind::Complex128 => "Complex128",
            PrimitiveKind::Bool8 => "Bool8",
            PrimitiveKind::Bool16 => "Bool16",
            PrimitiveKind::Bool32 => "Bool32",
            PrimitiveKind::Bool64 => "Bool64",
            PrimitiveKind::HRESULT => "HRESULT",
        }
    }
}

/// The placeholder reported for a primitive kind that a flavor cannot spell.
pub open spec fn unhandled_placeholder(k: PrimitiveKind) -> Seq<char> {
    "/* FIXME: Unhandled primitive kind: '"@ + kind_name(k) + "' */ void"@
}

/// `s` followed by a pointer star when `indirection` holds.
pub open spec fn with_indirection(s: Seq<char>, indirection: bool) -> Seq<char> {
    if indirection {
        s + "*"@
    } else {
        s
    }
}

pub open spec fn opt_view(o: Option<&str>) -> Option<Seq<char>> {
    match o {
        Some(s) => Some(s@),
        None => None,
    }
}

/// Spelling of a primitive kind under the portable flavor, before indirection.
pub open spec fn portable_spelling(k: PrimitiveKind) -> Option<Seq<char>> {
    match k {
        PrimitiveKind::Void => Some("void"@),
        PrimitiveKind::Char | PrimitiveKind::RChar => Some("char"@),
        PrimitiveKind::UChar => Some("unsigned char"@),
        PrimitiveKind::WChar => Some("wchar_t"@),
        PrimitiveKind::RChar16 => Some("char16_t"@),
        PrimitiveKind::RChar32 => Some("char32_t"@),
        PrimitiveKind::Char8 => Some("char8_t"@),
        PrimitiveKind::I8 => Some("int8_t"@),
        PrimitiveKind::U8 => Some("uint8_t"@),
        PrimitiveKind::I16 | PrimitiveKind::Short => Some("int16_t"@),
        PrimitiveKind::U16 | PrimitiveKind::UShort => Some("uint16_t"@),
        PrimitiveKind::I32 | PrimitiveKind::Long => Some("int32_t"@),
        PrimitiveKind::U32 | PrimitiveKind::ULong => Some("uint32_t"@),
        PrimitiveKind::I64 | PrimitiveKind::Quad => Some("int64_t"@),
        PrimitiveKind::U64 | PrimitiveKind::UQuad => Some("uint64_t"@),
        PrimitiveKind::F32 => Some("float"@),
        PrimitiveKind::F64 => Some("double"@),
        PrimitiveKind::Bool8 => Some("bool"@),
        PrimitiveKind::Bool32 => Some("int32_t"@),
        PrimitiveKind::HRESULT => Some("int32_t"@),
        PrimitiveKind::NoType => Some("..."@),
        _ => None,
    }
}

/// Spelling of a primitive kind under the raw C flavor, before indirection.
pub open spec fn raw_spelling(k: PrimitiveKind) -> Option<Seq<char>> {
    match k {
        PrimitiveKind::Void => Some("void"@),
        PrimitiveKind::I8 | PrimitiveKind::Char | PrimitiveKind::RChar => Some("char"@),
        PrimitiveKind::U8 | PrimitiveKind::UChar => Some("unsigned char"@),
        PrimitiveKind::WChar => Some("wchar_t"@),
        PrimitiveKind::RChar16 => Some("char16_t"@),
        PrimitiveKind::RChar32 => Some("char32_t"@),
        PrimitiveKind::Char8 => Some("char8_t"@),
        PrimitiveKind::I16 | PrimitiveKind::Short => Some("short"@),
        PrimitiveKind::U16 | PrimitiveKind::UShort => Some("unsigned short"@),
        PrimitiveKind::I32 | PrimitiveKind::Long => Some("int"@),
        PrimitiveKind::U32 | PrimitiveKind::ULong => Some("unsigned int"@),
        PrimitiveKind::I64 | PrimitiveKind::Quad => Some("long long int"@),
        PrimitiveKind::U64 | PrimitiveKind::UQuad => Some("unsigned long long int"@),
        PrimitiveKind::F32 => Some("float"@),
        PrimitiveKind::F64 => Some("double"@),
        PrimitiveKind::Bool8 => Some("bool"@),
        PrimitiveKind::Bool32 => Some("long"@),
        PrimitiveKind::HRESULT => Some("long"@),
        PrimitiveKind::NoType => Some("..."@),
        _ => None,
    }
}

/// Spelling of a primitive kind under the MSVC flavor, before indirection.
pub open spec fn msvc_spelling(k: PrimitiveKind) -> Option<Seq<char>> {
    match k {
        PrimitiveKind::Void => Some("void"@),
        PrimitiveKind::Char | PrimitiveKind::RChar => Some("char"@),
        PrimitiveKind::UChar => Some("unsigned char"@),
        PrimitiveKind::WChar => Some("wchar_t"@),
        PrimitiveKind::RChar16 => Some("char16_t"@),
        PrimitiveKind::RChar32 => Some("char32_t"@),
        PrimitiveKind::Char8 => Some("char8_t"@),
        PrimitiveKind::I8 => Some("__int8"@),
        PrimitiveKind::U8 => Some("unsigned __int8"@),
        PrimitiveKind::I16 => Some("__int16"@),
        PrimitiveKind::U16 => Some("unsigned __int16"@),
        PrimitiveKind::I32 => Some("int"@),
        PrimitiveKind::U32 => Some("unsigned int"@),
        PrimitiveKind::I64 => Some("__int64"@),
        PrimitiveKind::U64 => Some("unsigned __int64"@),
        PrimitiveKind::Short => Some("short"@),
        PrimitiveKind::UShort => Some("unsigned short"@),
        PrimitiveKind::Long => Some("long"@),
        PrimitiveKind::ULong => Some("unsigned long"@),
        PrimitiveKind::Quad => Some("long long"@),
        PrimitiveKind::UQuad => Some("unsigned long long"@),
        PrimitiveKind::F32 => Some("float"@),
        PrimitiveKind::F64 => Some("double"@),
        PrimitiveKind::Bool8 => Some("bool"@),
        PrimitiveKind::Bool32 => Some("long"@),
        PrimitiveKind::HRESULT => Some("long"@),
        PrimitiveKind::NoType => Some("..."@),
        _ => None,
    }
}

/// `pointer` when `indirection` holds, else `plain`.
pub open spec fn pick(indirection: bool, pointer: Seq<char>, plain: Seq<char>) -> Seq<char> {
    if indirection {
        pointer
    } else {
        plain
    }
}

/// Spelling of a primitive kind under the Windows SDK flavor, where
/// indirection is part of the typedef's name.
pub open spec fn microsoft_spelling(k: PrimitiveKind, ind: bool) -> Option<Seq<char>> {
    match k {
        PrimitiveKind::Void => Some(pick(ind, "PVOID"@, "VOID"@)),
        PrimitiveKind::Char | PrimitiveKind::RChar | PrimitiveKind::I8 => Some(
            pick(ind, "PCHAR"@, "CHAR"@),
        ),
        PrimitiveKind::UChar | PrimitiveKind::U8 => Some(pick(ind, "PUCHAR"@, "UCHAR"@)),
        PrimitiveKind::WChar => Some(pick(ind, "PWCHAR"@, "WCHAR"@)),
        PrimitiveKind::RChar16 => Some(pick(ind, "char16_t*"@, "char16_t"@)),
        PrimitiveKind::RChar32 => Some(pick(ind, "char32_t*"@, "char32_t"@)),
        PrimitiveKind::Char8 => Some(pick(ind, "char8_t*"@, "char8_t"@)),
        PrimitiveKind::I16 | PrimitiveKind::Short => Some(pick(ind, "PSHORT"@, "SHORT"@)),
        PrimitiveKind::U16 | PrimitiveKind::UShort => Some(pick(ind, "PUSHORT"@, "USHORT"@)),
        PrimitiveKind::I32 | PrimitiveKind::Long => Some(pick(ind, "PLONG"@, "LONG"@)),
        PrimitiveKind::U32 | PrimitiveKind::ULong => Some(pick(ind, "PULONG"@, "ULONG"@)),
        PrimitiveKind::I64 | PrimitiveKind::Quad => Some(pick(ind, "PLONGLONG"@, "LONGLONG"@)),
        PrimitiveKind::U64 | PrimitiveKind::UQuad => Some(
            pick(ind, "PULONGLONG"@, "ULONGLONG"@),
        ),
        PrimitiveKind::F32 => Some(pick(ind, "PFLOAT"@, "FLOAT"@)),
        PrimitiveKind::F64 => Some(pick(ind, "DOUBLE*"@, "DOUBLE"@)),
        PrimitiveKind::Bool8 => Some(pick(ind, "PBOOLEAN"@, "BOOLEAN"@)),
        PrimitiveKind::Bool32 => Some(pick(ind, "PBOOL"@, "BOOL"@)),
        PrimitiveKind::HRESULT => Some(pick(ind, "HRESULT*"@, "HRESULT"@)),
        PrimitiveKind::NoType => Some("..."@),
        _ => None,
    }
}

/// Appends the pointer star to a spelling, when there is one.
pub open spec fn star_if(o: Option<Seq<char>>, indirection: bool) -> Option<Seq<char>> {
    match o {
        Some(s) => Some(with_indirection(s, indirection)),
        None => None,
    }
}

/// The full spelling of a primitive kind under a flavor, or `None` where the
/// flavor has no spelling for it.
pub open spec fn primitive_spelling(
    flavor: PrimitiveReconstructionFlavor,
    k: PrimitiveKind,
    indirection: bool,
) -> Option<Seq<char>> {
    match flavor {
        PrimitiveReconstructionFlavor::Portable => star_if(portable_spelling(k), indirection),
        PrimitiveReconstructionFlavor::Microsoft => microsoft_spelling(k, indirection),
        PrimitiveReconstructionFlavor::Raw => star_if(raw_spelling(k), indirection),
        PrimitiveReconstructionFlavor::Msvc => star_if(msvc_spelling(k), indirection),
    }
}

/// `r` is the outcome of formatting `k` where `expected` is the spelling owed:
/// that spelling, or the placeholder error where there is none.
pub open spec fn spelled_as(r: Result<String>, expected: Option<Seq<char>>, k: PrimitiveKind) -> bool {
    match r {
        Ok(s) => expected == Some(s@),
        Err(ResymCoreError::NotImplementedError(m)) => expected is None && m@
            == unhandled_placeholder(k),
        Err(_) => false,
    }
}

fn portable_str(k: PrimitiveKind) -> (r: Option<&'static str>)
    ensures
        opt_view(r) == portable_spelling(k),
{
    match k {
        PrimitiveKind::Void => Some("void"),
        PrimitiveKind::Char | PrimitiveKind::RChar => Some("char"),
        PrimitiveKind::UChar => Some("unsigned char"),
        PrimitiveKind::WChar => Some("wchar_t"),
        PrimitiveKind::RChar16 => Some("char16_t"),
        PrimitiveKind::RChar32 => Some("char32_t"),
        PrimitiveKind::Char8 => Some("char8_t"),
        PrimitiveKind::I8 => Some("int8_t"),
        PrimitiveKind::U8 => Some("uint8_t"),
        PrimitiveKind::I16 | PrimitiveKind::Short => Some("int16_t"),
        PrimitiveKind::U16 | PrimitiveKind::UShort => Some("uint16_t"),
        PrimitiveKind::I32 | PrimitiveKind::Long => Some("int32_t"),
        PrimitiveKind::U32 | PrimitiveKind::ULong => Some("uint32_t"),
        PrimitiveKind::I64 | PrimitiveKind::Quad => Some("int64_t"),
        PrimitiveKind::U64 | PrimitiveKind::UQuad => Some("uint64_t"),
        PrimitiveKind::F32 => Some("float"),
        PrimitiveKind::F64 => Some("double"),
        PrimitiveKind::Bool8 => Some("bool"),
        PrimitiveKind::Bool32 => Some("int32_t"),
        PrimitiveKind::HRESULT => Some("int32_t"),
        PrimitiveKind::NoType => Some("..."),
        _ => None,
    }
}

fn raw_str(k: PrimitiveKind) -> (r: Option<&'static str>)
    ensures
        opt_view(r) == raw_spelling(k),
{
    match k {
        PrimitiveKind::Void => Some("void"),
        PrimitiveKind::I8 | PrimitiveKind::Char | PrimitiveKind::RChar => Some("char"),
        PrimitiveKind::U8 | PrimitiveKind::UChar => Some("unsigned char"),
        PrimitiveKind::WChar => Some("wchar_t"),
        PrimitiveKind::RChar16 => Some("char16_t"),
        PrimitiveKind::RChar32 => Some("char32_t"),
        PrimitiveKind::Char8 => Some("char8_t"),
        PrimitiveKind::I16 | PrimitiveKind::Short => Some("short"),
        PrimitiveKind::U16 | PrimitiveKind::UShort => Some("unsigned short"),
        PrimitiveKind::I32 | PrimitiveKind::Long => Some("int"),
        PrimitiveKind::U32 | PrimitiveKind::ULong => Some("unsigned int"),
        PrimitiveKind::I64 | PrimitiveKind::Quad => Some("long long int"),
        PrimitiveKind::U64 | PrimitiveKind::UQuad => Some("unsigned long long int"),
        PrimitiveKind::F32 => Some("float"),
        PrimitiveKind::F64 => Some("double"),
        PrimitiveKind::Bool8 => Some("bool"),
        PrimitiveKind::Bool32 => Some("long"),
        PrimitiveKind::HRESULT => Some("long"),
        PrimitiveKind::NoType => Some("..."),
        _ => None,
    }
}

fn msvc_str(k: PrimitiveKind) -> (r: Option<&'static str>)
    ensures
        opt_view(r) == msvc_spelling(k),
{
    match k {
        PrimitiveKind::Void => Some("void"),
        PrimitiveKind::Char | PrimitiveKind::RChar => Some("char"),
        PrimitiveKind::UChar => Some("unsigned char"),
        PrimitiveKind::WChar => Some("wchar_t"),
        PrimitiveKind::RChar16 => Some("char16_t"),
        PrimitiveKind::RChar32 => Some("char32_t"),
        PrimitiveKind::Char8 => Some("char8_t"),
        PrimitiveKind::I8 => Some("__int8"),
        PrimitiveKind::U8 => Some("unsigned __int8"),
        PrimitiveKind::I16 => Some("__int16"),
        PrimitiveKind::U16 => Some("unsigned __int16"),
        PrimitiveKind::I32 => Some("int"),
        PrimitiveKind::U32 => Some("unsigned int"),
        PrimitiveKind::I64 => Some("__int64"),
        PrimitiveKind::U64 => Some("unsigned __int64"),
        PrimitiveKind::Short => Some("short"),
        PrimitiveKind::UShort => Some("unsigned short"),
        PrimitiveKind::Long => Some("long"),
        PrimitiveKind::ULong => Some("unsigned long"),
        PrimitiveKind::Quad => Some("long long"),
        PrimitiveKind::UQuad => Some("unsigned long long"),
        PrimitiveKind::F32 => Some("float"),
        PrimitiveKind::F64 => Some("double"),
        PrimitiveKind::Bool8 => Some("bool"),
        PrimitiveKind::Bool32 => Some("long"),
        PrimitiveKind::HRESULT => Some("long"),
        PrimitiveKind::NoType => Some("..."),
        _ => None,
    }
}

fn microsoft_str(k: PrimitiveKind, ind: bool) -> (r: Option<&'static str>)
    ensures
        opt_view(r) == microsoft_spelling(k, ind),
{
    match k {
        PrimitiveKind::Void => Some(if ind { "PVOID" } else { "VOID" }),
        PrimitiveKind::Char | PrimitiveKind::RChar | PrimitiveKind::I8 => Some(
            if ind { "PCHAR" } else { "CHAR" },
        ),
        PrimitiveKind::UChar | PrimitiveKind::U8 => Some(if ind { "PUCHAR" } else { "UCHAR" }),
        PrimitiveKind::WChar => Some(if ind { "PWCHAR" } else { "WCHAR" }),
        PrimitiveKind::RChar16 => Some(if ind { "char16_t*" } else { "char16_t" }),
        PrimitiveKind::RChar32 => Some(if ind { "char32_t*" } else { "char32_t" }),
        PrimitiveKind::Char8 => Some(if ind { "char8_t*" } else { "char8_t" }),
        PrimitiveKind::I16 | PrimitiveKind::Short => Some(if ind { "PSHORT" } else { "SHORT" }),
        PrimitiveKind::U16 | PrimitiveKind::UShort => Some(if ind { "PUSHORT" } else { "USHORT" }),
        PrimitiveKind::I32 | PrimitiveKind::Long => Some(if ind { "PLONG" } else { "LONG" }),
        PrimitiveKind::U32 | PrimitiveKind::ULong => Some(if ind { "PULONG" } else { "ULONG" }),
        PrimitiveKind::I64 | PrimitiveKind::Quad => Some(if ind { "PLONGLONG" } else { "LONGLONG" }),
        PrimitiveKind::U64 | PrimitiveKind::UQuad => Some(
            if ind { "PULONGLONG" } else { "ULONGLONG" },
        ),
        PrimitiveKind::F32 => Some(if ind { "PFLOAT" } else { "FLOAT" }),
        PrimitiveKind::F64 => Some(if ind { "DOUBLE*" } else { "DOUBLE" }),
        PrimitiveKind::Bool8 => Some(if ind { "PBOOLEAN" } else { "BOOLEAN" }),
        PrimitiveKind::Bool32 => Some(if ind { "PBOOL" } else { "BOOL" }),
        PrimitiveKind::HRESULT => Some(if ind { "HRESULT*" } else { "HRESULT" }),
        PrimitiveKind::NoType => Some("..."),
        _ => None,
    }
}

fn unhandled(k: PrimitiveKind) -> (e: ResymCoreError)
    ensures
        e matches ResymCoreError::NotImplementedError(m) && m@ == unhandled_placeholder(k),
{
    let m = String::from_str("/* FIXME: Unhandled primitive kind: '").concat(k.name()).concat(
        "' */ void",
    );
    ResymCoreError::NotImplementedError(m)
}

/// Spells `s` and adds the pointer star when `indirection` holds.
fn starred(s: Option<&'static str>, k: PrimitiveKind, indirection: bool) -> (r: Result<String>)
    ensures
        spelled_as(r, star_if(opt_view(s), indirection), k),
{
    match s {
        Some(s) => {
            let mut text = String::from_str(s);
            if indirection {
                text.append("*");
            }
            Ok(text)
        },
        None => Err(unhandled(k)),
    }
}

/// The C++ spelling of a primitive kind under `flavor`, with a pointer when
/// `indirection` holds. A kind that the flavor cannot spell gives a
/// `NotImplementedError` whose payload is a placeholder declaration.
pub fn primitive_kind_as_str(
    flavor: &PrimitiveReconstructionFlavor,
    primitive_kind: PrimitiveKind,
    indirection: bool,
) -> (r: Result<String>)
    ensures
        spelled_as(r, primitive_spelling(*flavor, primitive_kind, indirection), primitive_kind),
{
    match flavor {
        PrimitiveReconstructionFlavor::Portable => primitive_kind_as_str_portable(
            primitive_kind,
            indirection,
        ),
        PrimitiveReconstructionFlavor::Microsoft => primitive_kind_as_str_microsoft(
            primitive_kind,
            indirection,
        ),
        PrimitiveReconstructionFlavor::Raw => primitive_kind_as_str_raw(primitive_kind, indirection),
        PrimitiveReconstructionFlavor::Msvc => primitive_kind_as_str_msvc(
            primitive_kind,
            indirection,
        ),
    }
}

fn primitive_kind_as_str_portable(primitive_kind: PrimitiveKind, indirection: bool) -> (r: Result<
    String,
>)
    ensures
        spelled_as(r, star_if(portable_spelling(primitive_kind), indirection), primitive_kind),
{
    starred(portable_str(primitive_kind), primitive_kind, indirection)
}

fn primitive_kind_as_str_raw(primitive_kind: PrimitiveKind, indirection: bool) -> (r: Result<
    String,
>)
    ensures
        spelled_as(r, star_if(raw_spelling(primitive_kind), indirection), primitive_kind),
{
    starred(raw_str(primitive_kind), primitive_kind, indirection)
}

fn primitive_kind_as_str_msvc(primitive_kind: PrimitiveKind, indirection: bool) -> (r: Result<
    String,
>)
    ensures
        spelled_as(r, star_if(msvc_spelling(primitive_kind), indirection), primitive_kind),
{
    starred(msvc_str(primitive_kind), primitive_kind, indirection)
}

fn primitive_kind_as_str_microsoft(primitive_kind: PrimitiveKind, indirection: bool) -> (r:
    Result<String>)
    ensures
        spelled_as(r, microsoft_spelling(primitive_kind, indirection), primitive_kind),
{
    match microsoft_str(primitive_kind, indirection) {
        Some(s) => Ok(String::from_str(s)),
        None => Err(unhandled(primitive_kind)),
    }
}

/// The header that declares the primitive spellings of a flavor.
pub open spec fn flavor_header(flavor: PrimitiveReconstructionFlavor) -> Seq<char> {
    match flavor {
        PrimitiveReconstructionFlavor::Portable => "#include <cstdint>\n"@,
        PrimitiveReconstructionFlavor::Microsoft => "#include <Windows.h>\n"@,
        PrimitiveReconstructionFlavor::Raw => Seq::empty(),
        PrimitiveReconstructionFlavor::Msvc => Seq::empty(),
    }
}

/// The standard headers that declare the standard library types which
/// replace elided `std::` types.
pub open spec fn std_headers() -> Seq<char> {
    "#include <array>\n"@ + "#include <list>\n"@ + "#include <map>\n"@ + "#include <memory>\n"@
        + "#include <string>\n"@ + "#include <unordered_map>\n"@ + "#include <utility>\n"@
        + "#include <vector>\n"@
}

/// The headers to put before reconstructed declarations: those of the flavor,
/// then the standard headers when standard library types are elided.
pub fn include_headers_for_flavor(flavor: PrimitiveReconstructionFlavor, ignore_std_types: bool) -> (r:
    String)
    ensures
        r@ == flavor_header(flavor) + (if ignore_std_types {
            std_headers()
        } else {
            Seq::empty()
        }),
{
    let header = match flavor {
        PrimitiveReconstructionFlavor::Portable => "#include <cstdint>\n",
        PrimitiveReconstructionFlavor::Microsoft => "#include <Windows.h>\n",
        PrimitiveReconstructionFlavor::Raw => "",
        PrimitiveReconstructionFlavor::Msvc => "",
    };
    proof {
        reveal_strlit("");
    }
    let mut headers = String::from_str(header);
    if ignore_std_types {
        headers.append("#include <array>\n");
        headers.append("#include <list>\n");
        headers.append("#include <map>\n");
        headers.append("#include <memory>\n");
        headers.append("#include <string>\n");
        headers.append("#include <unordered_map>\n");
        headers.append("#include <utility>\n");
        headers.append("#include <vector>\n");
    }
    proof {
        if !ignore_std_types {
            assert(headers@ =~= flavor_header(flavor) + Seq::<char>::empty());
        }
    }
    headers
}

/// The name of a character sequence lowered to lower case by
/// `str::to_lowercase`.
pub uninterp spec fn lower_of(s: Seq<char>) -> Seq<char>;

/// Relies on `str::to_lowercase`: the lower-case mapping of a string depends on
/// its characters alone.
#[verifier::external_body]
fn lowercase(s: &str) -> (r: String)
    ensures
        r@ == lower_of(s@),
{
    s.to_lowercase()
}

/// The primitive flavor that a lower-case name stands for.
pub open spec fn primitive_flavor_named(n: Seq<char>) -> Option<PrimitiveReconstructionFlavor> {
    if n == "portable"@ {
        Some(PrimitiveReconstructionFlavor::Portable)
    } else if n == "ms"@ || n == "msft"@ || n == "microsoft"@ {
        Some(PrimitiveReconstructionFlavor::Microsoft)
    } else if n == "raw"@ {
        Some(PrimitiveReconstructionFlavor::Raw)
    } else if n == "msvc"@ {
        Some(PrimitiveReconstructionFlavor::Msvc)
    } else {
        None
    }
}

/// The access specifier flavor that a lower-case name stands for.
pub open spec fn access_flavor_named(n: Seq<char>) -> Option<AccessSpecifierReconstructionFlavor> {
    if n == "disabled"@ || n == "false"@ {
        Some(AccessSpecifierReconstructionFlavor::Disabled)
    } else if n == "always"@ || n == "true"@ {
        Some(AccessSpecifierReconstructionFlavor::Always)
    } else if n == "automatic"@ {
        Some(AccessSpecifierReconstructionFlavor::Automatic)
    } else {
        None
    }
}

fn same_text(a: &String, b: &str) -> (r: bool)
    ensures
        r == (a@ == b@),
{
    *a == String::from_str(b)
}

impl PrimitiveReconstructionFlavor {
    /// The flavor named by `name`, which is already in lower case.
    pub fn from_lowercase_name(name: &String) -> (r: Option<Self>)
        ensures
            r == primitive_flavor_named(name@),
    {
        if same_text(name, "portable") {
            Some(PrimitiveReconstructionFlavor::Portable)
        } else if same_text(name, "ms") || same_text(name, "msft") || same_text(name, "microsoft") {
            Some(PrimitiveReconstructionFlavor::Microsoft)
        } else if same_text(name, "raw") {
            Some(PrimitiveReconstructionFlavor::Raw)
        } else if same_text(name, "msvc") {
            Some(PrimitiveReconstructionFlavor::Msvc)
        } else {
            None
        }
    }

    /// The flavor named by `s`, in any case.
    pub fn parse(s: &str) -> (r: Result<Self>)
        ensures
            match r {
                Ok(f) => primitive_flavor_named(lower_of(s@)) == Some(f),
                Err(ResymCoreError::ParsePrimitiveFlavorError(m)) => primitive_flavor_named(
                    lower_of(s@),
                ) is None && m@ == s@,
                Err(_) => false,
            },
    {
        let lower = lowercase(s);
        match Self::from_lowercase_name(&lower) {
            Some(f) => Ok(f),
            None => Err(ResymCoreError::ParsePrimitiveFlavorError(String::from_str(s))),
        }
    }
}

impl std::str::FromStr for PrimitiveReconstructionFlavor {
    type Err = ResymCoreError;

    fn from_str(s: &str) -> core::result::Result<Self, Self::Err> {
        Self::parse(s)
    }
}

impl AccessSpecifierReconstructionFlavor {
    /// The flavor named by `name`, which is already in lower case.
    pub fn from_lowercase_name(name: &String) -> (r: Option<Self>)
        ensures
            r == access_flavor_named(name@),
    {
        if same_text(name, "disabled") || same_text(name, "false") {
            Some(AccessSpecifierReconstructionFlavor::Disabled)
        } else if same_text(name, "always") || same_text(name, "true") {
            Some(AccessSpecifierReconstructionFlavor::Always)
        } else if same_text(name, "automatic") {
            Some(AccessSpecifierReconstructionFlavor::Automatic)
        } else {
            None
        }
    }

    /// The flavor named by `s`, in any case.
    pub fn parse(s: &str) -> (r: Result<Self>)
        ensures
            match r {
                Ok(f) => access_flavor_named(lower_of(s@)) == Some(f),
                Err(ResymCoreError::ParseAccessSpecifierFlavorError(m)) => access_flavor_named(
                    lower_of(s@),
                ) is None && m@ == s@,
                Err(_) => false,
            },
    {
        let lower = lowercase(s);
        match Self::from_lowercase_name(&lower) {
            Some(f) => Ok(f),
            None => Err(ResymCoreError::ParseAccessSpecifierFlavorError(String::from_str(s))),
        }
    }
}

impl std::str::FromStr for AccessSpecifierReconstructionFlavor {
    type Err = ResymCoreError;

    fn from_str(s: &str) -> core::result::Result<Self, Self::Err> {
        Self::parse(s)
    }
}

} // verus!
