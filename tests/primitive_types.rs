use resym_core::error::ResymCoreError;
use resym_core::pdb_types::{
    include_headers_for_flavor, primitive_kind_as_str, AccessSpecifierReconstructionFlavor,
    PrimitiveKind, PrimitiveReconstructionFlavor,
};

fn spell(flavor: PrimitiveReconstructionFlavor, kind: PrimitiveKind, indirection: bool) -> String {
    primitive_kind_as_str(&flavor, kind, indirection).expect("spelling")
}

#[test]
fn portable_spellings() {
    assert_eq!(spell(PrimitiveReconstructionFlavor::Portable, PrimitiveKind::I32, false), "int32_t");
    assert_eq!(spell(PrimitiveReconstructionFlavor::Portable, PrimitiveKind::Long, true), "int32_t*");
    assert_eq!(spell(PrimitiveReconstructionFlavor::Portable, PrimitiveKind::UQuad, false), "uint64_t");
    assert_eq!(spell(PrimitiveReconstructionFlavor::Portable, PrimitiveKind::Bool32, false), "int32_t");
    assert_eq!(spell(PrimitiveReconstructionFlavor::Portable, PrimitiveKind::HRESULT, false), "int32_t");
    assert_eq!(spell(PrimitiveReconstructionFlavor::Portable, PrimitiveKind::Char8, false), "char8_t");
    assert_eq!(spell(PrimitiveReconstructionFlavor::Portable, PrimitiveKind::NoType, false), "...");
}

#[test]
fn microsoft_spellings() {
    assert_eq!(spell(PrimitiveReconstructionFlavor::Microsoft, PrimitiveKind::Void, true), "PVOID");
    assert_eq!(spell(PrimitiveReconstructionFlavor::Microsoft, PrimitiveKind::Void, false), "VOID");
    assert_eq!(spell(PrimitiveReconstructionFlavor::Microsoft, PrimitiveKind::U64, false), "ULONGLONG");
    assert_eq!(spell(PrimitiveReconstructionFlavor::Microsoft, PrimitiveKind::F64, true), "DOUBLE*");
    assert_eq!(spell(PrimitiveReconstructionFlavor::Microsoft, PrimitiveKind::Bool32, false), "BOOL");
    assert_eq!(spell(PrimitiveReconstructionFlavor::Microsoft, PrimitiveKind::NoType, true), "...");
}

#[test]
fn raw_and_msvc_spellings() {
    assert_eq!(spell(PrimitiveReconstructionFlavor::Raw, PrimitiveKind::Quad, false), "long long int");
    assert_eq!(spell(PrimitiveReconstructionFlavor::Raw, PrimitiveKind::U64, true), "unsigned long long int*");
    assert_eq!(spell(PrimitiveReconstructionFlavor::Raw, PrimitiveKind::HRESULT, false), "long");
    assert_eq!(spell(PrimitiveReconstructionFlavor::Raw, PrimitiveKind::I8, false), "char");
    assert_eq!(spell(PrimitiveReconstructionFlavor::Msvc, PrimitiveKind::U64, false), "unsigned __int64");
    assert_eq!(spell(PrimitiveReconstructionFlavor::Msvc, PrimitiveKind::I8, true), "__int8*");
    assert_eq!(spell(PrimitiveReconstructionFlavor::Msvc, PrimitiveKind::ULong, false), "unsigned long");
    assert_eq!(spell(PrimitiveReconstructionFlavor::Msvc, PrimitiveKind::Quad, false), "long long");
}

#[test]
fn unhandled_kind_gives_a_placeholder() {
    for flavor in [
        PrimitiveReconstructionFlavor::Portable,
        PrimitiveReconstructionFlavor::Microsoft,
        PrimitiveReconstructionFlavor::Raw,
        PrimitiveReconstructionFlavor::Msvc,
    ] {
        assert_eq!(
            primitive_kind_as_str(&flavor, PrimitiveKind::F16, true),
            Err(ResymCoreError::NotImplementedError(
                "/* FIXME: Unhandled primitive kind: 'F16' */ void".to_string()
            ))
        );
    }
}

#[test]
fn headers_for_each_flavor() {
    assert_eq!(
        include_headers_for_flavor(PrimitiveReconstructionFlavor::Portable, false),
        "#include <cstdint>\n"
    );
    assert_eq!(
        include_headers_for_flavor(PrimitiveReconstructionFlavor::Microsoft, false),
        "#include <Windows.h>\n"
    );
    assert_eq!(include_headers_for_flavor(PrimitiveReconstructionFlavor::Msvc, false), "");
    assert_eq!(
        include_headers_for_flavor(PrimitiveReconstructionFlavor::Raw, true),
        "#include <array>\n#include <list>\n#include <map>\n#include <memory>\n\
         #include <string>\n#include <unordered_map>\n#include <utility>\n#include <vector>\n"
    );
}

#[test]
fn flavor_names_in_any_case() {
    assert_eq!(
        "MSFT".parse::<PrimitiveReconstructionFlavor>(),
        Ok(PrimitiveReconstructionFlavor::Microsoft)
    );
    assert_eq!(
        PrimitiveReconstructionFlavor::parse("Portable"),
        Ok(PrimitiveReconstructionFlavor::Portable)
    );
    assert_eq!(
        PrimitiveReconstructionFlavor::parse("MSVC"),
        Ok(PrimitiveReconstructionFlavor::Msvc)
    );
    assert_eq!(
        PrimitiveReconstructionFlavor::parse("Bogus"),
        Err(ResymCoreError::ParsePrimitiveFlavorError("Bogus".to_string()))
    );
    assert_eq!(
        "TRUE".parse::<AccessSpecifierReconstructionFlavor>(),
        Ok(AccessSpecifierReconstructionFlavor::Always)
    );
    assert_eq!(
        AccessSpecifierReconstructionFlavor::parse("Automatic"),
        Ok(AccessSpecifierReconstructionFlavor::Automatic)
    );
    assert_eq!(
        AccessSpecifierReconstructionFlavor::parse("no"),
        Err(ResymCoreError::ParseAccessSpecifierFlavorError("no".to_string()))
    );
}
