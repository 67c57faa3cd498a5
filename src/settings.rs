use crate::pdb_types::{
    AccessSpecifierReconstructionFlavor, PrimitiveReconstructionFlavor, SizePrintFlavor,
};
use vstd::prelude::*;

verus! {

/// The persistent settings of the desktop application.
#[derive(Clone, Copy, PartialEq, Eq, Debug, Structural)]
pub struct ResymAppSettings {
    pub use_light_theme: bool,
    pub font_size: u16,
    pub search_case_insensitive: bool,
    pub search_use_regex: bool,
    pub enable_syntax_hightlighting: bool,
    pub integers_as_hexadecimal: bool,
    pub print_offset_info: bool,
    pub print_brackets_new_line: bool,
    pub primitive_types_flavor: PrimitiveReconstructionFlavor,
    pub print_access_specifiers: AccessSpecifierReconstructionFlavor,
    pub size_print_flavor: SizePrintFlavor,
    pub print_header: bool,
    pub reconstruct_dependencies: bool,
    /// Leave out types of the `std` namespace (such as those that the
    /// standard library's templates generate).
    pub ignore_std_types: bool,
    pub print_line_numbers: bool,
}

/// The settings in effect before the user changes any.
pub open spec fn default_settings() -> ResymAppSettings {
    ResymAppSettings {
        use_light_theme: false,
        font_size: 14,
        search_case_insensitive: true,
        search_use_regex: false,
        enable_syntax_hightlighting: true,
        integers_as_hexadecimal: true,
        print_offset_info: true,
        print_brackets_new_line: false,
        primitive_types_flavor: PrimitiveReconstructionFlavor::Portable,
        print_access_specifiers: AccessSpecifierReconstructionFlavor::Always,
        size_print_flavor: SizePrintFlavor::Comment,
        print_header: true,
        reconstruct_dependencies: true,
        ignore_std_types: true,
        print_line_numbers: false,
    }
}

impl Default for ResymAppSettings {
    fn default() -> (r: Self)
        ensures
            r == default_settings(),
    {
        Self {
            use_light_theme: false,
            font_size: 14,
            search_case_insensitive: true,
            search_use_regex: false,
            enable_syntax_hightlighting: true,
            integers_as_hexadecimal: true,
            print_offset_info: true,
            print_brackets_new_line: false,
            primitive_types_flavor: PrimitiveReconstructionFlavor::Portable,
            print_access_specifiers: AccessSpecifierReconstructionFlavor::Always,
            size_print_flavor: SizePrintFlavor::Comment,
            print_header: true,
            reconstruct_dependencies: true,
            ignore_std_types: true,
            print_line_numbers: false,
        }
    }
}

} // verus!
