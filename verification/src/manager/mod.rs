//! Font descriptions as the font manager keeps them.

pub mod wasm;

use std::sync::Arc;
use vstd::prelude::*;
use self::wasm::WasmFontDescriptor;

verus! {

/// The character sequences of a list of strings.
pub open spec fn names_view(names: Seq<String>) -> Seq<Seq<char>> {
    names.map_values(|name: String| name@)
}

/// A font-file identity and its naming and style metadata, as a host's
/// content manifest describes it.
pub struct FontRegistration {
    /// Where the font's bytes are found.
    pub filename: String,
    /// The face's index within the file.
    pub index: u32,
    /// The face's PostScript name.
    pub postscript_name: String,
    /// Family names; a font without any is known by its PostScript name.
    pub family_names: Vec<String>,
    /// Style names; a font without any has one empty style name.
    pub style_names: Vec<String>,
    /// Full names.
    pub full_names: Vec<String>,
    /// OS/2 weight class.
    pub weight: u16,
    /// OS/2 width class.
    pub width: u16,
    /// Slant.
    pub slant: i16,
    /// Whether the face is the family's regular one.
    pub is_regular: bool,
    /// Whether the face is bold.
    pub is_bold: bool,
    /// Whether the face is italic.
    pub is_italic: bool,
}

/// What a font is called: the names by which the manager finds it.
pub struct NameCollectionView {
    pub family_names: Seq<Seq<char>>,
    pub style_names: Seq<Seq<char>>,
    pub full_names: Seq<Seq<char>>,
    pub ps_name: Option<Seq<char>>,
}

/// The names of a font, each of which can be handed to C.
#[derive(Debug)]
pub struct NameCollection {
    /// Family names.
    pub family_names: Vec<String>,
    /// Style names.
    pub style_names: Vec<String>,
    /// Full names.
    pub full_names: Vec<String>,
    /// The PostScript name, if known.
    pub ps_name: Option<String>,
}

impl View for NameCollection {
    type V = NameCollectionView;

    open spec fn view(&self) -> NameCollectionView {
        NameCollectionView {
            family_names: names_view(self.family_names@),
            style_names: names_view(self.style_names@),
            full_names: names_view(self.full_names@),
            ps_name: match self.ps_name {
                Some(name) => Some(name@),
                None => None,
            },
        }
    }
}

/// What the font manager records of a font: its reference and its style.
pub struct FontInfo {
    /// The font this record describes.
    pub font_ref: Arc<WasmFontDescriptor>,
    /// OS/2 weight class.
    pub weight: u16,
    /// OS/2 width class.
    pub width: u16,
    /// Slant.
    pub slant: i16,
    /// Whether the face is the family's regular one.
    pub is_reg: bool,
    /// Whether the face is bold.
    pub is_bold: bool,
    /// Whether the face is italic.
    pub is_italic: bool,
}

} // verus!
