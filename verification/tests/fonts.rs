use std::sync::Arc;
use xetex_layout::manager::wasm::{
    clear_registered_fonts, describe_font, register_font, registered_fonts, FontRegistry,
    WasmBackend, WasmFontDescriptor,
};
use xetex_layout::manager::{FontInfo, FontRegistration};
use xetex_layout::{clear_font_registrations, register_font as register_manifest_font};

fn registration(filename: &str, index: u32, postscript_name: &str) -> FontRegistration {
    FontRegistration {
        filename: filename.to_string(),
        index,
        postscript_name: postscript_name.to_string(),
        family_names: vec!["Latin Modern Roman".to_string()],
        style_names: vec!["Regular".to_string()],
        full_names: vec!["Latin Modern Roman Regular".to_string()],
        weight: 400,
        width: 5,
        slant: 0,
        is_regular: true,
        is_bold: false,
        is_italic: false,
    }
}

fn info_for(font: Arc<WasmFontDescriptor>) -> FontInfo {
    FontInfo {
        font_ref: font,
        weight: 0,
        width: 0,
        slant: 0,
        is_reg: false,
        is_bold: false,
        is_italic: false,
    }
}

#[test]
fn registration_becomes_a_descriptor() {
    let font = describe_font(registration("lmroman10-regular.otf", 2, "LMRoman10-Regular")).unwrap();
    assert_eq!(font.filename(), "lmroman10-regular.otf");
    assert_eq!(font.index(), 2);
    let names = WasmBackend.read_names(Arc::new(font));
    assert_eq!(names.family_names, vec!["Latin Modern Roman".to_string()]);
    assert_eq!(names.style_names, vec!["Regular".to_string()]);
    assert_eq!(names.full_names, vec!["Latin Modern Roman Regular".to_string()]);
    assert_eq!(names.ps_name, Some("LMRoman10-Regular".to_string()));
}

#[test]
fn missing_family_and_style_names_get_defaults() {
    let mut reg = registration("a.otf", 0, "APostScript");
    reg.family_names = Vec::new();
    reg.style_names = Vec::new();
    reg.full_names = Vec::new();
    let names = WasmBackend.read_names(Arc::new(describe_font(reg).unwrap()));
    assert_eq!(names.family_names, vec!["APostScript".to_string()]);
    assert_eq!(names.style_names, vec![String::new()]);
    assert!(names.full_names.is_empty());
}

#[test]
fn postscript_name_nul_is_reported_first() {
    let mut reg = registration("a\0.otf", 0, "PS\0Name");
    reg.family_names = vec!["\0".to_string()];
    let e = describe_font(reg).unwrap_err();
    assert_eq!(e.nul_position(), 2);
    assert_eq!(e.into_vec(), b"PS\0Name".to_vec());
}

#[test]
fn nul_refusals_follow_the_field_order() {
    let mut reg = registration("a\0.otf", 0, "PS");
    reg.style_names = vec!["Bold".to_string(), "It\0".to_string()];
    reg.full_names = vec!["\0".to_string()];
    let e = describe_font(reg).unwrap_err();
    assert_eq!(e.into_vec(), b"It\0".to_vec());

    let mut reg = registration("a\0.otf", 0, "PS");
    reg.full_names = vec!["\0".to_string()];
    let e = describe_font(reg).unwrap_err();
    assert_eq!(e.into_vec(), b"a\0.otf".to_vec());

    let mut reg = registration("a.otf", 0, "PS");
    reg.full_names = vec!["Full".to_string(), "\0".to_string()];
    let e = describe_font(reg).unwrap_err();
    assert_eq!(e.nul_position(), 0);
}

#[test]
fn registering_a_font_twice_keeps_the_first() {
    let mut registry = FontRegistry::new();
    let first = register_font(&mut registry, registration("a.otf", 0, "First")).unwrap();
    let second = register_font(&mut registry, registration("a.otf", 0, "Second")).unwrap();
    assert!(Arc::ptr_eq(&first, &second));
    let names = WasmBackend.read_names(second);
    assert_eq!(names.ps_name, Some("First".to_string()));
    assert_eq!(registered_fonts(&registry).len(), 1);
}

#[test]
fn distinct_faces_are_registered_in_order() {
    let mut registry = FontRegistry::new();
    register_font(&mut registry, registration("a.otf", 0, "A0")).unwrap();
    register_font(&mut registry, registration("a.otf", 1, "A1")).unwrap();
    register_font(&mut registry, registration("b.otf", 0, "B0")).unwrap();
    let fonts = registered_fonts(&registry);
    let ids: Vec<(String, usize)> =
        fonts.iter().map(|f| (f.filename().to_string(), f.index())).collect();
    assert_eq!(
        ids,
        vec![("a.otf".to_string(), 0), ("a.otf".to_string(), 1), ("b.otf".to_string(), 0)]
    );
}

#[test]
fn refused_registration_leaves_the_registry_alone() {
    let mut registry = FontRegistry::new();
    register_font(&mut registry, registration("a.otf", 0, "A")).unwrap();
    assert!(register_font(&mut registry, registration("b.otf", 0, "B\0")).is_err());
    assert_eq!(registered_fonts(&registry).len(), 1);
}

#[test]
fn clearing_forgets_every_font() {
    let mut registry = FontRegistry::new();
    register_font(&mut registry, registration("a.otf", 0, "A")).unwrap();
    register_font(&mut registry, registration("b.otf", 0, "B")).unwrap();
    clear_registered_fonts(&mut registry);
    assert!(registered_fonts(&registry).is_empty());
}

#[test]
fn manifest_registration_and_clearing() {
    let mut registry = FontRegistry::new();
    assert!(register_manifest_font(&mut registry, registration("a.otf", 0, "A")).is_ok());
    let e = register_manifest_font(&mut registry, registration("a\0", 0, "A")).unwrap_err();
    assert_eq!(e.nul_position(), 1);
    assert_eq!(registered_fonts(&registry).len(), 1);
    clear_font_registrations(&mut registry);
    assert!(registered_fonts(&registry).is_empty());
    assert!(register_manifest_font(&mut registry, registration("a.otf", 0, "A")).is_ok());
    assert_eq!(registered_fonts(&registry).len(), 1);
}

#[test]
fn descriptors_are_equal_by_file_and_face() {
    let a = describe_font(registration("a.otf", 0, "A")).unwrap();
    let b = describe_font(registration("a.otf", 0, "Other")).unwrap();
    let c = describe_font(registration("a.otf", 1, "A")).unwrap();
    assert!(a == b);
    assert!(a != c);
}

#[test]
fn backend_reports_file_and_style() {
    let mut reg = registration("bold.otf", 3, "Bold");
    reg.weight = 700;
    reg.width = 4;
    reg.slant = -12;
    reg.is_regular = false;
    reg.is_bold = true;
    reg.is_italic = true;
    let font = Arc::new(describe_font(reg).unwrap());
    assert_eq!(WasmBackend.get_platform_font_desc(&font), "bold.otf");
    let mut info = info_for(font.clone());
    WasmBackend.get_op_size_rec_and_style_flags(&mut info);
    assert_eq!(info.weight, 700);
    assert_eq!(info.width, 4);
    assert_eq!(info.slant, -12);
    assert!(!info.is_reg);
    assert!(info.is_bold);
    assert!(info.is_italic);
    assert!(Arc::ptr_eq(&info.font_ref, &font));
}
