//! Manifest-backed font discovery for WebAssembly.
//!
//! The host describes each font it can serve; a description is turned into a
//! descriptor whose names can all be handed to C, and the registry keeps one
//! descriptor per font-file identity (file name and face index).

use std::sync::Arc;
use vstd::prelude::*;
use vstd::utf8::encode_utf8;
use vstd::std_specs::cmp::PartialEqSpecImpl;
use crate::c_string::{
    all_nul_free, c_safe, has_nul, into_c_string, refuses, refuses_first, strings_to_cstrings,
    utf8_bytes, NulError, NulErrorView,
};
use super::{names_view, FontInfo, FontRegistration, NameCollection, NameCollectionView};

verus! {

/// The font-manager backend that serves the fonts a host registered.
pub struct WasmBackend;

/// A font descriptor as seen by the contracts.
pub struct FontDescriptorView {
    pub filename: Seq<char>,
    pub index: usize,
    pub names: NameCollectionView,
    pub weight: u16,
    pub width: u16,
    pub slant: i16,
    pub is_regular: bool,
    pub is_bold: bool,
    pub is_italic: bool,
}

impl FontDescriptorView {
    /// Every name of the descriptor, and its file name, can be handed to C.
    pub open spec fn c_safe(self) -> bool {
        &&& c_safe(self.filename)
        &&& forall|i: int|
            0 <= i < self.names.family_names.len() ==> c_safe(#[trigger] self.names.family_names[i])
        &&& forall|i: int|
            0 <= i < self.names.style_names.len() ==> c_safe(#[trigger] self.names.style_names[i])
        &&& forall|i: int|
            0 <= i < self.names.full_names.len() ==> c_safe(#[trigger] self.names.full_names[i])
        &&& self.names.ps_name matches Some(ps) ==> c_safe(ps)
    }
}

/// Two descriptors name the same font: same file, same face index.
pub open spec fn same_font(a: FontDescriptorView, b: FontDescriptorView) -> bool {
    a.filename == b.filename && a.index == b.index
}

/// No font is registered twice.
pub open spec fn distinct_fonts(fonts: Seq<FontDescriptorView>) -> bool {
    forall|i: int, j: int|
        0 <= i < fonts.len() && 0 <= j < fonts.len() && i != j ==> !same_font(
            #[trigger] fonts[i],
            #[trigger] fonts[j],
        )
}

/// Every registered font can be handed to C.
pub open spec fn all_c_safe(fonts: Seq<FontDescriptorView>) -> bool {
    forall|i: int| 0 <= i < fonts.len() ==> (#[trigger] fonts[i]).c_safe()
}

/// A font with the identity of `d` is registered.
pub open spec fn holds_font(fonts: Seq<FontDescriptorView>, d: FontDescriptorView) -> bool {
    exists|i: int| 0 <= i < fonts.len() && same_font(#[trigger] fonts[i], d)
}

/// The registered fonts after `d` is registered: unchanged when a font of its
/// identity is already there, else `d` appended.
pub open spec fn registered_after(
    fonts: Seq<FontDescriptorView>,
    d: FontDescriptorView,
) -> Seq<FontDescriptorView> {
    if holds_font(fonts, d) {
        fonts
    } else {
        fonts.push(d)
    }
}

/// The font a registration of `d` hands back: the one already registered
/// under its identity, else `d` itself.
pub open spec fn registration_result(
    fonts: Seq<FontDescriptorView>,
    d: FontDescriptorView,
) -> FontDescriptorView {
    if holds_font(fonts, d) {
        fonts[choose|i: int| 0 <= i < fonts.len() && same_font(fonts[i], d)]
    } else {
        d
    }
}

/// The descriptor made of an accepted registration. A font without family
/// names is known by its PostScript name; one without style names has a
/// single empty style name.
pub open spec fn described(reg: FontRegistration) -> FontDescriptorView {
    FontDescriptorView {
        filename: reg.filename@,
        index: reg.index as usize,
        names: NameCollectionView {
            family_names: if reg.family_names@.len() == 0 {
                seq![reg.postscript_name@]
            } else {
                names_view(reg.family_names@)
            },
            style_names: if reg.style_names@.len() == 0 {
                seq![Seq::<char>::empty()]
            } else {
                names_view(reg.style_names@)
            },
            full_names: names_view(reg.full_names@),
            ps_name: Some(reg.postscript_name@),
        },
        weight: reg.weight,
        width: reg.width,
        slant: reg.slant,
        is_regular: reg.is_regular,
        is_bold: reg.is_bold,
        is_italic: reg.is_italic,
    }
}

/// A registration is accepted when none of its strings holds a NUL byte.
pub open spec fn registration_accepted(reg: FontRegistration) -> bool {
    &&& !has_nul(utf8_bytes(reg.postscript_name))
    &&& all_nul_free(reg.family_names@)
    &&& all_nul_free(reg.style_names@)
    &&& !has_nul(utf8_bytes(reg.filename))
    &&& all_nul_free(reg.full_names@)
}

/// The refusal of a registration: that of the first offending string, the
/// strings taken in the order PostScript name, family names, style names,
/// file name, full names.
pub open spec fn registration_refusal(reg: FontRegistration, e: NulErrorView) -> bool {
    if has_nul(utf8_bytes(reg.postscript_name)) {
        refuses(reg.postscript_name, e)
    } else if !all_nul_free(reg.family_names@) {
        refuses_first(reg.family_names@, e)
    } else if !all_nul_free(reg.style_names@) {
        refuses_first(reg.style_names@, e)
    } else if has_nul(utf8_bytes(reg.filename)) {
        refuses(reg.filename, e)
    } else {
        refuses_first(reg.full_names@, e)
    }
}

/// `kept` is `given`, name for name and in order; or, where nothing was
/// given, `fallback`.
pub open spec fn keeps_names(kept: Seq<Seq<char>>, given: Seq<String>, fallback: Seq<Seq<char>>) -> bool {
    &&& given.len() == 0 ==> kept == fallback
    &&& given.len() != 0 ==> {
        &&& kept.len() == given.len()
        &&& forall|i: int| 0 <= i < given.len() ==> kept[i] == (#[trigger] given[i])@
    }
}

/// A font-file identity and its manifest-provided naming metadata.
#[derive(Debug)]
pub struct WasmFontDescriptor {
    filename: String,
    index: usize,
    names: NameCollection,
    weight: u16,
    width: u16,
    slant: i16,
    is_regular: bool,
    is_bold: bool,
    is_italic: bool,
}

impl View for WasmFontDescriptor {
    type V = FontDescriptorView;

    closed spec fn view(&self) -> FontDescriptorView {
        FontDescriptorView {
            filename: self.filename@,
            index: self.index,
            names: self.names@,
            weight: self.weight,
            width: self.width,
            slant: self.slant,
            is_regular: self.is_regular,
            is_bold: self.is_bold,
            is_italic: self.is_italic,
        }
    }
}

impl WasmFontDescriptor {
    #[verifier::type_invariant]
    spec fn names_can_reach_c(self) -> bool {
        self@.c_safe()
    }

    /// The file the font's bytes are read from.
    pub fn filename(&self) -> (filename: &str)
        ensures
            filename@ == self@.filename,
    {
        self.filename.as_str()
    }

    /// The face's index within its file.
    pub fn index(&self) -> (index: usize)
        ensures
            index == self@.index,
    {
        self.index
    }
}

impl PartialEq for WasmFontDescriptor {
    /// Two descriptors are equal when they name the same font file and face.
    fn eq(&self, other: &Self) -> (equal: bool) {
        self.filename == other.filename && self.index == other.index
    }
}

impl PartialEqSpecImpl for WasmFontDescriptor {
    open spec fn obeys_eq_spec() -> bool {
        true
    }

    open spec fn eq_spec(&self, other: &Self) -> bool {
        self@.filename == other@.filename && self@.index == other@.index
    }
}

impl Eq for WasmFontDescriptor {}

/// Copies a list of names.
fn copy_names(names: &Vec<String>) -> (copy: Vec<String>)
    ensures
        copy@ == names@,
{
    let mut copy: Vec<String> = Vec::new();
    let len = names.len();
    let mut i: usize = 0;
    while i < len
        invariant
            len == names@.len(),
            i <= len,
            copy@ == names@.take(i as int),
        decreases len - i,
    {
        copy.push(names[i].clone());
        assert(names@.take(i + 1) == names@.take(i as int).push(names@[i as int]));
        i = i + 1;
    }
    assert(names@.take(len as int) == names@);
    copy
}

/// Copies a name collection.
fn copy_collection(names: &NameCollection) -> (copy: NameCollection)
    ensures
        copy@ == names@,
{
    let ps_name = match &names.ps_name {
        Some(name) => Some(name.clone()),
        None => None,
    };
    NameCollection {
        family_names: copy_names(&names.family_names),
        style_names: copy_names(&names.style_names),
        full_names: copy_names(&names.full_names),
        ps_name,
    }
}

/// Turns a host's font registration into a descriptor, refusing it when one
/// of its strings holds a NUL byte.
pub fn describe_font(registration: FontRegistration) -> (res: Result<WasmFontDescriptor, NulError>)
    ensures
        res is Ok <==> registration_accepted(registration),
        res matches Ok(d) ==> d@ == described(registration),
        res matches Err(e) ==> registration_refusal(registration, e@),
        res matches Ok(d) ==> {
            &&& d@.filename == registration.filename@
            &&& d@.index == registration.index
            &&& d@.weight == registration.weight
            &&& d@.width == registration.width
            &&& d@.slant == registration.slant
            &&& d@.is_regular == registration.is_regular
            &&& d@.is_bold == registration.is_bold
            &&& d@.is_italic == registration.is_italic
            &&& d@.names.ps_name == Some(registration.postscript_name@)
        },
        res matches Ok(d) ==> keeps_names(
            d@.names.family_names,
            registration.family_names@,
            seq![registration.postscript_name@],
        ),
        res matches Ok(d) ==> keeps_names(
            d@.names.style_names,
            registration.style_names@,
            seq![Seq::<char>::empty()],
        ),
        res matches Ok(d) ==> {
            &&& d@.names.full_names.len() == registration.full_names@.len()
            &&& forall|i: int|
                0 <= i < registration.full_names@.len() ==> d@.names.full_names[i]
                    == (#[trigger] registration.full_names@[i])@
        },
{
    let ghost reg = registration;
    let postscript_name = match into_c_string(registration.postscript_name) {
        Ok(name) => name,
        Err(e) => return Err(e),
    };
    let mut family_names = match strings_to_cstrings(registration.family_names) {
        Ok(names) => names,
        Err(e) => return Err(e),
    };
    if family_names.len() == 0 {
        family_names.push(postscript_name.clone());
    }
    let mut style_names = match strings_to_cstrings(registration.style_names) {
        Ok(names) => names,
        Err(e) => return Err(e),
    };
    if style_names.len() == 0 {
        style_names.push(String::new());
    }
    let filename = match into_c_string(registration.filename) {
        Ok(name) => name,
        Err(e) => return Err(e),
    };
    let full_names = match strings_to_cstrings(registration.full_names) {
        Ok(names) => names,
        Err(e) => return Err(e),
    };
    proof {
        assert(encode_utf8(Seq::<char>::empty()) == Seq::<u8>::empty());
        assert(all_nul_free(family_names@));
        assert(all_nul_free(style_names@));
        lemma_names_reach_c(family_names@);
        lemma_names_reach_c(style_names@);
        lemma_names_reach_c(full_names@);
        assert(names_view(family_names@) == described(reg).names.family_names);
        assert(names_view(style_names@) == described(reg).names.style_names);
    }
    let names = NameCollection { family_names, style_names, full_names, ps_name: Some(postscript_name) };
    let descriptor = WasmFontDescriptor {
        filename,
        index: registration.index as usize,
        names,
        weight: registration.weight,
        width: registration.width,
        slant: registration.slant,
        is_regular: registration.is_regular,
        is_bold: registration.is_bold,
        is_italic: registration.is_italic,
    };
    Ok(descriptor)
}

/// Names whose bytes hold no NUL can be handed to C.
proof fn lemma_names_reach_c(names: Seq<String>)
    requires
        all_nul_free(names),
    ensures
        forall|i: int| 0 <= i < names.len() ==> c_safe(#[trigger] names_view(names)[i]),
{
    assert forall|i: int| 0 <= i < names.len() implies c_safe(#[trigger] names_view(names)[i]) by {
        assert(names_view(names)[i] == names[i]@);
        assert(!has_nul(utf8_bytes(names[i])));
    }
}

/// `Arc::clone` from std: another handle to the same descriptor.
#[verifier::external_body]
fn share(font: &Arc<WasmFontDescriptor>) -> (shared: Arc<WasmFontDescriptor>)
    ensures
        shared == *font,
{
    Arc::clone(font)
}

/// The fonts a host has registered, one per font-file identity, in the order
/// of their first registration.
pub struct FontRegistry {
    fonts: Vec<Arc<WasmFontDescriptor>>,
}

impl View for FontRegistry {
    type V = Seq<FontDescriptorView>;

    closed spec fn view(&self) -> Seq<FontDescriptorView> {
        self.fonts@.map_values(|font: Arc<WasmFontDescriptor>| font@)
    }
}

/// Registering a font never registers one file and face twice.
pub proof fn register_keeps_fonts_distinct(fonts: Seq<FontDescriptorView>, d: FontDescriptorView)
    requires
        distinct_fonts(fonts),
    ensures
        distinct_fonts(registered_after(fonts, d)),
{
    if !holds_font(fonts, d) {
        let after = fonts.push(d);
        assert forall|i: int, j: int|
            0 <= i < after.len() && 0 <= j < after.len() && i != j implies !same_font(
            #[trigger] after[i],
            #[trigger] after[j],
        ) by {
            if i == fonts.len() {
                assert(after[j] == fonts[j]);
            } else if j == fonts.len() {
                assert(after[i] == fonts[i]);
            } else {
                assert(after[i] == fonts[i] && after[j] == fonts[j]);
            }
        }
    }
}

/// Registering a font whose names can reach C keeps every registered font
/// able to reach C.
pub proof fn register_keeps_fonts_c_safe(fonts: Seq<FontDescriptorView>, d: FontDescriptorView)
    requires
        all_c_safe(fonts),
        d.c_safe(),
    ensures
        all_c_safe(registered_after(fonts, d)),
{
    if !holds_font(fonts, d) {
        let after = fonts.push(d);
        assert forall|i: int| 0 <= i < after.len() implies (#[trigger] after[i]).c_safe() by {
            if i < fonts.len() {
                assert(after[i] == fonts[i]);
            }
        }
    }
}

/// Registering a font keeps every earlier registration, in its place, and
/// adds at most one.
pub proof fn register_keeps_earlier_fonts(fonts: Seq<FontDescriptorView>, d: FontDescriptorView)
    ensures
        registered_after(fonts, d).len() <= fonts.len() + 1,
        registered_after(fonts, d).take(fonts.len() as int) == fonts,
{
    assert(registered_after(fonts, d).take(fonts.len() as int) =~= fonts);
}

/// After a registration a font of the registered file and face is there, and
/// the font handed back names that file and face.
pub proof fn registered_font_is_held(fonts: Seq<FontDescriptorView>, d: FontDescriptorView)
    ensures
        holds_font(registered_after(fonts, d), d),
        same_font(registration_result(fonts, d), d),
{
    if !holds_font(fonts, d) {
        let after = fonts.push(d);
        assert(same_font(after[fonts.len() as int], d));
    }
}

/// The registration handed back when the font is new is the one just
/// appended; when the font was already held, it is that earlier one.
pub proof fn registration_result_is_registered(fonts: Seq<FontDescriptorView>, d: FontDescriptorView)
    ensures
        registered_after(fonts, d).contains(registration_result(fonts, d)),
{
    let after = registered_after(fonts, d);
    if holds_font(fonts, d) {
        let k = choose|i: int| 0 <= i < fonts.len() && same_font(fonts[i], d);
        assert(after[k] == registration_result(fonts, d));
    } else {
        assert(after[fonts.len() as int] == d);
    }
}

/// Registering the same font twice is the same as registering it once: the
/// second registration changes nothing and hands back the same font.
pub proof fn register_twice_is_register_once(fonts: Seq<FontDescriptorView>, d: FontDescriptorView)
    requires
        distinct_fonts(fonts),
    ensures
        registered_after(registered_after(fonts, d), d) == registered_after(fonts, d),
        registration_result(registered_after(fonts, d), d) == registration_result(fonts, d),
{
    let after = registered_after(fonts, d);
    registered_font_is_held(fonts, d);
    if !holds_font(fonts, d) {
        register_keeps_fonts_distinct(fonts, d);
        let k = choose|i: int| 0 <= i < after.len() && same_font(after[i], d);
        let last = fonts.len() as int;
        assert(same_font(after[last], d));
        assert(k == last) by {
            if k != last {
                assert(same_font(after[k], after[last]));
            }
        }
    }
}

/// Registering a font never drops another.
pub proof fn register_never_drops_a_font(
    fonts: Seq<FontDescriptorView>,
    d: FontDescriptorView,
    other: FontDescriptorView,
)
    requires
        holds_font(fonts, other),
    ensures
        holds_font(registered_after(fonts, d), other),
{
    let k = choose|i: int| 0 <= i < fonts.len() && same_font(fonts[i], other);
    assert(registered_after(fonts, d)[k] == fonts[k]);
}

/// A registration's descriptor keeps the registration's file, face, style and
/// PostScript name; its family, style and full names are the registration's,
/// in order, a missing family list becoming the PostScript name and a missing
/// style list a single empty name.
pub proof fn description_keeps_registration(reg: FontRegistration)
    ensures
        described(reg).filename == reg.filename@,
        described(reg).index == reg.index,
        described(reg).weight == reg.weight,
        described(reg).width == reg.width,
        described(reg).slant == reg.slant,
        described(reg).is_regular == reg.is_regular,
        described(reg).is_bold == reg.is_bold,
        described(reg).is_italic == reg.is_italic,
        described(reg).names.ps_name == Some(reg.postscript_name@),
        keeps_names(described(reg).names.family_names, reg.family_names@, seq![reg.postscript_name@]),
        keeps_names(described(reg).names.style_names, reg.style_names@, seq![Seq::<char>::empty()]),
        described(reg).names.full_names.len() == reg.full_names@.len(),
        forall|i: int|
            0 <= i < reg.full_names@.len() ==> described(reg).names.full_names[i]
                == (#[trigger] reg.full_names@[i])@,
{
}

/// Two descriptors of one file and face are one font, whatever else they
/// say: registering the second after the first changes nothing and hands
/// back what registering the first did.
pub proof fn one_file_and_face_is_one_font(
    fonts: Seq<FontDescriptorView>,
    a: FontDescriptorView,
    b: FontDescriptorView,
)
    requires
        distinct_fonts(fonts),
        a.filename == b.filename,
        a.index == b.index,
    ensures
        registered_after(registered_after(fonts, a), b) == registered_after(fonts, a),
        registration_result(registered_after(fonts, a), b) == registration_result(fonts, a),
{
    let after = registered_after(fonts, a);
    registered_font_is_held(fonts, a);
    register_keeps_fonts_distinct(fonts, a);
    let ka = choose|i: int| 0 <= i < after.len() && same_font(after[i], a);
    assert(same_font(after[ka], b));
    assert(holds_font(after, b));
    let kb = choose|i: int| 0 <= i < after.len() && same_font(after[i], b);
    assert(kb == ka) by {
        if kb != ka {
            assert(same_font(after[kb], after[ka]));
        }
    }
    if holds_font(fonts, a) {
        let k0 = choose|i: int| 0 <= i < fonts.len() && same_font(fonts[i], a);
        assert(k0 == ka) by {
            if k0 != ka {
                assert(same_font(fonts[k0], fonts[ka]));
            }
        }
    } else {
        let last = fonts.len() as int;
        assert(same_font(after[last], a));
        assert(ka == last) by {
            if ka != last {
                assert(same_font(after[ka], after[last]));
            }
        }
    }
}

/// Every name of an accepted registration's descriptor can reach C.
pub proof fn accepted_registration_reaches_c(reg: FontRegistration)
    requires
        registration_accepted(reg),
    ensures
        described(reg).c_safe(),
{
    let d = described(reg);
    assert(encode_utf8(Seq::<char>::empty()) == Seq::<u8>::empty());
    lemma_names_reach_c(reg.family_names@);
    lemma_names_reach_c(reg.style_names@);
    lemma_names_reach_c(reg.full_names@);
    assert(c_safe(reg.postscript_name@)) by {
        assert(utf8_bytes(reg.postscript_name) == encode_utf8(reg.postscript_name@));
    }
    assert(c_safe(reg.filename@)) by {
        assert(utf8_bytes(reg.filename) == encode_utf8(reg.filename@));
    }
}

impl FontRegistry {
    #[verifier::type_invariant]
    spec fn well_formed(self) -> bool {
        distinct_fonts(self@) && all_c_safe(self@)
    }

    /// A registry with no fonts.
    pub fn new() -> (registry: FontRegistry)
        ensures
            registry@ == Seq::<FontDescriptorView>::empty(),
    {
        let registry = FontRegistry { fonts: Vec::new() };
        assert(registry@ =~= Seq::<FontDescriptorView>::empty());
        registry
    }

    /// Registers a descriptor. When a font of the same file and face index is
    /// already registered, the registry is left as it is and that font is
    /// handed back; otherwise the descriptor is appended and handed back.
    pub fn register(&mut self, descriptor: WasmFontDescriptor) -> (font: Arc<WasmFontDescriptor>)
        ensures
            final(self)@ == registered_after(old(self)@, descriptor@),
            font@ == registration_result(old(self)@, descriptor@),
            (exists|i: int|
                0 <= i < old(self)@.len() && (#[trigger] old(self)@[i]).filename
                    == descriptor@.filename && old(self)@[i].index == descriptor@.index) ==> {
                &&& final(self)@ == old(self)@
                &&& forall|i: int|
                    0 <= i < old(self)@.len() && (#[trigger] old(self)@[i]).filename
                        == descriptor@.filename && old(self)@[i].index == descriptor@.index
                        ==> font@ == old(self)@[i]
            },
            !(exists|i: int|
                0 <= i < old(self)@.len() && (#[trigger] old(self)@[i]).filename
                    == descriptor@.filename && old(self)@[i].index == descriptor@.index) ==> {
                &&& final(self)@ == old(self)@.push(descriptor@)
                &&& font@ == descriptor@
            },
    {
        proof {
            use_type_invariant(&*self);
            use_type_invariant(&descriptor);
        }
        let fresh = Arc::new(descriptor);
        let len = self.fonts.len();
        let mut i: usize = 0;
        while i < len
            invariant
                len == self.fonts@.len(),
                i <= len,
                self@ == self.fonts@.map_values(|font: Arc<WasmFontDescriptor>| font@),
                distinct_fonts(self@),
                *self == *old(self),
                fresh@ == descriptor@,
                forall|j: int| 0 <= j < i ==> !same_font(#[trigger] self@[j], descriptor@),
            decreases len - i,
        {
            let candidate: &WasmFontDescriptor = &self.fonts[i];
            if candidate.filename == fresh.filename && candidate.index == fresh.index {
                let existing = share(&self.fonts[i]);
                proof {
                    let fonts = self@;
                    assert(fonts[i as int] == self.fonts@[i as int]@);
                    assert(same_font(fonts[i as int], descriptor@));
                    assert(holds_font(fonts, descriptor@));
                    let k = choose|k: int| 0 <= k < fonts.len() && same_font(fonts[k], descriptor@);
                    assert(k == i as int) by {
                        if k != i as int {
                            assert(same_font(fonts[k], fonts[i as int]));
                        }
                    }
                }
                return existing;
            }
            i = i + 1;
        }
        proof {
            assert(!holds_font(self@, descriptor@));
            register_keeps_fonts_distinct(self@, descriptor@);
            register_keeps_fonts_c_safe(self@, descriptor@);
        }
        let mut fonts: Vec<Arc<WasmFontDescriptor>> = Vec::new();
        std::mem::swap(&mut fonts, &mut self.fonts);
        let ghost before = fonts@;
        fonts.push(share(&fresh));
        proof {
            assert(fonts@ == before.push(fresh));
            assert(fonts@.map_values(|font: Arc<WasmFontDescriptor>| font@) =~= old(self)@.push(
                descriptor@,
            ));
        }
        self.fonts = fonts;
        fresh
    }
}

/// Turns a host's font registration into a descriptor and registers it,
/// handing back the registered font; a registration whose strings hold a NUL
/// byte is refused and leaves the registry as it was.
pub fn register_font(registry: &mut FontRegistry, registration: FontRegistration) -> (res: Result<
    Arc<WasmFontDescriptor>,
    NulError,
>)
    ensures
        res is Ok <==> registration_accepted(registration),
        res matches Ok(font) ==> {
            &&& final(registry)@ == registered_after(old(registry)@, described(registration))
            &&& font@ == registration_result(old(registry)@, described(registration))
        },
        res matches Err(e) ==> {
            &&& final(registry)@ == old(registry)@
            &&& registration_refusal(registration, e@)
        },
{
    match describe_font(registration) {
        Ok(descriptor) => Ok(registry.register(descriptor)),
        Err(e) => Err(e),
    }
}

/// Handles to every registered font, in registration order.
pub fn registered_fonts(registry: &FontRegistry) -> (fonts: Vec<Arc<WasmFontDescriptor>>)
    ensures
        fonts@.map_values(|font: Arc<WasmFontDescriptor>| font@) == registry@,
        distinct_fonts(registry@),
        all_c_safe(registry@),
{
    proof {
        use_type_invariant(registry);
    }
    let len = registry.fonts.len();
    let mut fonts: Vec<Arc<WasmFontDescriptor>> = Vec::new();
    let mut i: usize = 0;
    while i < len
        invariant
            len == registry.fonts@.len(),
            i <= len,
            fonts@ == registry.fonts@.take(i as int),
        decreases len - i,
    {
        fonts.push(share(&registry.fonts[i]));
        assert(registry.fonts@.take(i + 1) == registry.fonts@.take(i as int).push(
            registry.fonts@[i as int],
        ));
        i = i + 1;
    }
    assert(registry.fonts@.take(len as int) == registry.fonts@);
    fonts
}

/// Forgets every registered font.
pub fn clear_registered_fonts(registry: &mut FontRegistry)
    ensures
        final(registry)@ == Seq::<FontDescriptorView>::empty(),
{
    registry.fonts = Vec::new();
    assert(registry@ =~= Seq::<FontDescriptorView>::empty());
}

impl WasmBackend {
    /// The description the font manager uses for a font: its file name.
    pub fn get_platform_font_desc<'a>(&'a self, font: &'a Arc<WasmFontDescriptor>) -> (desc: &'a str)
        ensures
            desc@ == font@.filename,
    {
        font.filename()
    }

    /// Fills a font record's style from the descriptor it refers to.
    pub fn get_op_size_rec_and_style_flags(&self, font: &mut FontInfo)
        ensures
            final(font).font_ref == old(font).font_ref,
            final(font).weight == old(font).font_ref@.weight,
            final(font).width == old(font).font_ref@.width,
            final(font).slant == old(font).font_ref@.slant,
            final(font).is_reg == old(font).font_ref@.is_regular,
            final(font).is_bold == old(font).font_ref@.is_bold,
            final(font).is_italic == old(font).font_ref@.is_italic,
    {
        let descriptor: &WasmFontDescriptor = &font.font_ref;
        let weight = descriptor.weight;
        let width = descriptor.width;
        let slant = descriptor.slant;
        let is_reg = descriptor.is_regular;
        let is_bold = descriptor.is_bold;
        let is_italic = descriptor.is_italic;
        font.weight = weight;
        font.width = width;
        font.slant = slant;
        font.is_reg = is_reg;
        font.is_bold = is_bold;
        font.is_italic = is_italic;
    }

    /// The names of a registered font.
    pub fn read_names(&self, font: Arc<WasmFontDescriptor>) -> (names: NameCollection)
        ensures
            names@ == font@.names,
    {
        let descriptor: &WasmFontDescriptor = &font;
        copy_collection(&descriptor.names)
    }
}

} // verus!
