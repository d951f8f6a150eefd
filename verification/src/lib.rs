//! Font registration, Graphite fallbacks and bidi buffer handling for the
//! XeTeX layout layer, with their behaviour stated as contracts.
//!
//! Fonts reach the layout engine from a host's content manifest: each
//! registration is checked (every name must be able to reach C), turned into
//! a descriptor, and kept once per font-file identity.

pub mod c_api;
pub mod c_string;
pub mod grapheme;
pub mod manager;

use vstd::prelude::*;
use crate::c_string::NulError;
use crate::manager::FontRegistration;
use crate::manager::wasm::{
    clear_registered_fonts, described, registered_after, registration_accepted,
    registration_refusal, FontDescriptorView, FontRegistry,
};

verus! {

/// Register a font from the host's content manifest.
///
/// The font bytes must be available at `registration.filename` whenever
/// XeTeX runs. A registration holding a NUL byte in one of its strings is
/// refused, and the registry is left as it was.
pub fn register_font(registry: &mut FontRegistry, registration: FontRegistration) -> (res: Result<
    (),
    NulError,
>)
    ensures
        res is Ok <==> registration_accepted(registration),
        res is Ok ==> final(registry)@ == registered_after(
            old(registry)@,
            described(registration),
        ),
        res matches Err(e) ==> {
            &&& final(registry)@ == old(registry)@
            &&& registration_refusal(registration, e@)
        },
{
    match manager::wasm::register_font(registry, registration) {
        Ok(_) => Ok(()),
        Err(e) => Err(e),
    }
}

/// Remove all manifest-backed font registrations, so that a later
/// registration set is the one the next XeTeX run sees.
pub fn clear_font_registrations(registry: &mut FontRegistry)
    ensures
        final(registry)@ == Seq::<FontDescriptorView>::empty(),
{
    clear_registered_fonts(registry);
}

} // verus!
