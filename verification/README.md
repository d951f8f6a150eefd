# xetex_layout

Font registration, Graphite fallbacks and bidi buffer handling for the XeTeX
layout layer, written in Verus with their behaviour stated as contracts.

- `src/c_string.rs`: strings that can be handed to C (no NUL byte), and the
  refusal that reports the first NUL.
- `src/manager/`: font registrations, descriptors, and the registry that keeps
  one descriptor per font file and face.
- `src/grapheme.rs`: direction codes and the buffers handed to libgrapheme.
- `src/c_api/graphite_disabled.rs`: Graphite queries for builds without Graphite.
- `app/`: the C ABI, the calls into libgrapheme, the per-thread registry, and
  the float and raw-pointer conversions.
