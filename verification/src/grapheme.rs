//! The buffer handling around libgrapheme's line-breaking and bidi routines.
//!
//! libgrapheme itself is C code reached through the foreign-function layer;
//! what is decided on this side of the boundary is how large each buffer
//! handed to it is, how its direction codes are read, and how much of each
//! buffer is kept once libgrapheme reports how many slots it needed.

use vstd::prelude::*;

verus! {

/// Base direction for the Unicode bidi algorithm.
#[derive(Clone, Copy, Debug, PartialEq, Eq, Structural)]
pub enum BidiDirection {
    /// Resolve the paragraph direction from its contents.
    Neutral,
    /// Force left-to-right paragraph direction.
    LeftToRight,
    /// Force right-to-left paragraph direction.
    RightToLeft,
}

/// The integer that stands for each direction at the C boundary.
pub open spec fn direction_code(direction: BidiDirection) -> i32 {
    match direction {
        BidiDirection::Neutral => 0,
        BidiDirection::LeftToRight => 1,
        BidiDirection::RightToLeft => 2,
    }
}

/// `len + 1`, held at `usize::MAX`.
pub open spec fn with_sentinel(len: usize) -> nat {
    if len + 1 > usize::MAX {
        usize::MAX as nat
    } else {
        (len + 1) as nat
    }
}

/// The smaller of what libgrapheme asked for and what the buffer offers.
pub open spec fn kept_len(required: usize, capacity: usize) -> int {
    if required < capacity {
        required as int
    } else {
        capacity as int
    }
}

/// Each direction has its own code, and every code is one libgrapheme reads:
/// reading back the code of a direction gives that direction.
pub proof fn direction_codes_identify_directions(a: BidiDirection, b: BidiDirection)
    ensures
        0 <= direction_code(a) <= 2,
        direction_code(a) == direction_code(b) ==> a == b,
{
}

/// What is kept of a buffer is all that libgrapheme asked for when the buffer
/// holds that much, and the whole buffer otherwise: never less than both.
pub proof fn kept_len_is_the_smaller(required: usize, capacity: usize)
    ensures
        kept_len(required, capacity) <= required,
        kept_len(required, capacity) <= capacity,
        required <= capacity ==> kept_len(required, capacity) == required,
        capacity <= required ==> kept_len(required, capacity) == capacity,
{
}

impl BidiDirection {
    /// The value libgrapheme expects for this direction.
    pub fn to_raw(self) -> (code: i32)
        ensures
            code == direction_code(self),
    {
        match self {
            BidiDirection::Neutral => 0,
            BidiDirection::LeftToRight => 1,
            BidiDirection::RightToLeft => 2,
        }
    }

    /// The direction that a code written by libgrapheme stands for, if any.
    pub fn from_raw(code: i32) -> (direction: Option<BidiDirection>)
        ensures
            direction is Some <==> 0 <= code <= 2,
            direction matches Some(d) ==> direction_code(d) == code,
    {
        if code == 0 {
            Some(BidiDirection::Neutral)
        } else if code == 1 {
            Some(BidiDirection::LeftToRight)
        } else if code == 2 {
            Some(BidiDirection::RightToLeft)
        } else {
            None
        }
    }
}

/// The zeroed state buffer that paragraph preprocessing fills: one slot per
/// code point of the paragraph.
pub fn paragraph_state_buffer(text_len: usize) -> (state: Vec<u32>)
    ensures
        state@ == Seq::new(text_len as nat, |_i: int| 0u32),
{
    let mut state: Vec<u32> = Vec::new();
    let mut i: usize = 0;
    while i < text_len
        invariant
            i <= text_len,
            state@ == Seq::new(i as nat, |_j: int| 0u32),
        decreases text_len - i,
    {
        state.push(0);
        i = i + 1;
    }
    state
}

/// The zeroed buffer that embedding levels are written to. libgrapheme
/// checks one element past the capacity it is told while writing, so the
/// buffer holds one sentinel slot beyond the state's length.
pub fn embedding_levels_buffer(state_len: usize) -> (levels: Vec<i8>)
    ensures
        levels@ == Seq::new(with_sentinel(state_len), |_i: int| 0i8),
{
    let len = state_len.saturating_add(1);
    let mut levels: Vec<i8> = Vec::new();
    let mut i: usize = 0;
    while i < len
        invariant
            i <= len,
            len == with_sentinel(state_len),
            levels@ == Seq::new(i as nat, |_j: int| 0i8),
        decreases len - i,
    {
        levels.push(0);
        i = i + 1;
    }
    levels
}

/// The zeroed buffer that a reordered line is written to: one slot per code
/// point of the line and one sentinel slot. The text and its bidi state must
/// be of one length.
pub fn reordered_line_buffer(text_len: usize, state_len: usize) -> (output: Vec<u32>)
    requires
        text_len == state_len,
    ensures
        output@ == Seq::new(with_sentinel(text_len), |_i: int| 0u32),
{
    let len = text_len.saturating_add(1);
    let mut output: Vec<u32> = Vec::new();
    let mut i: usize = 0;
    while i < len
        invariant
            i <= len,
            len == with_sentinel(text_len),
            output@ == Seq::new(i as nat, |_j: int| 0u32),
        decreases len - i,
    {
        output.push(0);
        i = i + 1;
    }
    output
}

/// Keeps of the preprocessed paragraph state as many slots as libgrapheme
/// reported it needed, never more than the buffer holds.
pub fn finish_paragraph_state(state: Vec<u32>, required: usize) -> (kept: Vec<u32>)
    ensures
        kept@ == state@.take(kept_len(required, state@.len() as usize)),
        kept@.len() <= state@.len(),
        kept@.len() <= required,
        required <= state@.len() ==> kept@.len() == required,
        required > state@.len() ==> kept@.len() == state@.len(),
        forall|i: int| 0 <= i < kept@.len() ==> kept@[i] == state@[i],
{
    let mut state = state;
    let capacity = state.len();
    let keep = if required < capacity { required } else { capacity };
    state.truncate(keep);
    state
}

/// Keeps of the embedding-level buffer as many levels as libgrapheme reported,
/// never more than the state's length (the sentinel slot is never kept).
pub fn finish_embedding_levels(levels: Vec<i8>, state_len: usize, required: usize) -> (kept: Vec<
    i8,
>)
    requires
        state_len <= levels@.len(),
    ensures
        kept@ == levels@.take(kept_len(required, state_len)),
        kept@.len() <= state_len,
        kept@.len() <= required,
        required <= state_len ==> kept@.len() == required,
        required > state_len ==> kept@.len() == state_len,
        forall|i: int| 0 <= i < kept@.len() ==> kept@[i] == levels@[i],
{
    let mut levels = levels;
    let keep = if required < state_len { required } else { state_len };
    levels.truncate(keep);
    levels
}

/// Keeps of the reordered line as many code points as libgrapheme reported,
/// never more than the output buffer holds.
pub fn finish_reordered_line(output: Vec<u32>, required: usize) -> (kept: Vec<u32>)
    ensures
        kept@ == output@.take(kept_len(required, output@.len() as usize)),
        kept@.len() <= output@.len(),
        kept@.len() <= required,
        required <= output@.len() ==> kept@.len() == required,
        required > output@.len() ==> kept@.len() == output@.len(),
        forall|i: int| 0 <= i < kept@.len() ==> kept@[i] == output@[i],
{
    let mut output = output;
    let capacity = output.len();
    let keep = if required < capacity { required } else { capacity };
    output.truncate(keep);
    output
}

} // verus!
