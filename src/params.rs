use vstd::prelude::*;

verus! {

/// Number of parameters the effect exposes.
pub const PARAMETER_COUNT: i32 = 4;

/// Index of the amplitude parameter (gain is four times its value).
pub const AMPLITUDE: i32 = 0;

/// Index of the depth parameter (the delta ceiling).
pub const DEPTH: i32 = 1;

/// Index of the reverse-window parameter (the bit-reversal window length).
pub const REVERSE_WINDOW: i32 = 2;

/// Index of the dry/wet mix parameter.
pub const MIX: i32 = 3;

/// The display label of each parameter; empty for an unknown index.
pub open spec fn parameter_label(index: int) -> Seq<char> {
    if index == AMPLITUDE {
        "Amplitude"@
    } else if index == DEPTH {
        "Depth"@
    } else if index == REVERSE_WINDOW {
        "Reverse Byte"@
    } else if index == MIX {
        "Mix"@
    } else {
        Seq::empty()
    }
}

/// The display label of the parameter at `index`; empty for an unknown index.
pub fn parameter_name(index: i32) -> (r: String)
    ensures
        r@ == parameter_label(index as int),
{
    if index == AMPLITUDE {
        "Amplitude".to_string()
    } else if index == DEPTH {
        "Depth".to_string()
    } else if index == REVERSE_WINDOW {
        "Reverse Byte".to_string()
    } else if index == MIX {
        "Mix".to_string()
    } else {
        String::new()
    }
}

} // verus!
