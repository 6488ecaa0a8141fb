use vstd::prelude::*;

verus! {

/// A colour as it arrives in a request: four `f32` channels, each held as
/// its IEEE-754 bit pattern.
#[derive(Clone, Copy, Debug, PartialEq, Eq, Structural)]
pub struct Color {
    pub red: u32,
    pub green: u32,
    pub blue: u32,
    pub alpha: u32,
}

/// The colour of a request as the renderer takes it: `[red, green, blue, alpha]`.
pub open spec fn spec_convert_color(color: Color) -> [u32; 4] {
    [color.red, color.green, color.blue, color.alpha]
}

/// Converts a request colour to the `[r, g, b, a]` form that widgets store.
pub fn convert_color(color: Color) -> (res: [u32; 4])
    ensures
        res == spec_convert_color(color),
{
    [color.red, color.green, color.blue, color.alpha]
}

} // verus!
