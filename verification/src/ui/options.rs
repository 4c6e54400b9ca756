use vstd::prelude::*;

verus! {

/// The colours the grid can be drawn in, in the order of the options window's
/// drop-down list.
#[derive(PartialEq, Eq, Structural, Clone, Copy)]
pub enum ColorPreset {
    Black,
    White,
    Red,
    Green,
    Blue,
}

/// A fully opaque colour, by the red, green and blue values handed to the
/// colour builder.
#[derive(PartialEq, Eq, Structural, Clone, Copy)]
pub struct PresetColor {
    pub red: u8,
    pub green: u8,
    pub blue: u8,
}

/// The preset at a position of the drop-down list.
pub open spec fn spec_from_index(index: u32) -> ColorPreset {
    if index == 0 {
        ColorPreset::Black
    } else if index == 1 {
        ColorPreset::White
    } else if index == 2 {
        ColorPreset::Red
    } else if index == 3 {
        ColorPreset::Green
    } else {
        ColorPreset::Blue
    }
}

/// The position of a preset in the drop-down list.
pub open spec fn spec_index(preset: ColorPreset) -> u32 {
    match preset {
        ColorPreset::Black => 0,
        ColorPreset::White => 1,
        ColorPreset::Red => 2,
        ColorPreset::Green => 3,
        ColorPreset::Blue => 4,
    }
}

/// The colour a preset stands for.
pub open spec fn spec_to_rgba(preset: ColorPreset) -> PresetColor {
    match preset {
        ColorPreset::Black => PresetColor { red: 0, green: 0, blue: 0 },
        ColorPreset::White => PresetColor { red: 255, green: 255, blue: 255 },
        ColorPreset::Red => PresetColor { red: 255, green: 0, blue: 0 },
        ColorPreset::Green => PresetColor { red: 0, green: 255, blue: 0 },
        ColorPreset::Blue => PresetColor { red: 0, green: 0, blue: 255 },
    }
}

impl ColorPreset {
    /// The preset at a position of the drop-down list, which has five entries.
    pub fn from_index(index: u32) -> (res: Self)
        requires
            index < 5,
        ensures
            res == spec_from_index(index),
            spec_index(res) == index,
    {
        if index == 0 {
            ColorPreset::Black
        } else if index == 1 {
            ColorPreset::White
        } else if index == 2 {
            ColorPreset::Red
        } else if index == 3 {
            ColorPreset::Green
        } else {
            ColorPreset::Blue
        }
    }

    /// The colour of the preset.
    pub fn to_rgba(&self) -> (res: PresetColor)
        ensures
            res == spec_to_rgba(*self),
    {
        match self {
            ColorPreset::Black => PresetColor { red: 0, green: 0, blue: 0 },
            ColorPreset::White => PresetColor { red: 255, green: 255, blue: 255 },
            ColorPreset::Red => PresetColor { red: 255, green: 0, blue: 0 },
            ColorPreset::Green => PresetColor { red: 0, green: 255, blue: 0 },
            ColorPreset::Blue => PresetColor { red: 0, green: 0, blue: 255 },
        }
    }
}

/// Every preset is found again at its own position of the drop-down list.
pub proof fn lemma_index_roundtrip(preset: ColorPreset)
    ensures
        spec_index(preset) < 5,
        spec_from_index(spec_index(preset)) == preset,
{
}

/// Different presets stand for different colours.
pub proof fn lemma_presets_distinct(a: ColorPreset, b: ColorPreset)
    requires
        a != b,
    ensures
        spec_to_rgba(a) != spec_to_rgba(b),
{
}

} // verus!
