use vstd::prelude::*;

use crate::ui::options::{spec_from_index, ColorPreset};

verus! {

/// How far the displayed picture is turned clockwise.
#[derive(PartialEq, Eq, Structural, Clone, Copy)]
pub enum Rotation {
    NoRotation,
    Clockwise,
    UpsideDown,
    Counterclockwise,
}

/// The angle of a rotation, in degrees clockwise.
pub open spec fn spec_angle(r: Rotation) -> int {
    match r {
        Rotation::NoRotation => 0,
        Rotation::Clockwise => 90,
        Rotation::UpsideDown => 180,
        Rotation::Counterclockwise => 270,
    }
}

/// A rotation followed by a quarter turn clockwise.
pub open spec fn spec_rotate_90(r: Rotation) -> Rotation {
    match r {
        Rotation::NoRotation => Rotation::Clockwise,
        Rotation::Clockwise => Rotation::UpsideDown,
        Rotation::UpsideDown => Rotation::Counterclockwise,
        Rotation::Counterclockwise => Rotation::NoRotation,
    }
}

/// A rotation followed by a half turn.
pub open spec fn spec_rotate_180(r: Rotation) -> Rotation {
    match r {
        Rotation::NoRotation => Rotation::UpsideDown,
        Rotation::Clockwise => Rotation::Counterclockwise,
        Rotation::UpsideDown => Rotation::NoRotation,
        Rotation::Counterclockwise => Rotation::Clockwise,
    }
}

/// A rotation followed by three quarter turns clockwise.
pub open spec fn spec_rotate_270(r: Rotation) -> Rotation {
    match r {
        Rotation::NoRotation => Rotation::Counterclockwise,
        Rotation::Clockwise => Rotation::NoRotation,
        Rotation::UpsideDown => Rotation::Clockwise,
        Rotation::Counterclockwise => Rotation::UpsideDown,
    }
}

impl Rotation {
    /// The angle of the rotation, in degrees clockwise.
    pub fn get_angle_degree(&self) -> (res: i32)
        ensures
            res == spec_angle(*self),
    {
        match self {
            Rotation::NoRotation => 0,
            Rotation::Clockwise => 90,
            Rotation::UpsideDown => 180,
            Rotation::Counterclockwise => 270,
        }
    }
}

/// Turn a picture shown at `current_rotation` degrees by `rotation`: the new
/// angle, below 360, and the rotation it amounts to. The angle must be a
/// multiple of a quarter turn.
pub fn get_rotation(current_rotation: u32, rotation: Rotation) -> (res: (u32, Rotation))
    requires
        current_rotation % 90 == 0,
        current_rotation + spec_angle(rotation) <= u32::MAX,
    ensures
        res.0 == (current_rotation + spec_angle(rotation)) % 360,
        spec_angle(res.1) == res.0,
{
    let turn: u32 = match rotation {
        Rotation::NoRotation => 0,
        Rotation::Clockwise => 90,
        Rotation::UpsideDown => 180,
        Rotation::Counterclockwise => 270,
    };
    let angle = (current_rotation + turn) % 360;
    let result = if angle == 0 {
        Rotation::NoRotation
    } else if angle == 90 {
        Rotation::Clockwise
    } else if angle == 180 {
        Rotation::UpsideDown
    } else {
        Rotation::Counterclockwise
    };
    (angle, result)
}

impl Default for Rotation {
    fn default() -> (res: Self)
        ensures
            res == Rotation::NoRotation,
    {
        Rotation::NoRotation
    }
}

/// Whether the picture is stretched to fill the window or kept in proportion.
#[derive(PartialEq, Eq, Structural, Clone, Copy)]
pub enum ContentFit {
    Fill,
    Contain,
}

/// What the display window shows the picture with: stretched or not, with a
/// grid or not, turned how far, and the grid's colour.
pub struct DdDisplayWindow {
    pub fit: bool,
    pub grid: bool,
    pub rotation: Rotation,
    pub color: ColorPreset,
}

impl DdDisplayWindow {
    /// A display showing the picture in proportion, upright and without grid,
    /// with the grid colour at the given position of the preset list.
    pub fn new(grid_color_preset: u32) -> (res: Self)
        requires
            grid_color_preset < 5,
        ensures
            !res.fit,
            !res.grid,
            res.rotation == Rotation::NoRotation,
            res.color == spec_from_index(grid_color_preset),
    {
        DdDisplayWindow {
            fit: false,
            grid: false,
            rotation: Rotation::NoRotation,
            color: ColorPreset::from_index(grid_color_preset),
        }
    }

    /// Turn the picture a quarter turn further clockwise.
    pub fn rotate_90(&mut self)
        ensures
            final(self).rotation == spec_rotate_90(old(self).rotation),
            spec_angle(final(self).rotation) == (spec_angle(old(self).rotation) + 90) % 360,
            final(self).fit == old(self).fit,
            final(self).grid == old(self).grid,
            final(self).color == old(self).color,
    {
        self.rotation = match self.rotation {
            Rotation::NoRotation => Rotation::Clockwise,
            Rotation::Clockwise => Rotation::UpsideDown,
            Rotation::UpsideDown => Rotation::Counterclockwise,
            Rotation::Counterclockwise => Rotation::NoRotation,
        };
    }

    /// Turn the picture a half turn further.
    pub fn rotate_180(&mut self)
        ensures
            final(self).rotation == spec_rotate_180(old(self).rotation),
            spec_angle(final(self).rotation) == (spec_angle(old(self).rotation) + 180) % 360,
            final(self).fit == old(self).fit,
            final(self).grid == old(self).grid,
            final(self).color == old(self).color,
    {
        self.rotation = match self.rotation {
            Rotation::NoRotation => Rotation::UpsideDown,
            Rotation::Clockwise => Rotation::Counterclockwise,
            Rotation::UpsideDown => Rotation::NoRotation,
            Rotation::Counterclockwise => Rotation::Clockwise,
        };
    }

    /// Turn the picture three quarter turns further clockwise.
    pub fn rotate_270(&mut self)
        ensures
            final(self).rotation == spec_rotate_270(old(self).rotation),
            spec_angle(final(self).rotation) == (spec_angle(old(self).rotation) + 270) % 360,
            final(self).fit == old(self).fit,
            final(self).grid == old(self).grid,
            final(self).color == old(self).color,
    {
        self.rotation = match self.rotation {
            Rotation::NoRotation => Rotation::Counterclockwise,
            Rotation::Clockwise => Rotation::NoRotation,
            Rotation::UpsideDown => Rotation::Clockwise,
            Rotation::Counterclockwise => Rotation::UpsideDown,
        };
    }

    /// Switch between stretching the picture and keeping it in proportion.
    pub fn toggle_fit(&mut self)
        ensures
            final(self).fit == !old(self).fit,
            final(self).grid == old(self).grid,
            final(self).rotation == old(self).rotation,
            final(self).color == old(self).color,
    {
        self.fit = !self.fit;
    }

    /// Switch the grid on or off.
    pub fn toggle_grid(&mut self)
        ensures
            final(self).grid == !old(self).grid,
            final(self).fit == old(self).fit,
            final(self).rotation == old(self).rotation,
            final(self).color == old(self).color,
    {
        self.grid = !self.grid;
    }

    /// Draw the grid in another colour.
    pub fn update_grid_color(&mut self, color: ColorPreset)
        ensures
            final(self).color == color,
            final(self).fit == old(self).fit,
            final(self).grid == old(self).grid,
            final(self).rotation == old(self).rotation,
    {
        self.color = color;
    }

    /// How the picture is fitted into the window.
    pub fn content_fit(&self) -> (res: ContentFit)
        ensures
            res == (if self.fit {
                ContentFit::Fill
            } else {
                ContentFit::Contain
            }),
    {
        if self.fit {
            ContentFit::Fill
        } else {
            ContentFit::Contain
        }
    }

    /// The width and height of a picture of the given size once it is turned.
    pub fn rotated_size(&self, width: i32, height: i32) -> (res: (i32, i32))
        ensures
            res == (if spec_angle(self.rotation) == 90 || spec_angle(self.rotation) == 270 {
                (height, width)
            } else {
                (width, height)
            }),
    {
        let angle = self.rotation.get_angle_degree();
        if angle == 90 || angle == 270 {
            (height, width)
        } else {
            (width, height)
        }
    }
}

/// Four quarter turns bring the picture back where it was.
pub proof fn lemma_four_quarter_turns(r: Rotation)
    ensures
        spec_rotate_90(spec_rotate_90(spec_rotate_90(spec_rotate_90(r)))) == r,
{
}

/// A half turn is two quarter turns, and three quarter turns are three.
pub proof fn lemma_turns_compose(r: Rotation)
    ensures
        spec_rotate_180(r) == spec_rotate_90(spec_rotate_90(r)),
        spec_rotate_270(r) == spec_rotate_90(spec_rotate_90(spec_rotate_90(r))),
{
}

/// A quarter turn clockwise and three more undo each other, as do two half turns.
pub proof fn lemma_turns_undo(r: Rotation)
    ensures
        spec_rotate_270(spec_rotate_90(r)) == r,
        spec_rotate_90(spec_rotate_270(r)) == r,
        spec_rotate_180(spec_rotate_180(r)) == r,
{
}

} // verus!
