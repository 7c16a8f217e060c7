use vstd::prelude::*;

verus! {

/// The configuration that applies to one surface.
///
/// Values that only the renderer and the image picker interpret (the fit
/// mode, the offset, the transition effect, the sorting policy) are held as
/// the identifiers those components hand out; the surface only compares them.
#[derive(Clone, Debug)]
pub struct WallpaperInfo {
    /// Image source: a file or a directory to pick images from.
    pub path: String,
    /// Fit/placement mode.
    pub mode: u32,
    /// Placement offset, if any.
    pub offset: Option<u32>,
    /// Transition effect.
    pub transition: u32,
    /// Length of a transition, in milliseconds.
    pub transition_time: u32,
    /// Rotation period in milliseconds; `None` disables rotation.
    pub duration: Option<u64>,
    /// Selection order policy.
    pub sorting: Option<u32>,
    /// Length of the picker's history of drawn images.
    pub drawn_images_queue_size: usize,
    /// Whether the very first image is shown with a transition.
    pub initial_transition: bool,
}

/// Field-by-field equality of two configurations.
pub open spec fn same_info(a: WallpaperInfo, b: WallpaperInfo) -> bool {
    &&& a.path@ == b.path@
    &&& a.mode == b.mode
    &&& a.offset == b.offset
    &&& a.transition == b.transition
    &&& a.transition_time == b.transition_time
    &&& a.duration == b.duration
    &&& a.sorting == b.sorting
    &&& a.drawn_images_queue_size == b.drawn_images_queue_size
    &&& a.initial_transition == b.initial_transition
}

pub(crate) fn same_u32(a: Option<u32>, b: Option<u32>) -> (r: bool)
    ensures
        r == (a == b),
{
    match (a, b) {
        (None, None) => true,
        (Some(x), Some(y)) => x == y,
        _ => false,
    }
}

pub(crate) fn same_u64(a: Option<u64>, b: Option<u64>) -> (r: bool)
    ensures
        r == (a == b),
{
    match (a, b) {
        (None, None) => true,
        (Some(x), Some(y)) => x == y,
        _ => false,
    }
}

impl WallpaperInfo {
    /// Whether `self` and `other` hold the same configuration.
    pub fn same_as(&self, other: &WallpaperInfo) -> (r: bool)
        ensures
            r == same_info(*self, *other),
    {
        self.path == other.path && self.mode == other.mode && same_u32(self.offset, other.offset)
            && self.transition == other.transition && self.transition_time
            == other.transition_time && same_u64(self.duration, other.duration) && same_u32(
            self.sorting,
            other.sorting,
        ) && self.drawn_images_queue_size == other.drawn_images_queue_size
            && self.initial_transition == other.initial_transition
    }
}

/// Buffer transform of an output, as the display protocol defines it.
#[derive(Clone, Copy, Debug, PartialEq, Eq, Structural)]
pub enum Transform {
    Normal,
    Rotated90,
    Rotated180,
    Rotated270,
    Flipped,
    Flipped90,
    Flipped180,
    Flipped270,
}

/// Whether a transform swaps the width and the height of the buffer.
pub open spec fn swaps_axes(t: Transform) -> bool {
    t is Rotated90 || t is Rotated270 || t is Flipped90 || t is Flipped270
}

/// An integer brought into the range of `i32`.
pub open spec fn clamp_i32(x: int) -> i32 {
    if x > i32::MAX {
        i32::MAX
    } else if x < i32::MIN {
        i32::MIN
    } else {
        x as i32
    }
}

/// Geometry of the output a surface is shown on.
#[derive(Clone, Debug)]
pub struct DisplayInfo {
    pub name: String,
    pub description: String,
    /// Logical width.
    pub width: i32,
    /// Logical height.
    pub height: i32,
    /// Integer scale factor.
    pub scale: i32,
    pub transform: Transform,
}

/// Width of the buffer in pixels: the scaled logical size along the axis the
/// transform maps to the buffer's width.
pub open spec fn adjusted_width_spec(d: DisplayInfo) -> i32 {
    if swaps_axes(d.transform) {
        clamp_i32(d.height * d.scale)
    } else {
        clamp_i32(d.width * d.scale)
    }
}

/// Height of the buffer in pixels.
pub open spec fn adjusted_height_spec(d: DisplayInfo) -> i32 {
    if swaps_axes(d.transform) {
        clamp_i32(d.width * d.scale)
    } else {
        clamp_i32(d.height * d.scale)
    }
}

fn scaled(x: i32, scale: i32) -> (r: i32)
    ensures
        r == clamp_i32(x * scale),
{
    match x.checked_mul(scale) {
        Some(p) => p,
        None => {
            if (x < 0) == (scale < 0) {
                assert(x * scale > i32::MAX) by (nonlinear_arith)
                    requires
                        (x < 0) == (scale < 0),
                        x * scale > i32::MAX || x * scale < i32::MIN,
                ;
                i32::MAX
            } else {
                assert(x * scale < i32::MIN) by (nonlinear_arith)
                    requires
                        (x < 0) != (scale < 0),
                        x * scale > i32::MAX || x * scale < i32::MIN,
                ;
                i32::MIN
            }
        },
    }
}

fn swaps(t: Transform) -> (r: bool)
    ensures
        r == swaps_axes(t),
{
    match t {
        Transform::Rotated90 | Transform::Rotated270 | Transform::Flipped90
        | Transform::Flipped270 => true,
        _ => false,
    }
}

impl DisplayInfo {
    pub fn adjusted_width(&self) -> (r: i32)
        ensures
            r == adjusted_width_spec(*self),
    {
        if swaps(self.transform) {
            scaled(self.height, self.scale)
        } else {
            scaled(self.width, self.scale)
        }
    }

    pub fn adjusted_height(&self) -> (r: i32)
        ensures
            r == adjusted_height_spec(*self),
    {
        if swaps(self.transform) {
            scaled(self.width, self.scale)
        } else {
            scaled(self.height, self.scale)
        }
    }
}

} // verus!
