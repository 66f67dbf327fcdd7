//! Value types describing one fractal instance.
//!
//! Coordinates on the complex plane and gradient midpoints are stored in
//! fixed-point form: an `i64` counts micro-units, so `1_000_000` stands
//! for `1.0`. All cache decisions compare these values exactly, which is
//! what makes the export cache's key comparison decidable.

use vstd::prelude::*;

verus! {

/// Number of micro-units in one whole unit of the fixed-point scale.
pub const SCALE: i64 = 1_000_000;

/// Largest magnitude, in micro-units, that a viewport extent may take.
pub const MAX_EXTENT: i64 = 1_000_000_000_000;

/// Largest magnitude, in micro-units, that a coordinate may take.
pub const MAX_COORD: i64 = 1_000_000_000_000;

/// Pixel dimensions of a target image.
#[derive(Clone, Copy, PartialEq, Eq, Structural, Debug)]
pub struct ImgDimensions {
    pub width: u32,
    pub height: u32,
}

/// One RGBA gradient stop, display-encoded, one byte per channel.
#[derive(Clone, Copy, PartialEq, Eq, Structural, Debug)]
pub struct Color {
    pub r: u8,
    pub g: u8,
    pub b: u8,
    pub a: u8,
}

/// A complex number in micro-units: `re + im * i`, each scaled by `SCALE`.
#[derive(Clone, Copy, PartialEq, Eq, Structural, Debug)]
pub struct Complex {
    pub re: i64,
    pub im: i64,
}

/// Everything that defines one fractal image: the gradient (three stops
/// and their midpoints), the polynomial degree, the constant, the
/// iteration cap, and the viewport. The three stops are numbered 0, 1, 2
/// from the start of the gradient towards its end.
#[derive(Clone, Copy, PartialEq, Eq, Structural, Debug)]
pub struct JuliaData {
    pub color0: Color,
    pub color1: Color,
    pub color2: Color,
    pub midpoint0: i64,
    pub midpoint1: i64,
    pub midpoint2: i64,
    pub n: u32,
    pub c: Complex,
    pub iters: u32,
    pub center: Complex,
    pub extents: Complex,
}

impl ImgDimensions {
    /// Both dimensions must be positive for the image to hold any pixel.
    pub open spec fn wf(self) -> bool {
        self.width > 0 && self.height > 0
    }
}

impl JuliaData {
    /// The midpoint of gradient stop `i`, as a spec-level sequence lookup.
    pub open spec fn spec_midpoint(self, i: int) -> i64 {
        if i == 0 {
            self.midpoint0
        } else if i == 1 {
            self.midpoint1
        } else {
            self.midpoint2
        }
    }

    /// The color of gradient stop `i`, as a spec-level lookup.
    pub open spec fn spec_color(self, i: int) -> Color {
        if i == 0 {
            self.color0
        } else if i == 1 {
            self.color1
        } else {
            self.color2
        }
    }

    /// Midpoints never cross in index order.
    pub open spec fn midpoints_monotone(self) -> bool {
        self.midpoint0 <= self.midpoint1 <= self.midpoint2
    }

    /// Well-formedness of a parameter set: midpoints lie in `[0, SCALE]`
    /// and never cross in index order, the degree is at least 2, at least
    /// one iteration is requested, and the viewport is non-degenerate.
    pub open spec fn wf(self) -> bool {
        &&& 0 <= self.midpoint0
        &&& self.midpoints_monotone()
        &&& self.midpoint2 <= SCALE
        &&& self.n >= 2
        &&& self.iters >= 1
        &&& 0 < self.extents.re <= MAX_EXTENT
        &&& 0 < self.extents.im <= MAX_EXTENT
        &&& -MAX_COORD <= self.center.re <= MAX_COORD
        &&& -MAX_COORD <= self.center.im <= MAX_COORD
        &&& -MAX_COORD <= self.c.re <= MAX_COORD
        &&& -MAX_COORD <= self.c.im <= MAX_COORD
    }

    /// The midpoint of stop `i`, read at run time.
    pub fn midpoint(&self, i: usize) -> (m: i64)
        requires
            i < 3,
        ensures
            m == self.spec_midpoint(i as int),
    {
        if i == 0 {
            self.midpoint0
        } else if i == 1 {
            self.midpoint1
        } else {
            self.midpoint2
        }
    }

    /// The color of stop `i`, read at run time.
    pub fn color(&self, i: usize) -> (c: Color)
        requires
            i < 3,
        ensures
            c == self.spec_color(i as int),
    {
        if i == 0 {
            self.color0
        } else if i == 1 {
            self.color1
        } else {
            self.color2
        }
    }

    /// The data with the color of stop `i` replaced by `c`.
    pub open spec fn spec_with_color(self, i: int, c: Color) -> JuliaData {
        if i == 0 {
            JuliaData { color0: c, ..self }
        } else if i == 1 {
            JuliaData { color1: c, ..self }
        } else {
            JuliaData { color2: c, ..self }
        }
    }

    /// Replace the color of stop `i`.
    pub fn set_color(&mut self, i: usize, c: Color)
        requires
            i < 3,
        ensures
            *final(self) == old(self).spec_with_color(i as int, c),
            final(self).spec_color(i as int) == c,
    {
        if i == 0 {
            self.color0 = c;
        } else if i == 1 {
            self.color1 = c;
        } else {
            self.color2 = c;
        }
    }
}

/// The viewport extents for a fresh image: the requested extent covers
/// the larger image axis, and the smaller axis is scaled down by the
/// aspect ratio (never below one micro-unit, never above the maximum).
pub fn viewport_extents(width: u32, height: u32, extent: i64) -> (r: Complex)
    requires
        width > 0,
        height > 0,
        0 < extent <= MAX_EXTENT,
    ensures
        width < height ==> r == (Complex {
            re: crate::fixed::clamp(
                crate::fixed::div_trunc(extent * width, height as int),
                1,
                MAX_EXTENT as int,
            ) as i64,
            im: extent,
        }),
        width >= height ==> r == (Complex {
            re: extent,
            im: crate::fixed::clamp(
                crate::fixed::div_trunc(extent * height, width as int),
                1,
                MAX_EXTENT as int,
            ) as i64,
        }),
{
    if width < height {
        let re = crate::fixed::mul_div_clamp(extent, width as i64, height as i64, 1, MAX_EXTENT);
        Complex { re, im: extent }
    } else {
        let im = crate::fixed::mul_div_clamp(extent, height as i64, width as i64, 1, MAX_EXTENT);
        Complex { re: extent, im }
    }
}

impl JuliaData {
    /// The same parameters with the extents widened along the larger
    /// export axis, so an export at `dims` shows at least the on-screen
    /// viewport instead of cropping it.
    pub open spec fn spec_export_adjusted(self, dims: ImgDimensions) -> JuliaData {
        if dims.width == dims.height {
            self
        } else if dims.width < dims.height {
            JuliaData {
                extents: Complex {
                    re: self.extents.re,
                    im: crate::fixed::clamp(
                        crate::fixed::div_trunc(
                            self.extents.im * dims.height,
                            dims.width as int,
                        ),
                        1,
                        MAX_EXTENT as int,
                    ) as i64,
                },
                ..self
            }
        } else {
            JuliaData {
                extents: Complex {
                    re: crate::fixed::clamp(
                        crate::fixed::div_trunc(
                            self.extents.re * dims.width,
                            dims.height as int,
                        ),
                        1,
                        MAX_EXTENT as int,
                    ) as i64,
                    im: self.extents.im,
                },
                ..self
            }
        }
    }

    /// See `spec_export_adjusted`. Well-formedness is preserved.
    pub fn export_adjusted(&self, dims: ImgDimensions) -> (r: JuliaData)
        requires
            self.wf(),
            dims.wf(),
        ensures
            r == self.spec_export_adjusted(dims),
            r.wf(),
    {
        if dims.width == dims.height {
            *self
        } else if dims.width < dims.height {
            let im = crate::fixed::mul_div_clamp(
                self.extents.im,
                dims.height as i64,
                dims.width as i64,
                1,
                MAX_EXTENT,
            );
            JuliaData { extents: Complex { re: self.extents.re, im }, ..*self }
        } else {
            let re = crate::fixed::mul_div_clamp(
                self.extents.re,
                dims.width as i64,
                dims.height as i64,
                1,
                MAX_EXTENT,
            );
            JuliaData { extents: Complex { re, im: self.extents.im }, ..*self }
        }
    }

    /// Build a parameter set from parsed command-line pieces: three
    /// gradient stops with the middle midpoint, the degree, constant,
    /// iteration cap, center and extents. `None` exactly when a value
    /// is outside what a well-formed parameter set admits.
    pub fn assemble(
        colors: (Color, Color, Color),
        midpoint: i64,
        n: u32,
        c: Complex,
        iters: u32,
        center: Complex,
        extents: Complex,
    ) -> (r: Option<JuliaData>)
        ensures
            r is Some <==> {
                &&& 0 <= midpoint <= SCALE
                &&& n >= 2
                &&& iters >= 1
                &&& 0 < extents.re <= MAX_EXTENT
                &&& 0 < extents.im <= MAX_EXTENT
                &&& -MAX_COORD <= center.re <= MAX_COORD
                &&& -MAX_COORD <= center.im <= MAX_COORD
                &&& -MAX_COORD <= c.re <= MAX_COORD
                &&& -MAX_COORD <= c.im <= MAX_COORD
            },
            r matches Some(d) ==> d == (JuliaData {
                color0: colors.0,
                color1: colors.1,
                color2: colors.2,
                midpoint0: 0,
                midpoint1: midpoint,
                midpoint2: SCALE,
                n,
                c,
                iters,
                center,
                extents,
            }) && d.wf(),
    {
        if 0 <= midpoint && midpoint <= SCALE && n >= 2 && iters >= 1 && 0 < extents.re
            && extents.re <= MAX_EXTENT && 0 < extents.im && extents.im <= MAX_EXTENT
            && -MAX_COORD <= center.re && center.re <= MAX_COORD && -MAX_COORD <= center.im
            && center.im <= MAX_COORD && -MAX_COORD <= c.re && c.re <= MAX_COORD && -MAX_COORD
            <= c.im && c.im <= MAX_COORD {
            Some(
                JuliaData {
                    color0: colors.0,
                    color1: colors.1,
                    color2: colors.2,
                    midpoint0: 0,
                    midpoint1: midpoint,
                    midpoint2: SCALE,
                    n,
                    c,
                    iters,
                    center,
                    extents,
                },
            )
        } else {
            None
        }
    }
}

} // verus!
