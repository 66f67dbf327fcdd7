//! The interactive state machine.
//!
//! Window events arrive as plain values (`JuliaEvent`); one call to
//! `JuliaState::handle_event` is one transition. The transition function
//! is given twice: once as the spec-level `step`, which is the
//! authoritative definition, and once as executable code proved equal to
//! it. The surrounding application only polls events, maps them to
//! `JuliaEvent`, and performs the effects (redraw, export, color
//! conversion) that the state machine asks for.
//!
//! Color stops are edited in HSV form. Converting HSV to RGB is the
//! color library's floating-point work and happens outside this crate;
//! after an edit the caller is told the active stop's RGB value is stale
//! and pushes the converted value back with `set_active_color_rgb`.

use vstd::prelude::*;

use crate::fixed::clamp;
use crate::fixed::clamp_i64;
use crate::fixed::div_trunc;
use crate::fixed::div_trunc_i64;
use crate::fixed::mul_div_clamp;
use crate::params::Color;
use crate::params::Complex;
use crate::params::ImgDimensions;
use crate::params::JuliaData;
use crate::params::MAX_COORD;
use crate::params::MAX_EXTENT;
use crate::params::SCALE;

verus! {

/// Micro-degrees in a full hue circle.
pub const FULL_TURN: i64 = 360_000_000;

/// Largest cursor coordinate or window dimension, in pixels, the state
/// machine accepts.
pub const MAX_CURSOR: i64 = 1_000_000_000;

/// Largest scroll amount, in micro-lines, the state machine accepts.
pub const MAX_SCROLL: i64 = 1_000_000_000;

/// Step for one midpoint-adjust keypress: 0.01 of the gradient.
pub const MIDPT_STEP: i64 = 10_000;

/// Step for one hue keypress: 5 degrees, in micro-degrees.
pub const HUE_STEP: i64 = 5_000_000;

/// Step for one saturation keypress, before the conventional division
/// by 360: 5 such parts.
pub const SAT_STEP: i64 = 5_000_000;

/// Step for one value keypress, before the division by 360.
pub const VAL_STEP: i64 = 2_500_000;

/// Base step for moving the constant `c`: 0.001.
pub const C_STEP: i64 = 1_000;

/// Step for one iteration-cap keypress.
pub const ITER_STEP: u32 = 10;

/// Step for resizing the export dimensions.
pub const EXPORT_DIM_STEP: u32 = 40;

/// A keyboard pan moves by one thirtieth of the vertical extent.
pub const PAN_DIVISOR: i64 = 30;

/// A color stop in hue/saturation/value form: hue in micro-degrees in
/// `[0, FULL_TURN)`, saturation and value in `[0, SCALE]`.
#[derive(Clone, Copy, PartialEq, Eq, Structural, Debug)]
pub struct Hsv {
    pub hue: i64,
    pub sat: i64,
    pub val: i64,
}

impl Hsv {
    /// Channel ranges of a well-formed HSV triple.
    pub open spec fn wf(self) -> bool {
        &&& 0 <= self.hue < FULL_TURN
        &&& 0 <= self.sat <= SCALE
        &&& 0 <= self.val <= SCALE
    }
}

/// Cursor position in window pixels, and whether a drag is in progress.
#[derive(Clone, Copy, PartialEq, Eq, Structural, Debug)]
pub struct MouseState {
    pub x: i64,
    pub y: i64,
    pub dragging: bool,
}

impl MouseState {
    /// Cursor coordinates stay within the accepted pixel range.
    pub open spec fn wf(self) -> bool {
        &&& -MAX_CURSOR <= self.x <= MAX_CURSOR
        &&& -MAX_CURSOR <= self.y <= MAX_CURSOR
    }
}

/// Everything the interactive session mutates: the fractal parameters,
/// the mouse, the HSV mirrors of the three color stops, which stop and
/// midpoint are being edited, and the pending close/export requests.
#[derive(Clone, Copy, PartialEq, Eq, Structural, Debug)]
pub struct JuliaState {
    pub data: JuliaData,
    pub mouse: MouseState,
    pub hsv0: Hsv,
    pub hsv1: Hsv,
    pub hsv2: Hsv,
    pub active_color: u8,
    pub active_midpt: u8,
    pub close_requested: bool,
    pub export_dimensions: ImgDimensions,
    pub export_requested: bool,
}

impl JuliaState {
    /// The state invariant every transition preserves.
    pub open spec fn wf(self) -> bool {
        &&& self.data.wf()
        &&& self.mouse.wf()
        &&& self.hsv0.wf()
        &&& self.hsv1.wf()
        &&& self.hsv2.wf()
        &&& self.active_color < 3
        &&& self.active_midpt < 3
        &&& self.export_dimensions.wf()
    }

    /// The HSV triple of stop `i`, as a spec-level lookup.
    pub open spec fn spec_hsv(self, i: int) -> Hsv {
        if i == 0 {
            self.hsv0
        } else if i == 1 {
            self.hsv1
        } else {
            self.hsv2
        }
    }

    /// Multiply both viewport extents by `num / den`, keeping each in
    /// `[1, MAX_EXTENT]` micro-units.
    pub open spec fn spec_zoom(self, num: int, den: int) -> JuliaState
        recommends
            num >= 0,
            den > 0,
    {
        JuliaState {
            data: JuliaData {
                extents: Complex {
                    re: clamp(
                        div_trunc(self.data.extents.re * num, den),
                        1,
                        MAX_EXTENT as int,
                    ) as i64,
                    im: clamp(
                        div_trunc(self.data.extents.im * num, den),
                        1,
                        MAX_EXTENT as int,
                    ) as i64,
                },
                ..self.data
            },
            ..self
        }
    }

    /// Translate the viewport center by `(dx, dy)`, each coordinate
    /// clamped into `[-MAX_COORD, MAX_COORD]`.
    pub open spec fn spec_pan(self, dx: int, dy: int) -> JuliaState {
        JuliaState {
            data: JuliaData {
                center: Complex {
                    re: clamp(self.data.center.re + dx, -MAX_COORD as int, MAX_COORD as int) as i64,
                    im: clamp(self.data.center.im + dy, -MAX_COORD as int, MAX_COORD as int) as i64,
                },
                ..self.data
            },
            ..self
        }
    }

    /// Move the constant `c` by `(dre, dim)`, clamped like the center.
    pub open spec fn spec_move_c(self, dre: int, dim: int) -> JuliaState {
        JuliaState {
            data: JuliaData {
                c: Complex {
                    re: clamp(self.data.c.re + dre, -MAX_COORD as int, MAX_COORD as int) as i64,
                    im: clamp(self.data.c.im + dim, -MAX_COORD as int, MAX_COORD as int) as i64,
                },
                ..self.data
            },
            ..self
        }
    }

    /// See `zoom`.
    pub fn zoom(&mut self, num: u32, den: u32)
        requires
            den > 0,
        ensures
            *final(self) == old(self).spec_zoom(num as int, den as int),
    {
        let re = mul_div_clamp(self.data.extents.re, num as i64, den as i64, 1, MAX_EXTENT);
        let im = mul_div_clamp(self.data.extents.im, num as i64, den as i64, 1, MAX_EXTENT);
        self.data.extents = Complex { re, im };
    }

    /// Replace the viewport extents.
    pub fn set_extents(&mut self, extents: Complex)
        ensures
            (*final(self) == JuliaState {
                data: JuliaData { extents, ..old(self).data },
                ..*old(self)
            }),
    {
        self.data.extents = extents;
    }

    /// See `spec_pan`.
    pub fn pan(&mut self, dx: i64, dy: i64)
        requires
            -MAX_COORD <= dx <= MAX_COORD,
            -MAX_COORD <= dy <= MAX_COORD,
            old(self).data.wf(),
        ensures
            *final(self) == old(self).spec_pan(dx as int, dy as int),
    {
        let re = clamp_i64(self.data.center.re + dx, -MAX_COORD, MAX_COORD);
        let im = clamp_i64(self.data.center.im + dy, -MAX_COORD, MAX_COORD);
        self.data.center = Complex { re, im };
    }

    /// Replace the viewport center.
    pub fn set_center(&mut self, center: Complex)
        ensures
            (*final(self) == JuliaState {
                data: JuliaData { center, ..old(self).data },
                ..*old(self)
            }),
    {
        self.data.center = center;
    }

    /// Replace the constant `c`.
    pub fn set_c(&mut self, c: Complex)
        ensures
            (*final(self) == JuliaState { data: JuliaData { c, ..old(self).data }, ..*old(self) }),
    {
        self.data.c = c;
    }

    /// Replace the exponent.
    pub fn set_n(&mut self, n: u32)
        ensures
            (*final(self) == JuliaState { data: JuliaData { n, ..old(self).data }, ..*old(self) }),
    {
        self.data.n = n;
    }

    /// Replace the iteration cap.
    pub fn set_iters(&mut self, iters: u32)
        ensures
            (*final(self) == JuliaState {
                data: JuliaData { iters, ..old(self).data },
                ..*old(self)
            }),
    {
        self.data.iters = iters;
    }

    /// Ask the session to end.
    pub fn close(&mut self)
        ensures
            (*final(self) == JuliaState { close_requested: true, ..*old(self) }),
    {
        self.close_requested = true;
    }

    /// Current viewport extents.
    pub fn extents(&self) -> (r: Complex)
        ensures
            r == self.data.extents,
    {
        self.data.extents
    }

    /// Current viewport center.
    pub fn center(&self) -> (r: Complex)
        ensures
            r == self.data.center,
    {
        self.data.center
    }

    /// Current constant `c`.
    pub fn c(&self) -> (r: Complex)
        ensures
            r == self.data.c,
    {
        self.data.c
    }

    /// Current exponent.
    pub fn n(&self) -> (r: u32)
        ensures
            r == self.data.n,
    {
        self.data.n
    }

    /// Current iteration cap.
    pub fn iters(&self) -> (r: u32)
        ensures
            r == self.data.iters,
    {
        self.data.iters
    }

    /// Whether a close has been requested.
    pub fn close_requested(&self) -> (r: bool)
        ensures
            r == self.close_requested,
    {
        self.close_requested
    }

    /// Index of the color stop being edited.
    pub fn active_color_idx(&self) -> (r: usize)
        ensures
            r == self.active_color as int,
    {
        self.active_color as usize
    }

    /// Display-encoded RGBA of the color stop being edited.
    pub fn active_color(&self) -> (r: Color)
        requires
            self.active_color < 3,
        ensures
            r == self.data.spec_color(self.active_color as int),
    {
        self.data.color(self.active_color as usize)
    }

    /// HSV triple of the color stop being edited.
    pub fn active_hsv(&self) -> (r: Hsv)
        requires
            self.active_color < 3,
        ensures
            r == self.spec_hsv(self.active_color as int),
    {
        if self.active_color == 0 {
            self.hsv0
        } else if self.active_color == 1 {
            self.hsv1
        } else {
            self.hsv2
        }
    }

    /// Choose which color stop is edited; out-of-range indices are
    /// rejected and change nothing.
    pub fn set_active_color(&mut self, idx: usize) -> (r: Result<(), &'static str>)
        ensures
            r is Ok <==> idx < 3,
            idx < 3 ==> (*final(self) == JuliaState {
                active_color: idx as u8,
                ..*old(self)
            }),
            idx >= 3 ==> *final(self) == *old(self),
    {
        if idx < 3 {
            self.active_color = idx as u8;
            Ok(())
        } else {
            Err("index out of range")
        }
    }

    /// Index of the midpoint being edited.
    pub fn active_midpt_idx(&self) -> (r: usize)
        ensures
            r == self.active_midpt as int,
    {
        self.active_midpt as usize
    }

    /// The midpoint being edited.
    pub fn active_midpt(&self) -> (r: i64)
        requires
            self.active_midpt < 3,
        ensures
            r == self.data.spec_midpoint(self.active_midpt as int),
    {
        self.data.midpoint(self.active_midpt as usize)
    }

    /// Choose which midpoint is edited; out-of-range indices are
    /// rejected and change nothing.
    pub fn set_active_midpt(&mut self, idx: usize) -> (r: Result<(), &'static str>)
        ensures
            r is Ok <==> idx < 3,
            idx < 3 ==> (*final(self) == JuliaState {
                active_midpt: idx as u8,
                ..*old(self)
            }),
            idx >= 3 ==> *final(self) == *old(self),
    {
        if idx < 3 {
            self.active_midpt = idx as u8;
            Ok(())
        } else {
            Err("index out of range")
        }
    }

    /// Push a freshly converted RGB value for the stop being edited.
    pub fn set_active_color_rgb(&mut self, c: Color)
        requires
            old(self).active_color < 3,
        ensures
            (*final(self) == JuliaState {
                data: old(self).data.spec_with_color(old(self).active_color as int, c),
                ..*old(self)
            }),
    {
        let idx = self.active_color as usize;
        self.data.set_color(idx, c);
    }
}

impl JuliaData {
    /// Midpoint adjustment: stop `idx` moves by `amount` and is clamped
    /// into `[0, SCALE]`; earlier stops are pulled down to it and later
    /// stops pushed up to it wherever they would otherwise cross.
    pub open spec fn spec_adjust_midpoints(self, idx: int, amount: int) -> JuliaData {
        let m = clamp(self.spec_midpoint(idx) + amount, 0, SCALE as int) as i64;
        JuliaData {
            midpoint0: if idx == 0 {
                m
            } else if self.midpoint0 > m {
                m
            } else {
                self.midpoint0
            },
            midpoint1: if idx == 1 {
                m
            } else if idx > 1 {
                if self.midpoint1 > m {
                    m
                } else {
                    self.midpoint1
                }
            } else {
                if self.midpoint1 < m {
                    m
                } else {
                    self.midpoint1
                }
            },
            midpoint2: if idx == 2 {
                m
            } else if self.midpoint2 < m {
                m
            } else {
                self.midpoint2
            },
            ..self
        }
    }
}

/// Gradient monotonicity: however one midpoint is adjusted, the stops
/// never cross in index order afterwards, and all stay inside
/// `[0, SCALE]`.
pub proof fn lemma_midpoint_adjust_monotone(data: JuliaData, idx: int, amount: int)
    requires
        data.wf(),
        0 <= idx < 3,
    ensures
        data.spec_adjust_midpoints(idx, amount).midpoints_monotone(),
        0 <= data.spec_adjust_midpoints(idx, amount).midpoint0,
        data.spec_adjust_midpoints(idx, amount).midpoint2 <= SCALE,
{
}

impl JuliaState {
    /// The state with the HSV triple of stop `i` replaced.
    pub open spec fn spec_with_hsv(self, i: int, h: Hsv) -> JuliaState {
        if i == 0 {
            JuliaState { hsv0: h, ..self }
        } else if i == 1 {
            JuliaState { hsv1: h, ..self }
        } else {
            JuliaState { hsv2: h, ..self }
        }
    }

    /// See `adjust_active_midpt`.
    pub open spec fn spec_adjust_midpt(self, amount: int) -> JuliaState {
        JuliaState {
            data: self.data.spec_adjust_midpoints(self.active_midpt as int, amount),
            ..self
        }
    }

    /// See `adjust_hue`.
    pub open spec fn spec_adjust_hue(self, amount: int) -> JuliaState {
        let h = self.spec_hsv(self.active_color as int);
        let sum = h.hue + amount;
        let hue = if sum < 0 {
            sum + FULL_TURN
        } else if sum >= FULL_TURN {
            sum - FULL_TURN
        } else {
            sum
        };
        self.spec_with_hsv(self.active_color as int, Hsv { hue: hue as i64, ..h })
    }

    /// See `adjust_saturation`.
    pub open spec fn spec_adjust_saturation(self, amount: int) -> JuliaState {
        let h = self.spec_hsv(self.active_color as int);
        let sat = clamp(h.sat + div_trunc(amount, 360), 0, SCALE as int) as i64;
        self.spec_with_hsv(self.active_color as int, Hsv { sat, ..h })
    }

    /// See `adjust_value`.
    pub open spec fn spec_adjust_value(self, amount: int) -> JuliaState {
        let h = self.spec_hsv(self.active_color as int);
        let val = clamp(h.val + div_trunc(amount, 360), 0, SCALE as int) as i64;
        self.spec_with_hsv(self.active_color as int, Hsv { val, ..h })
    }

    /// Move the midpoint being edited by `amount` micro-units, clamped
    /// into `[0, SCALE]`, dragging neighboring midpoints along so they
    /// never cross (the gradient-monotonicity rule).
    pub fn adjust_active_midpt(&mut self, amount: i64)
        requires
            old(self).wf(),
            -SCALE <= amount <= SCALE,
        ensures
            *final(self) == old(self).spec_adjust_midpt(amount as int),
            final(self).data.midpoints_monotone(),
            0 <= final(self).data.midpoint0,
            final(self).data.midpoint2 <= SCALE,
    {
        let idx = self.active_midpt as usize;
        let cur = self.data.midpoint(idx);
        let m = clamp_i64(cur + amount, 0, SCALE);
        if idx == 0 {
            self.data.midpoint0 = m;
            if self.data.midpoint1 < m {
                self.data.midpoint1 = m;
            }
            if self.data.midpoint2 < m {
                self.data.midpoint2 = m;
            }
        } else if idx == 1 {
            if self.data.midpoint0 > m {
                self.data.midpoint0 = m;
            }
            self.data.midpoint1 = m;
            if self.data.midpoint2 < m {
                self.data.midpoint2 = m;
            }
        } else {
            if self.data.midpoint0 > m {
                self.data.midpoint0 = m;
            }
            if self.data.midpoint1 > m {
                self.data.midpoint1 = m;
            }
            self.data.midpoint2 = m;
        }
    }

    /// Rotate the active stop's hue by `amount` micro-degrees, wrapping
    /// around the circle.
    pub fn adjust_hue(&mut self, amount: i64)
        requires
            old(self).wf(),
            -FULL_TURN <= amount <= FULL_TURN,
        ensures
            *final(self) == old(self).spec_adjust_hue(amount as int),
    {
        let h = self.active_hsv();
        let sum = h.hue + amount;
        let hue = if sum < 0 {
            sum + FULL_TURN
        } else if sum >= FULL_TURN {
            sum - FULL_TURN
        } else {
            sum
        };
        let idx = self.active_color;
        if idx == 0 {
            self.hsv0 = Hsv { hue, ..h };
        } else if idx == 1 {
            self.hsv1 = Hsv { hue, ..h };
        } else {
            self.hsv2 = Hsv { hue, ..h };
        }
    }

    /// Shift the active stop's saturation by the conventional
    /// `amount / 360`, clamped into `[0, SCALE]`.
    pub fn adjust_saturation(&mut self, amount: i64)
        requires
            old(self).wf(),
            -360 * SCALE <= amount <= 360 * SCALE,
        ensures
            *final(self) == old(self).spec_adjust_saturation(amount as int),
    {
        let h = self.active_hsv();
        let d = div_trunc_i64(amount, 360);
        let sat = clamp_i64(h.sat + d, 0, SCALE);
        let idx = self.active_color;
        if idx == 0 {
            self.hsv0 = Hsv { sat, ..h };
        } else if idx == 1 {
            self.hsv1 = Hsv { sat, ..h };
        } else {
            self.hsv2 = Hsv { sat, ..h };
        }
    }

    /// Shift the active stop's value by `amount / 360`, clamped into
    /// `[0, SCALE]`.
    pub fn adjust_value(&mut self, amount: i64)
        requires
            old(self).wf(),
            -360 * SCALE <= amount <= 360 * SCALE,
        ensures
            *final(self) == old(self).spec_adjust_value(amount as int),
    {
        let h = self.active_hsv();
        let d = div_trunc_i64(amount, 360);
        let val = clamp_i64(h.val + d, 0, SCALE);
        let idx = self.active_color;
        if idx == 0 {
            self.hsv0 = Hsv { val, ..h };
        } else if idx == 1 {
            self.hsv1 = Hsv { val, ..h };
        } else {
            self.hsv2 = Hsv { val, ..h };
        }
    }
}

/// The default fractal: a black-to-white gradient with its middle stop
/// at 0.25, degree 2, `c = 0.2`, 100 iterations, and a square viewport
/// of extent 3.6 centered on the origin.
pub fn default_state() -> (d: JuliaData)
    ensures
        d.wf(),
        d == (JuliaData {
            color0: Color { r: 0, g: 0, b: 0, a: 0 },
            color1: Color { r: 255, g: 255, b: 255, a: 255 },
            color2: Color { r: 255, g: 255, b: 255, a: 255 },
            midpoint0: 0,
            midpoint1: 250_000,
            midpoint2: 1_000_000,
            n: 2,
            c: Complex { re: 200_000, im: 0 },
            iters: 100,
            center: Complex { re: 0, im: 0 },
            extents: Complex { re: 3_600_000, im: 3_600_000 },
        }),
{
    JuliaData {
        color0: Color { r: 0, g: 0, b: 0, a: 0 },
        color1: Color { r: 255, g: 255, b: 255, a: 255 },
        color2: Color { r: 255, g: 255, b: 255, a: 255 },
        midpoint0: 0,
        midpoint1: 250_000,
        midpoint2: 1_000_000,
        n: 2,
        c: Complex { re: 200_000, im: 0 },
        iters: 100,
        center: Complex { re: 0, im: 0 },
        extents: Complex { re: 3_600_000, im: 3_600_000 },
    }
}

impl JuliaState {
    /// A session as it starts: the given parameters, their HSV mirrors
    /// (converted by the caller), nothing requested, color stop 0 and
    /// midpoint 1 selected for editing, cursor at the origin.
    pub fn initial(data: JuliaData, hsv0: Hsv, hsv1: Hsv, hsv2: Hsv, export_dimensions: ImgDimensions) -> (s: JuliaState)
        ensures
            s == (JuliaState {
                data,
                mouse: MouseState { x: 0, y: 0, dragging: false },
                hsv0,
                hsv1,
                hsv2,
                active_color: 0,
                active_midpt: 1,
                close_requested: false,
                export_dimensions,
                export_requested: false,
            }),
            data.wf() && hsv0.wf() && hsv1.wf() && hsv2.wf() && export_dimensions.wf() ==> s.wf(),
    {
        JuliaState {
            data,
            mouse: MouseState { x: 0, y: 0, dragging: false },
            hsv0,
            hsv1,
            hsv2,
            active_color: 0,
            active_midpt: 1,
            close_requested: false,
            export_dimensions,
            export_requested: false,
        }
    }

    /// The pan offset one cursor movement produces: the pixel delta,
    /// scaled by extent over window size, negated on the x axis so the
    /// image follows the cursor, and clamped to the coordinate range.
    pub open spec fn spec_cursor_offset(self, x: int, y: int, win_width: int, win_height: int) -> (int, int) {
        let dx = x - self.mouse.x;
        let dy = y - self.mouse.y;
        (
            -clamp(
                div_trunc(dx * self.data.extents.re, win_width),
                -MAX_COORD as int,
                MAX_COORD as int,
            ),
            clamp(
                div_trunc(dy * self.data.extents.im, win_height),
                -MAX_COORD as int,
                MAX_COORD as int,
            ),
        )
    }

    /// See `update_cursor`: pan while dragging, then remember the
    /// position.
    pub open spec fn spec_cursor_moved(self, x: int, y: int, win_width: int, win_height: int) -> JuliaState {
        let off = self.spec_cursor_offset(x, y, win_width, win_height);
        let moved = if self.mouse.dragging {
            self.spec_pan(off.0, off.1)
        } else {
            self
        };
        JuliaState {
            mouse: MouseState { x: x as i64, y: y as i64, dragging: self.mouse.dragging },
            ..moved
        }
    }

    /// Digest one cursor movement: while the left button drags, the
    /// viewport center pans with the cursor; the position is remembered
    /// either way.
    pub fn update_cursor(&mut self, x: i64, y: i64, win_width: i64, win_height: i64)
        requires
            old(self).wf(),
            -MAX_CURSOR <= x <= MAX_CURSOR,
            -MAX_CURSOR <= y <= MAX_CURSOR,
            0 < win_width <= MAX_CURSOR,
            0 < win_height <= MAX_CURSOR,
        ensures
            *final(self) == old(self).spec_cursor_moved(x as int, y as int, win_width as int, win_height as int),
    {
        if self.mouse.dragging {
            let dx = x - self.mouse.x;
            let dy = y - self.mouse.y;
            let tx = mul_div_clamp(dx, self.data.extents.re, win_width, -MAX_COORD, MAX_COORD);
            let oy = mul_div_clamp(dy, self.data.extents.im, win_height, -MAX_COORD, MAX_COORD);
            self.pan(-tx, oy);
        }
        self.mouse.x = x;
        self.mouse.y = y;
    }

    /// Record the left mouse button's state; pressing starts a drag and
    /// releasing ends it.
    pub fn set_dragging(&mut self, pressed: bool)
        ensures
            (*final(self) == JuliaState {
                mouse: MouseState { dragging: pressed, ..old(self).mouse },
                ..*old(self)
            }),
    {
        self.mouse.dragging = pressed;
    }
}

/// A key the interface reacts to, already mapped from whatever keycodes
/// the windowing system uses.
#[derive(Clone, Copy, PartialEq, Eq, Structural, Debug)]
pub enum KeyCommand {
    Quit,
    ZoomIn,
    ZoomOut,
    CUp,
    CDown,
    CLeft,
    CRight,
    ExponentUp,
    ExponentDown,
    ResetCenter,
    ResetExtents,
    ItersUp,
    ItersDown,
    SelectColor0,
    SelectColor1,
    SelectColor2,
    SelectMidpoint0,
    SelectMidpoint1,
    SelectMidpoint2,
    HueUp,
    HueDown,
    SaturationUp,
    SaturationDown,
    ValueUp,
    ValueDown,
    MidpointUp,
    MidpointDown,
    ExportWidthUp,
    ExportWidthDown,
    ExportHeightUp,
    ExportHeightDown,
    PanUp,
    PanLeft,
    PanDown,
    PanRight,
    RequestExport,
}

/// One windowing event, as plain values.
#[derive(Clone, Copy, PartialEq, Eq, Structural, Debug)]
pub enum JuliaEvent {
    CursorMoved { x: i64, y: i64, win_width: i64, win_height: i64 },
    MouseInput { pressed: bool },
    Scroll { amount: i64 },
    Key { code: KeyCommand, shift: bool, alt: bool, ctrl: bool },
    CloseRequested,
}

/// Events the state machine accepts: cursor positions and window sizes
/// within the pixel range, scroll amounts within the scroll range.
pub open spec fn event_wf(e: JuliaEvent) -> bool {
    match e {
        JuliaEvent::CursorMoved { x, y, win_width, win_height } => {
            &&& -MAX_CURSOR <= x <= MAX_CURSOR
            &&& -MAX_CURSOR <= y <= MAX_CURSOR
            &&& 0 < win_width <= MAX_CURSOR
            &&& 0 < win_height <= MAX_CURSOR
        },
        JuliaEvent::Scroll { amount } => -MAX_SCROLL <= amount <= MAX_SCROLL,
        _ => true,
    }
}

/// Whether digesting `e` leaves the active stop's RGB value stale, so
/// the caller must convert the HSV triple again.
pub open spec fn event_recolors(e: JuliaEvent) -> bool {
    match e {
        JuliaEvent::Key { code, .. } => match code {
            KeyCommand::HueUp
            | KeyCommand::HueDown
            | KeyCommand::SaturationUp
            | KeyCommand::SaturationDown
            | KeyCommand::ValueUp
            | KeyCommand::ValueDown => true,
            _ => false,
        },
        _ => false,
    }
}

/// How far one arrow keypress moves the constant `c`, depending on the
/// held modifiers: shift is fine, alt is coarse, ctrl is coarser.
pub open spec fn c_step_dist(shift: bool, alt: bool, ctrl: bool) -> int {
    if shift {
        100
    } else if alt {
        10_000
    } else if ctrl {
        100_000
    } else {
        C_STEP as int
    }
}

impl JuliaState {
    /// Raise the iteration cap by one step, saturating.
    pub open spec fn spec_iters_up(self) -> JuliaState {
        let iters = if self.data.iters > u32::MAX - ITER_STEP {
            u32::MAX
        } else {
            (self.data.iters + ITER_STEP) as u32
        };
        JuliaState { data: JuliaData { iters, ..self.data }, ..self }
    }

    /// Lower the iteration cap by one step, stopping at one step.
    pub open spec fn spec_iters_down(self) -> JuliaState {
        let iters = if self.data.iters <= 2 * ITER_STEP {
            ITER_STEP
        } else {
            (self.data.iters - ITER_STEP) as u32
        };
        JuliaState { data: JuliaData { iters, ..self.data }, ..self }
    }

    /// Raise the exponent by one, saturating.
    pub open spec fn spec_exponent_up(self) -> JuliaState {
        let n = if self.data.n == u32::MAX {
            u32::MAX
        } else {
            (self.data.n + 1) as u32
        };
        JuliaState { data: JuliaData { n, ..self.data }, ..self }
    }

    /// Lower the exponent by one, but never below two.
    pub open spec fn spec_exponent_down(self) -> JuliaState {
        let n = if self.data.n > 2 {
            (self.data.n - 1) as u32
        } else {
            self.data.n
        };
        JuliaState { data: JuliaData { n, ..self.data }, ..self }
    }

    /// Grow or shrink one export dimension by one step, saturating at
    /// the bottom so it never reaches zero.
    pub open spec fn spec_export_dim(self, horizontal: bool, up: bool) -> JuliaState {
        let cur = if horizontal {
            self.export_dimensions.width
        } else {
            self.export_dimensions.height
        };
        let new = if up {
            if cur > u32::MAX - EXPORT_DIM_STEP {
                cur
            } else {
                (cur + EXPORT_DIM_STEP) as u32
            }
        } else {
            if cur > EXPORT_DIM_STEP {
                (cur - EXPORT_DIM_STEP) as u32
            } else {
                cur
            }
        };
        if horizontal {
            JuliaState {
                export_dimensions: ImgDimensions { width: new, ..self.export_dimensions },
                ..self
            }
        } else {
            JuliaState {
                export_dimensions: ImgDimensions { height: new, ..self.export_dimensions },
                ..self
            }
        }
    }

    /// The step a keyboard pan moves by: a thirtieth of the vertical
    /// extent, kept within the coordinate range.
    pub open spec fn spec_pan_step(self) -> int {
        clamp(div_trunc(self.data.extents.im as int, PAN_DIVISOR as int), 0, MAX_COORD as int)
    }

    /// The zoom the scroll wheel asks for: scrolling away shrinks the
    /// extents by `SCALE / (SCALE + f)`, scrolling towards grows them by
    /// `(SCALE - f) / SCALE`, where `f` is half the scroll amount.
    pub open spec fn spec_scroll(self, amount: int) -> JuliaState {
        let f = div_trunc(amount, 2);
        if f < 0 {
            self.spec_zoom(SCALE - f, SCALE as int)
        } else {
            self.spec_zoom(SCALE as int, SCALE + f)
        }
    }

    /// The transition function: what one event does to the state.
    pub open spec fn step(self, e: JuliaEvent) -> JuliaState {
        match e {
            JuliaEvent::CursorMoved { x, y, win_width, win_height } => self.spec_cursor_moved(
                x as int,
                y as int,
                win_width as int,
                win_height as int,
            ),
            JuliaEvent::MouseInput { pressed } => JuliaState {
                mouse: MouseState { dragging: pressed, ..self.mouse },
                ..self
            },
            JuliaEvent::Scroll { amount } => self.spec_scroll(amount as int),
            JuliaEvent::CloseRequested => JuliaState { close_requested: true, ..self },
            JuliaEvent::Key { code, shift, alt, ctrl } => {
                let dist = c_step_dist(shift, alt, ctrl);
                match code {
                    KeyCommand::Quit => JuliaState { close_requested: true, ..self },
                    KeyCommand::ZoomIn => self.spec_zoom(10, 11),
                    KeyCommand::ZoomOut => self.spec_zoom(11, 10),
                    KeyCommand::CUp => self.spec_move_c(0, dist),
                    KeyCommand::CDown => self.spec_move_c(0, -dist),
                    KeyCommand::CLeft => self.spec_move_c(-dist, 0),
                    KeyCommand::CRight => self.spec_move_c(dist, 0),
                    KeyCommand::ExponentUp => self.spec_exponent_up(),
                    KeyCommand::ExponentDown => self.spec_exponent_down(),
                    KeyCommand::ResetCenter => JuliaState {
                        data: JuliaData { center: Complex { re: 0, im: 0 }, ..self.data },
                        ..self
                    },
                    KeyCommand::ResetExtents => JuliaState {
                        data: JuliaData {
                            extents: Complex { re: 3_600_000, im: 3_600_000 },
                            ..self.data
                        },
                        ..self
                    },
                    KeyCommand::ItersUp => self.spec_iters_up(),
                    KeyCommand::ItersDown => self.spec_iters_down(),
                    KeyCommand::SelectColor0 => JuliaState { active_color: 0, ..self },
                    KeyCommand::SelectColor1 => JuliaState { active_color: 1, ..self },
                    KeyCommand::SelectColor2 => JuliaState { active_color: 2, ..self },
                    KeyCommand::SelectMidpoint0 => JuliaState { active_midpt: 0, ..self },
                    KeyCommand::SelectMidpoint1 => JuliaState { active_midpt: 1, ..self },
                    KeyCommand::SelectMidpoint2 => JuliaState { active_midpt: 2, ..self },
                    KeyCommand::HueUp => self.spec_adjust_hue(HUE_STEP as int),
                    KeyCommand::HueDown => self.spec_adjust_hue(-HUE_STEP as int),
                    KeyCommand::SaturationUp => self.spec_adjust_saturation(SAT_STEP as int),
                    KeyCommand::SaturationDown => self.spec_adjust_saturation(-SAT_STEP as int),
                    KeyCommand::ValueUp => self.spec_adjust_value(VAL_STEP as int),
                    KeyCommand::ValueDown => self.spec_adjust_value(-VAL_STEP as int),
                    KeyCommand::MidpointUp => self.spec_adjust_midpt(MIDPT_STEP as int),
                    KeyCommand::MidpointDown => self.spec_adjust_midpt(-MIDPT_STEP as int),
                    KeyCommand::ExportWidthUp => self.spec_export_dim(true, true),
                    KeyCommand::ExportWidthDown => self.spec_export_dim(true, false),
                    KeyCommand::ExportHeightUp => self.spec_export_dim(false, true),
                    KeyCommand::ExportHeightDown => self.spec_export_dim(false, false),
                    KeyCommand::PanUp => self.spec_pan(0, self.spec_pan_step()),
                    KeyCommand::PanLeft => self.spec_pan(-self.spec_pan_step(), 0),
                    KeyCommand::PanDown => self.spec_pan(0, -self.spec_pan_step()),
                    KeyCommand::PanRight => self.spec_pan(self.spec_pan_step(), 0),
                    KeyCommand::RequestExport => JuliaState { export_requested: true, ..self },
                }
            },
        }
    }

    /// Digest one event. The result is exactly `step`; the returned
    /// flag says whether the active stop's RGB value must be converted
    /// from HSV again.
    pub fn handle_event(&mut self, e: JuliaEvent) -> (recolor: bool)
        requires
            old(self).wf(),
            event_wf(e),
        ensures
            *final(self) == old(self).step(e),
            recolor == event_recolors(e),
    {
        match e {
            JuliaEvent::CursorMoved { x, y, win_width, win_height } => {
                self.update_cursor(x, y, win_width, win_height);
                false
            },
            JuliaEvent::MouseInput { pressed } => {
                self.set_dragging(pressed);
                false
            },
            JuliaEvent::Scroll { amount } => {
                let f = div_trunc_i64(amount, 2);
                if f < 0 {
                    self.zoom((SCALE - f) as u32, SCALE as u32);
                } else {
                    self.zoom(SCALE as u32, (SCALE + f) as u32);
                }
                false
            },
            JuliaEvent::CloseRequested => {
                self.close();
                false
            },
            JuliaEvent::Key { code, shift, alt, ctrl } => {
                let dist: i64 = if shift {
                    100
                } else if alt {
                    10_000
                } else if ctrl {
                    100_000
                } else {
                    C_STEP
                };
                match code {
                    KeyCommand::Quit => {
                        self.close();
                        false
                    },
                    KeyCommand::ZoomIn => {
                        self.zoom(10, 11);
                        false
                    },
                    KeyCommand::ZoomOut => {
                        self.zoom(11, 10);
                        false
                    },
                    KeyCommand::CUp => {
                        self.move_c(0, dist);
                        false
                    },
                    KeyCommand::CDown => {
                        self.move_c(0, -dist);
                        false
                    },
                    KeyCommand::CLeft => {
                        self.move_c(-dist, 0);
                        false
                    },
                    KeyCommand::CRight => {
                        self.move_c(dist, 0);
                        false
                    },
                    KeyCommand::ExponentUp => {
                        let n = self.n();
                        if n < u32::MAX {
                            self.set_n(n + 1);
                        }
                        false
                    },
                    KeyCommand::ExponentDown => {
                        let n = self.n();
                        if n > 2 {
                            self.set_n(n - 1);
                        }
                        false
                    },
                    KeyCommand::ResetCenter => {
                        self.set_center(Complex { re: 0, im: 0 });
                        false
                    },
                    KeyCommand::ResetExtents => {
                        self.set_extents(Complex { re: 3_600_000, im: 3_600_000 });
                        false
                    },
                    KeyCommand::ItersUp => {
                        let iters = self.iters();
                        if iters > u32::MAX - ITER_STEP {
                            self.set_iters(u32::MAX);
                        } else {
                            self.set_iters(iters + ITER_STEP);
                        }
                        false
                    },
                    KeyCommand::ItersDown => {
                        let iters = self.iters();
                        if iters <= 2 * ITER_STEP {
                            self.set_iters(ITER_STEP);
                        } else {
                            self.set_iters(iters - ITER_STEP);
                        }
                        false
                    },
                    KeyCommand::SelectColor0 => {
                        let _ = self.set_active_color(0);
                        false
                    },
                    KeyCommand::SelectColor1 => {
                        let _ = self.set_active_color(1);
                        false
                    },
                    KeyCommand::SelectColor2 => {
                        let _ = self.set_active_color(2);
                        false
                    },
                    KeyCommand::SelectMidpoint0 => {
                        let _ = self.set_active_midpt(0);
                        false
                    },
                    KeyCommand::SelectMidpoint1 => {
                        let _ = self.set_active_midpt(1);
                        false
                    },
                    KeyCommand::SelectMidpoint2 => {
                        let _ = self.set_active_midpt(2);
                        false
                    },
                    KeyCommand::HueUp => {
                        self.adjust_hue(HUE_STEP);
                        true
                    },
                    KeyCommand::HueDown => {
                        self.adjust_hue(-HUE_STEP);
                        true
                    },
                    KeyCommand::SaturationUp => {
                        self.adjust_saturation(SAT_STEP);
                        true
                    },
                    KeyCommand::SaturationDown => {
                        self.adjust_saturation(-SAT_STEP);
                        true
                    },
                    KeyCommand::ValueUp => {
                        self.adjust_value(VAL_STEP);
                        true
                    },
                    KeyCommand::ValueDown => {
                        self.adjust_value(-VAL_STEP);
                        true
                    },
                    KeyCommand::MidpointUp => {
                        self.adjust_active_midpt(MIDPT_STEP);
                        false
                    },
                    KeyCommand::MidpointDown => {
                        self.adjust_active_midpt(-MIDPT_STEP);
                        false
                    },
                    KeyCommand::ExportWidthUp => {
                        let w = self.export_dimensions.width;
                        if w <= u32::MAX - EXPORT_DIM_STEP {
                            self.export_dimensions.width = w + EXPORT_DIM_STEP;
                        }
                        false
                    },
                    KeyCommand::ExportWidthDown => {
                        let w = self.export_dimensions.width;
                        if w > EXPORT_DIM_STEP {
                            self.export_dimensions.width = w - EXPORT_DIM_STEP;
                        }
                        false
                    },
                    KeyCommand::ExportHeightUp => {
                        let h = self.export_dimensions.height;
                        if h <= u32::MAX - EXPORT_DIM_STEP {
                            self.export_dimensions.height = h + EXPORT_DIM_STEP;
                        }
                        false
                    },
                    KeyCommand::ExportHeightDown => {
                        let h = self.export_dimensions.height;
                        if h > EXPORT_DIM_STEP {
                            self.export_dimensions.height = h - EXPORT_DIM_STEP;
                        }
                        false
                    },
                    KeyCommand::PanUp => {
                        let step = self.pan_step();
                        self.pan(0, step);
                        false
                    },
                    KeyCommand::PanLeft => {
                        let step = self.pan_step();
                        self.pan(-step, 0);
                        false
                    },
                    KeyCommand::PanDown => {
                        let step = self.pan_step();
                        self.pan(0, -step);
                        false
                    },
                    KeyCommand::PanRight => {
                        let step = self.pan_step();
                        self.pan(step, 0);
                        false
                    },
                    KeyCommand::RequestExport => {
                        self.export_requested = true;
                        false
                    },
                }
            },
        }
    }

    /// See `spec_move_c`.
    pub fn move_c(&mut self, dre: i64, dim: i64)
        requires
            old(self).data.wf(),
            -MAX_COORD <= dre <= MAX_COORD,
            -MAX_COORD <= dim <= MAX_COORD,
        ensures
            *final(self) == old(self).spec_move_c(dre as int, dim as int),
    {
        let re = clamp_i64(self.data.c.re + dre, -MAX_COORD, MAX_COORD);
        let im = clamp_i64(self.data.c.im + dim, -MAX_COORD, MAX_COORD);
        self.data.c = Complex { re, im };
    }

    /// Every transition preserves the state invariant: from a
    /// well-formed state, any accepted event leads to a well-formed
    /// state — midpoints stay ordered, channels stay in range, the
    /// viewport stays non-degenerate, selections stay in bounds.
    #[verifier::rlimit(30)]
    pub proof fn lemma_step_preserves_wf(self, e: JuliaEvent)
        requires
            self.wf(),
            event_wf(e),
        ensures
            self.step(e).wf(),
    {
        match e {
            JuliaEvent::Key { code, shift, alt, ctrl } => match code {
                KeyCommand::MidpointUp => {
                    lemma_midpoint_adjust_monotone(
                        self.data,
                        self.active_midpt as int,
                        MIDPT_STEP as int,
                    );
                },
                KeyCommand::MidpointDown => {
                    lemma_midpoint_adjust_monotone(
                        self.data,
                        self.active_midpt as int,
                        -MIDPT_STEP as int,
                    );
                },
                _ => {},
            },
            _ => {},
        }
    }

    /// See `spec_pan_step`.
    pub fn pan_step(&self) -> (r: i64)
        requires
            self.data.wf(),
        ensures
            r == self.spec_pan_step(),
    {
        mul_div_clamp(self.data.extents.im, 1, PAN_DIVISOR, 0, MAX_COORD)
    }
}

} // verus!
