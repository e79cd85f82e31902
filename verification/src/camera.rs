//! The picture's grid: its size, what makes a camera unusable, and the order
//! in which rays are drawn for it.
use vstd::prelude::*;
use vstd::arithmetic::div_mod::{
    lemma_div_is_ordered,
    lemma_fundamental_div_mod,
    lemma_fundamental_div_mod_converse,
};
use vstd::arithmetic::mul::lemma_mul_is_commutative;
use crate::double::{Double, ZERO_BITS};

verus! {

/// The encoding of 180: from here on a field of view, in degrees, is no
/// angle of view any more.
pub const HALF_TURN_BITS: u64 = 0x4066_8000_0000_0000;

/// What a camera is to be made of, as far as it can be wrong.
#[derive(Clone, Copy, Debug, PartialEq, Eq, Structural)]
pub struct Setup {
    /// The width of the picture in pixels.
    pub width: u16,
    /// The vertical field of view in degrees.
    pub fov: Double,
    /// The width of the picture over its height.
    pub aspect_ratio: Double,
    /// The distance from the camera to the plane in perfect focus.
    pub focus_distance: Double,
    /// The distance from the camera to the point it looks at.
    pub view_length: Double,
    /// The length of the cross product of the up vector and the view
    /// direction.
    pub side_length: Double,
}

/// Why no camera can be made of what was given.
#[derive(Clone, Copy, Debug, PartialEq, Eq, Structural)]
pub enum SetupError {
    /// The picture would have no columns.
    ZeroWidth,
    /// The field of view is not between 0 and 180 degrees.
    FieldOfView,
    /// The aspect ratio is not above zero.
    AspectRatio,
    /// The focus distance is not above zero.
    FocusDistance,
    /// The camera looks at the point where it stands.
    NoViewDirection,
    /// The up vector runs along the view direction, or is zero, so that no
    /// sideways direction is left.
    NoSideDirection,
}

/// The size of the picture in pixels.
#[derive(Clone, Copy, Debug, PartialEq, Eq, Structural)]
pub struct Frame {
    pub width: u16,
    pub height: u16,
}

/// One ray to draw: the pixel it is for, and which of the pixel's samples it
/// is.
#[derive(Clone, Copy, Debug, PartialEq, Eq, Structural)]
pub struct Slot {
    pub column: u16,
    pub row: u16,
    pub draw: usize,
}

/// The number of rows of a picture: what the width and the aspect ratio
/// give, but never less than one.
pub open spec fn rows_for(quotient: u16) -> u16 {
    if quotient < 1 {
        1
    } else {
        quotient
    }
}

/// What stands in the way of a camera: the first that holds, in the order
/// of the fields. A value that is no number is never in its range.
pub open spec fn setup_fault(setup: Setup) -> Option<SetupError> {
    let zero = Double { bits: ZERO_BITS };
    if setup.width == 0 {
        Some(SetupError::ZeroWidth)
    } else if !(zero.below(setup.fov) && setup.fov.below(Double { bits: HALF_TURN_BITS })) {
        Some(SetupError::FieldOfView)
    } else if !zero.below(setup.aspect_ratio) {
        Some(SetupError::AspectRatio)
    } else if !zero.below(setup.focus_distance) {
        Some(SetupError::FocusDistance)
    } else if !zero.below(setup.view_length) {
        Some(SetupError::NoViewDirection)
    } else if !zero.below(setup.side_length) {
        Some(SetupError::NoSideDirection)
    } else {
        None
    }
}

impl Frame {
    /// A picture has at least one column and one row.
    pub open spec fn wf(self) -> bool {
        self.width >= 1 && self.height >= 1
    }

    /// How many pixels the picture has.
    pub open spec fn area(self) -> nat {
        (self.width * self.height) as nat
    }

    /// How many rays are drawn for the picture, with `samples` to a pixel.
    pub open spec fn ray_count(self, samples: usize) -> nat {
        self.area() * samples as nat
    }

    /// The `k`-th ray drawn: pixels go row by row from the top, each row from
    /// the left, and all samples of a pixel come together.
    pub open spec fn slot_at(self, samples: usize, k: nat) -> Slot {
        let pixel = k as int / samples as int;
        Slot {
            column: (pixel % self.width as int) as u16,
            row: (pixel / self.width as int) as u16,
            draw: (k as int % samples as int) as usize,
        }
    }

    /// The place of a slot in the order of drawing.
    pub open spec fn place(self, samples: usize, slot: Slot) -> int {
        (slot.row * self.width + slot.column) * samples + slot.draw
    }

    /// Whether a slot names a pixel of the picture and one of its samples.
    pub open spec fn holds(self, samples: usize, slot: Slot) -> bool {
        slot.column < self.width && slot.row < self.height && slot.draw < samples
    }

    /// Checks what a camera is to be made of, and sizes its picture.
    /// `quotient` is the width divided by the aspect ratio, rounded. Fails
    /// exactly where something stands in the way, and says what.
    pub fn new(setup: &Setup, quotient: u16) -> (r: Result<Frame, SetupError>)
        ensures
            match r {
                Ok(frame) => {
                    &&& setup_fault(*setup) is None
                    &&& frame.width == setup.width
                    &&& frame.height == rows_for(quotient)
                    &&& frame.wf()
                },
                Err(e) => setup_fault(*setup) == Some(e),
            },
    {
        let zero = Double::from_bits(ZERO_BITS);
        if setup.width == 0 {
            Err(SetupError::ZeroWidth)
        } else if !(zero.lt(&setup.fov) && setup.fov.lt(&Double::from_bits(HALF_TURN_BITS))) {
            Err(SetupError::FieldOfView)
        } else if !zero.lt(&setup.aspect_ratio) {
            Err(SetupError::AspectRatio)
        } else if !zero.lt(&setup.focus_distance) {
            Err(SetupError::FocusDistance)
        } else if !zero.lt(&setup.view_length) {
            Err(SetupError::NoViewDirection)
        } else if !zero.lt(&setup.side_length) {
            Err(SetupError::NoSideDirection)
        } else {
            let height: u16 = if quotient < 1 {
                1
            } else {
                quotient
            };
            Ok(Frame { width: setup.width, height })
        }
    }

    /// How many pixels the picture has.
    pub fn pixel_count(&self) -> (n: u32)
        ensures
            n == self.area(),
    {
        assert(self.width * self.height <= 65535 * 65535) by (nonlinear_arith)
            requires
                self.width <= 65535,
                self.height <= 65535,
        ;
        self.width as u32 * self.height as u32
    }

    /// The slot of the `k`-th ray of the picture, counted from zero, or
    /// `None` once all rays are drawn.
    pub fn slot(&self, samples: usize, k: usize) -> (r: Option<Slot>)
        ensures
            r == if k < self.ray_count(samples) {
                Some(self.slot_at(samples, k as nat))
            } else {
                None::<Slot>
            },
            r matches Some(s) ==> self.holds(samples, s) && self.place(samples, s) == k,
    {
        if samples == 0 {
            return None;
        }
        let pixel: usize = k / samples;
        let count: u32 = self.pixel_count();
        proof {
            lemma_count_by_pixel(self.area() as int, samples as int, k as int);
        }
        if pixel as u64 >= count as u64 {
            return None;
        }
        assert(self.width >= 1) by (nonlinear_arith)
            requires
                pixel < self.width * self.height,
        ;
        let width: usize = self.width as usize;
        let column: usize = pixel % width;
        let row: usize = pixel / width;
        let draw: usize = k % samples;
        proof {
            lemma_count_by_pixel(self.height as int, width as int, pixel as int);
            lemma_fundamental_div_mod(pixel as int, width as int);
            lemma_fundamental_div_mod(k as int, samples as int);
            lemma_mul_is_commutative(width as int, row as int);
            lemma_mul_is_commutative(samples as int, pixel as int);
            lemma_mul_is_commutative(self.height as int, width as int);
        }
        Some(Slot { column: column as u16, row: row as u16, draw })
    }
}

/// Whether the camera is a pinhole: with a defocus angle of zero or less
/// every ray starts where the camera stands.
pub fn pinhole(defocus_angle: &Double) -> (r: bool)
    ensures
        r == defocus_angle.at_most(Double { bits: ZERO_BITS }),
{
    defocus_angle.le(&Double::from_bits(ZERO_BITS))
}

/// Counting in groups of `size`: `k` is among the first `groups * size`
/// exactly when its group is among the first `groups`.
proof fn lemma_count_by_pixel(groups: int, size: int, k: int)
    requires
        0 <= groups,
        0 < size,
        0 <= k,
    ensures
        0 <= k / size,
        (k < groups * size) <==> (k / size < groups),
{
    lemma_fundamental_div_mod(k, size);
    let q = k / size;
    if q < groups {
        assert(size * q + size <= size * groups) by (nonlinear_arith)
            requires
                q + 1 <= groups,
                0 < size,
        ;
    } else {
        assert(size * groups <= size * q) by (nonlinear_arith)
            requires
                groups <= q,
                0 < size,
        ;
    }
    assert(0 <= q) by (nonlinear_arith)
        requires
            k == size * q + k % size,
            0 <= k,
            0 <= k % size < size,
            0 < size,
    ;
}

/// Every slot of the picture is drawn exactly once: the slot at a place has
/// that place, and a slot of the picture stands at its own place.
pub proof fn law_slots_are_places(frame: Frame, samples: usize, slot: Slot)
    requires
        frame.holds(samples, slot),
    ensures
        0 <= frame.place(samples, slot) < frame.ray_count(samples),
        frame.slot_at(samples, frame.place(samples, slot) as nat) == slot,
{
    let w = frame.width as int;
    let h = frame.height as int;
    let n = samples as int;
    let pixel = slot.row * w + slot.column;
    let k = pixel * n + slot.draw;
    assert(0 <= pixel < w * h) by (nonlinear_arith)
        requires
            pixel == slot.row * w + slot.column,
            0 <= slot.column < w,
            0 <= slot.row < h,
    ;
    assert(0 <= k < (w * h) * n) by (nonlinear_arith)
        requires
            k == pixel * n + slot.draw,
            0 <= pixel < w * h,
            0 <= slot.draw < n,
    ;
    lemma_fundamental_div_mod_converse(k, n, pixel, slot.draw as int);
    lemma_fundamental_div_mod_converse(pixel, w, slot.row as int, slot.column as int);
}

/// Rays are drawn row by row from the top, within a row from the left, and
/// for one pixel sample after sample: of two rays, the earlier one belongs
/// to an earlier row, or to the same row and an earlier column, or to the
/// same pixel and an earlier sample.
pub proof fn law_slots_are_row_major(frame: Frame, samples: usize, j: nat, k: nat)
    requires
        j < k < frame.ray_count(samples),
    ensures
        ({
            let a = frame.slot_at(samples, j);
            let b = frame.slot_at(samples, k);
            a.row < b.row || (a.row == b.row && (a.column < b.column || (a.column == b.column
                && a.draw < b.draw)))
        }),
{
    let w = frame.width as int;
    let h = frame.height as int;
    let n = samples as int;
    assert(n > 0 && w > 0 && h > 0) by (nonlinear_arith)
        requires
            0 <= k < (w * h) * n,
            0 <= w,
            0 <= h,
            0 <= n,
    ;
    let pj = j as int / n;
    let pk = k as int / n;
    lemma_count_by_pixel(w * h, n, k as int);
    lemma_div_is_ordered(j as int, k as int, n);
    lemma_fundamental_div_mod(j as int, n);
    lemma_fundamental_div_mod(k as int, n);
    lemma_count_by_pixel(h, w, pk);
    lemma_div_is_ordered(pj, pk, w);
    lemma_fundamental_div_mod(pj, w);
    lemma_fundamental_div_mod(pk, w);
}

} // verus!
