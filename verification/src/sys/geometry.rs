//! Screen geometry, and the conversion between the two coordinate systems of
//! macOS.
//!
//! Coordinates are IEEE 754 doubles. They are carried by their bit pattern, so
//! that telling zeros and NaNs apart is exact; sums and differences come from
//! an [`Arithmetic`].

use vstd::prelude::*;

verus! {

/// The bit pattern of an IEEE 754 double.
///
/// In code, `==` compares numbers as IEEE 754 does: the two zeros are equal,
/// and a NaN is not even equal to itself. In contracts, `==` means the same bit
/// pattern.
#[derive(Clone, Copy, Debug)]
pub struct CGFloat {
    pub bits: u64,
}

/// A point on screen.
#[derive(Clone, Copy, Debug)]
pub struct CGPoint {
    pub x: CGFloat,
    pub y: CGFloat,
}

/// The extent of a rectangle.
#[derive(Clone, Copy, Debug)]
pub struct CGSize {
    pub width: CGFloat,
    pub height: CGFloat,
}

/// A rectangle, given by its corner with the least coordinates and its size.
#[derive(Clone, Copy, Debug)]
pub struct CGRect {
    pub origin: CGPoint,
    pub size: CGSize,
}

/// Arithmetic on doubles.
///
/// Nothing is assumed of the results. Contracts say which operation on which
/// operands a value came from, and no more.
pub trait Arithmetic {
    /// The sum of two doubles.
    fn plus(&self, a: CGFloat, b: CGFloat) -> CGFloat;

    /// The first double less the second.
    fn minus(&self, a: CGFloat, b: CGFloat) -> CGFloat;

    /// The first double divided by the second.
    fn divide(&self, a: CGFloat, b: CGFloat) -> CGFloat;
}

/// Whether `arith` may answer `r` for `a + b`.
pub open spec fn is_sum<A: Arithmetic>(arith: &A, a: CGFloat, b: CGFloat, r: CGFloat) -> bool {
    call_ensures(A::plus, (arith, a, b), r)
}

/// Whether `arith` may answer `r` for `a - b`.
pub open spec fn is_difference<A: Arithmetic>(
    arith: &A,
    a: CGFloat,
    b: CGFloat,
    r: CGFloat,
) -> bool {
    call_ensures(A::minus, (arith, a, b), r)
}

/// Whether `arith` may answer `r` for `a / b`.
pub open spec fn is_quotient<A: Arithmetic>(
    arith: &A,
    a: CGFloat,
    b: CGFloat,
    r: CGFloat,
) -> bool {
    call_ensures(A::divide, (arith, a, b), r)
}

/// Whether sums and differences are a function of their operands. Which NaN an
/// answer is may vary, and may not matter as an operand: IEEE 754 asks for no
/// more.
pub open spec fn is_functional<A: Arithmetic>(arith: &A) -> bool {
    &&& forall|a: CGFloat, b: CGFloat, r: CGFloat, c: CGFloat, d: CGFloat, s: CGFloat| #[trigger]
        is_sum(arith, a, b, r) && #[trigger] is_sum(arith, c, d, s) && a.agrees(c) && b.agrees(d)
            ==> r.agrees(s)
    &&& forall|a: CGFloat, b: CGFloat, r: CGFloat, c: CGFloat, d: CGFloat, s: CGFloat| #[trigger]
        is_difference(arith, a, b, r) && #[trigger] is_difference(arith, c, d, s) && a.agrees(c)
            && b.agrees(d) ==> r.agrees(s)
}

/// The bit pattern of positive infinity: every exponent bit, no fraction bit.
pub const INFINITY_BITS: u64 = 0x7ff0_0000_0000_0000;

/// The sign bit of a double.
pub const SIGN_BIT: u64 = 0x8000_0000_0000_0000;

/// The bit pattern of the quiet NaN without payload.
pub const NAN_BITS: u64 = 0x7ff8_0000_0000_0000;

impl CGFloat {
    /// The bit pattern without its sign.
    pub open spec fn unsigned(self) -> int {
        self.bits as int % SIGN_BIT as int
    }

    /// Zero, of either sign, is the number whose other bits are all clear.
    pub open spec fn zero(self) -> bool {
        self.unsigned() == 0
    }

    /// A NaN has every exponent bit set and some fraction bit too, so its
    /// pattern lies beyond that of infinity.
    pub open spec fn nan(self) -> bool {
        self.unsigned() > INFINITY_BITS
    }

    /// Equality as IEEE 754 has it: of numbers, not of bit patterns.
    pub open spec fn equals(self, other: CGFloat) -> bool {
        &&& !self.nan()
        &&& !other.nan()
        &&& self.bits == other.bits || (self.zero() && other.zero())
    }

    /// The same double, where one NaN is as good as another.
    pub open spec fn agrees(self, other: CGFloat) -> bool {
        self.bits == other.bits || (self.nan() && other.nan())
    }

    /// Whether this is zero as a number, whatever its sign.
    pub fn is_zero(&self) -> (r: bool)
        ensures
            r == self.zero(),
    {
        self.bits % SIGN_BIT == 0
    }

    /// Whether this is a NaN.
    pub fn is_nan(&self) -> (r: bool)
        ensures
            r == self.nan(),
    {
        self.bits % SIGN_BIT > INFINITY_BITS
    }
}

impl PartialEq for CGFloat {
    fn eq(&self, other: &CGFloat) -> (r: bool) {
        !self.is_nan() && !other.is_nan() && (self.bits == other.bits || (self.is_zero()
            && other.is_zero()))
    }
}

impl vstd::std_specs::cmp::PartialEqSpecImpl for CGFloat {
    open spec fn obeys_eq_spec() -> bool {
        true
    }

    open spec fn eq_spec(&self, other: &CGFloat) -> bool {
        self.equals(*other)
    }
}

impl PartialEq for CGPoint {
    fn eq(&self, other: &CGPoint) -> (r: bool) {
        self.x == other.x && self.y == other.y
    }
}

impl vstd::std_specs::cmp::PartialEqSpecImpl for CGPoint {
    open spec fn obeys_eq_spec() -> bool {
        true
    }

    open spec fn eq_spec(&self, other: &CGPoint) -> bool {
        self.equals(*other)
    }
}

impl PartialEq for CGSize {
    fn eq(&self, other: &CGSize) -> (r: bool) {
        self.width == other.width && self.height == other.height
    }
}

impl vstd::std_specs::cmp::PartialEqSpecImpl for CGSize {
    open spec fn obeys_eq_spec() -> bool {
        true
    }

    open spec fn eq_spec(&self, other: &CGSize) -> bool {
        self.equals(*other)
    }
}

impl PartialEq for CGRect {
    fn eq(&self, other: &CGRect) -> (r: bool) {
        self.origin == other.origin && self.size == other.size
    }
}

impl vstd::std_specs::cmp::PartialEqSpecImpl for CGRect {
    open spec fn obeys_eq_spec() -> bool {
        true
    }

    open spec fn eq_spec(&self, other: &CGRect) -> bool {
        self.equals(*other)
    }
}

impl CGSize {
    /// The same extent, by its numbers.
    pub open spec fn equals(self, other: CGSize) -> bool {
        self.width.equals(other.width) && self.height.equals(other.height)
    }
}

impl CGPoint {
    /// The same point, by its numbers.
    pub open spec fn equals(self, other: CGPoint) -> bool {
        self.x.equals(other.x) && self.y.equals(other.y)
    }

    /// Whether the point is `(0, 0)` as a pair of numbers.
    pub open spec fn at_origin(self) -> bool {
        self.x.zero() && self.y.zero()
    }

    /// Whether this is the origin.
    pub fn is_origin(&self) -> (r: bool)
        ensures
            r == self.at_origin(),
    {
        self.x.is_zero() && self.y.is_zero()
    }
}

impl CGRect {
    /// The same rectangle, by its numbers.
    pub open spec fn equals(self, other: CGRect) -> bool {
        self.origin.equals(other.origin) && self.size.equals(other.size)
    }

    /// The greatest y coordinate of the rectangle.
    pub fn max_y<A: Arithmetic>(&self, arith: &A) -> (r: CGFloat)
        ensures
            is_sum(arith, self.origin.y, self.size.height, r),
    {
        arith.plus(self.origin.y, self.size.height)
    }
}

/// Converts between Quartz and Cocoa coordinate systems.
#[derive(Clone, Copy, Debug, PartialEq)]
pub struct CoordinateConverter {
    /// The y offset of the Cocoa origin in the Quartz coordinate system, and
    /// vice versa. This is the height of the first screen. The origins
    /// are the bottom left and top left of the screen, respectively.
    pub screen_height: CGFloat,
}

/// Creates a `CoordinateConverter` that returns None for any conversion.
impl Default for CoordinateConverter {
    fn default() -> (converter: CoordinateConverter)
        ensures
            converter.screen_height.bits == NAN_BITS,
            !converter.converts(),
    {
        CoordinateConverter { screen_height: CGFloat { bits: NAN_BITS } }
    }
}

impl CoordinateConverter {
    /// Whether conversions give a result: the screen height has to be a number.
    pub open spec fn converts(self) -> bool {
        !self.screen_height.nan()
    }

    /// `to` is `from` seen in the other coordinate system: the y axis is
    /// turned round at the bottom of the first screen.
    pub open spec fn flips_point<A: Arithmetic>(
        self,
        arith: &A,
        from: CGPoint,
        to: CGPoint,
    ) -> bool {
        &&& to.x == from.x
        &&& is_difference(arith, self.screen_height, from.y, to.y)
    }

    /// `to` is `from` seen in the other coordinate system. The edge with the
    /// greatest y becomes the one with the least, and the size stays.
    pub open spec fn flips_rect<A: Arithmetic>(self, arith: &A, from: CGRect, to: CGRect) -> bool {
        &&& to.size == from.size
        &&& to.origin.x == from.origin.x
        &&& exists|max_y: CGFloat|
            {
                &&& #[trigger] is_sum(arith, from.origin.y, from.size.height, max_y)
                &&& is_difference(arith, self.screen_height, max_y, to.origin.y)
            }
    }

    /// Converts a point to the other coordinate system.
    pub fn convert_point<A: Arithmetic>(&self, point: CGPoint, arith: &A) -> (r: Option<CGPoint>)
        ensures
            r is Some <==> self.converts(),
            r matches Some(converted) ==> self.flips_point(arith, point, converted),
    {
        if self.screen_height.is_nan() {
            return None;
        }
        Some(CGPoint { x: point.x, y: arith.minus(self.screen_height, point.y) })
    }

    /// Converts a rectangle to the other coordinate system.
    pub fn convert_rect<A: Arithmetic>(&self, rect: CGRect, arith: &A) -> (r: Option<CGRect>)
        ensures
            r is Some <==> self.converts(),
            r matches Some(converted) ==> self.flips_rect(arith, rect, converted),
    {
        if self.screen_height.is_nan() {
            return None;
        }
        let max_y = rect.max_y(arith);
        let y = arith.minus(self.screen_height, max_y);
        Some(CGRect { origin: CGPoint { x: rect.origin.x, y }, size: rect.size })
    }
}

/// One converter serves both directions: converting a point twice gives back
/// its x, and a y of the same value wherever the two subtractions are exact.
/// `value` is the number that a double stands for.
pub proof fn law_converting_a_point_twice_restores_it<A: Arithmetic>(
    converter: CoordinateConverter,
    arith: &A,
    point: CGPoint,
    there: CGPoint,
    back: CGPoint,
    value: spec_fn(CGFloat) -> int,
)
    requires
        converter.flips_point(arith, point, there),
        converter.flips_point(arith, there, back),
        forall|y: CGFloat, r: CGFloat|
            (y == point.y || y == there.y) && #[trigger] is_difference(
                arith,
                converter.screen_height,
                y,
                r,
            ) ==> value(r) == value(converter.screen_height) - value(y),
    ensures
        back.x == point.x,
        value(back.y) == value(point.y),
{
}

/// A converted rectangle begins at the image of the far corner: the one with
/// the least x and the greatest y. Where the arithmetic is a function of its
/// operands, it can begin nowhere else.
pub proof fn law_rect_begins_at_the_image_of_its_far_corner<A: Arithmetic>(
    converter: CoordinateConverter,
    arith: &A,
    rect: CGRect,
    converted: CGRect,
)
    requires
        converter.flips_rect(arith, rect, converted),
    ensures
        converted.size == rect.size,
        exists|max_y: CGFloat|
            {
                &&& #[trigger] is_sum(arith, rect.origin.y, rect.size.height, max_y)
                &&& converter.flips_point(
                    arith,
                    (CGPoint { x: rect.origin.x, y: max_y }),
                    converted.origin,
                )
            },
        is_functional(arith) ==> forall|max_y: CGFloat, image: CGPoint|
            is_sum(arith, rect.origin.y, rect.size.height, max_y)
                && #[trigger] converter.flips_point(
                arith,
                (CGPoint { x: rect.origin.x, y: max_y }),
                image,
            ) ==> image.x == converted.origin.x && image.y.agrees(converted.origin.y),
{
    let max_y = choose|max_y: CGFloat|
        {
            &&& #[trigger] is_sum(arith, rect.origin.y, rect.size.height, max_y)
            &&& is_difference(arith, converter.screen_height, max_y, converted.origin.y)
        };
    assert(converter.flips_point(
        arith,
        CGPoint { x: rect.origin.x, y: max_y },
        converted.origin,
    ));
}

/// Converting a rectangle twice gives back its size and x, and a y of the same
/// value wherever the sums and differences are exact.
pub proof fn law_converting_a_rect_twice_restores_it<A: Arithmetic>(
    converter: CoordinateConverter,
    arith: &A,
    rect: CGRect,
    there: CGRect,
    back: CGRect,
    value: spec_fn(CGFloat) -> int,
)
    requires
        converter.flips_rect(arith, rect, there),
        converter.flips_rect(arith, there, back),
        forall|y: CGFloat, r: CGFloat|
            (y == rect.origin.y || y == there.origin.y) && #[trigger] is_sum(
                arith,
                y,
                rect.size.height,
                r,
            ) ==> value(r) == value(y) + value(rect.size.height),
        forall|y: CGFloat, r: CGFloat|
            (is_sum(arith, rect.origin.y, rect.size.height, y) || is_sum(
                arith,
                there.origin.y,
                rect.size.height,
                y,
            )) && #[trigger] is_difference(arith, converter.screen_height, y, r) ==> value(r)
                == value(converter.screen_height) - value(y),
    ensures
        back.size == rect.size,
        back.origin.x == rect.origin.x,
        value(back.origin.y) == value(rect.origin.y),
{
}

} // verus!
