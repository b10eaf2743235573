//! What doubles are by their bits, and where conversion puts points and
//! rectangles.

use vstd::prelude::*;

use crate::sys::geometry::{Arithmetic, CGFloat, CGPoint, CGRect, CGSize, CoordinateConverter};

verus! {

/// All eleven exponent bits of a double are set, and one of its 52 fraction
/// bits at least.
pub open spec fn has_nan_bits(x: CGFloat) -> bool {
    &&& x.bits as int / 0x10_0000_0000_0000 % 2048 == 2047
    &&& x.bits as int % 0x10_0000_0000_0000 != 0
}

/// No bit of a double is set, but perhaps its sign.
pub open spec fn has_zero_bits(x: CGFloat) -> bool {
    x.bits == 0 || x.bits == 0x8000_0000_0000_0000
}

/// Doubles are equal when they are the same number: the same bits, or two
/// zeros, and no NaN.
#[verifier::opaque]
pub open spec fn same_number(a: CGFloat, b: CGFloat) -> bool {
    &&& a.bits == b.bits || (has_zero_bits(a) && has_zero_bits(b))
    &&& !has_nan_bits(a)
    &&& !has_nan_bits(b)
}

/// A NaN is what the bits of one say.
pub proof fn lemma_nan_bits(x: CGFloat)
    ensures
        x.nan() <==> has_nan_bits(x),
{
    let bits = x.bits;
    assert(bits % 0x8000_0000_0000_0000 > 0x7ff0_0000_0000_0000 <==> bits / 0x10_0000_0000_0000
        % 2048 == 2047 && bits % 0x10_0000_0000_0000 != 0) by (bit_vector);
}

/// Equality of doubles is equality of numbers.
pub proof fn lemma_same_numbers(a: CGFloat, b: CGFloat)
    ensures
        a.equals(b) <==> same_number(a, b),
{
    reveal(same_number);
    lemma_nan_bits(a);
    lemma_nan_bits(b);
}

/// A NaN is told by its exponent and fraction bits.
pub proof fn law_nan_bits(x: &CGFloat, r: bool)
    requires
        call_ensures(CGFloat::is_nan, (x,), r),
    ensures
        r <==> has_nan_bits(*x),
{
    lemma_nan_bits(*x);
}

/// There are two zeros.
pub proof fn law_zero_bits(x: &CGFloat, r: bool)
    requires
        call_ensures(CGFloat::is_zero, (x,), r),
    ensures
        r <==> has_zero_bits(*x),
{
}

/// The origin has two zeros for coordinates.
pub proof fn law_origin_bits(p: &CGPoint, r: bool)
    requires
        call_ensures(CGPoint::is_origin, (p,), r),
    ensures
        r <==> has_zero_bits(p.x) && has_zero_bits(p.y),
{
}

/// `==` on doubles is equality of numbers.
pub proof fn law_equal_doubles(a: &CGFloat, b: &CGFloat, r: bool)
    requires
        call_ensures(<CGFloat as PartialEq>::eq, (a, b), r),
    ensures
        r <==> same_number(*a, *b),
{
    lemma_same_numbers(*a, *b);
}

/// `==` on points compares both coordinates as numbers.
pub proof fn law_equal_points(a: &CGPoint, b: &CGPoint, r: bool)
    requires
        call_ensures(<CGPoint as PartialEq>::eq, (a, b), r),
    ensures
        r <==> same_number(a.x, b.x) && same_number(a.y, b.y),
{
    lemma_same_numbers(a.x, b.x);
    lemma_same_numbers(a.y, b.y);
}

/// `==` on sizes compares both extents as numbers.
pub proof fn law_equal_sizes(a: &CGSize, b: &CGSize, r: bool)
    requires
        call_ensures(<CGSize as PartialEq>::eq, (a, b), r),
    ensures
        r <==> same_number(a.width, b.width) && same_number(a.height, b.height),
{
    lemma_same_numbers(a.width, b.width);
    lemma_same_numbers(a.height, b.height);
}

/// `==` on rectangles compares all four measures as numbers.
pub proof fn law_equal_rects(a: &CGRect, b: &CGRect, r: bool)
    requires
        call_ensures(<CGRect as PartialEq>::eq, (a, b), r),
    ensures
        r <==> {
            &&& same_number(a.origin.x, b.origin.x)
            &&& same_number(a.origin.y, b.origin.y)
            &&& same_number(a.size.width, b.size.width)
            &&& same_number(a.size.height, b.size.height)
        },
{
    lemma_same_numbers(a.origin.x, b.origin.x);
    lemma_same_numbers(a.origin.y, b.origin.y);
    lemma_same_numbers(a.size.width, b.size.width);
    lemma_same_numbers(a.size.height, b.size.height);
}

/// The greatest y of a rectangle is the sum of its y and its height.
pub proof fn law_greatest_y<A: Arithmetic>(rect: &CGRect, arith: &A, r: CGFloat)
    requires
        call_ensures(CGRect::max_y::<A>, (rect, arith), r),
    ensures
        call_ensures(A::plus, (arith, rect.origin.y, rect.size.height), r),
{
}

/// `to` is what becomes of a y at a height: the height less the y.
pub open spec fn turned<A: Arithmetic>(
    arith: &A,
    height: CGFloat,
    y: CGFloat,
    to: CGFloat,
) -> bool {
    call_ensures(A::minus, (arith, height, y), to)
}

/// `to` is the image of `from` at a height: the same x and size, and for y the
/// height less the greatest y of `from`.
pub open spec fn is_image<A: Arithmetic>(
    arith: &A,
    height: CGFloat,
    from: CGRect,
    to: CGRect,
) -> bool {
    &&& to.size == from.size
    &&& to.origin.x == from.origin.x
    &&& exists|far: CGFloat|
        call_ensures(A::plus, (arith, from.origin.y, from.size.height), far) && #[trigger] turned(
            arith,
            height,
            far,
            to.origin.y,
        )
}

/// Flipping a rectangle makes its image.
pub proof fn lemma_flipped_rect_is_image<A: Arithmetic>(
    converter: CoordinateConverter,
    arith: &A,
    from: CGRect,
    to: CGRect,
)
    requires
        converter.flips_rect(arith, from, to),
    ensures
        is_image(arith, converter.screen_height, from, to),
{
    let far = choose|far: CGFloat|
        call_ensures(A::plus, (arith, from.origin.y, from.size.height), far) && call_ensures(
            A::minus,
            (arith, converter.screen_height, far),
            to.origin.y,
        );
    assert(turned(arith, converter.screen_height, far, to.origin.y));
}

/// A point keeps its x and has its y taken from the height of the screen. It is
/// converted unless that height is a NaN.
pub proof fn law_converted_point<A: Arithmetic>(
    converter: &CoordinateConverter,
    point: CGPoint,
    arith: &A,
    r: Option<CGPoint>,
)
    requires
        call_ensures(CoordinateConverter::convert_point::<A>, (converter, point, arith), r),
    ensures
        r is None <==> has_nan_bits(converter.screen_height),
        r matches Some(to) ==> to.x == point.x && turned(
            arith,
            converter.screen_height,
            point.y,
            to.y,
        ),
{
    lemma_nan_bits(converter.screen_height);
}

/// A rectangle is converted to its image, unless the height of the screen is a
/// NaN.
pub proof fn law_converted_rect<A: Arithmetic>(
    converter: &CoordinateConverter,
    rect: CGRect,
    arith: &A,
    r: Option<CGRect>,
)
    requires
        call_ensures(CoordinateConverter::convert_rect::<A>, (converter, rect, arith), r),
    ensures
        r is None <==> has_nan_bits(converter.screen_height),
        r matches Some(to) ==> is_image(arith, converter.screen_height, rect, to),
{
    lemma_nan_bits(converter.screen_height);
    if let Some(to) = r {
        lemma_flipped_rect_is_image(*converter, arith, rect, to);
    }
}

/// The default converter has a NaN for its height, and so converts nothing.
pub proof fn law_default_converts_nothing<A: Arithmetic>(
    converter: CoordinateConverter,
    point: CGPoint,
    rect: CGRect,
    arith: &A,
    converted: Option<CGPoint>,
    converted_rect: Option<CGRect>,
)
    requires
        call_ensures(<CoordinateConverter as Default>::default, (), converter),
        call_ensures(CoordinateConverter::convert_point::<A>, (&converter, point, arith), converted),
        call_ensures(
            CoordinateConverter::convert_rect::<A>,
            (&converter, rect, arith),
            converted_rect,
        ),
    ensures
        has_nan_bits(converter.screen_height),
        converted is None,
        converted_rect is None,
{
    lemma_nan_bits(converter.screen_height);
}

} // verus!
