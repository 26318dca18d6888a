use core::ops::Sub;
use vstd::prelude::*;
use vstd::std_specs::ops::SubSpec;
use vector2d::Vector2D;

verus! {

/// `vector2d::Vector2D<T>`: a pair of public coordinates `x` and `y`, both of
/// type `T`. The declaration shows the verifier the two fields as they are;
/// it says nothing of the type's methods.
#[verifier::external_type_specification]
#[verifier::reject_recursive_types(T)]
pub struct ExVector2D<T>(vector2d::Vector2D<T>);

/// Whether `a - b` can be taken in each coordinate.
pub open spec fn can_subtract<T: Sub<T, Output = T>>(a: Vector2D<T>, b: Vector2D<T>) -> bool {
    a.x.sub_req(b.x) && a.y.sub_req(b.y)
}

/// Whether `difference` is `a - b`, taken in each coordinate. Where nothing
/// is known of the scalar's `-`, nothing is said of the coordinates.
pub open spec fn is_difference<T: Sub<T, Output = T>>(
    a: Vector2D<T>,
    b: Vector2D<T>,
    difference: Vector2D<T>,
) -> bool {
    T::obeys_sub_spec() ==> difference.x == a.x.sub_spec(b.x) && difference.y == a.y.sub_spec(b.y)
}

/// `-` of `vector2d::Vector2D<T>`, which builds a vector from `a.x - b.x`
/// and `a.y - b.y`. The contract claims just this of it, in the terms in
/// which the scalar's own `-` is specified.
#[verifier::external_body]
pub(crate) fn difference<T: Sub<T, Output = T> + Copy>(a: Vector2D<T>, b: Vector2D<T>) -> (d:
    Vector2D<T>)
    requires
        can_subtract(a, b),
    ensures
        is_difference(a, b, d),
{
    a - b
}

} // verus!
