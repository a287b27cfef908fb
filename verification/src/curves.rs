//! The Pasta types this library carries, and the calls into `pasta_curves`
//! that compute with them. Field elements, scalars and points are opaque to
//! Verus; what `pasta_curves` computes from them is given a name here, and the
//! contracts of the calls say which names their results are, together with the
//! few facts of the source that the library relies on.

use vstd::prelude::*;

use pasta_curves::arithmetic::{CurveAffine, CurveExt};
use pasta_curves::group::ff::{Field, PrimeField};
use pasta_curves::group::{Curve, Group};
use pasta_curves::{pallas, vesta};

verus! {

#[verifier::external_type_specification]
#[verifier::external_body]
pub struct ExFp(pasta_curves::Fp);

#[verifier::external_type_specification]
#[verifier::external_body]
pub struct ExFq(pasta_curves::Fq);

#[verifier::external_type_specification]
#[verifier::external_body]
pub struct ExEp(pasta_curves::Ep);

#[verifier::external_type_specification]
#[verifier::external_body]
pub struct ExEpAffine(pasta_curves::EpAffine);

#[verifier::external_type_specification]
#[verifier::external_body]
pub struct ExEq(pasta_curves::Eq);

#[verifier::external_type_specification]
#[verifier::external_body]
pub struct ExEqAffine(pasta_curves::EqAffine);

/// Two to the power 64.
pub open spec fn limb_base() -> nat {
    0x1_0000_0000_0000_0000nat
}

/// The number that four little-endian 64-bit limbs stand for.
pub open spec fn limbs_value(limbs: Seq<u64>) -> nat {
    limbs[0] as nat + limb_base() * (limbs[1] as nat + limb_base() * (limbs[2] as nat
        + limb_base() * limbs[3] as nat))
}

/// The four 64-bit words that 32 bytes hold, each read little-endian.
pub open spec fn le_limbs_of_bytes(bytes: Seq<u8>) -> Seq<u64> {
    Seq::new(
        4,
        |k: int| vstd::bytes::spec_u64_from_le_bytes(bytes.subrange(8 * k, 8 * k + 8)),
    )
}

/// The modulus `p` of the Pallas base field (the Vesta scalar field), `Fp`.
pub open spec fn fp_modulus() -> nat {
    0x40000000000000000000000000000000224698fc094cf91b992d30ed00000001nat
}

/// The modulus `q` of the Vesta base field (the Pallas scalar field), `Fq`.
pub open spec fn fq_modulus() -> nat {
    0x40000000000000000000000000000000224698fc0994a8dd8c46eb2100000001nat
}

// ---------------------------------------------------------------------------
// Field encodings

/// The canonical 32-byte encoding `PrimeField::to_repr` gives an `Fp` element.
pub uninterp spec fn fp_repr(field: pasta_curves::Fp) -> Seq<u8>;

/// The canonical 32-byte encoding `PrimeField::to_repr` gives an `Fq` element.
pub uninterp spec fn fq_repr(field: pasta_curves::Fq) -> Seq<u8>;

/// The integer an `Fp` element stands for: the number its encoding's four
/// little-endian words spell.
pub open spec fn fp_value(field: pasta_curves::Fp) -> nat {
    limbs_value(le_limbs_of_bytes(fp_repr(field)))
}

/// The integer an `Fq` element stands for.
pub open spec fn fq_value(field: pasta_curves::Fq) -> nat {
    limbs_value(le_limbs_of_bytes(fq_repr(field)))
}

/// Whether `(x, y)` satisfies the affine Pasta curve equation `y^2 = x^3 + 5`
/// modulo `modulus`, or is `(0, 0)`, which stands for the point at infinity.
pub open spec fn pasta_affine_equation(x: nat, y: nat, modulus: nat) -> bool {
    ||| (y * y) % modulus == (x * x * x + 5) % modulus
    ||| x == 0 && y == 0
}

/// Whether Jacobian `(x, y, z)` satisfies `y^2 = x^3 + 5 z^6` modulo
/// `modulus`, or has `z = 0`, which stands for the point at infinity.
pub open spec fn pasta_jacobian_equation(x: nat, y: nat, z: nat, modulus: nat) -> bool {
    ||| (y * y) % modulus == (x * x * x + 5 * (z * z * z * z * z * z)) % modulus
    ||| z == 0
}

/// `PrimeField::to_repr` for `Fp`: the element's canonical encoding, whose
/// four little-endian words stand for a number below `p`.
#[verifier::external_body]
pub(crate) fn fp_to_repr(field: &pasta_curves::Fp) -> (repr: [u8; 32])
    ensures
        repr@ == fp_repr(*field),
        limbs_value(le_limbs_of_bytes(repr@)) < fp_modulus(),
{
    field.to_repr()
}

/// `PrimeField::from_repr` for `Fp`: succeeds exactly when the four
/// little-endian words of `repr` stand for a number below `p`, and then gives
/// the element whose canonical encoding `repr` is.
#[verifier::external_body]
pub(crate) fn fp_from_repr(repr: [u8; 32]) -> (field: Option<pasta_curves::Fp>)
    ensures
        field is Some <==> limbs_value(le_limbs_of_bytes(repr@)) < fp_modulus(),
        field matches Some(f) ==> fp_repr(f) == repr@,
        forall|x: pasta_curves::Fp| #[trigger] fp_repr(x) == repr@ ==> field == Some(x),
{
    Option::from(pasta_curves::Fp::from_repr(repr))
}

/// `PrimeField::to_repr` for `Fq`: the element's canonical encoding, whose
/// four little-endian words stand for a number below `q`.
#[verifier::external_body]
pub(crate) fn fq_to_repr(field: &pasta_curves::Fq) -> (repr: [u8; 32])
    ensures
        repr@ == fq_repr(*field),
        limbs_value(le_limbs_of_bytes(repr@)) < fq_modulus(),
{
    field.to_repr()
}

/// `PrimeField::from_repr` for `Fq`: succeeds exactly when the four
/// little-endian words of `repr` stand for a number below `q`, and then gives
/// the element whose canonical encoding `repr` is.
#[verifier::external_body]
pub(crate) fn fq_from_repr(repr: [u8; 32]) -> (field: Option<pasta_curves::Fq>)
    ensures
        field is Some <==> limbs_value(le_limbs_of_bytes(repr@)) < fq_modulus(),
        field matches Some(f) ==> fq_repr(f) == repr@,
        forall|x: pasta_curves::Fq| #[trigger] fq_repr(x) == repr@ ==> field == Some(x),
{
    Option::from(pasta_curves::Fq::from_repr(repr))
}

// ---------------------------------------------------------------------------
// Pallas arithmetic.

/// The point `Group::identity` gives for Pallas: the same point on every call.
pub closed spec fn pallas_identity_point() -> pallas::Point {
    arbitrary()
}

/// The point `Point + Point` gives for Pallas.
pub uninterp spec fn pallas_sum(a: pallas::Point, b: pallas::Point) -> pallas::Point;

/// The point `Affine * Scalar` gives for Pallas.
pub uninterp spec fn pallas_affine_times(base: pallas::Affine, scalar: pallas::Scalar) -> pallas::Point;

/// What `CurveAffine::coordinates` gives for a Pallas affine point.
pub uninterp spec fn pallas_coordinates(point: pallas::Affine) -> Option<(pasta_curves::Fp, pasta_curves::Fp)>;

/// The affine point `PrimeCurveAffine::identity` gives for Pallas: the same on every call.
pub closed spec fn pallas_affine_identity_point() -> pallas::Affine {
    arbitrary()
}

/// What `CurveAffine::from_xy` gives for Pallas.
pub uninterp spec fn pallas_from_coordinates(x: pasta_curves::Fp, y: pasta_curves::Fp) -> Option<pallas::Affine>;

/// What `CurveExt::jacobian_coordinates` gives for a Pallas point.
pub uninterp spec fn pallas_jacobian(point: pallas::Point) -> (pasta_curves::Fp, pasta_curves::Fp, pasta_curves::Fp);

/// What `Group::is_identity` gives for a Pallas point.
pub uninterp spec fn pallas_point_is_identity(point: pallas::Point) -> bool;

/// What `CurveExt::new_jacobian` gives for Pallas.
pub uninterp spec fn pallas_from_jacobian(x: pasta_curves::Fp, y: pasta_curves::Fp, z: pasta_curves::Fp) -> Option<pallas::Point>;

/// `Group::identity` for Pallas points: always the same point, which is the identity.
#[verifier::external_body]
pub(crate) fn pallas_identity() -> (point: pallas::Point)
    ensures
        point == pallas_identity_point(),
        pallas_point_is_identity(point),
{
    <pallas::Point as Group>::identity()
}

/// `Group::generator` for Pallas points.
#[verifier::external_body]
pub(crate) fn pallas_generator() -> pallas::Point {
    <pallas::Point as Group>::generator()
}

/// `Point + Point` for Pallas.
#[verifier::external_body]
pub(crate) fn pallas_add(a: &pallas::Point, b: &pallas::Point) -> (sum: pallas::Point)
    ensures
        sum == pallas_sum(*a, *b),
{
    *a + *b
}

/// `Point * Scalar` for Pallas.
#[verifier::external_body]
pub(crate) fn pallas_mul(point: &pallas::Point, scalar: &pallas::Scalar) -> pallas::Point {
    *point * *scalar
}

/// `Affine * Scalar` for Pallas.
#[verifier::external_body]
pub(crate) fn pallas_affine_mul(base: &pallas::Affine, scalar: &pallas::Scalar) -> (product: pallas::Point)
    ensures
        product == pallas_affine_times(*base, *scalar),
{
    *base * *scalar
}

/// `Curve::to_affine` for Pallas points.
#[verifier::external_body]
pub(crate) fn pallas_to_affine(point: &pallas::Point) -> pallas::Affine {
    point.to_affine()
}

/// `PartialEq::eq` for Pallas points: equality of the points they represent, so
/// identical values compare equal.
#[verifier::external_body]
pub(crate) fn pallas_points_equal(a: &pallas::Point, b: &pallas::Point) -> (equal: bool)
    ensures
        *a == *b ==> equal,
{
    *a == *b
}

/// `From<u64>` for the Pallas scalar field, `Fq`: the element that stands for
/// `value`.
#[verifier::external_body]
pub(crate) fn pallas_scalar_from_u64(value: u64) -> (scalar: pallas::Scalar)
    ensures
        fq_value(scalar) == value,
{
    pallas::Scalar::from(value)
}

/// `Neg` for the Pallas scalar field, `Fq`: the additive inverse modulo the
/// field's modulus.
#[verifier::external_body]
pub(crate) fn pallas_scalar_neg(scalar: &pallas::Scalar) -> (negated: pallas::Scalar)
    ensures
        fq_value(negated) == (fq_modulus() - fq_value(*scalar)) % (fq_modulus() as int),
{
    -*scalar
}

/// `Field::ZERO` for the Pallas scalar field, `Fq`.
#[verifier::external_body]
pub(crate) fn pallas_scalar_zero() -> (zero: pallas::Scalar)
    ensures
        fq_value(zero) == 0,
{
    <pallas::Scalar as Field>::ZERO
}

/// `CurveAffine::coordinates` for Pallas: `None` exactly for the identity, and
/// otherwise coordinates from which `from_xy` rebuilds the point.
#[verifier::external_body]
pub(crate) fn pallas_affine_coordinates(point: &pallas::Affine) -> (coordinates: Option<(pasta_curves::Fp, pasta_curves::Fp)>)
    ensures
        coordinates == pallas_coordinates(*point),
        coordinates is None <==> *point == pallas_affine_identity_point(),
        coordinates matches Some((x, y)) ==> pallas_from_coordinates(x, y) == Some(*point),
{
    let coordinates: Option<pasta_curves::arithmetic::Coordinates<pallas::Affine>> = Option::from(
        point.coordinates(),
    );
    coordinates.map(|c| (*c.x(), *c.y()))
}

/// `PrimeCurveAffine::identity` for Pallas affine points: always the same point,
/// which has no affine coordinates.
#[verifier::external_body]
pub(crate) fn pallas_affine_identity() -> (point: pallas::Affine)
    ensures
        point == pallas_affine_identity_point(),
        pallas_coordinates(point) is None,
{
    <pallas::Affine as pasta_curves::group::prime::PrimeCurveAffine>::identity()
}

/// `CurveAffine::from_xy` for Pallas: a point exactly when `(x, y)` satisfies the
/// curve equation (or is `(0, 0)`, the identity). The point holds `(x, y)` as
/// its coordinates, so `(0, 0)` gives the identity and any other pair gives a
/// point whose `coordinates` are that pair.
#[verifier::external_body]
pub(crate) fn pallas_affine_from_xy(x: pasta_curves::Fp, y: pasta_curves::Fp) -> (point: Option<pallas::Affine>)
    ensures
        point == pallas_from_coordinates(x, y),
        point is Some <==> pasta_affine_equation(fp_value(x), fp_value(y), fp_modulus()),
        point matches Some(p) ==> (fp_value(x) == 0 && fp_value(y) == 0 ==> p
            == pallas_affine_identity_point()),
        point matches Some(p) ==> (!(fp_value(x) == 0 && fp_value(y) == 0) ==> pallas_coordinates(
            p,
        ) == Some((x, y))),
{
    Option::from(pallas::Affine::from_xy(x, y))
}

/// `CurveExt::jacobian_coordinates` for Pallas points: coordinates from which
/// `new_jacobian` rebuilds the point.
#[verifier::external_body]
pub(crate) fn pallas_jacobian_coordinates(point: &pallas::Point) -> (coordinates: (pasta_curves::Fp, pasta_curves::Fp, pasta_curves::Fp))
    ensures
        coordinates == pallas_jacobian(*point),
        pallas_from_jacobian(coordinates.0, coordinates.1, coordinates.2) == Some(*point),
{
    point.jacobian_coordinates()
}

/// `Group::is_identity` for Pallas points.
#[verifier::external_body]
pub(crate) fn pallas_is_identity(point: &pallas::Point) -> (is_identity: bool)
    ensures
        is_identity == pallas_point_is_identity(*point),
{
    bool::from(point.is_identity())
}

/// `CurveExt::new_jacobian` for Pallas: a point exactly when `(x, y, z)`
/// satisfies the Jacobian curve equation (or `z` is zero, the identity).
/// The point holds `(x, y, z)`, which `jacobian_coordinates` gives back.
#[verifier::external_body]
pub(crate) fn pallas_new_jacobian(x: pasta_curves::Fp, y: pasta_curves::Fp, z: pasta_curves::Fp) -> (point: Option<pallas::Point>)
    ensures
        point == pallas_from_jacobian(x, y, z),
        point matches Some(p) ==> pallas_jacobian(p) == (x, y, z),
        point is Some <==> pasta_jacobian_equation(
            fp_value(x),
            fp_value(y),
            fp_value(z),
            fp_modulus(),
        ),
{
    Option::from(pallas::Point::new_jacobian(x, y, z))
}

// ---------------------------------------------------------------------------
// Vesta arithmetic.

/// The point `Group::identity` gives for Vesta: the same point on every call.
pub closed spec fn vesta_identity_point() -> vesta::Point {
    arbitrary()
}

/// The point `Point + Point` gives for Vesta.
pub uninterp spec fn vesta_sum(a: vesta::Point, b: vesta::Point) -> vesta::Point;

/// The point `Affine * Scalar` gives for Vesta.
pub uninterp spec fn vesta_affine_times(base: vesta::Affine, scalar: vesta::Scalar) -> vesta::Point;

/// What `CurveAffine::coordinates` gives for a Vesta affine point.
pub uninterp spec fn vesta_coordinates(point: vesta::Affine) -> Option<(pasta_curves::Fq, pasta_curves::Fq)>;

/// The affine point `PrimeCurveAffine::identity` gives for Vesta: the same on every call.
pub closed spec fn vesta_affine_identity_point() -> vesta::Affine {
    arbitrary()
}

/// What `CurveAffine::from_xy` gives for Vesta.
pub uninterp spec fn vesta_from_coordinates(x: pasta_curves::Fq, y: pasta_curves::Fq) -> Option<vesta::Affine>;

/// What `CurveExt::jacobian_coordinates` gives for a Vesta point.
pub uninterp spec fn vesta_jacobian(point: vesta::Point) -> (pasta_curves::Fq, pasta_curves::Fq, pasta_curves::Fq);

/// What `Group::is_identity` gives for a Vesta point.
pub uninterp spec fn vesta_point_is_identity(point: vesta::Point) -> bool;

/// What `CurveExt::new_jacobian` gives for Vesta.
pub uninterp spec fn vesta_from_jacobian(x: pasta_curves::Fq, y: pasta_curves::Fq, z: pasta_curves::Fq) -> Option<vesta::Point>;

/// `Group::identity` for Vesta points: always the same point, which is the identity.
#[verifier::external_body]
pub(crate) fn vesta_identity() -> (point: vesta::Point)
    ensures
        point == vesta_identity_point(),
        vesta_point_is_identity(point),
{
    <vesta::Point as Group>::identity()
}

/// `Group::generator` for Vesta points.
#[verifier::external_body]
pub(crate) fn vesta_generator() -> vesta::Point {
    <vesta::Point as Group>::generator()
}

/// `Point + Point` for Vesta.
#[verifier::external_body]
pub(crate) fn vesta_add(a: &vesta::Point, b: &vesta::Point) -> (sum: vesta::Point)
    ensures
        sum == vesta_sum(*a, *b),
{
    *a + *b
}

/// `Point * Scalar` for Vesta.
#[verifier::external_body]
pub(crate) fn vesta_mul(point: &vesta::Point, scalar: &vesta::Scalar) -> vesta::Point {
    *point * *scalar
}

/// `Affine * Scalar` for Vesta.
#[verifier::external_body]
pub(crate) fn vesta_affine_mul(base: &vesta::Affine, scalar: &vesta::Scalar) -> (product: vesta::Point)
    ensures
        product == vesta_affine_times(*base, *scalar),
{
    *base * *scalar
}

/// `Curve::to_affine` for Vesta points.
#[verifier::external_body]
pub(crate) fn vesta_to_affine(point: &vesta::Point) -> vesta::Affine {
    point.to_affine()
}

/// `PartialEq::eq` for Vesta points: equality of the points they represent, so
/// identical values compare equal.
#[verifier::external_body]
pub(crate) fn vesta_points_equal(a: &vesta::Point, b: &vesta::Point) -> (equal: bool)
    ensures
        *a == *b ==> equal,
{
    *a == *b
}

/// `From<u64>` for the Vesta scalar field, `Fp`: the element that stands for
/// `value`.
#[verifier::external_body]
pub(crate) fn vesta_scalar_from_u64(value: u64) -> (scalar: vesta::Scalar)
    ensures
        fp_value(scalar) == value,
{
    vesta::Scalar::from(value)
}

/// `Neg` for the Vesta scalar field, `Fp`: the additive inverse modulo the
/// field's modulus.
#[verifier::external_body]
pub(crate) fn vesta_scalar_neg(scalar: &vesta::Scalar) -> (negated: vesta::Scalar)
    ensures
        fp_value(negated) == (fp_modulus() - fp_value(*scalar)) % (fp_modulus() as int),
{
    -*scalar
}

/// `Field::ZERO` for the Vesta scalar field, `Fp`.
#[verifier::external_body]
pub(crate) fn vesta_scalar_zero() -> (zero: vesta::Scalar)
    ensures
        fp_value(zero) == 0,
{
    <vesta::Scalar as Field>::ZERO
}

/// `CurveAffine::coordinates` for Vesta: `None` exactly for the identity, and
/// otherwise coordinates from which `from_xy` rebuilds the point.
#[verifier::external_body]
pub(crate) fn vesta_affine_coordinates(point: &vesta::Affine) -> (coordinates: Option<(pasta_curves::Fq, pasta_curves::Fq)>)
    ensures
        coordinates == vesta_coordinates(*point),
        coordinates is None <==> *point == vesta_affine_identity_point(),
        coordinates matches Some((x, y)) ==> vesta_from_coordinates(x, y) == Some(*point),
{
    let coordinates: Option<pasta_curves::arithmetic::Coordinates<vesta::Affine>> = Option::from(
        point.coordinates(),
    );
    coordinates.map(|c| (*c.x(), *c.y()))
}

/// `PrimeCurveAffine::identity` for Vesta affine points: always the same point,
/// which has no affine coordinates.
#[verifier::external_body]
pub(crate) fn vesta_affine_identity() -> (point: vesta::Affine)
    ensures
        point == vesta_affine_identity_point(),
        vesta_coordinates(point) is None,
{
    <vesta::Affine as pasta_curves::group::prime::PrimeCurveAffine>::identity()
}

/// `CurveAffine::from_xy` for Vesta: a point exactly when `(x, y)` satisfies the
/// curve equation (or is `(0, 0)`, the identity). The point holds `(x, y)` as
/// its coordinates, so `(0, 0)` gives the identity and any other pair gives a
/// point whose `coordinates` are that pair.
#[verifier::external_body]
pub(crate) fn vesta_affine_from_xy(x: pasta_curves::Fq, y: pasta_curves::Fq) -> (point: Option<vesta::Affine>)
    ensures
        point == vesta_from_coordinates(x, y),
        point is Some <==> pasta_affine_equation(fq_value(x), fq_value(y), fq_modulus()),
        point matches Some(p) ==> (fq_value(x) == 0 && fq_value(y) == 0 ==> p
            == vesta_affine_identity_point()),
        point matches Some(p) ==> (!(fq_value(x) == 0 && fq_value(y) == 0) ==> vesta_coordinates(
            p,
        ) == Some((x, y))),
{
    Option::from(vesta::Affine::from_xy(x, y))
}

/// `CurveExt::jacobian_coordinates` for Vesta points: coordinates from which
/// `new_jacobian` rebuilds the point.
#[verifier::external_body]
pub(crate) fn vesta_jacobian_coordinates(point: &vesta::Point) -> (coordinates: (pasta_curves::Fq, pasta_curves::Fq, pasta_curves::Fq))
    ensures
        coordinates == vesta_jacobian(*point),
        vesta_from_jacobian(coordinates.0, coordinates.1, coordinates.2) == Some(*point),
{
    point.jacobian_coordinates()
}

/// `Group::is_identity` for Vesta points.
#[verifier::external_body]
pub(crate) fn vesta_is_identity(point: &vesta::Point) -> (is_identity: bool)
    ensures
        is_identity == vesta_point_is_identity(*point),
{
    bool::from(point.is_identity())
}

/// `CurveExt::new_jacobian` for Vesta: a point exactly when `(x, y, z)`
/// satisfies the Jacobian curve equation (or `z` is zero, the identity).
/// The point holds `(x, y, z)`, which `jacobian_coordinates` gives back.
#[verifier::external_body]
pub(crate) fn vesta_new_jacobian(x: pasta_curves::Fq, y: pasta_curves::Fq, z: pasta_curves::Fq) -> (point: Option<vesta::Point>)
    ensures
        point == vesta_from_jacobian(x, y, z),
        point matches Some(p) ==> vesta_jacobian(p) == (x, y, z),
        point is Some <==> pasta_jacobian_equation(
            fq_value(x),
            fq_value(y),
            fq_value(z),
            fq_modulus(),
        ),
{
    Option::from(vesta::Point::new_jacobian(x, y, z))
}

} // verus!
