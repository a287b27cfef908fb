//! Pasta field and point boundary types, laid out field by field as their C
//! counterparts are (the structs carry no `#[repr(C)]`, so their in-memory
//! layout is the compiler's choice).
//!
//! These types provide a checked conversion layer for future GPU adapters so
//! call sites can validate field canonicality, curve membership, and
//! point-at-infinity flags before any foreign code is involved.

use vstd::prelude::*;

use pasta_curves::{pallas, vesta};

use crate::backend::AccelError;
use crate::curves::{
    fp_from_repr, fp_modulus, fp_repr, fp_to_repr, fq_from_repr, fq_modulus, fq_repr, fq_to_repr,
    le_limbs_of_bytes, limbs_value, pallas_affine_coordinates, pallas_affine_from_xy,
    pallas_affine_identity, pallas_affine_identity_point, pallas_coordinates,
    pallas_from_coordinates, pallas_from_jacobian, pallas_identity, pallas_identity_point,
    pallas_is_identity, pallas_jacobian, pallas_jacobian_coordinates, pallas_new_jacobian,
    pallas_point_is_identity, pasta_affine_equation, pasta_jacobian_equation,
    vesta_affine_coordinates, vesta_affine_from_xy, vesta_affine_identity,
    vesta_affine_identity_point, vesta_coordinates, vesta_from_coordinates, vesta_from_jacobian,
    vesta_identity, vesta_identity_point, vesta_is_identity, vesta_jacobian,
    vesta_jacobian_coordinates, vesta_new_jacobian, vesta_point_is_identity,
};

verus! {

/// A Pasta base field, `Fp` or `Fq`, with the byte encoding that crosses the
/// boundary: 32 bytes holding four little-endian 64-bit words.
pub trait PastaField: Sized {
    /// The field's modulus.
    spec fn modulus() -> nat;

    /// The element's canonical encoding.
    spec fn encoding(self) -> Seq<u8>;

    /// The canonical encoding, which stands for a number below the modulus.
    fn to_le_repr(&self) -> (repr: [u8; 32])
        ensures
            repr@ == self.encoding(),
            limbs_value(le_limbs_of_bytes(repr@)) < Self::modulus(),
    ;

    /// Decodes `repr`, failing exactly when it does not stand for a number
    /// below the modulus; otherwise the element whose encoding `repr` is.
    fn from_le_repr(repr: [u8; 32]) -> (field: Option<Self>)
        ensures
            field is Some <==> limbs_value(le_limbs_of_bytes(repr@)) < Self::modulus(),
            field matches Some(f) ==> f.encoding() == repr@,
            forall|x: Self| #[trigger] x.encoding() == repr@ ==> field == Some(x),
    ;
}

/// The number a field element stands for: the value of its encoding.
pub open spec fn field_value<F: PastaField>(field: F) -> nat {
    limbs_value(le_limbs_of_bytes(field.encoding()))
}

impl PastaField for pasta_curves::Fp {
    open spec fn modulus() -> nat {
        fp_modulus()
    }

    open spec fn encoding(self) -> Seq<u8> {
        fp_repr(self)
    }

    fn to_le_repr(&self) -> (repr: [u8; 32]) {
        fp_to_repr(self)
    }

    fn from_le_repr(repr: [u8; 32]) -> (field: Option<Self>) {
        fp_from_repr(repr)
    }
}

impl PastaField for pasta_curves::Fq {
    open spec fn modulus() -> nat {
        fq_modulus()
    }

    open spec fn encoding(self) -> Seq<u8> {
        fq_repr(self)
    }

    fn to_le_repr(&self) -> (repr: [u8; 32]) {
        fq_to_repr(self)
    }

    fn from_le_repr(repr: [u8; 32]) -> (field: Option<Self>) {
        fq_from_repr(repr)
    }
}

/// A Pasta affine point type, Pallas or Vesta.
pub trait PastaAffine: Sized {
    /// The base field of the curve.
    type Base: PastaField;

    /// The point's affine coordinates, `None` for the point at infinity.
    spec fn coordinates_of(self) -> Option<(Self::Base, Self::Base)>;

    /// The point at infinity.
    spec fn identity_point() -> Self;

    /// The point with coordinates `(x, y)`, `None` when it is not on the curve.
    spec fn from_coordinates(x: Self::Base, y: Self::Base) -> Option<Self>;

    /// The affine coordinates, or `None` for the point at infinity.
    fn coordinates(&self) -> (coordinates: Option<(Self::Base, Self::Base)>)
        ensures
            coordinates == self.coordinates_of(),
            coordinates is None <==> *self == Self::identity_point(),
            coordinates matches Some((x, y)) ==> Self::from_coordinates(x, y) == Some(*self),
    ;

    /// The point at infinity.
    fn identity() -> (point: Self)
        ensures
            point == Self::identity_point(),
            point.coordinates_of() is None,
    ;

    /// The point `(x, y)`, or `None` when it is not on the curve.
    fn from_xy(x: Self::Base, y: Self::Base) -> (point: Option<Self>)
        ensures
            point == Self::from_coordinates(x, y),
            point is Some <==> pasta_affine_equation(
                field_value(x),
                field_value(y),
                <Self::Base as PastaField>::modulus(),
            ),
            point matches Some(p) ==> (field_value(x) == 0 && field_value(y) == 0 ==> p
                == Self::identity_point()),
            point matches Some(p) ==> (!(field_value(x) == 0 && field_value(y) == 0)
                ==> p.coordinates_of() == Some((x, y))),
    ;
}

impl PastaAffine for pallas::Affine {
    type Base = pasta_curves::Fp;

    open spec fn coordinates_of(self) -> Option<(Self::Base, Self::Base)> {
        pallas_coordinates(self)
    }

    open spec fn identity_point() -> Self {
        pallas_affine_identity_point()
    }

    open spec fn from_coordinates(x: Self::Base, y: Self::Base) -> Option<Self> {
        pallas_from_coordinates(x, y)
    }

    fn coordinates(&self) -> (coordinates: Option<(Self::Base, Self::Base)>) {
        pallas_affine_coordinates(self)
    }

    fn identity() -> (point: Self) {
        pallas_affine_identity()
    }

    fn from_xy(x: Self::Base, y: Self::Base) -> (point: Option<Self>) {
        pallas_affine_from_xy(x, y)
    }
}

impl PastaAffine for vesta::Affine {
    type Base = pasta_curves::Fq;

    open spec fn coordinates_of(self) -> Option<(Self::Base, Self::Base)> {
        vesta_coordinates(self)
    }

    open spec fn identity_point() -> Self {
        vesta_affine_identity_point()
    }

    open spec fn from_coordinates(x: Self::Base, y: Self::Base) -> Option<Self> {
        vesta_from_coordinates(x, y)
    }

    fn coordinates(&self) -> (coordinates: Option<(Self::Base, Self::Base)>) {
        vesta_affine_coordinates(self)
    }

    fn identity() -> (point: Self) {
        vesta_affine_identity()
    }

    fn from_xy(x: Self::Base, y: Self::Base) -> (point: Option<Self>) {
        vesta_affine_from_xy(x, y)
    }
}

/// A Pasta projective point type, Pallas or Vesta.
pub trait PastaCurve: Sized {
    /// The base field of the curve.
    type Base: PastaField;

    /// The point's Jacobian coordinates.
    spec fn jacobian_of(self) -> (Self::Base, Self::Base, Self::Base);

    /// Whether the point is the point at infinity.
    spec fn is_at_infinity(self) -> bool;

    /// The point at infinity.
    spec fn identity_point() -> Self;

    /// The point with Jacobian coordinates `(x, y, z)`, `None` when it is not
    /// on the curve.
    spec fn from_jacobian(x: Self::Base, y: Self::Base, z: Self::Base) -> Option<Self>;

    /// The Jacobian coordinates `(x, y, z)`.
    fn jacobian_coordinates(&self) -> (coordinates: (Self::Base, Self::Base, Self::Base))
        ensures
            coordinates == self.jacobian_of(),
            Self::from_jacobian(coordinates.0, coordinates.1, coordinates.2) == Some(*self),
    ;

    /// Whether this is the point at infinity.
    fn is_identity(&self) -> (is_identity: bool)
        ensures
            is_identity == self.is_at_infinity(),
    ;

    /// The point at infinity.
    fn identity() -> (point: Self)
        ensures
            point == Self::identity_point(),
            point.is_at_infinity(),
    ;

    /// The point with Jacobian coordinates `(x, y, z)`, or `None` when it is
    /// not on the curve.
    fn new_jacobian(x: Self::Base, y: Self::Base, z: Self::Base) -> (point: Option<Self>)
        ensures
            point == Self::from_jacobian(x, y, z),
            point matches Some(p) ==> p.jacobian_of() == (x, y, z),
            point is Some <==> pasta_jacobian_equation(
                field_value(x),
                field_value(y),
                field_value(z),
                <Self::Base as PastaField>::modulus(),
            ),
    ;
}

impl PastaCurve for pallas::Point {
    type Base = pasta_curves::Fp;

    open spec fn jacobian_of(self) -> (Self::Base, Self::Base, Self::Base) {
        pallas_jacobian(self)
    }

    open spec fn is_at_infinity(self) -> bool {
        pallas_point_is_identity(self)
    }

    open spec fn identity_point() -> Self {
        pallas_identity_point()
    }

    open spec fn from_jacobian(x: Self::Base, y: Self::Base, z: Self::Base) -> Option<Self> {
        pallas_from_jacobian(x, y, z)
    }

    fn jacobian_coordinates(&self) -> (coordinates: (Self::Base, Self::Base, Self::Base)) {
        pallas_jacobian_coordinates(self)
    }

    fn is_identity(&self) -> (is_identity: bool) {
        pallas_is_identity(self)
    }

    fn identity() -> (point: Self) {
        pallas_identity()
    }

    fn new_jacobian(x: Self::Base, y: Self::Base, z: Self::Base) -> (point: Option<Self>) {
        pallas_new_jacobian(x, y, z)
    }
}

impl PastaCurve for vesta::Point {
    type Base = pasta_curves::Fq;

    open spec fn jacobian_of(self) -> (Self::Base, Self::Base, Self::Base) {
        vesta_jacobian(self)
    }

    open spec fn is_at_infinity(self) -> bool {
        vesta_point_is_identity(self)
    }

    open spec fn identity_point() -> Self {
        vesta_identity_point()
    }

    open spec fn from_jacobian(x: Self::Base, y: Self::Base, z: Self::Base) -> Option<Self> {
        vesta_from_jacobian(x, y, z)
    }

    fn jacobian_coordinates(&self) -> (coordinates: (Self::Base, Self::Base, Self::Base)) {
        vesta_jacobian_coordinates(self)
    }

    fn is_identity(&self) -> (is_identity: bool) {
        vesta_is_identity(self)
    }

    fn identity() -> (point: Self) {
        vesta_identity()
    }

    fn new_jacobian(x: Self::Base, y: Self::Base, z: Self::Base) -> (point: Option<Self>) {
        vesta_new_jacobian(x, y, z)
    }
}

/// Canonical 255-bit Pasta field element encoded as four little-endian limbs.
#[derive(Clone, Copy, Debug, PartialEq, Eq)]
pub struct FfiFieldElement {
    pub limbs: [u64; 4],
}

/// Affine Pasta point encoded as `(x, y, infinity)`.
#[derive(Clone, Copy, Debug, PartialEq, Eq)]
pub struct FfiAffinePoint {
    pub x: FfiFieldElement,
    pub y: FfiFieldElement,
    pub infinity: u8,
}

/// Projective Pasta point encoded as `(x, y, z, infinity)`.
#[derive(Clone, Copy, Debug, PartialEq, Eq)]
pub struct FfiProjectivePoint {
    pub x: FfiFieldElement,
    pub y: FfiFieldElement,
    pub z: FfiFieldElement,
    pub infinity: u8,
}

/// The 32 little-endian bytes of four 64-bit limbs, lowest limb first.
pub open spec fn le_bytes_of_limbs(limbs: Seq<u64>) -> Seq<u8> {
    vstd::bytes::spec_u64_to_le_bytes(limbs[0]) + vstd::bytes::spec_u64_to_le_bytes(limbs[1])
        + vstd::bytes::spec_u64_to_le_bytes(limbs[2]) + vstd::bytes::spec_u64_to_le_bytes(
        limbs[3],
    )
}

impl FfiFieldElement {
    /// The number the limbs stand for, lowest limb first.
    pub open spec fn value(self) -> nat {
        limbs_value(self.limbs@)
    }

    /// Whether the limbs hold a canonical element of `F`: a number below its modulus.
    pub open spec fn is_canonical<F: PastaField>(self) -> bool {
        self.value() < F::modulus()
    }

    /// All four limbs zero.
    pub open spec fn is_zero(self) -> bool {
        self.limbs@ == seq![0u64, 0u64, 0u64, 0u64]
    }

    /// Whether the limbs are those of `field`: the four little-endian words of
    /// its canonical encoding, which they spell out byte for byte.
    pub open spec fn encodes<F: PastaField>(self, field: F) -> bool {
        &&& self.limbs@ == le_limbs_of_bytes(field.encoding())
        &&& le_bytes_of_limbs(self.limbs@) == field.encoding()
    }

    /// What parsing the limbs as an element of `F` gives: the element they
    /// encode when they are canonical, and `InvalidPoint` otherwise.
    pub open spec fn parses_field_to<F: PastaField>(self, parsed: Result<F, AccelError>) -> bool {
        &&& parsed is Ok <==> self.is_canonical::<F>()
        &&& parsed matches Ok(f) ==> self.encodes(f)
        &&& forall|x: F| #[trigger] self.encodes(x) ==> parsed == Ok::<F, AccelError>(x)
        &&& parsed is Err ==> parsed == Err::<F, AccelError>(AccelError::InvalidPoint)
    }

    /// Converts a Pasta field element into little-endian limbs: the words of
    /// its canonical encoding, which parse back to the element.
    pub fn from_field<F: PastaField>(field: &F) -> (element: Self)
        ensures
            element.encodes(*field),
            element.is_canonical::<F>(),
            forall|parsed: Result<F, AccelError>| #[trigger]
                element.parses_field_to(parsed) ==> parsed == Ok::<F, AccelError>(*field),
    {
        let repr = field.to_le_repr();
        let bytes = repr.as_slice();
        let mut limbs = [0u64; 4];
        let mut k: usize = 0;
        while k < 4
            invariant
                bytes@ == repr@,
                repr@.len() == 32,
                k <= 4,
                limbs@.len() == 4,
                forall|j: int| 0 <= j < k ==> limbs@[j] == #[trigger] le_limbs_of_bytes(repr@)[j],
            decreases 4 - k,
        {
            let limb = vstd::bytes::u64_from_le_bytes(
                vstd::slice::slice_subrange(bytes, 8 * k, 8 * k + 8),
            );
            limbs[k] = limb;
            k = k + 1;
        }
        assert(limbs@ =~= le_limbs_of_bytes(repr@));
        proof {
            lemma_bytes_round_trip(repr@);
        }
        let element = FfiFieldElement { limbs };
        proof {
            assert forall|parsed: Result<F, AccelError>| #[trigger]
                element.parses_field_to(parsed) implies parsed == Ok::<F, AccelError>(*field) by {
                assert(element.encodes(*field));
            }
        }
        element
    }

    /// Parses a canonical Pasta field element from little-endian limbs,
    /// rejecting limbs that stand for a number at or above the modulus.
    pub fn to_field<F: PastaField>(&self) -> (field: Result<F, AccelError>)
        ensures
            self.parses_field_to(field),
    {
        let mut bytes = [0u8; 32];
        let mut k: usize = 0;
        while k < 4
            invariant
                k <= 4,
                bytes@.len() == 32,
                forall|i: int|
                    0 <= i < 8 * k ==> bytes@[i] == #[trigger] le_bytes_of_limbs(self.limbs@)[i],
            decreases 4 - k,
        {
            let limb_bytes = vstd::bytes::u64_to_le_bytes(self.limbs[k]);
            let mut j: usize = 0;
            while j < 8
                invariant
                    k < 4,
                    j <= 8,
                    bytes@.len() == 32,
                    limb_bytes@ == vstd::bytes::spec_u64_to_le_bytes(self.limbs@[k as int]),
                    limb_bytes@.len() == 8,
                    forall|i: int|
                        0 <= i < 8 * k + j ==> bytes@[i] == #[trigger] le_bytes_of_limbs(
                            self.limbs@,
                        )[i],
                decreases 8 - j,
            {
                bytes[8 * k + j] = limb_bytes[j];
                proof {
                    lemma_le_bytes_of_limbs_at(self.limbs@, k as int, j as int);
                }
                j = j + 1;
            }
            k = k + 1;
        }
        proof {
            lemma_limbs_round_trip(self.limbs@);
            assert(bytes@ =~= le_bytes_of_limbs(self.limbs@));
        }
        match F::from_le_repr(bytes) {
            Some(field) => Ok(field),
            None => Err(AccelError::InvalidPoint),
        }
    }
}

impl Default for FfiFieldElement {
    fn default() -> (element: Self)
        ensures
            element.is_zero(),
    {
        FfiFieldElement { limbs: [0u64, 0u64, 0u64, 0u64] }
    }
}

impl Default for FfiAffinePoint {
    fn default() -> (point: Self)
        ensures
            point.x.is_zero(),
            point.y.is_zero(),
            point.infinity == 0,
    {
        FfiAffinePoint { x: FfiFieldElement::default(), y: FfiFieldElement::default(), infinity: 0 }
    }
}

impl Default for FfiProjectivePoint {
    fn default() -> (point: Self)
        ensures
            point.x.is_zero(),
            point.y.is_zero(),
            point.z.is_zero(),
            point.infinity == 0,
    {
        FfiProjectivePoint {
            x: FfiFieldElement::default(),
            y: FfiFieldElement::default(),
            z: FfiFieldElement::default(),
            infinity: 0,
        }
    }
}

/// What parsing the affine coordinates `(x, y)` gives: the point `from_xy`
/// builds, or `InvalidPoint` when they are not on the curve.
pub open spec fn affine_parsed_from<C: PastaAffine>(x: C::Base, y: C::Base) -> Result<C, AccelError> {
    match C::from_coordinates(x, y) {
        Some(point) => Ok(point),
        None => Err(AccelError::InvalidPoint),
    }
}

/// What parsing the Jacobian coordinates `(x, y, z)` gives: the point
/// `new_jacobian` builds, or `InvalidPoint` when they are not on the curve.
pub open spec fn projective_parsed_from<C: PastaCurve>(
    x: C::Base,
    y: C::Base,
    z: C::Base,
) -> Result<C, AccelError> {
    match C::from_jacobian(x, y, z) {
        Some(point) => Ok(point),
        None => Err(AccelError::InvalidPoint),
    }
}

impl FfiAffinePoint {
    /// Whether this is the encoding of `point`: for the point at infinity the
    /// flag 1 with zero coordinates; for any other point the flag 0 with the
    /// limbs of its coordinates.
    pub open spec fn encodes_affine<C: PastaAffine>(self, point: C) -> bool {
        match point.coordinates_of() {
            None => self.infinity == 1 && self.x.is_zero() && self.y.is_zero(),
            Some((x, y)) => {
                &&& self.infinity == 0
                &&& self.x.encodes(x)
                &&& self.y.encodes(y)
                &&& self.x.is_canonical::<C::Base>()
                &&& self.y.is_canonical::<C::Base>()
            },
        }
    }

    /// What parsing this encoding gives: the point at infinity when the flag
    /// is set; `InvalidPoint` when a coordinate is not canonical; otherwise
    /// the point with the encoded coordinates, exactly when they satisfy the
    /// curve equation, and `InvalidPoint` when they do not.
    pub open spec fn parses_affine_to<C: PastaAffine>(self, parsed: Result<C, AccelError>) -> bool {
        if self.infinity != 0 {
            parsed == Ok::<C, AccelError>(C::identity_point())
        } else if !(self.x.is_canonical::<C::Base>() && self.y.is_canonical::<C::Base>()) {
            parsed == Err::<C, AccelError>(AccelError::InvalidPoint)
        } else {
            &&& parsed is Ok <==> pasta_affine_equation(
                self.x.value(),
                self.y.value(),
                <C::Base as PastaField>::modulus(),
            )
            &&& parsed is Err ==> parsed == Err::<C, AccelError>(AccelError::InvalidPoint)
            &&& parsed matches Ok(p) ==> (self.x.value() == 0 && self.y.value() == 0 ==> p
                == C::identity_point())
            &&& forall|x: C::Base, y: C::Base|
                #![trigger self.x.encodes(x), self.y.encodes(y)]
                self.x.encodes(x) && self.y.encodes(y) ==> {
                    &&& parsed == affine_parsed_from::<C>(x, y)
                    &&& parsed matches Ok(p) ==> (!(self.x.value() == 0 && self.y.value() == 0)
                        ==> p.coordinates_of() == Some((x, y)))
                }
        }
    }

    /// Converts a Pallas affine point into the FFI boundary layout.
    pub fn from_pallas_affine(point: &pallas::Affine) -> (ffi: Self)
        ensures
            ffi.encodes_affine(*point),
            forall|parsed: Result<pallas::Affine, AccelError>| #[trigger]
                ffi.parses_affine_to(parsed) ==> parsed == Ok::<pallas::Affine, AccelError>(
                    *point,
                ),
    {
        affine_to_ffi::<pallas::Affine>(point)
    }

    /// Parses a checked Pallas affine point from the FFI boundary layout.
    pub fn to_pallas_affine(&self) -> (point: Result<pallas::Affine, AccelError>)
        ensures
            self.parses_affine_to(point),
    {
        ffi_to_affine::<pallas::Affine>(self)
    }

    /// Converts a Vesta affine point into the FFI boundary layout.
    pub fn from_vesta_affine(point: &vesta::Affine) -> (ffi: Self)
        ensures
            ffi.encodes_affine(*point),
            forall|parsed: Result<vesta::Affine, AccelError>| #[trigger]
                ffi.parses_affine_to(parsed) ==> parsed == Ok::<vesta::Affine, AccelError>(
                    *point,
                ),
    {
        affine_to_ffi::<vesta::Affine>(point)
    }

    /// Parses a checked Vesta affine point from the FFI boundary layout.
    pub fn to_vesta_affine(&self) -> (point: Result<vesta::Affine, AccelError>)
        ensures
            self.parses_affine_to(point),
    {
        ffi_to_affine::<vesta::Affine>(self)
    }
}

impl FfiProjectivePoint {
    /// Whether this is the encoding of `point`: the limbs of its Jacobian
    /// coordinates, with the flag 1 exactly when it is the point at infinity.
    pub open spec fn encodes_projective<C: PastaCurve>(self, point: C) -> bool {
        let (x, y, z) = point.jacobian_of();
        &&& self.infinity == (if point.is_at_infinity() {
            1u8
        } else {
            0u8
        })
        &&& self.x.encodes(x)
        &&& self.y.encodes(y)
        &&& self.z.encodes(z)
        &&& self.x.is_canonical::<C::Base>()
        &&& self.y.is_canonical::<C::Base>()
        &&& self.z.is_canonical::<C::Base>()
    }

    /// What parsing this encoding gives: the point at infinity when the flag
    /// is set; `InvalidPoint` when a coordinate is not canonical; otherwise
    /// the point with the encoded Jacobian coordinates, exactly when they
    /// satisfy the curve equation, and `InvalidPoint` when they do not.
    pub open spec fn parses_projective_to<C: PastaCurve>(self, parsed: Result<C, AccelError>) -> bool {
        if self.infinity != 0 {
            parsed == Ok::<C, AccelError>(C::identity_point())
        } else if !(self.x.is_canonical::<C::Base>() && self.y.is_canonical::<C::Base>()
            && self.z.is_canonical::<C::Base>()) {
            parsed == Err::<C, AccelError>(AccelError::InvalidPoint)
        } else {
            &&& parsed is Ok <==> pasta_jacobian_equation(
                self.x.value(),
                self.y.value(),
                self.z.value(),
                <C::Base as PastaField>::modulus(),
            )
            &&& parsed is Err ==> parsed == Err::<C, AccelError>(AccelError::InvalidPoint)
            &&& forall|x: C::Base, y: C::Base, z: C::Base|
                #![trigger self.x.encodes(x), self.y.encodes(y), self.z.encodes(z)]
                self.x.encodes(x) && self.y.encodes(y) && self.z.encodes(z) ==> {
                    &&& parsed == projective_parsed_from::<C>(x, y, z)
                    &&& parsed matches Ok(p) ==> p.jacobian_of() == (x, y, z)
                }
        }
    }

    /// Converts a Pallas projective point into the FFI boundary layout.
    pub fn from_pallas_point(point: &pallas::Point) -> (ffi: Self)
        ensures
            ffi.encodes_projective(*point),
            forall|parsed: Result<pallas::Point, AccelError>| #[trigger]
                ffi.parses_projective_to(parsed) ==> parsed == Ok::<pallas::Point, AccelError>(
                    if point.is_at_infinity() {
                        pallas_identity_point()
                    } else {
                        *point
                    },
                ),
    {
        projective_to_ffi::<pallas::Point>(point)
    }

    /// Parses a checked Pallas projective point from the FFI boundary layout.
    pub fn to_pallas_point(&self) -> (point: Result<pallas::Point, AccelError>)
        ensures
            self.parses_projective_to(point),
    {
        ffi_to_projective::<pallas::Point>(self)
    }

    /// Converts a Vesta projective point into the FFI boundary layout.
    pub fn from_vesta_point(point: &vesta::Point) -> (ffi: Self)
        ensures
            ffi.encodes_projective(*point),
            forall|parsed: Result<vesta::Point, AccelError>| #[trigger]
                ffi.parses_projective_to(parsed) ==> parsed == Ok::<vesta::Point, AccelError>(
                    if point.is_at_infinity() {
                        vesta_identity_point()
                    } else {
                        *point
                    },
                ),
    {
        projective_to_ffi::<vesta::Point>(point)
    }

    /// Parses a checked Vesta projective point from the FFI boundary layout.
    pub fn to_vesta_point(&self) -> (point: Result<vesta::Point, AccelError>)
        ensures
            self.parses_projective_to(point),
    {
        ffi_to_projective::<vesta::Point>(self)
    }
}

fn affine_to_ffi<C: PastaAffine>(point: &C) -> (ffi: FfiAffinePoint)
    ensures
        ffi.encodes_affine(*point),
        forall|parsed: Result<C, AccelError>| #[trigger]
            ffi.parses_affine_to(parsed) ==> parsed == Ok::<C, AccelError>(*point),
{
    match point.coordinates() {
        Some((x, y)) => {
            let ffi = FfiAffinePoint {
                x: FfiFieldElement::from_field::<C::Base>(&x),
                y: FfiFieldElement::from_field::<C::Base>(&y),
                infinity: 0,
            };
            proof {
                assert forall|parsed: Result<C, AccelError>| #[trigger]
                    ffi.parses_affine_to(parsed) implies parsed == Ok::<C, AccelError>(*point) by {
                    assert(ffi.x.encodes(x) && ffi.y.encodes(y));
                }
            }
            ffi
        },
        None => FfiAffinePoint { infinity: 1, ..FfiAffinePoint::default() },
    }
}

fn ffi_to_affine<C: PastaAffine>(point: &FfiAffinePoint) -> (parsed: Result<C, AccelError>)
    ensures
        point.parses_affine_to(parsed),
{
    if point.infinity != 0 {
        return Ok(C::identity());
    }
    let x = match point.x.to_field::<C::Base>() {
        Ok(x) => x,
        Err(error) => return Err(error),
    };
    let y = match point.y.to_field::<C::Base>() {
        Ok(y) => y,
        Err(error) => return Err(error),
    };
    let parsed = match C::from_xy(x, y) {
        Some(affine) => Ok(affine),
        None => Err(AccelError::InvalidPoint),
    };
    proof {
        assert(field_value(x) == point.x.value());
        assert(field_value(y) == point.y.value());
    }
    parsed
}

fn projective_to_ffi<C: PastaCurve>(point: &C) -> (ffi: FfiProjectivePoint)
    ensures
        ffi.encodes_projective(*point),
        forall|parsed: Result<C, AccelError>| #[trigger]
            ffi.parses_projective_to(parsed) ==> parsed == Ok::<C, AccelError>(
                if point.is_at_infinity() {
                    C::identity_point()
                } else {
                    *point
                },
            ),
{
    let (x, y, z) = point.jacobian_coordinates();
    let ffi = FfiProjectivePoint {
        x: FfiFieldElement::from_field::<C::Base>(&x),
        y: FfiFieldElement::from_field::<C::Base>(&y),
        z: FfiFieldElement::from_field::<C::Base>(&z),
        infinity: if point.is_identity() {
            1
        } else {
            0
        },
    };
    proof {
        assert forall|parsed: Result<C, AccelError>| #[trigger]
            ffi.parses_projective_to(parsed) implies parsed == Ok::<C, AccelError>(
            if point.is_at_infinity() {
                C::identity_point()
            } else {
                *point
            },
        ) by {
            assert(ffi.x.encodes(x) && ffi.y.encodes(y) && ffi.z.encodes(z));
        }
    }
    ffi
}

fn ffi_to_projective<C: PastaCurve>(point: &FfiProjectivePoint) -> (parsed: Result<C, AccelError>)
    ensures
        point.parses_projective_to(parsed),
{
    if point.infinity != 0 {
        return Ok(C::identity());
    }
    let x = match point.x.to_field::<C::Base>() {
        Ok(x) => x,
        Err(error) => return Err(error),
    };
    let y = match point.y.to_field::<C::Base>() {
        Ok(y) => y,
        Err(error) => return Err(error),
    };
    let z = match point.z.to_field::<C::Base>() {
        Ok(z) => z,
        Err(error) => return Err(error),
    };
    let parsed = match C::new_jacobian(x, y, z) {
        Some(projective) => Ok(projective),
        None => Err(AccelError::InvalidPoint),
    };
    proof {
        assert(field_value(x) == point.x.value());
        assert(field_value(y) == point.y.value());
        assert(field_value(z) == point.z.value());
    }
    parsed
}

/// An element's limbs parse to exactly the element they encode, and two
/// limb arrays that encode the same element are equal: encoding a field
/// element and parsing it gives the element back, and limbs that parse are
/// those the parsed element encodes to.
pub proof fn law_field_encoding_round_trips<F: PastaField>(
    element: FfiFieldElement,
    other: FfiFieldElement,
    field: F,
    parsed: Result<F, AccelError>,
)
    requires
        element.parses_field_to(parsed),
    ensures
        parsed == Ok::<F, AccelError>(field) <==> element.encodes(field),
        element.encodes(field) && other.encodes(field) ==> element == other,
{
    if element.encodes(field) && other.encodes(field) {
        assert(element.limbs =~= other.limbs);
    }
}

proof fn lemma_le_bytes_of_limbs_at(limbs: Seq<u64>, k: int, j: int)
    requires
        limbs.len() == 4,
        0 <= k < 4,
        0 <= j < 8,
    ensures
        le_bytes_of_limbs(limbs)[8 * k + j] == vstd::bytes::spec_u64_to_le_bytes(limbs[k])[j],
{
    vstd::bytes::lemma_auto_spec_u64_to_from_le_bytes();
    let b0 = vstd::bytes::spec_u64_to_le_bytes(limbs[0]);
    let b1 = vstd::bytes::spec_u64_to_le_bytes(limbs[1]);
    let b2 = vstd::bytes::spec_u64_to_le_bytes(limbs[2]);
    let b3 = vstd::bytes::spec_u64_to_le_bytes(limbs[3]);
    assert(b0.len() == 8 && b1.len() == 8 && b2.len() == 8 && b3.len() == 8);
}

proof fn lemma_limbs_round_trip(limbs: Seq<u64>)
    requires
        limbs.len() == 4,
    ensures
        le_bytes_of_limbs(limbs).len() == 32,
        le_limbs_of_bytes(le_bytes_of_limbs(limbs)) =~= limbs,
{
    vstd::bytes::lemma_auto_spec_u64_to_from_le_bytes();
    let bytes = le_bytes_of_limbs(limbs);
    assert forall|k: int| 0 <= k < 4 implies #[trigger] le_limbs_of_bytes(bytes)[k] == limbs[k] by {
        assert(bytes.subrange(8 * k, 8 * k + 8) =~= vstd::bytes::spec_u64_to_le_bytes(limbs[k]));
    }
}

proof fn lemma_bytes_round_trip(bytes: Seq<u8>)
    requires
        bytes.len() == 32,
    ensures
        le_bytes_of_limbs(le_limbs_of_bytes(bytes)) =~= bytes,
{
    vstd::bytes::lemma_auto_spec_u64_to_from_le_bytes();
    let limbs = le_limbs_of_bytes(bytes);
    assert forall|k: int| 0 <= k < 4 implies vstd::bytes::spec_u64_to_le_bytes(#[trigger] limbs[k])
        =~= bytes.subrange(8 * k, 8 * k + 8) by {
        let chunk = bytes.subrange(8 * k, 8 * k + 8);
        assert(vstd::bytes::spec_u64_to_le_bytes(vstd::bytes::spec_u64_from_le_bytes(chunk))
            == chunk);
    }
    let out = le_bytes_of_limbs(limbs);
    assert forall|i: int| 0 <= i < 32 implies out[i] == bytes[i] by {
        let k = i / 8;
        let j = i % 8;
        lemma_le_bytes_of_limbs_at(limbs, k, j);
        assert(bytes.subrange(8 * k, 8 * k + 8)[j] == bytes[i]);
    }
}

} // verus!
