use pasta_curves::{
    group::{ff::Field, prime::PrimeCurveAffine, Curve, Group},
    pallas, vesta, Fp, Fq,
};
use std::mem::{align_of, size_of};
use zcash_pasta_accel::{
    ffi::{FfiAffinePoint, FfiFieldElement, FfiProjectivePoint},
    AccelError,
};

fn pallas_sample_point() -> pallas::Affine {
    (pallas::Point::generator() * pallas::Scalar::from(17)).to_affine()
}

fn vesta_sample_point() -> vesta::Affine {
    (vesta::Point::generator() * vesta::Scalar::from(29)).to_affine()
}

#[test]
fn ffi_layout_is_c_compatible_and_limb_aligned() {
    assert_eq!(size_of::<FfiFieldElement>(), 32);
    assert_eq!(align_of::<FfiFieldElement>(), align_of::<u64>());
    assert!(size_of::<FfiAffinePoint>() >= 65);
    assert!(size_of::<FfiProjectivePoint>() >= 97);
}

#[test]
fn field_elements_round_trip_as_little_endian_limbs() {
    let fq = Fq::from(0x1122_3344_5566_7788);
    let fq_ffi = FfiFieldElement::from_field(&fq);
    assert_eq!(fq_ffi.limbs[0], 0x1122_3344_5566_7788);
    assert_eq!(fq_ffi.to_field::<Fq>().expect("Fq is canonical"), fq);

    let fp = Fp::from(0x8877_6655_4433_2211);
    let fp_ffi = FfiFieldElement::from_field(&fp);
    assert_eq!(fp_ffi.limbs[0], 0x8877_6655_4433_2211);
    assert_eq!(fp_ffi.to_field::<Fp>().expect("Fp is canonical"), fp);
}

#[test]
fn non_canonical_field_limbs_are_rejected() {
    let element = FfiFieldElement {
        limbs: [u64::MAX; 4],
    };

    assert_eq!(element.to_field::<Fq>(), Err(AccelError::InvalidPoint));
    assert_eq!(element.to_field::<Fp>(), Err(AccelError::InvalidPoint));
}

#[test]
fn pallas_affine_points_round_trip_with_infinity_flag() {
    let point = pallas_sample_point();
    let ffi = FfiAffinePoint::from_pallas_affine(&point);

    assert_eq!(ffi.infinity, 0);
    assert_eq!(ffi.to_pallas_affine().expect("point remains valid"), point);

    let identity = FfiAffinePoint::from_pallas_affine(&pallas::Affine::identity());
    assert_eq!(identity.infinity, 1);
    assert_eq!(
        identity.to_pallas_affine().expect("identity remains valid"),
        pallas::Affine::identity()
    );
}

#[test]
fn vesta_affine_points_round_trip_with_infinity_flag() {
    let point = vesta_sample_point();
    let ffi = FfiAffinePoint::from_vesta_affine(&point);

    assert_eq!(ffi.infinity, 0);
    assert_eq!(ffi.to_vesta_affine().expect("point remains valid"), point);

    let identity = FfiAffinePoint::from_vesta_affine(&vesta::Affine::identity());
    assert_eq!(identity.infinity, 1);
    assert_eq!(
        identity.to_vesta_affine().expect("identity remains valid"),
        vesta::Affine::identity()
    );
}

#[test]
fn invalid_affine_coordinates_are_rejected() {
    let mut point = FfiAffinePoint::from_pallas_affine(&pallas_sample_point());
    point.y = FfiFieldElement::from_field(&Fp::ZERO);

    assert_eq!(point.to_pallas_affine(), Err(AccelError::InvalidPoint));

    let mut point = FfiAffinePoint::from_vesta_affine(&vesta_sample_point());
    point.y = FfiFieldElement::from_field(&Fq::ZERO);

    assert_eq!(point.to_vesta_affine(), Err(AccelError::InvalidPoint));
}

#[test]
fn projective_points_round_trip_through_affine_boundary() {
    let point = pallas::Point::generator() * pallas::Scalar::from(41);
    let ffi = FfiProjectivePoint::from_pallas_point(&point);

    assert_eq!(
        ffi.to_pallas_point().expect("projective point is valid"),
        point
    );

    let point = vesta::Point::generator() * vesta::Scalar::from(43);
    let ffi = FfiProjectivePoint::from_vesta_point(&point);

    assert_eq!(
        ffi.to_vesta_point().expect("projective point is valid"),
        point
    );
}

// ---------------------------------------------------------------------------

#[test]
fn field_limbs_are_little_endian_across_all_four_limbs() {
    // 2^64 + 2 has limbs [2, 1, 0, 0].
    let two_pow_64 = Fp::from(u64::MAX) + Fp::from(1);
    let element = FfiFieldElement::from_field(&(two_pow_64 + Fp::from(2)));
    assert_eq!(element.limbs, [2, 1, 0, 0]);
    assert_eq!(element.to_field::<Fp>(), Ok(two_pow_64 + Fp::from(2)));
}

#[test]
fn field_limbs_at_the_modulus_are_rejected_and_just_below_accepted() {
    // p and q as little-endian limbs.
    let p = [0x992d30ed00000001, 0x224698fc094cf91b, 0, 0x4000000000000000];
    let q = [0x8c46eb2100000001, 0x224698fc0994a8dd, 0, 0x4000000000000000];
    assert_eq!(
        FfiFieldElement { limbs: p }.to_field::<Fp>(),
        Err(AccelError::InvalidPoint)
    );
    assert_eq!(
        FfiFieldElement { limbs: q }.to_field::<Fq>(),
        Err(AccelError::InvalidPoint)
    );
    let p_minus_one = [0x992d30ed00000000, 0x224698fc094cf91b, 0, 0x4000000000000000];
    assert_eq!(
        FfiFieldElement { limbs: p_minus_one }.to_field::<Fp>(),
        Ok(-Fp::ONE)
    );
    // p is below q, so p is a canonical element of Fq.
    assert!(FfiFieldElement { limbs: p }.to_field::<Fq>().is_ok());
}

#[test]
fn infinity_flag_parses_as_identity_whatever_the_coordinates() {
    let point = FfiAffinePoint {
        x: FfiFieldElement { limbs: [u64::MAX; 4] },
        y: FfiFieldElement { limbs: [7, 0, 0, 0] },
        infinity: 2,
    };
    assert_eq!(point.to_pallas_affine(), Ok(pallas::Affine::identity()));
    let point = FfiProjectivePoint {
        x: FfiFieldElement { limbs: [u64::MAX; 4] },
        y: FfiFieldElement::default(),
        z: FfiFieldElement::default(),
        infinity: 1,
    };
    assert_eq!(point.to_vesta_point(), Ok(vesta::Point::identity()));
}

#[test]
fn non_canonical_projective_coordinates_are_rejected() {
    let mut point = FfiProjectivePoint::from_pallas_point(&pallas::Point::generator());
    point.z = FfiFieldElement { limbs: [u64::MAX; 4] };
    assert_eq!(point.to_pallas_point(), Err(AccelError::InvalidPoint));
}

#[test]
fn identity_encodes_with_zero_coordinates() {
    let identity = FfiAffinePoint::from_vesta_affine(&vesta::Affine::identity());
    assert_eq!(identity, FfiAffinePoint { infinity: 1, ..FfiAffinePoint::default() });
    let projective = FfiProjectivePoint::from_pallas_point(&pallas::Point::identity());
    assert_eq!(projective.infinity, 1);
}

#[test]
fn off_curve_projective_coordinates_are_rejected() {
    let one = FfiFieldElement::from_field(&Fp::ONE);
    let point = FfiProjectivePoint { x: one, y: one, z: one, infinity: 0 };
    assert_eq!(point.to_pallas_point(), Err(AccelError::InvalidPoint));
    // z = 0 stands for the point at infinity, whatever x and y are.
    let point = FfiProjectivePoint { x: one, y: one, z: FfiFieldElement::default(), infinity: 0 };
    let parsed = point.to_pallas_point().expect("z = 0 is on the curve");
    assert!(bool::from(parsed.is_identity()));
}

#[test]
fn affine_encoding_holds_the_limbs_of_the_coordinates() {
    let point = pallas_sample_point();
    let ffi = FfiAffinePoint::from_pallas_affine(&point);
    let coordinates = pasta_curves::arithmetic::CurveAffine::coordinates(&point).unwrap();
    assert_eq!(ffi.infinity, 0);
    assert_eq!(ffi.x, FfiFieldElement::from_field(coordinates.x()));
    assert_eq!(ffi.y, FfiFieldElement::from_field(coordinates.y()));
    assert_eq!(ffi.x.to_field::<Fp>(), Ok(*coordinates.x()));
}

#[test]
fn projective_encoding_holds_the_jacobian_coordinates() {
    let point = vesta::Point::generator() * vesta::Scalar::from(5);
    let ffi = FfiProjectivePoint::from_vesta_point(&point);
    let (x, y, z) = pasta_curves::arithmetic::CurveExt::jacobian_coordinates(&point);
    assert_eq!(ffi.infinity, 0);
    assert_eq!(ffi.x, FfiFieldElement::from_field(&x));
    assert_eq!(ffi.y, FfiFieldElement::from_field(&y));
    assert_eq!(ffi.z, FfiFieldElement::from_field(&z));
    let parsed = ffi.to_vesta_point().unwrap();
    assert_eq!(pasta_curves::arithmetic::CurveExt::jacobian_coordinates(&parsed), (x, y, z));
}
