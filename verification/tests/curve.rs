use elliptic_curve::ops::Reduce;
use elliptic_curve::sec1::ToEncodedPoint;
use rand::RngCore;
use schnorr_proof::secp256k1::{Point, Scalar, Secp256k1, ORDER};
use schnorr_proof::{x_coordinate, ECCurve};

fn small(k: u8) -> Scalar {
    let mut bytes = [0u8; 32];
    bytes[31] = k;
    Scalar::from_bytes(&bytes).unwrap()
}

fn order_minus(k: u8) -> Scalar {
    let mut bytes = ORDER;
    bytes[31] -= k;
    Scalar::from_bytes(&bytes).unwrap()
}

fn from_hex(s: &str) -> Vec<u8> {
    hex::decode(s).unwrap()
}

fn times_generator(k: &Scalar) -> Point {
    Secp256k1::point_mul(&Secp256k1::generator(), k)
}

#[test]
fn name_and_size() {
    assert_eq!(Secp256k1::name(), b"Secp256k1".to_vec());
    assert_eq!(Secp256k1::field_bit_length(), 256);
}

#[test]
fn scalar_addition_wraps() {
    assert_eq!(Secp256k1::scalar_add(&small(3), &small(5)).to_bytes(), small(8).to_bytes());
    assert_eq!(Secp256k1::scalar_add(&order_minus(1), &small(2)).to_bytes(), small(1).to_bytes());
    assert_eq!(Secp256k1::scalar_add(&order_minus(1), &small(1)).to_bytes(), [0u8; 32]);
    assert_eq!(Secp256k1::scalar_add(&small(0), &small(0)).to_bytes(), [0u8; 32]);
}

#[test]
fn scalar_multiplication_wraps() {
    assert_eq!(Secp256k1::scalar_mul(&small(3), &small(5)).to_bytes(), small(15).to_bytes());
    // (n - 1)^2 = 1 and (n - 1) * 2 = n - 2
    assert_eq!(
        Secp256k1::scalar_mul(&order_minus(1), &order_minus(1)).to_bytes(),
        small(1).to_bytes()
    );
    assert_eq!(
        Secp256k1::scalar_mul(&order_minus(1), &small(2)).to_bytes(),
        order_minus(2).to_bytes()
    );
    assert_eq!(Secp256k1::scalar_mul(&order_minus(1), &small(0)).to_bytes(), [0u8; 32]);
}

#[test]
fn sampling_reduces_the_whole_buffer() {
    let mut wide = [0u8; 64];
    wide[63] = 7;
    assert_eq!(Secp256k1::sample_scalar_constant_time(&wide).to_bytes(), small(7).to_bytes());

    // the order itself stands for zero
    let mut wide = [0u8; 64];
    wide[32..].copy_from_slice(&ORDER);
    assert_eq!(Secp256k1::sample_scalar_constant_time(&wide).to_bytes(), [0u8; 32]);

    // 2^256 mod n
    let mut wide = [0u8; 64];
    wide[31] = 1;
    assert_eq!(
        Secp256k1::sample_scalar_constant_time(&wide).to_bytes().to_vec(),
        from_hex("000000000000000000000000000000014551231950b75fc4402da1732fc9bebf")
    );

    // 2^512 - 1 mod n
    assert_eq!(
        Secp256k1::sample_scalar_constant_time(&[0xFF; 64]).to_bytes().to_vec(),
        from_hex("9d671cd581c69bc5e697f5e45bcd07c6741496c20e7cf878896cf21467d7d13f")
    );
}

#[test]
fn sampling_agrees_with_k256() {
    for _ in 0..16 {
        let mut wide = [0u8; 64];
        rand::thread_rng().fill_bytes(&mut wide);
        let expected = <k256::Scalar as Reduce<k256::elliptic_curve::bigint::U512>>::reduce_bytes(
            &wide.into(),
        );
        assert_eq!(
            Secp256k1::sample_scalar_constant_time(&wide).to_bytes().as_slice(),
            expected.to_bytes().as_slice()
        );
    }
}

#[test]
fn coordinate_bytes_reduce_by_the_order() {
    assert_eq!(Secp256k1::reduce_bytes(&small(9).to_bytes()).to_bytes(), small(9).to_bytes());
    assert_eq!(Secp256k1::reduce_bytes(&ORDER).to_bytes(), [0u8; 32]);
    // 2^256 - 1 mod n
    assert_eq!(
        Secp256k1::reduce_bytes(&[0xFF; 32]).to_bytes().to_vec(),
        from_hex("000000000000000000000000000000014551231950b75fc4402da1732fc9bebe")
    );
}

#[test]
fn x_coordinate_of_known_points() {
    let g = Secp256k1::to_affine(&Secp256k1::generator());
    assert_eq!(
        x_coordinate::<Secp256k1>(&g).to_bytes().to_vec(),
        from_hex("79be667ef9dcbbac55a06295ce870b07029bfcdb2dce28d959f2815b16f81798")
    );
    assert_eq!(Secp256k1::x(&g).to_vec(), x_coordinate::<Secp256k1>(&g).to_bytes().to_vec());

    let identity = Point::from_bytes(&[0]).unwrap();
    assert_eq!(x_coordinate::<Secp256k1>(&identity).to_bytes(), [0u8; 32]);

    // a coordinate between the order and the field modulus is reduced
    let mut x = ORDER;
    x[31] += 2;
    let mut bytes = vec![2u8];
    bytes.extend_from_slice(&x);
    let p = Point::from_bytes(&bytes).unwrap();
    assert_eq!(x_coordinate::<Secp256k1>(&p).to_bytes(), small(2).to_bytes());
}

#[test]
fn generator_multiples() {
    let expected = [
        (1u8, "0279be667ef9dcbbac55a06295ce870b07029bfcdb2dce28d959f2815b16f81798"),
        (2, "02c6047f9441ed7d6d3045406e95c07cd85c778e4b8cef3ca7abac09b95c709ee5"),
        (3, "02f9308a019258c31049344f85f89d5229b531c845836f99b08601f113bce036f9"),
        (4, "02e493dbf1c10d80f3581e4904930b1404cc6c13900ee0758474fa94abe8c4cd13"),
        (5, "022f8bde4d1a07209355b4a7250a5c5128e88b84bddc619ab7cba8d569b240efe4"),
        (7, "025cbdf0646e5db4eaa398f365f2ea7a0e3d419b7e0330e39ce92bddedcac4f9bc"),
    ];
    for (k, encoding) in expected {
        assert_eq!(times_generator(&small(k)).to_bytes(), from_hex(encoding));
    }
    assert_eq!(times_generator(&small(0)).to_bytes(), vec![0u8]);
    assert_eq!(
        times_generator(&order_minus(1)).to_bytes(),
        from_hex("0379be667ef9dcbbac55a06295ce870b07029bfcdb2dce28d959f2815b16f81798")
    );
}

#[test]
fn multiplying_a_multiple() {
    let three_g = times_generator(&small(3));
    let fifteen_g = Secp256k1::point_mul(&three_g, &small(5));
    assert_eq!(fifteen_g.to_bytes(), times_generator(&small(15)).to_bytes());
    // 3 * (n - 1) = n - 3
    let wrapped = Secp256k1::point_mul(&three_g, &order_minus(1));
    assert_eq!(wrapped.to_bytes(), times_generator(&order_minus(3)).to_bytes());
    let identity = Point::from_bytes(&[0]).unwrap();
    assert_eq!(Secp256k1::point_mul(&identity, &small(9)).to_bytes(), vec![0u8]);
}

#[test]
fn adding_multiples() {
    let two_g = times_generator(&small(2));
    let three_g = times_generator(&small(3));
    let sum = Secp256k1::point_add(&two_g, &three_g);
    assert_eq!(
        sum.to_bytes(),
        from_hex("022f8bde4d1a07209355b4a7250a5c5128e88b84bddc619ab7cba8d569b240efe4")
    );
    assert_eq!(Secp256k1::point_add(&three_g, &two_g).to_bytes(), sum.to_bytes());
    // doubling
    assert_eq!(
        Secp256k1::point_add(&two_g, &two_g).to_bytes(),
        times_generator(&small(4)).to_bytes()
    );
    // (n - 2) G + 3 G = G, and (n - 2) G + 2 G is the identity
    let minus_two_g = times_generator(&order_minus(2));
    assert_eq!(
        Secp256k1::point_add(&minus_two_g, &three_g).to_bytes(),
        times_generator(&small(1)).to_bytes()
    );
    assert_eq!(Secp256k1::point_add(&minus_two_g, &two_g).to_bytes(), vec![0u8]);
    let identity = Point::from_bytes(&[0]).unwrap();
    assert_eq!(Secp256k1::point_add(&identity, &two_g).to_bytes(), two_g.to_bytes());
}

#[test]
fn point_equality() {
    let two_g = times_generator(&small(2));
    let three_g = times_generator(&small(3));
    let identity = Point::from_bytes(&[0]).unwrap();
    assert!(Secp256k1::point_eq(&two_g, &two_g));
    assert!(!Secp256k1::point_eq(&two_g, &three_g));
    assert!(!Secp256k1::point_eq(&identity, &three_g));
    assert!(Secp256k1::point_eq(&identity, &identity));
    assert!(Secp256k1::point_eq(
        &Secp256k1::point_add(&two_g, &three_g),
        &times_generator(&small(5))
    ));
    // same x, opposite y
    let g = times_generator(&small(1));
    let minus_g = times_generator(&order_minus(1));
    assert!(!Secp256k1::point_eq(&g, &minus_g));
}

#[test]
fn arithmetic_agrees_with_k256() {
    let mut rng = rand::thread_rng();
    for _ in 0..8 {
        let a = k256::Scalar::generate_biased(&mut rng);
        let b = k256::Scalar::generate_biased(&mut rng);
        let sa = Scalar::from_bytes(a.to_bytes().as_slice()).unwrap();
        let sb = Scalar::from_bytes(b.to_bytes().as_slice()).unwrap();
        assert_eq!(
            Secp256k1::scalar_add(&sa, &sb).to_bytes().as_slice(),
            (a + b).to_bytes().as_slice()
        );
        assert_eq!(
            Secp256k1::scalar_mul(&sa, &sb).to_bytes().as_slice(),
            (a * b).to_bytes().as_slice()
        );
        let pa = k256::ProjectivePoint::GENERATOR * a;
        let pb = k256::ProjectivePoint::GENERATOR * b;
        let la = times_generator(&sa);
        let lb = times_generator(&sb);
        assert_eq!(la.to_bytes(), pa.to_affine().to_encoded_point(true).as_bytes().to_vec());
        assert_eq!(
            Secp256k1::point_add(&la, &lb).to_bytes(),
            (pa + pb).to_affine().to_encoded_point(true).as_bytes().to_vec()
        );
        assert_eq!(
            Secp256k1::point_mul(&la, &sb).to_bytes(),
            (pa * b).to_affine().to_encoded_point(true).as_bytes().to_vec()
        );
    }
}

#[test]
fn lifting_and_normalizing_keep_the_point() {
    let p = times_generator(&small(7));
    let affine = Secp256k1::to_affine(&p);
    let lifted = Secp256k1::to_projective(&affine);
    assert_eq!(Secp256k1::serialize_point(&Secp256k1::to_affine(&lifted)), p.to_bytes());
}
