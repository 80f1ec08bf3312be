//! The secp256k1 group as an instance of the capability interface, with the
//! arithmetic done by the `k256` crate.
//!
//! Scalars and points are kept as byte strings in their canonical encodings.
//! What `k256` computes is stated over those strings: the scalar arithmetic
//! exactly, the group operations by name, together with the facts that make
//! the group cyclic of order `n` with the generator `G`.

use vstd::prelude::*;
use vstd::slice::slice_to_vec;
use elliptic_curve::bigint::Bounded;
use elliptic_curve::group::GroupEncoding;
use elliptic_curve::ops::Reduce;
use elliptic_curve::point::DecompressPoint;
use elliptic_curve::PrimeField;
use crate::compat::ECCurve;
use crate::encoding::{be_less_than, be_value};
use crate::error::DecodeError;

verus! {

/// The order `n` of the group, most significant byte first.
pub const ORDER: [u8; 32] = [
    0xFF, 0xFF, 0xFF, 0xFF, 0xFF, 0xFF, 0xFF, 0xFF, 0xFF, 0xFF, 0xFF, 0xFF, 0xFF, 0xFF, 0xFF, 0xFE,
    0xBA, 0xAE, 0xDC, 0xE6, 0xAF, 0x48, 0xA0, 0x3B, 0xBF, 0xD2, 0x5E, 0x8C, 0xD0, 0x36, 0x41, 0x41,
];

/// The modulus `p` of the field that the coordinates live in.
pub const FIELD_MODULUS: [u8; 32] = [
    0xFF, 0xFF, 0xFF, 0xFF, 0xFF, 0xFF, 0xFF, 0xFF, 0xFF, 0xFF, 0xFF, 0xFF, 0xFF, 0xFF, 0xFF, 0xFF,
    0xFF, 0xFF, 0xFF, 0xFF, 0xFF, 0xFF, 0xFF, 0xFF, 0xFF, 0xFF, 0xFF, 0xFE, 0xFF, 0xFF, 0xFC, 0x2F,
];

/// The generator `G` in compressed form: the tag for an even `y`, then `x`.
pub const GENERATOR: [u8; 33] = [
    0x02,
    0x79, 0xBE, 0x66, 0x7E, 0xF9, 0xDC, 0xBB, 0xAC, 0x55, 0xA0, 0x62, 0x95, 0xCE, 0x87, 0x0B, 0x07,
    0x02, 0x9B, 0xFC, 0xDB, 0x2D, 0xCE, 0x28, 0xD9, 0x59, 0xF2, 0x81, 0x5B, 0x16, 0xF8, 0x17, 0x98,
];

/// The order of the group.
pub open spec fn order() -> nat {
    be_value(ORDER@)
}

/// The modulus of the coordinate field.
pub open spec fn field_modulus() -> nat {
    be_value(FIELD_MODULUS@)
}

/// Whether `(x, y)` is a point of the curve `y^2 = x^3 + 7` over the field.
pub open spec fn on_curve(x: nat, y: nat) -> bool {
    &&& x < field_modulus()
    &&& y < field_modulus()
    &&& (y * y) % field_modulus() == (x * x * x + 7) % field_modulus()
}

/// Whether `x` spells the first coordinate of some point of the curve.
pub open spec fn is_x_coordinate(x: Seq<u8>) -> bool {
    exists|y: nat| #[trigger] on_curve(be_value(x), y)
}

/// The encoding of `k` times the point encoded by `p`, as
/// `k256::ProjectivePoint` multiplies.
pub uninterp spec fn curve_mul(p: Seq<u8>, k: nat) -> Seq<u8>;

/// The encoding of the sum of the points encoded by `p` and `q`, as
/// `k256::ProjectivePoint` adds.
pub uninterp spec fn curve_add(p: Seq<u8>, q: Seq<u8>) -> Seq<u8>;

/// Whether `p` encodes `a` times the generator.
pub open spec fn is_generator_multiple(p: Seq<u8>, a: nat) -> bool {
    p == curve_mul(GENERATOR@, a)
}

/// What decoding `bytes` as a point gives. The encodings accepted are the
/// single byte `0x00` for the identity and, for any other point, a tag `0x02`
/// or `0x03` followed by the 32 bytes of `x`.
pub open spec fn decode_spec(bytes: Seq<u8>) -> Result<Seq<u8>, DecodeError> {
    if bytes.len() == 0 {
        Err(DecodeError::InvalidLength)
    } else if bytes[0] == 0 {
        if bytes.len() == 1 {
            Ok(bytes)
        } else {
            Err(DecodeError::InvalidLength)
        }
    } else if bytes[0] == 2 || bytes[0] == 3 {
        if bytes.len() != 33 {
            Err(DecodeError::InvalidLength)
        } else if be_value(bytes.subrange(1, 33)) >= field_modulus() {
            Err(DecodeError::OutOfRange)
        } else if !is_x_coordinate(bytes.subrange(1, 33)) {
            Err(DecodeError::NotOnCurve)
        } else {
            Ok(bytes)
        }
    } else {
        Err(DecodeError::InvalidTag)
    }
}

/// No string of 33 bytes whose coordinate is on no point of the curve
/// decodes.
pub proof fn lemma_off_curve_refused(bytes: Seq<u8>)
    requires
        bytes.len() == 33,
        !is_x_coordinate(bytes.subrange(1, 33)),
    ensures
        decode_spec(bytes) is Err,
{
}

/// A scalar: a number below the order, kept as 32 bytes, most significant
/// first.
#[derive(Clone, Copy, Debug, PartialEq, Eq)]
pub struct Scalar {
    repr: [u8; 32],
}

impl Scalar {
    /// The bytes of the scalar.
    pub closed spec fn bytes(self) -> Seq<u8> {
        self.repr@
    }

    /// The number that the scalar is.
    pub open spec fn value(self) -> nat {
        be_value(self.bytes())
    }

    pub open spec fn wf(self) -> bool {
        self.bytes().len() == 32 && self.value() < order()
    }

    /// Decodes a scalar from its fixed-width encoding.
    pub fn from_bytes(bytes: &[u8]) -> (decoded: Result<Scalar, DecodeError>)
        ensures
            match decoded {
                Ok(s) => bytes@.len() == 32 && be_value(bytes@) < order() && s.wf() && s.bytes()
                    == bytes@,
                Err(DecodeError::InvalidLength) => bytes@.len() != 32,
                Err(DecodeError::OutOfRange) => bytes@.len() == 32 && be_value(bytes@) >= order(),
                Err(_) => false,
            },
    {
        if bytes.len() != 32 {
            return Err(DecodeError::InvalidLength);
        }
        if !be_less_than(bytes, ORDER.as_slice()) {
            return Err(DecodeError::OutOfRange);
        }
        let mut repr = [0u8;32];
        let mut i: usize = 0;
        while i < 32
            invariant
                i <= 32,
                bytes@.len() == 32,
                forall|j: int| 0 <= j < i ==> repr@[j] == bytes@[j],
            decreases 32 - i,
        {
            repr[i] = bytes[i];
            i += 1;
        }
        assert(repr@ == bytes@);
        Ok(Scalar { repr })
    }

    /// The fixed-width encoding of the scalar.
    pub fn to_bytes(&self) -> (bytes: [u8; 32])
        ensures
            bytes@ == self.bytes(),
    {
        self.repr
    }
}

/// A point of the group, kept in compressed form: 33 zero bytes for the
/// identity; for any other point the tag `0x02` or `0x03`, by the parity of
/// `y`, followed by `x`.
#[derive(Clone, Copy, Debug, PartialEq, Eq)]
pub struct Point {
    repr: [u8; 33],
}

impl Point {
    /// The 33 bytes kept.
    pub closed spec fn repr(self) -> Seq<u8> {
        self.repr@
    }

    /// The canonical encoding: one zero byte for the identity, else the 33
    /// bytes kept.
    pub open spec fn encoding(self) -> Seq<u8> {
        if self.repr()[0] == 0 {
            seq![0u8]
        } else {
            self.repr()
        }
    }

    pub open spec fn wf(self) -> bool {
        &&& self.repr().len() == 33
        &&& if self.repr()[0] == 0 {
            self.repr() == Seq::new(33, |i: int| 0u8)
        } else {
            &&& self.repr()[0] == 2 || self.repr()[0] == 3
            &&& is_x_coordinate(self.repr().subrange(1, 33))
        }
    }

    /// Well-formed points with one encoding are one point.
    pub proof fn lemma_encoding_determines_point(self, other: Point)
        requires
            self.wf(),
            other.wf(),
            self.encoding() == other.encoding(),
        ensures
            self == other,
    {
        assert(self.encoding().len() == other.encoding().len());
        assert(self.repr@ =~= other.repr@);
        assert(self.repr == other.repr);
    }

    /// Decodes a point from its canonical encoding.
    pub fn from_bytes(bytes: &[u8]) -> (decoded: Result<Point, DecodeError>)
        ensures
            match decoded {
                Ok(p) => p.wf() && decode_spec(bytes@) == Ok::<Seq<u8>, DecodeError>(p.encoding()),
                Err(e) => decode_spec(bytes@) == Err::<Seq<u8>, DecodeError>(e),
            },
    {
        if bytes.len() == 0 {
            return Err(DecodeError::InvalidLength);
        }
        let tag = bytes[0];
        if tag == 0 {
            if bytes.len() != 1 {
                return Err(DecodeError::InvalidLength);
            }
            let identity = Point { repr: [0u8;33] };
            assert(identity.repr() == Seq::new(33, |i: int| 0u8));
            assert(identity.encoding() == bytes@);
            return Ok(identity);
        }
        if tag != 2 && tag != 3 {
            return Err(DecodeError::InvalidTag);
        }
        if bytes.len() != 33 {
            return Err(DecodeError::InvalidLength);
        }
        let mut x = [0u8;32];
        let mut repr = [0u8;33];
        repr[0] = tag;
        let mut i: usize = 0;
        while i < 32
            invariant
                i <= 32,
                bytes@.len() == 33,
                repr@[0] == tag,
                forall|j: int| 0 <= j < i ==> x@[j] == bytes@[j + 1],
                forall|j: int| 1 <= j < i + 1 ==> repr@[j] == bytes@[j],
            decreases 32 - i,
        {
            x[i] = bytes[i + 1];
            repr[i + 1] = bytes[i + 1];
            i += 1;
        }
        assert(x@ == bytes@.subrange(1, 33));
        assert(repr@ == bytes@);
        if !be_less_than(x.as_slice(), FIELD_MODULUS.as_slice()) {
            return Err(DecodeError::OutOfRange);
        }
        if !k256_is_x_coordinate(&x) {
            return Err(DecodeError::NotOnCurve);
        }
        Ok(Point { repr })
    }

    /// The bytes of the first coordinate; all zero for the identity.
    pub fn x(&self) -> (bytes: [u8; 32])
        ensures
            bytes@ == self.repr().subrange(1, 33),
    {
        let mut x = [0u8;32];
        let mut i: usize = 0;
        while i < 32
            invariant
                i <= 32,
                forall|j: int| 0 <= j < i ==> x@[j] == self.repr@[j + 1],
            decreases 32 - i,
        {
            x[i] = self.repr[i + 1];
            i += 1;
        }
        assert(x@ == self.repr@.subrange(1, 33));
        x
    }

    /// The canonical encoding of the point.
    pub fn to_bytes(&self) -> (bytes: Vec<u8>)
        ensures
            bytes@ == self.encoding(),
    {
        if self.repr[0] == 0 {
            vec![0u8]
        } else {
            slice_to_vec(self.repr.as_slice())
        }
    }
}

/// The scalar that 64 bytes stand for.
///
/// Calls k256's `Reduce<U512>::reduce_bytes` for `Scalar`, which reads the
/// bytes as an integer, most significant first, and reduces it by the order.
#[verifier::external_body]
fn k256_reduce_wide(wide: &[u8; 64]) -> (k: Scalar)
    ensures
        k.wf(),
        k.value() == be_value(wide@) % order(),
{
    let k = <k256::Scalar as Reduce<k256::elliptic_curve::bigint::U512>>::reduce_bytes(
        &(*wide).into(),
    );
    Scalar { repr: k.to_bytes().into() }
}

/// The scalar that the 32 bytes of a coordinate stand for.
///
/// Calls k256's `Reduce<U256>::reduce_bytes` for `Scalar`, which reads the
/// bytes as an integer, most significant first, and reduces it by the order.
#[verifier::external_body]
fn k256_reduce(bytes: &[u8; 32]) -> (k: Scalar)
    ensures
        k.wf(),
        k.value() == be_value(bytes@) % order(),
{
    let k = <k256::Scalar as Reduce<k256::U256>>::reduce_bytes(&(*bytes).into());
    Scalar { repr: k.to_bytes().into() }
}

/// The sum of two scalars.
///
/// Calls `k256::Scalar::add`, documented as `self + rhs mod n`. The arguments
/// are decoded by `from_repr`, which accepts every number below the order.
#[verifier::external_body]
fn k256_scalar_add(a: &Scalar, b: &Scalar) -> (sum: Scalar)
    requires
        a.wf(),
        b.wf(),
    ensures
        sum.wf(),
        sum.value() == (a.value() + b.value()) % order(),
{
    let x = k256::Scalar::from_repr(a.repr.into()).unwrap();
    let y = k256::Scalar::from_repr(b.repr.into()).unwrap();
    Scalar { repr: x.add(&y).to_bytes().into() }
}

/// The product of two scalars.
///
/// Calls `k256::Scalar::mul`, the multiplication modulo the order.
#[verifier::external_body]
fn k256_scalar_mul(a: &Scalar, b: &Scalar) -> (product: Scalar)
    requires
        a.wf(),
        b.wf(),
    ensures
        product.wf(),
        product.value() == (a.value() * b.value()) % order(),
{
    let x = k256::Scalar::from_repr(a.repr.into()).unwrap();
    let y = k256::Scalar::from_repr(b.repr.into()).unwrap();
    Scalar { repr: x.mul(&y).to_bytes().into() }
}

/// The size in bits of the integers that hold a scalar.
///
/// Reads `Bounded::BITS` of `k256::U256`.
#[verifier::external_body]
fn k256_field_bits() -> (bits: usize)
    ensures
        bits == 256,
{
    <k256::U256 as Bounded>::BITS
}

/// Whether some point of the curve has the first coordinate `x`.
///
/// Calls `k256::AffinePoint::decompress`, which gives a point when `x` is
/// below the field modulus and `x^3 + 7` has a square root in the field, and
/// nothing otherwise.
#[verifier::external_body]
fn k256_is_x_coordinate(x: &[u8; 32]) -> (found: bool)
    ensures
        found == is_x_coordinate(x@),
{
    k256::AffinePoint::decompress(&(*x).into(), 0u8.into()).is_some().into()
}

/// The generator.
///
/// Reads `k256::ProjectivePoint::GENERATOR`, the base point of secp256k1. The
/// contract gives its compressed encoding.
#[verifier::external_body]
fn k256_generator() -> (g: Point)
    ensures
        g.wf(),
        g.repr() == GENERATOR@,
{
    Point { repr: k256::ProjectivePoint::GENERATOR.to_affine().to_bytes().into() }
}

/// `k` times `p`.
///
/// Calls `Mul<Scalar>` of `k256::ProjectivePoint`. The result goes by the
/// name `curve_mul`. The group is cyclic, so multiplying `a` times the
/// generator by `k` gives `a * k` times the generator, the factor taken
/// modulo the order.
#[verifier::external_body]
fn k256_point_mul(p: &Point, k: &Scalar) -> (product: Point)
    requires
        p.wf(),
        k.wf(),
    ensures
        product.wf(),
        product.encoding() == curve_mul(p.encoding(), k.value()),
        forall|a: nat| #[trigger]
            is_generator_multiple(p.encoding(), a) ==> is_generator_multiple(
                product.encoding(),
                (a * k.value()) % order(),
            ),
{
    let point = k256::AffinePoint::from_bytes(&p.repr.into()).unwrap();
    let scalar = k256::Scalar::from_repr(k.repr.into()).unwrap();
    let product = k256::ProjectivePoint::from(point) * scalar;
    Point { repr: product.to_affine().to_bytes().into() }
}

/// The sum of `p` and `q`.
///
/// Calls `Add` of `k256::ProjectivePoint`. The result goes by the name
/// `curve_add`. The sum of `a` times and `b` times the generator is `a + b`
/// times the generator, the factor taken modulo the order.
#[verifier::external_body]
fn k256_point_add(p: &Point, q: &Point) -> (sum: Point)
    requires
        p.wf(),
        q.wf(),
    ensures
        sum.wf(),
        sum.encoding() == curve_add(p.encoding(), q.encoding()),
        forall|a: nat, b: nat|
            #[trigger] is_generator_multiple(p.encoding(), a) && #[trigger] is_generator_multiple(
                q.encoding(),
                b,
            ) ==> is_generator_multiple(sum.encoding(), (a + b) % order()),
{
    let x = k256::AffinePoint::from_bytes(&p.repr.into()).unwrap();
    let y = k256::AffinePoint::from_bytes(&q.repr.into()).unwrap();
    let sum = k256::ProjectivePoint::from(x) + k256::ProjectivePoint::from(y);
    Point { repr: sum.to_affine().to_bytes().into() }
}

/// Whether `p` and `q` are the same group element.
///
/// Calls `PartialEq` of `k256::ProjectivePoint`, the equality of group
/// elements. The generator has order `n`, so its multiples by two numbers
/// below `n` are equal only when the numbers are.
#[verifier::external_body]
fn k256_point_eq(p: &Point, q: &Point) -> (same: bool)
    requires
        p.wf(),
        q.wf(),
    ensures
        same == (p.encoding() == q.encoding()),
        forall|a: nat, b: nat|
            #[trigger] is_generator_multiple(p.encoding(), a) && #[trigger] is_generator_multiple(
                q.encoding(),
                b,
            ) && a < order() && b < order() ==> (same <==> a == b),
{
    let x = k256::AffinePoint::from_bytes(&p.repr.into()).unwrap();
    let y = k256::AffinePoint::from_bytes(&q.repr.into()).unwrap();
    k256::ProjectivePoint::from(x).eq(&k256::ProjectivePoint::from(y))
}

/// The curve secp256k1.
#[derive(Clone, Copy, Debug, PartialEq, Eq)]
pub struct Secp256k1;

impl ECCurve for Secp256k1 {
    type Scalar = Scalar;

    type AffinePoint = Point;

    type ProjectivePoint = Point;

    type WideBytes = [u8; 64];

    type FieldBytes = [u8; 32];

    open spec fn order() -> nat {
        order()
    }

    open spec fn name_spec() -> Seq<u8> {
        seq![0x53u8, 0x65u8, 0x63u8, 0x70u8, 0x32u8, 0x35u8, 0x36u8, 0x6Bu8, 0x31u8]
    }

    open spec fn bits_spec() -> nat {
        256
    }

    open spec fn wide_len() -> nat {
        64
    }

    open spec fn scalar_wf(s: Scalar) -> bool {
        s.wf()
    }

    open spec fn scalar_value(s: Scalar) -> nat {
        s.value()
    }

    open spec fn affine_wf(p: Point) -> bool {
        p.wf()
    }

    open spec fn affine_encoding(p: Point) -> Seq<u8> {
        p.encoding()
    }

    open spec fn projective_wf(p: Point) -> bool {
        p.wf()
    }

    open spec fn projective_encoding(p: Point) -> Seq<u8> {
        p.encoding()
    }

    open spec fn generator_encoding() -> Seq<u8> {
        GENERATOR@
    }

    open spec fn point_mul_spec(p: Seq<u8>, k: nat) -> Seq<u8> {
        curve_mul(p, k)
    }

    open spec fn point_add_spec(p: Seq<u8>, q: Seq<u8>) -> Seq<u8> {
        curve_add(p, q)
    }

    open spec fn is_multiple(p: Seq<u8>, a: nat) -> bool {
        is_generator_multiple(p, a)
    }

    open spec fn x_spec(p: Seq<u8>) -> Seq<u8> {
        if p.len() == 33 {
            p.subrange(1, 33)
        } else {
            Seq::new(32, |i: int| 0u8)
        }
    }

    open spec fn decode_point_spec(bytes: Seq<u8>) -> Result<Seq<u8>, DecodeError> {
        decode_spec(bytes)
    }

    proof fn lemma_is_multiple(p: Seq<u8>, a: nat) {
    }

    proof fn lemma_order_positive() {
        assert(ORDER@.last() == 0x41);
    }

    proof fn lemma_scalar_in_range(s: Scalar) {
    }

    proof fn lemma_wide_len(wide: &[u8; 64]) {
    }

    proof fn lemma_encoding_determines_point(p: Point, q: Point) {
        p.lemma_encoding_determines_point(q);
    }

    proof fn lemma_decode_encoded(p: Point) {
        if p.repr()[0] == 0 {
            assert(p.encoding()[0] == 0);
        }
    }

    fn name() -> (name: Vec<u8>) {
        vec![0x53u8, 0x65u8, 0x63u8, 0x70u8, 0x32u8, 0x35u8, 0x36u8, 0x6Bu8, 0x31u8]
    }

    fn field_bit_length() -> (bits: usize) {
        k256_field_bits()
    }

    fn generator() -> (g: Point) {
        k256_generator()
    }

    fn serialize_point(point: &Point) -> (bytes: Vec<u8>) {
        point.to_bytes()
    }

    fn deserialize_point(bytes: &[u8]) -> (decoded: Result<Point, DecodeError>) {
        Point::from_bytes(bytes)
    }

    fn sample_scalar_constant_time(wide: &[u8; 64]) -> (k: Scalar) {
        k256_reduce_wide(wide)
    }

    fn reduce_bytes(bytes: &[u8; 32]) -> (k: Scalar) {
        k256_reduce(bytes)
    }

    fn x(point: &Point) -> (bytes: [u8; 32]) {
        point.x()
    }

    fn scalar_add(a: &Scalar, b: &Scalar) -> (sum: Scalar) {
        k256_scalar_add(a, b)
    }

    fn scalar_mul(a: &Scalar, b: &Scalar) -> (product: Scalar) {
        k256_scalar_mul(a, b)
    }

    fn to_projective(p: &Point) -> (lifted: Point) {
        *p
    }

    fn to_affine(p: &Point) -> (normal: Point) {
        *p
    }

    fn point_mul(p: &Point, k: &Scalar) -> (product: Point) {
        k256_point_mul(p, k)
    }

    fn point_add(p: &Point, q: &Point) -> (sum: Point) {
        k256_point_add(p, q)
    }

    fn point_eq(p: &Point, q: &Point) -> (same: bool) {
        k256_point_eq(p, q)
    }
}

} // verus!
