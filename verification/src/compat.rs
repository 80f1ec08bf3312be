//! The capability interface between a curve and the proof engine, and the
//! adapter that carries a point in its transportable form.

use vstd::prelude::*;
use crate::encoding::be_value;
use crate::error::DecodeError;

verus! {

/// What a prime-order curve group must offer to be used by the proof engine.
///
/// A point is modelled by its canonical encoding, a byte string; two values
/// stand for the same group element exactly when their encodings are equal.
/// A scalar is modelled by a natural number below the group order.
pub trait ECCurve: Sized {
    /// An element of the scalar field.
    type Scalar: Copy + core::fmt::Debug;

    /// A point in its canonical form, fit for comparison and encoding.
    type AffinePoint: Copy + core::fmt::Debug;

    /// A point in the form that arithmetic is done in.
    type ProjectivePoint: Copy;

    /// The buffer of randomness that one scalar is sampled from. Its length
    /// is fixed by the type.
    type WideBytes: View<V = Seq<u8>>;

    /// The bytes of one coordinate. Their number is fixed by the type.
    type FieldBytes: View<V = Seq<u8>>;

    /// The order of the group, a prime.
    spec fn order() -> nat;

    /// The identifier of the curve.
    spec fn name_spec() -> Seq<u8>;

    /// The size of the order in bits.
    spec fn bits_spec() -> nat;

    /// The number of bytes in a `WideBytes`.
    spec fn wide_len() -> nat;

    spec fn scalar_wf(s: Self::Scalar) -> bool;

    spec fn scalar_value(s: Self::Scalar) -> nat;

    spec fn affine_wf(p: Self::AffinePoint) -> bool;

    /// The canonical encoding of an affine point.
    spec fn affine_encoding(p: Self::AffinePoint) -> Seq<u8>;

    spec fn projective_wf(p: Self::ProjectivePoint) -> bool;

    /// The canonical encoding of the group element that `p` stands for.
    spec fn projective_encoding(p: Self::ProjectivePoint) -> Seq<u8>;

    /// The canonical encoding of the generator.
    spec fn generator_encoding() -> Seq<u8>;

    /// The encoding of `k` times the point encoded by `p`.
    spec fn point_mul_spec(p: Seq<u8>, k: nat) -> Seq<u8>;

    /// The encoding of the sum of the points encoded by `p` and `q`.
    spec fn point_add_spec(p: Seq<u8>, q: Seq<u8>) -> Seq<u8>;

    /// Whether `p` encodes `a` times the generator.
    spec fn is_multiple(p: Seq<u8>, a: nat) -> bool;

    /// The bytes of the first coordinate of the point encoded by `p`, most
    /// significant first.
    spec fn x_spec(p: Seq<u8>) -> Seq<u8>;

    /// What decoding `bytes` as a point gives: the canonical encoding of the
    /// point, or the reason for which `bytes` is refused.
    spec fn decode_point_spec(bytes: Seq<u8>) -> Result<Seq<u8>, DecodeError>;

    /// `is_multiple` means what its name says.
    proof fn lemma_is_multiple(p: Seq<u8>, a: nat)
        ensures
            Self::is_multiple(p, a) <==> p == Self::point_mul_spec(Self::generator_encoding(), a),
    ;

    /// The group has at least one element.
    proof fn lemma_order_positive()
        ensures
            Self::order() > 0,
    ;

    /// A well-formed scalar is reduced.
    proof fn lemma_scalar_in_range(s: Self::Scalar)
        requires
            Self::scalar_wf(s),
        ensures
            Self::scalar_value(s) < Self::order(),
    ;

    /// Every buffer of randomness has the same length, at least twice the
    /// width of the field.
    proof fn lemma_wide_len(wide: &Self::WideBytes)
        ensures
            wide@.len() == Self::wide_len(),
            8 * Self::wide_len() >= 2 * Self::bits_spec(),
    ;

    /// Well-formed canonical points with one encoding are one point.
    proof fn lemma_encoding_determines_point(p: Self::AffinePoint, q: Self::AffinePoint)
        requires
            Self::affine_wf(p),
            Self::affine_wf(q),
            Self::affine_encoding(p) == Self::affine_encoding(q),
        ensures
            p == q,
    ;

    /// The encoding of a well-formed point decodes to that point.
    proof fn lemma_decode_encoded(p: Self::AffinePoint)
        requires
            Self::affine_wf(p),
        ensures
            Self::decode_point_spec(Self::affine_encoding(p)) == Ok::<Seq<u8>, DecodeError>(
                Self::affine_encoding(p),
            ),
    ;

    /// The identifier of the curve, for domain separation by callers.
    fn name() -> (name: Vec<u8>)
        ensures
            name@ == Self::name_spec(),
    ;

    /// The size of the order in bits.
    fn field_bit_length() -> (bits: usize)
        ensures
            bits == Self::bits_spec(),
    ;

    /// The generator of the group.
    fn generator() -> (g: Self::ProjectivePoint)
        ensures
            Self::projective_wf(g),
            Self::projective_encoding(g) == Self::generator_encoding(),
    ;

    /// The canonical encoding of `point`.
    fn serialize_point(point: &Self::AffinePoint) -> (bytes: Vec<u8>)
        requires
            Self::affine_wf(*point),
        ensures
            bytes@ == Self::affine_encoding(*point),
    ;

    /// Decodes a point. Succeeds on the canonical encodings of the points of
    /// the curve and on nothing else.
    fn deserialize_point(bytes: &[u8]) -> (decoded: Result<Self::AffinePoint, DecodeError>)
        ensures
            match decoded {
                Ok(p) => Self::affine_wf(p) && Self::decode_point_spec(bytes@) == Ok::<
                    Seq<u8>,
                    DecodeError,
                >(Self::affine_encoding(p)),
                Err(e) => Self::decode_point_spec(bytes@) == Err::<Seq<u8>, DecodeError>(e),
            },
    ;

    /// The scalar that a buffer of randomness stands for: the number it
    /// spells, most significant byte first, reduced by the order. Every
    /// buffer is used whole, so the amount of randomness consumed never
    /// depends on the value drawn.
    fn sample_scalar_constant_time(wide: &Self::WideBytes) -> (k: Self::Scalar)
        ensures
            Self::scalar_wf(k),
            Self::scalar_value(k) == be_value(wide@) % Self::order(),
    ;

    /// The scalar that the bytes of a coordinate stand for: the number they
    /// spell, reduced by the order.
    fn reduce_bytes(bytes: &Self::FieldBytes) -> (k: Self::Scalar)
        ensures
            Self::scalar_wf(k),
            Self::scalar_value(k) == be_value(bytes@) % Self::order(),
    ;

    /// The bytes of the first coordinate of `point`.
    fn x(point: &Self::AffinePoint) -> (bytes: Self::FieldBytes)
        requires
            Self::affine_wf(*point),
        ensures
            bytes@ == Self::x_spec(Self::affine_encoding(*point)),
    ;

    /// The sum of two scalars, reduced by the order.
    fn scalar_add(a: &Self::Scalar, b: &Self::Scalar) -> (sum: Self::Scalar)
        requires
            Self::scalar_wf(*a),
            Self::scalar_wf(*b),
        ensures
            Self::scalar_wf(sum),
            Self::scalar_value(sum) == (Self::scalar_value(*a) + Self::scalar_value(*b))
                % Self::order(),
    ;

    /// The product of two scalars, reduced by the order.
    fn scalar_mul(a: &Self::Scalar, b: &Self::Scalar) -> (product: Self::Scalar)
        requires
            Self::scalar_wf(*a),
            Self::scalar_wf(*b),
        ensures
            Self::scalar_wf(product),
            Self::scalar_value(product) == (Self::scalar_value(*a) * Self::scalar_value(*b))
                % Self::order(),
    ;

    /// Lifts a canonical point to the form used in arithmetic.
    fn to_projective(p: &Self::AffinePoint) -> (lifted: Self::ProjectivePoint)
        requires
            Self::affine_wf(*p),
        ensures
            Self::projective_wf(lifted),
            Self::projective_encoding(lifted) == Self::affine_encoding(*p),
    ;

    /// Brings a point to its canonical form.
    fn to_affine(p: &Self::ProjectivePoint) -> (normal: Self::AffinePoint)
        requires
            Self::projective_wf(*p),
        ensures
            Self::affine_wf(normal),
            Self::affine_encoding(normal) == Self::projective_encoding(*p),
    ;

    /// `k` times `p`. Where `p` is `a` times the generator, the result is
    /// `a * k` times the generator.
    fn point_mul(p: &Self::ProjectivePoint, k: &Self::Scalar) -> (product: Self::ProjectivePoint)
        requires
            Self::projective_wf(*p),
            Self::scalar_wf(*k),
        ensures
            Self::projective_wf(product),
            Self::projective_encoding(product) == Self::point_mul_spec(
                Self::projective_encoding(*p),
                Self::scalar_value(*k),
            ),
            forall|a: nat| #[trigger]
                Self::is_multiple(Self::projective_encoding(*p), a) ==> Self::is_multiple(
                    Self::projective_encoding(product),
                    (a * Self::scalar_value(*k)) % Self::order(),
                ),
    ;

    /// The sum of `p` and `q`. Where they are `a` and `b` times the
    /// generator, the result is `a + b` times the generator.
    fn point_add(p: &Self::ProjectivePoint, q: &Self::ProjectivePoint) -> (sum:
        Self::ProjectivePoint)
        requires
            Self::projective_wf(*p),
            Self::projective_wf(*q),
        ensures
            Self::projective_wf(sum),
            Self::projective_encoding(sum) == Self::point_add_spec(
                Self::projective_encoding(*p),
                Self::projective_encoding(*q),
            ),
            forall|a: nat, b: nat|
                #[trigger] Self::is_multiple(Self::projective_encoding(*p), a)
                    && #[trigger] Self::is_multiple(Self::projective_encoding(*q), b)
                    ==> Self::is_multiple(
                    Self::projective_encoding(sum),
                    (a + b) % Self::order(),
                ),
    ;

    /// Whether `p` and `q` stand for the same group element. Two multiples
    /// of the generator by numbers below the order are the same element only
    /// when the numbers are the same.
    fn point_eq(p: &Self::ProjectivePoint, q: &Self::ProjectivePoint) -> (same: bool)
        requires
            Self::projective_wf(*p),
            Self::projective_wf(*q),
        ensures
            same == (Self::projective_encoding(*p) == Self::projective_encoding(*q)),
            forall|a: nat, b: nat|
                #[trigger] Self::is_multiple(Self::projective_encoding(*p), a)
                    && #[trigger] Self::is_multiple(Self::projective_encoding(*q), b)
                    && a < Self::order() && b < Self::order() ==> (same <==> a == b),
    ;
}

/// A point in its canonical form, as it is stored or sent.
#[derive(Debug)]
pub struct SerializablePoint<C: ECCurve>(pub C::AffinePoint);

impl<C: ECCurve> Clone for SerializablePoint<C> {
    fn clone(&self) -> (copy: Self)
        ensures
            copy == *self,
    {
        SerializablePoint(self.0)
    }
}

impl<C: ECCurve> Copy for SerializablePoint<C> {

}

impl<C: ECCurve> SerializablePoint<C> {
    pub open spec fn wf(self) -> bool {
        C::affine_wf(self.0)
    }

    /// The canonical encoding of the point.
    pub open spec fn encoding(self) -> Seq<u8> {
        C::affine_encoding(self.0)
    }

    /// What holds of the outcome `decoded` of decoding `bytes`: it is a
    /// well-formed point with the encoding that the curve reads from
    /// `bytes`, or the error with which the curve refuses `bytes`.
    pub open spec fn is_decoding_of(bytes: Seq<u8>, decoded: Result<Self, DecodeError>) -> bool {
        match decoded {
            Ok(p) => p.wf() && C::decode_point_spec(bytes) == Ok::<Seq<u8>, DecodeError>(
                p.encoding(),
            ),
            Err(e) => C::decode_point_spec(bytes) == Err::<Seq<u8>, DecodeError>(e),
        }
    }

    /// Round trip: whatever decoding the encoding of a well-formed point
    /// gives, it is that point.
    pub proof fn lemma_round_trip(self, decoded: Result<Self, DecodeError>)
        requires
            self.wf(),
            Self::is_decoding_of(self.encoding(), decoded),
        ensures
            decoded == Ok::<Self, DecodeError>(self),
    {
        C::lemma_decode_encoded(self.0);
        match decoded {
            Ok(p) => {
                C::lemma_encoding_determines_point(p.0, self.0);
            },
            Err(e) => {},
        }
    }

    /// Lifts the point to the form used in arithmetic. Nothing is lost.
    pub fn to_projective(self) -> (lifted: C::ProjectivePoint)
        requires
            self.wf(),
        ensures
            C::projective_wf(lifted),
            C::projective_encoding(lifted) == self.encoding(),
    {
        C::to_projective(&self.0)
    }

    /// Brings `point` to its canonical form.
    pub fn from_projective(point: &C::ProjectivePoint) -> (normal: Self)
        requires
            C::projective_wf(*point),
        ensures
            normal.wf(),
            normal.encoding() == C::projective_encoding(*point),
    {
        SerializablePoint(C::to_affine(point))
    }

    /// The canonical encoding of the point, as the curve defines it.
    pub fn serialize(&self) -> (bytes: Vec<u8>)
        requires
            self.wf(),
        ensures
            bytes@ == self.encoding(),
            C::decode_point_spec(bytes@) == Ok::<Seq<u8>, DecodeError>(self.encoding()),
    {
        proof {
            C::lemma_decode_encoded(self.0);
        }
        C::serialize_point(&self.0)
    }

    /// Decodes a point, as the curve defines it. Nothing is checked beyond
    /// what the curve checks, and no other failure is added.
    pub fn deserialize(bytes: &[u8]) -> (decoded: Result<Self, DecodeError>)
        ensures
            Self::is_decoding_of(bytes@, decoded),
    {
        match C::deserialize_point(bytes) {
            Ok(affine) => Ok(SerializablePoint(affine)),
            Err(e) => Err(e),
        }
    }
}

/// The first coordinate of `point`, as a scalar.
pub fn x_coordinate<C: ECCurve>(point: &C::AffinePoint) -> (x: C::Scalar)
    requires
        C::affine_wf(*point),
    ensures
        C::scalar_wf(x),
        C::scalar_value(x) == be_value(C::x_spec(C::affine_encoding(*point))) % C::order(),
{
    C::reduce_bytes(&C::x(point))
}

} // verus!
