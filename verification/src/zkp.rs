//! The Schnorr proof of knowledge of a discrete logarithm, over any curve
//! that offers the capability interface.

use std::marker::PhantomData;
use vstd::prelude::*;
use vstd::arithmetic::div_mod::{
    lemma_add_mod_noop_right, lemma_mod_bound, lemma_mod_equivalence, lemma_small_mod,
};
use crate::compat::ECCurve;
use crate::encoding::be_value;

verus! {

/// A proof `(R, s)`: the commitment point and the response.
///
/// This is the plain textbook scheme. The commitment is not normalized to an
/// even `y`, and the challenge is whatever the caller derived.
#[derive(Debug)]
pub struct SchnorrProof<C: ECCurve> {
    pub big_r: C::AffinePoint,
    pub s: C::Scalar,
    pub curve: PhantomData<C>,
}

impl<C: ECCurve> Clone for SchnorrProof<C> {
    fn clone(&self) -> (copy: Self)
        ensures
            copy == *self,
    {
        SchnorrProof { big_r: self.big_r, s: self.s, curve: PhantomData }
    }
}

impl<C: ECCurve> Copy for SchnorrProof<C> {

}

impl<C: ECCurve> SchnorrProof<C> {
    pub open spec fn wf(self) -> bool {
        C::affine_wf(self.big_r) && C::scalar_wf(self.s)
    }

    /// The response to challenge `c` of the holder of key `x` who drew the
    /// nonce `k`.
    pub open spec fn response(k: nat, x: nat, c: nat) -> nat {
        (k + x * c) % C::order()
    }

    /// Whether this is the proof that the holder of key `x` makes for
    /// challenge `c` from the nonce `k`.
    pub open spec fn made_from(self, x: nat, c: nat, k: nat) -> bool {
        C::is_multiple(C::affine_encoding(self.big_r), k) && C::scalar_value(self.s)
            == Self::response(k, x, c)
    }

    /// What holds of a verdict `ok` on this proof for the key encoded by
    /// `public_key` and the challenge `c`: where the key is `x` times the
    /// generator and the commitment `k` times the generator, the verdict is
    /// yes exactly when the response is `k + x * c`.
    pub open spec fn verdict_on_multiples(self, ok: bool, public_key: Seq<u8>, c: nat) -> bool {
        forall|x: nat, k: nat|
            #[trigger] C::is_multiple(public_key, x) && #[trigger] C::is_multiple(
                C::affine_encoding(self.big_r),
                k,
            ) ==> (ok <==> C::scalar_value(self.s) == Self::response(k, x, c))
    }

    /// The verification equation `s * G == c * P + R`, over encodings.
    pub open spec fn accepts(self, public_key: Seq<u8>, c: nat) -> bool {
        C::point_mul_spec(C::generator_encoding(), C::scalar_value(self.s)) == C::point_add_spec(
            C::point_mul_spec(public_key, c),
            C::affine_encoding(self.big_r),
        )
    }

    /// Proves knowledge of `private_key` for `challenge`. The nonce is the
    /// scalar that `wide` stands for; the commitment is the nonce times the
    /// generator, the response is `nonce + private_key * challenge`.
    ///
    /// `wide` must be fresh randomness on every call.
    pub fn create_signature(
        private_key: C::Scalar,
        challenge: C::Scalar,
        wide: &C::WideBytes,
    ) -> (proof: Self)
        requires
            C::scalar_wf(private_key),
            C::scalar_wf(challenge),
        ensures
            proof.wf(),
            proof.made_from(
                C::scalar_value(private_key),
                C::scalar_value(challenge),
                be_value(wide@) % C::order(),
            ),
    {
        let k = C::sample_scalar_constant_time(wide);
        let big_g = C::generator();
        let big_r = C::to_affine(&C::point_mul(&big_g, &k));
        let xc = C::scalar_mul(&private_key, &challenge);
        let s = C::scalar_add(&k, &xc);
        proof {
            let n = C::order();
            let kv = C::scalar_value(k);
            let x = C::scalar_value(private_key);
            let c = C::scalar_value(challenge);
            C::lemma_order_positive();
            C::lemma_scalar_in_range(k);
            lemma_add_mod_noop_right(kv as int, (x * c) as int, n as int);
            C::lemma_is_multiple(C::affine_encoding(big_r), kv);
        }
        SchnorrProof { big_r, s, curve: PhantomData }
    }

    /// Checks `s * G == challenge * public_key + R`.
    ///
    /// Where the key is `x` times the generator and the commitment `k` times
    /// the generator, the proof is accepted exactly when its response is
    /// `k + x * challenge`: every proof that `create_signature` makes for the
    /// key is accepted, and no other response to the same commitment is.
    pub fn verify(&self, public_key: C::AffinePoint, challenge: C::Scalar) -> (ok: bool)
        requires
            self.wf(),
            C::affine_wf(public_key),
            C::scalar_wf(challenge),
        ensures
            ok == self.accepts(C::affine_encoding(public_key), C::scalar_value(challenge)),
            self.verdict_on_multiples(
                ok,
                C::affine_encoding(public_key),
                C::scalar_value(challenge),
            ),
    {
        let big_r = C::to_projective(&self.big_r);
        let s = self.s;
        let c = challenge;
        let big_g = C::generator();

        let left = C::point_mul(&big_g, &s);
        let scaled_key = C::point_mul(&C::to_projective(&public_key), &c);
        let right = C::point_add(&scaled_key, &big_r);
        let ok = C::point_eq(&left, &right);
        proof {
            let n = C::order();
            let sv = C::scalar_value(s);
            let cv = C::scalar_value(c);
            C::lemma_order_positive();
            C::lemma_scalar_in_range(s);
            C::lemma_is_multiple(C::projective_encoding(left), sv);
            assert forall|x: nat, k: nat|
                #[trigger] C::is_multiple(C::affine_encoding(public_key), x)
                    && #[trigger] C::is_multiple(
                    C::affine_encoding(self.big_r),
                    k,
                ) implies (ok <==> sv == Self::response(k, x, cv)) by {
                let t = ((x * cv) % n + k) % n;
                assert(C::is_multiple(C::projective_encoding(scaled_key), (x * cv) % n));
                assert(C::is_multiple(C::projective_encoding(right), t));
                lemma_mod_bound(((x * cv) % n + k) as int, n as int);
                lemma_add_mod_noop_right(k as int, (x * cv) as int, n as int);
                assert(t == Self::response(k, x, cv));
            }
        }
        ok
    }

    /// Two verdicts of `verify` on one proof, one key and one challenge are
    /// the same verdict.
    pub proof fn lemma_verdict_is_determined(
        self,
        first: bool,
        second: bool,
        public_key: Seq<u8>,
        c: nat,
    )
        requires
            first == self.accepts(public_key, c),
            second == self.accepts(public_key, c),
        ensures
            first == second,
    {
    }

    /// Completeness: whatever verdict `verify` gives on a proof that
    /// `create_signature` made with the key `x`, for the key's public point
    /// and the same challenge, the verdict is yes.
    pub proof fn lemma_honest_proof_accepted(
        self,
        ok: bool,
        public_key: Seq<u8>,
        x: nat,
        c: nat,
        k: nat,
    )
        requires
            self.made_from(x, c, k),
            C::is_multiple(public_key, x),
            self.verdict_on_multiples(ok, public_key, c),
        ensures
            ok,
    {
    }

    /// A proof with the commitment of an honest proof and another response
    /// is refused.
    pub proof fn lemma_tampered_response_refused(
        self,
        honest: Self,
        ok: bool,
        public_key: Seq<u8>,
        x: nat,
        c: nat,
        k: nat,
    )
        requires
            honest.made_from(x, c, k),
            C::affine_encoding(self.big_r) == C::affine_encoding(honest.big_r),
            C::scalar_value(self.s) != C::scalar_value(honest.s),
            C::is_multiple(public_key, x),
            self.verdict_on_multiples(ok, public_key, c),
        ensures
            !ok,
    {
    }

    /// Two proofs for one key and one challenge that were made from
    /// different nonces are different proofs, with different responses, and
    /// whatever verdicts `verify` gives on them for the key's public point,
    /// both are yes.
    pub proof fn lemma_distinct_nonces_distinct_proofs(
        self,
        other: Self,
        first: bool,
        second: bool,
        public_key: Seq<u8>,
        x: nat,
        c: nat,
        k1: nat,
        k2: nat,
    )
        requires
            self.made_from(x, c, k1),
            other.made_from(x, c, k2),
            k1 < C::order(),
            k2 < C::order(),
            k1 != k2,
            C::is_multiple(public_key, x),
            self.verdict_on_multiples(first, public_key, c),
            other.verdict_on_multiples(second, public_key, c),
        ensures
            C::scalar_value(self.s) != C::scalar_value(other.s),
            self != other,
            first && second,
    {
        let n = C::order() as int;
        let t = (x * c) as int;
        if (k1 + t) % n == (k2 + t) % n {
            lemma_mod_equivalence(k1 + t, k2 + t, n);
            assert((k1 + t) - (k2 + t) == k1 - k2);
            lemma_mod_equivalence(k1 as int, k2 as int, n);
            lemma_small_mod(k1, C::order());
            lemma_small_mod(k2, C::order());
        }
    }
}

} // verus!
