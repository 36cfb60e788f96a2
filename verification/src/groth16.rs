//! Field/curve codec and pairing-based proof verification.
//!
//! A verifying key arrives as a document of decimal coordinate strings, a
//! proof as eight comma-separated decimal strings, and public inputs as a
//! list of decimal strings. The codec here checks the document's shape and
//! every coordinate, and the verifier evaluates the pairing equation
//! through `ark_groth16`. Points are deliberately constructed without
//! curve-membership checks: the pairing equation itself is the validity
//! oracle for points, which is a documented trust boundary of the design.
//!
//! The arkworks values (field elements, curve points, prepared keys) are
//! held in small opaque structs below. Verus cannot declare the arkworks
//! types themselves (their generic parameters carry foreign trait bounds
//! that the verifier rejects), so each opaque struct is trusted, its
//! contents are named by an uninterpreted spec function that gives the
//! decimal coordinates the value was built from, and every function that
//! builds or consumes one is a trusted wrapper whose contract speaks only
//! of those names. The decimal parser is not injective - a digit string
//! encoding a value at or above the modulus is accepted and silently
//! reduced, because the parser's final range check runs on an already
//! reduced accumulator - so the names are read as provenance, not as a
//! function of the abstract field element: every value of these structs
//! is created by exactly one wrapper call here, the names speak of the
//! strings that call was given, and no contract ever equates two
//! separately built values, so that reading is consistent.

use vstd::prelude::*;

use ark_ec::pairing::Pairing;
use std::str::FromStr;

verus! {

/// One G1 point of the verifying-key document: affine coordinates as
/// decimal byte strings.
#[derive(Clone, Debug, PartialEq, Eq)]
pub struct G1Coords {
    pub x: Vec<u8>,
    pub y: Vec<u8>,
}

/// One G2 point of the verifying-key document: each coordinate is a
/// quadratic-extension element written as its two components.
#[derive(Clone, Debug, PartialEq, Eq)]
pub struct G2Coords {
    pub x0: Vec<u8>,
    pub x1: Vec<u8>,
    pub y0: Vec<u8>,
    pub y1: Vec<u8>,
}

/// The parsed form of a verifying-key document: protocol and curve tags,
/// the announced public-input count, and the key's points.
#[derive(Clone, Debug, PartialEq, Eq)]
pub struct VkDocument {
    pub protocol: Vec<u8>,
    pub curve: Vec<u8>,
    pub n_public: usize,
    pub alpha: G1Coords,
    pub beta: G2Coords,
    pub gamma: G2Coords,
    pub delta: G2Coords,
    pub ic: Vec<G1Coords>,
}

pub ghost struct G1View {
    pub x: Seq<u8>,
    pub y: Seq<u8>,
}

pub ghost struct G2View {
    pub x0: Seq<u8>,
    pub x1: Seq<u8>,
    pub y0: Seq<u8>,
    pub y1: Seq<u8>,
}

pub ghost struct VkView {
    pub alpha: G1View,
    pub beta: G2View,
    pub gamma: G2View,
    pub delta: G2View,
    pub ic: Seq<G1View>,
}

pub ghost struct ProofView {
    pub a: G1View,
    pub b: G2View,
    pub c: G1View,
}

pub ghost struct VkDocView {
    pub protocol: Seq<u8>,
    pub curve: Seq<u8>,
    pub n_public: int,
    pub alpha: G1View,
    pub beta: G2View,
    pub gamma: G2View,
    pub delta: G2View,
    pub ic: Seq<G1View>,
}

impl View for G1Coords {
    type V = G1View;

    open spec fn view(&self) -> G1View {
        G1View { x: self.x@, y: self.y@ }
    }
}

impl View for G2Coords {
    type V = G2View;

    open spec fn view(&self) -> G2View {
        G2View { x0: self.x0@, x1: self.x1@, y0: self.y0@, y1: self.y1@ }
    }
}

impl View for VkDocument {
    type V = VkDocView;

    open spec fn view(&self) -> VkDocView {
        VkDocView {
            protocol: self.protocol@,
            curve: self.curve@,
            n_public: self.n_public as int,
            alpha: self.alpha@,
            beta: self.beta@,
            gamma: self.gamma@,
            delta: self.delta@,
            ic: self.ic@.map_values(|c: G1Coords| c@),
        }
    }
}

/// A parsed G1 point. Holds an `ark_bn254::G1Affine` built without a
/// curve-membership check; opaque to the verifier.
#[verifier::external_body]
pub struct G1Point {
    inner: ark_bn254::G1Affine,
}

/// A parsed G2 point, built without a curve-membership check.
#[verifier::external_body]
pub struct G2Point {
    inner: ark_bn254::G2Affine,
}

/// A parsed scalar-field element (a public input).
#[verifier::external_body]
pub struct Scalar {
    inner: ark_bn254::Fr,
}

/// A preprocessed verifying key, ready for pairing checks.
#[verifier::external_body]
pub struct PreparedKey {
    inner: ark_groth16::PreparedVerifyingKey<ark_bn254::Bn254>,
}

/// A parsed proof: two G1 points and one G2 point.
#[verifier::external_body]
pub struct ProofRec {
    inner: ark_groth16::Proof<ark_bn254::Bn254>,
}

/// Whether arkworks' decimal parser accepts the byte string as a BN254
/// base-field element.
pub uninterp spec fn fq_accepts(s: Seq<u8>) -> bool;

/// Whether arkworks' decimal parser accepts the byte string as a BN254
/// scalar-field element.
pub uninterp spec fn fr_accepts(s: Seq<u8>) -> bool;

/// The decimal coordinates a `G1Point` was built from.
pub uninterp spec fn g1_repr(p: G1Point) -> G1View;

/// The decimal coordinates a `G2Point` was built from.
pub uninterp spec fn g2_repr(p: G2Point) -> G2View;

/// The decimal string a `Scalar` was parsed from.
pub uninterp spec fn scalar_repr(s: Scalar) -> Seq<u8>;

/// The coordinates of the verifying key a `PreparedKey` was prepared from.
pub uninterp spec fn key_repr(k: PreparedKey) -> VkView;

/// The coordinates of the points a `ProofRec` was assembled from.
pub uninterp spec fn proof_repr(p: ProofRec) -> ProofView;

/// The verdict of `ark_groth16`'s `verify_proof` for the key, proof and
/// public inputs parsed from the given decimal coordinates: `Some(b)` when
/// the pairing equation evaluates to `b`, `None` when the final
/// exponentiation is undefined for the given points.
pub uninterp spec fn groth16_outcome(vk: VkView, proof: ProofView, inputs: Seq<Seq<u8>>) -> Option<
    bool,
>;

/// Relies on `FromStr` for `ark_bn254::Fq`: whether a byte string parses
/// is a function of the string alone.
#[verifier::external_body]
fn fq_ok(s: &Vec<u8>) -> (r: bool)
    ensures
        r == fq_accepts(s@),
{
    core::str::from_utf8(s).is_ok_and(|t| ark_bn254::Fq::from_str(t).is_ok())
}

/// Relies on `FromStr` for `ark_bn254::Fq` and on
/// `G1Affine::new_unchecked`, which only records the two coordinates.
#[verifier::external_body]
fn g1_from_bytes(x: &Vec<u8>, y: &Vec<u8>) -> (r: Option<G1Point>)
    ensures
        r is Some <==> (fq_accepts(x@) && fq_accepts(y@)),
        r matches Some(p) ==> g1_repr(p) == (G1View { x: x@, y: y@ }),
{
    let fx = core::str::from_utf8(x).ok().and_then(|t| ark_bn254::Fq::from_str(t).ok())?;
    let fy = core::str::from_utf8(y).ok().and_then(|t| ark_bn254::Fq::from_str(t).ok())?;
    Some(G1Point { inner: ark_bn254::G1Affine::new_unchecked(fx, fy) })
}

/// Relies on `FromStr` for `ark_bn254::Fq`, `Fq2::new` and
/// `G2Affine::new_unchecked`, which only record the four coordinates.
#[verifier::external_body]
fn g2_from_bytes(x0: &Vec<u8>, x1: &Vec<u8>, y0: &Vec<u8>, y1: &Vec<u8>) -> (r: Option<G2Point>)
    ensures
        r is Some <==> (fq_accepts(x0@) && fq_accepts(x1@) && fq_accepts(y0@) && fq_accepts(y1@)),
        r matches Some(p) ==> g2_repr(p) == (G2View { x0: x0@, x1: x1@, y0: y0@, y1: y1@ }),
{
    let fx0 = core::str::from_utf8(x0).ok().and_then(|t| ark_bn254::Fq::from_str(t).ok())?;
    let fx1 = core::str::from_utf8(x1).ok().and_then(|t| ark_bn254::Fq::from_str(t).ok())?;
    let fy0 = core::str::from_utf8(y0).ok().and_then(|t| ark_bn254::Fq::from_str(t).ok())?;
    let fy1 = core::str::from_utf8(y1).ok().and_then(|t| ark_bn254::Fq::from_str(t).ok())?;
    let x = ark_bn254::Fq2::new(fx0, fx1);
    let y = ark_bn254::Fq2::new(fy0, fy1);
    Some(G2Point { inner: ark_bn254::G2Affine::new_unchecked(x, y) })
}

/// Relies on `FromStr` for `ark_bn254::Fr`: whether and to what a digit
/// string parses is a function of the string alone.
#[verifier::external_body]
fn scalar_from_bytes(s: &Vec<u8>) -> (r: Option<Scalar>)
    ensures
        r is Some <==> fr_accepts(s@),
        r matches Some(e) ==> scalar_repr(e) == s@,
{
    let v = core::str::from_utf8(s).ok().and_then(|t| ark_bn254::Fr::from_str(t).ok())?;
    Some(Scalar { inner: v })
}

/// Whether the pairing of the two points built from the given
/// coordinates is defined: the final exponentiation of their Miller
/// loop has a result. With unchecked points it can be undefined; for
/// the game's two honest keys it always is.
pub uninterp spec fn pairing_defined(alpha: G1View, beta: G2View) -> bool;

/// Relies on `ark_ec`'s `multi_miller_loop` and `final_exponentiation`:
/// together they evaluate the alpha-beta pairing without the panicking
/// unwrap that `Pairing::pairing` would apply, so definedness can be
/// tested before the key is prepared.
#[verifier::external_body]
fn alpha_beta_pairing_defined(alpha: &G1Point, beta: &G2Point) -> (r: bool)
    ensures
        r == pairing_defined(g1_repr(*alpha), g2_repr(*beta)),
{
    let m = ark_bn254::Bn254::multi_miller_loop([alpha.inner], [beta.inner]);
    ark_bn254::Bn254::final_exponentiation(m).is_some()
}

/// Relies on `ark_groth16::prepare_verifying_key`, a pure preprocessing
/// step; the `VerifyingKey` literal only records the given points. The
/// preparation unwraps the alpha-beta pairing and panics when that
/// pairing is undefined, so the contract admits only points for which
/// it is defined.
#[verifier::external_body]
fn prepare_points(
    alpha: G1Point,
    beta: G2Point,
    gamma: G2Point,
    delta: G2Point,
    ic: Vec<G1Point>,
) -> (r: PreparedKey)
    requires
        pairing_defined(g1_repr(alpha), g2_repr(beta)),
    ensures
        key_repr(r) == (VkView {
            alpha: g1_repr(alpha),
            beta: g2_repr(beta),
            gamma: g2_repr(gamma),
            delta: g2_repr(delta),
            ic: ic@.map_values(|p: G1Point| g1_repr(p)),
        }),
{
    let vk = ark_groth16::VerifyingKey {
        alpha_g1: alpha.inner,
        beta_g2: beta.inner,
        gamma_g2: gamma.inner,
        delta_g2: delta.inner,
        gamma_abc_g1: ic.into_iter().map(|p| p.inner).collect(),
    };
    PreparedKey { inner: ark_groth16::prepare_verifying_key(&vk) }
}

/// Relies on the `gamma_abc_g1` field of the prepared key keeping the
/// point list it was built from.
#[verifier::external_body]
pub fn key_ic_len(k: &PreparedKey) -> (n: usize)
    ensures
        n == key_repr(*k).ic.len(),
{
    k.inner.vk.gamma_abc_g1.len()
}

/// The `Proof` literal only records the three given points.
#[verifier::external_body]
fn proof_from_points(a: G1Point, b: G2Point, c: G1Point) -> (r: ProofRec)
    ensures
        proof_repr(r) == (ProofView { a: g1_repr(a), b: g2_repr(b), c: g1_repr(c) }),
{
    ProofRec { inner: ark_groth16::Proof { a: a.inner, b: b.inner, c: c.inner } }
}

/// Relies on `ark_groth16::Groth16::verify_proof`: it rejects a
/// public-input list whose length plus one differs from the key's point
/// list, and otherwise evaluates the pairing equation deterministically;
/// the only remaining failure is an undefined final exponentiation, mapped
/// to `None` like the length mismatch.
#[verifier::external_body]
fn pairing_verdict(key: &PreparedKey, proof: &ProofRec, inputs: &Vec<Scalar>) -> (r: Option<bool>)
    ensures
        inputs@.len() + 1 == key_repr(*key).ic.len() ==> r == groth16_outcome(
            key_repr(*key),
            proof_repr(*proof),
            inputs@.map_values(|s: Scalar| scalar_repr(s)),
        ),
        inputs@.len() + 1 != key_repr(*key).ic.len() ==> r is None,
{
    let scalars: Vec<ark_bn254::Fr> = inputs.iter().map(|s| s.inner).collect();
    ark_groth16::Groth16::<ark_bn254::Bn254>::verify_proof(&key.inner, &proof.inner, &scalars).ok()
}

/// How verification of a proof can fail before the pairing equation is
/// even evaluated. Every variant marks malformed input, which callers
/// must treat as a hard failure, never as a `false` verdict.
#[derive(Clone, Copy, Debug, PartialEq, Eq)]
pub enum Groth16Error {
    /// The document's protocol tag is not the expected one.
    Protocol,
    /// The document's curve tag is not the expected one.
    Curve,
    /// The document's announced public-input count does not fit its
    /// point list.
    PublicCount,
    /// A coordinate string is not a base-field element.
    Coordinate,
    /// The proof string does not hold exactly eight fields.
    ProofShape,
    /// A public input is not a scalar-field element.
    Scalar,
    /// The public-input list does not fit the key.
    InputCount,
    /// A pairing is undefined for the given points: either the key's
    /// alpha-beta pairing during preparation, or the verification
    /// equation itself.
    Degenerate,
}

pub open spec fn groth16_tag() -> Seq<u8> {
    seq![103u8, 114, 111, 116, 104, 49, 54]
}

pub open spec fn bn128_tag() -> Seq<u8> {
    seq![98u8, 110, 49, 50, 56]
}

pub open spec fn g1_ok(g: G1View) -> bool {
    fq_accepts(g.x) && fq_accepts(g.y)
}

pub open spec fn g2_ok(g: G2View) -> bool {
    fq_accepts(g.x0) && fq_accepts(g.x1) && fq_accepts(g.y0) && fq_accepts(g.y1)
}

pub open spec fn vk_points_ok(d: VkDocView) -> bool {
    &&& g1_ok(d.alpha)
    &&& g2_ok(d.beta)
    &&& g2_ok(d.gamma)
    &&& g2_ok(d.delta)
    &&& forall|i: int| 0 <= i < d.ic.len() ==> g1_ok(#[trigger] d.ic[i])
}

/// A verifying-key document is acceptable when its tags are right, its
/// announced public-input count is one less than its point-list length,
/// and every coordinate is a base-field element.
pub open spec fn vk_doc_ok(d: VkDocView) -> bool {
    &&& d.protocol == groth16_tag()
    &&& d.curve == bn128_tag()
    &&& d.ic.len() == d.n_public + 1
    &&& vk_points_ok(d)
}

/// Which failure a bad verifying-key document is reported with: the tags
/// are checked first, then the count, then the coordinates.
pub open spec fn vk_doc_error(d: VkDocView) -> Groth16Error {
    if d.protocol != groth16_tag() {
        Groth16Error::Protocol
    } else if d.curve != bn128_tag() {
        Groth16Error::Curve
    } else if d.ic.len() != d.n_public + 1 {
        Groth16Error::PublicCount
    } else {
        Groth16Error::Coordinate
    }
}

/// The key coordinates carried by a well-formed document.
pub open spec fn vk_points(d: VkDocView) -> VkView {
    VkView { alpha: d.alpha, beta: d.beta, gamma: d.gamma, delta: d.delta, ic: d.ic }
}

/// The fields of a comma-separated byte string, exactly as `split` on a
/// comma yields them: an empty string has one empty field, and every
/// comma opens a new field.
pub open spec fn split_commas(s: Seq<u8>) -> Seq<Seq<u8>>
    decreases s.len(),
{
    if s.len() == 0 {
        seq![Seq::<u8>::empty()]
    } else if s[0] == 44u8 {
        seq![Seq::<u8>::empty()] + split_commas(s.skip(1))
    } else {
        let rest = split_commas(s.skip(1));
        seq![seq![s[0]] + rest[0]] + rest.skip(1)
    }
}

pub proof fn lemma_split_commas_len(s: Seq<u8>)
    ensures
        split_commas(s).len() >= 1,
    decreases s.len(),
{
    if s.len() == 0 {
    } else {
        lemma_split_commas_len(s.skip(1));
    }
}

/// Appending one byte either extends the last field or, for a comma,
/// opens a new empty one.
proof fn lemma_split_commas_push(s: Seq<u8>, c: u8)
    ensures
        c == 44u8 ==> split_commas(s.push(c)) == split_commas(s).push(Seq::<u8>::empty()),
        c != 44u8 ==> split_commas(s.push(c)) == split_commas(s).update(
            split_commas(s).len() - 1,
            split_commas(s).last().push(c),
        ),
    decreases s.len(),
{
    lemma_split_commas_len(s);
    if s.len() == 0 {
        assert(s.push(c).skip(1) =~= s);
        if c == 44u8 {
            assert(split_commas(s.push(c)) =~~= split_commas(s).push(Seq::<u8>::empty()));
        } else {
            assert(split_commas(s.push(c)) =~~= split_commas(s).update(
                split_commas(s).len() - 1,
                split_commas(s).last().push(c),
            ));
        }
    } else {
        lemma_split_commas_push(s.skip(1), c);
        lemma_split_commas_len(s.skip(1));
        assert(s.push(c).skip(1) =~= s.skip(1).push(c));
        assert(s.push(c)[0] == s[0]);
        if c == 44u8 {
            assert(split_commas(s.push(c)) =~~= split_commas(s).push(Seq::<u8>::empty()));
        } else {
            let rest = split_commas(s.skip(1));
            let updated = rest.update(rest.len() - 1, rest.last().push(c));
            if s[0] == 44u8 {
                assert(split_commas(s.push(c)) =~~= split_commas(s).update(
                    split_commas(s).len() - 1,
                    split_commas(s).last().push(c),
                ));
            } else {
                if rest.len() == 1 {
                    assert(updated[0] == rest[0].push(c));
                    assert(split_commas(s.push(c)) =~~= split_commas(s).update(
                        split_commas(s).len() - 1,
                        split_commas(s).last().push(c),
                    ));
                } else {
                    assert(updated[0] == rest[0]);
                    assert(updated.skip(1) =~= rest.skip(1).update(
                        rest.skip(1).len() - 1,
                        rest.skip(1).last().push(c),
                    ));
                    assert(split_commas(s.push(c)) =~~= split_commas(s).update(
                        split_commas(s).len() - 1,
                        split_commas(s).last().push(c),
                    ));
                }
            }
        }
    }
}

/// Split a byte string on commas.
fn split_bytes_on_commas(s: &Vec<u8>) -> (r: Vec<Vec<u8>>)
    ensures
        r@.map_values(|f: Vec<u8>| f@) == split_commas(s@),
{
    let mut fields: Vec<Vec<u8>> = Vec::new();
    let mut cur: Vec<u8> = Vec::new();
    let mut i: usize = 0;
    proof {
        assert(fields@.map_values(|f: Vec<u8>| f@).push(cur@) =~~= split_commas(s@.take(0)));
    }
    while i < s.len()
        invariant
            i <= s@.len(),
            fields@.map_values(|f: Vec<u8>| f@).push(cur@) == split_commas(s@.take(i as int)),
        decreases s@.len() - i,
    {
        let ghost prefix = s@.take(i as int);
        let ghost old_fields = fields@.map_values(|f: Vec<u8>| f@);
        proof {
            lemma_split_commas_push(prefix, s@[i as int]);
            assert(s@.take(i + 1) =~= prefix.push(s@[i as int]));
            lemma_split_commas_len(prefix);
        }
        if s[i] == 44 {
            fields.push(cur);
            cur = Vec::new();
            proof {
                assert(fields@.map_values(|f: Vec<u8>| f@) =~~= old_fields.push(
                    split_commas(prefix).last(),
                ));
                assert(fields@.map_values(|f: Vec<u8>| f@).push(cur@) =~~= split_commas(
                    s@.take(i + 1),
                ));
            }
        } else {
            cur.push(s[i]);
            proof {
                assert(fields@.map_values(|f: Vec<u8>| f@).push(cur@) =~~= split_commas(
                    s@.take(i + 1),
                ));
            }
        }
        i += 1;
    }
    proof {
        assert(s@.take(s@.len() as int) =~= s@);
    }
    fields.push(cur);
    proof {
        assert(fields@.map_values(|f: Vec<u8>| f@) =~~= split_commas(s@));
    }
    fields
}

/// Every field of the proof string is a base-field element.
pub open spec fn proof_fields_ok(s: Seq<u8>) -> bool {
    forall|i: int| 0 <= i < split_commas(s).len() ==> fq_accepts(#[trigger] split_commas(s)[i])
}

/// The proof string has exactly eight comma-separated fields.
pub open spec fn proof_shape_ok(s: Seq<u8>) -> bool {
    split_commas(s).len() == 8
}

/// A proof string parses when its fields are base-field elements and
/// there are exactly eight of them.
pub open spec fn proof_wire_ok(s: Seq<u8>) -> bool {
    proof_fields_ok(s) && proof_shape_ok(s)
}

/// The three points described by the eight fields of a proof string.
pub open spec fn proof_points(f: Seq<Seq<u8>>) -> ProofView {
    ProofView {
        a: G1View { x: f[0], y: f[1] },
        b: G2View { x0: f[2], x1: f[3], y0: f[4], y1: f[5] },
        c: G1View { x: f[6], y: f[7] },
    }
}

pub open spec fn inputs_ok(ins: Seq<Seq<u8>>) -> bool {
    forall|i: int| 0 <= i < ins.len() ==> fr_accepts(#[trigger] ins[i])
}

/// The exact result of `verify_prepared`: the proof string's fields are
/// checked, then its shape, then the public inputs, then their number
/// against the key; only then is the pairing equation consulted.
pub open spec fn verify_prepared_spec(k: VkView, proof: Seq<u8>, ins: Seq<Seq<u8>>) -> Result<
    bool,
    Groth16Error,
> {
    if !proof_fields_ok(proof) {
        Err(Groth16Error::Coordinate)
    } else if !proof_shape_ok(proof) {
        Err(Groth16Error::ProofShape)
    } else if !inputs_ok(ins) {
        Err(Groth16Error::Scalar)
    } else if ins.len() + 1 != k.ic.len() {
        Err(Groth16Error::InputCount)
    } else {
        match groth16_outcome(k, proof_points(split_commas(proof)), ins) {
            Some(b) => Ok(b),
            None => Err(Groth16Error::Degenerate),
        }
    }
}

/// The exact result of `verify`: the verifying-key document is checked
/// first, then the key's alpha-beta pairing must be defined, then the
/// proof and inputs as in `verify_prepared_spec`.
pub open spec fn verify_spec(d: VkDocView, proof: Seq<u8>, ins: Seq<Seq<u8>>) -> Result<
    bool,
    Groth16Error,
> {
    if !vk_doc_ok(d) {
        Err(vk_doc_error(d))
    } else if !pairing_defined(d.alpha, d.beta) {
        Err(Groth16Error::Degenerate)
    } else {
        verify_prepared_spec(vk_points(d), proof, ins)
    }
}

/// Whether the tag is exactly the expected protocol name.
fn is_groth16_tag(s: &Vec<u8>) -> (r: bool)
    ensures
        r == (s@ == groth16_tag()),
{
    let r = s.len() == 7 && s[0] == 103 && s[1] == 114 && s[2] == 111 && s[3] == 116 && s[4]
        == 104 && s[5] == 49 && s[6] == 54;
    proof {
        if r {
            assert(s@ =~= groth16_tag());
        } else {
            assert(s@ != groth16_tag());
        }
    }
    r
}

/// Whether the tag is exactly the expected curve name.
fn is_bn128_tag(s: &Vec<u8>) -> (r: bool)
    ensures
        r == (s@ == bn128_tag()),
{
    let r = s.len() == 5 && s[0] == 98 && s[1] == 110 && s[2] == 49 && s[3] == 50 && s[4]
        == 56;
    proof {
        if r {
            assert(s@ =~= bn128_tag());
        } else {
            assert(s@ != bn128_tag());
        }
    }
    r
}

/// Check a verifying-key document and preprocess its key for pairing
/// checks. Succeeds exactly on well-formed documents whose alpha-beta
/// pairing is defined, and reports the first failing check otherwise.
pub fn prepare(doc: &VkDocument) -> (r: Result<PreparedKey, Groth16Error>)
    ensures
        r is Ok <==> (vk_doc_ok(doc@) && pairing_defined(doc@.alpha, doc@.beta)),
        r matches Ok(k) ==> key_repr(k) == vk_points(doc@),
        !vk_doc_ok(doc@) ==> r == Err::<PreparedKey, Groth16Error>(vk_doc_error(doc@)),
        vk_doc_ok(doc@) && !pairing_defined(doc@.alpha, doc@.beta) ==> r == Err::<
            PreparedKey,
            Groth16Error,
        >(Groth16Error::Degenerate),
{
    if !is_groth16_tag(&doc.protocol) {
        return Err(Groth16Error::Protocol);
    }
    if !is_bn128_tag(&doc.curve) {
        return Err(Groth16Error::Curve);
    }
    if doc.ic.len() == 0 || doc.n_public != doc.ic.len() - 1 {
        return Err(Groth16Error::PublicCount);
    }
    let alpha = match g1_from_bytes(&doc.alpha.x, &doc.alpha.y) {
        Some(p) => p,
        None => {
            return Err(Groth16Error::Coordinate);
        },
    };
    let beta = match g2_from_bytes(&doc.beta.x0, &doc.beta.x1, &doc.beta.y0, &doc.beta.y1) {
        Some(p) => p,
        None => {
            return Err(Groth16Error::Coordinate);
        },
    };
    let gamma = match g2_from_bytes(&doc.gamma.x0, &doc.gamma.x1, &doc.gamma.y0, &doc.gamma.y1) {
        Some(p) => p,
        None => {
            return Err(Groth16Error::Coordinate);
        },
    };
    let delta = match g2_from_bytes(&doc.delta.x0, &doc.delta.x1, &doc.delta.y0, &doc.delta.y1) {
        Some(p) => p,
        None => {
            return Err(Groth16Error::Coordinate);
        },
    };
    let mut ic: Vec<G1Point> = Vec::new();
    let mut i: usize = 0;
    while i < doc.ic.len()
        invariant
            i <= doc.ic@.len(),
            ic@.len() == i,
            doc@.protocol == groth16_tag(),
            doc@.curve == bn128_tag(),
            doc@.ic.len() == doc@.n_public + 1,
            forall|j: int| 0 <= j < i ==> g1_ok(#[trigger] doc@.ic[j]),
            forall|j: int| 0 <= j < i ==> g1_repr(#[trigger] ic@[j]) == doc@.ic[j],
        decreases doc.ic@.len() - i,
    {
        let p = match g1_from_bytes(&doc.ic[i].x, &doc.ic[i].y) {
            Some(p) => p,
            None => {
                proof {
                    assert(doc@.ic[i as int] == doc.ic@[i as int]@);
                    assert(!g1_ok(doc@.ic[i as int]));
                }
                return Err(Groth16Error::Coordinate);
            },
        };
        proof {
            assert(doc@.ic[i as int] == doc.ic@[i as int]@);
        }
        ic.push(p);
        i += 1;
    }
    if !alpha_beta_pairing_defined(&alpha, &beta) {
        return Err(Groth16Error::Degenerate);
    }
    let key = prepare_points(alpha, beta, gamma, delta, ic);
    proof {
        assert(key_repr(key).ic =~= doc@.ic);
    }
    Ok(key)
}

/// Parse the eight comma-separated decimal fields of a proof string into
/// its three points.
fn parse_proof(s: &Vec<u8>) -> (r: Result<ProofRec, Groth16Error>)
    ensures
        r is Ok <==> proof_wire_ok(s@),
        r matches Ok(p) ==> proof_repr(p) == proof_points(split_commas(s@)),
        !proof_fields_ok(s@) ==> r == Err::<ProofRec, Groth16Error>(Groth16Error::Coordinate),
        proof_fields_ok(s@) && !proof_shape_ok(s@) ==> r == Err::<ProofRec, Groth16Error>(
            Groth16Error::ProofShape,
        ),
{
    let fields = split_bytes_on_commas(s);
    let ghost fv = split_commas(s@);
    let mut i: usize = 0;
    while i < fields.len()
        invariant
            i <= fields@.len(),
            fields@.map_values(|f: Vec<u8>| f@) == fv,
            fv == split_commas(s@),
            forall|j: int| 0 <= j < i ==> fq_accepts(#[trigger] fv[j]),
        decreases fields@.len() - i,
    {
        if !fq_ok(&fields[i]) {
            proof {
                assert(fv[i as int] == fields@[i as int]@);
                assert(!fq_accepts(split_commas(s@)[i as int]));
            }
            return Err(Groth16Error::Coordinate);
        }
        i += 1;
    }
    if fields.len() != 8 {
        return Err(Groth16Error::ProofShape);
    }
    proof {
        assert(forall|j: int| 0 <= j < 8 ==> #[trigger] fields@[j]@ == fv[j]);
        assert(forall|j: int| 0 <= j < 8 ==> fq_accepts(#[trigger] fv[j]));
    }
    let a = match g1_from_bytes(&fields[0], &fields[1]) {
        Some(p) => p,
        None => {
            return Err(Groth16Error::Coordinate);
        },
    };
    let b = match g2_from_bytes(&fields[2], &fields[3], &fields[4], &fields[5]) {
        Some(p) => p,
        None => {
            return Err(Groth16Error::Coordinate);
        },
    };
    let c = match g1_from_bytes(&fields[6], &fields[7]) {
        Some(p) => p,
        None => {
            return Err(Groth16Error::Coordinate);
        },
    };
    Ok(proof_from_points(a, b, c))
}

/// Parse the public inputs as scalar-field elements.
fn parse_inputs(ins: &Vec<Vec<u8>>) -> (r: Result<Vec<Scalar>, Groth16Error>)
    ensures
        r is Ok <==> inputs_ok(ins@.map_values(|v: Vec<u8>| v@)),
        r matches Ok(v) ==> v@.map_values(|s: Scalar| scalar_repr(s)) == ins@.map_values(
            |v: Vec<u8>| v@,
        ),
        r matches Err(e) ==> e == Groth16Error::Scalar,
{
    let mut out: Vec<Scalar> = Vec::new();
    let mut i: usize = 0;
    while i < ins.len()
        invariant
            i <= ins@.len(),
            out@.len() == i,
            forall|j: int| 0 <= j < i ==> fr_accepts(#[trigger] ins@[j]@),
            forall|j: int| 0 <= j < i ==> scalar_repr(#[trigger] out@[j]) == ins@[j]@,
        decreases ins@.len() - i,
    {
        let sc = match scalar_from_bytes(&ins[i]) {
            Some(sc) => sc,
            None => {
                proof {
                    assert(ins@.map_values(|v: Vec<u8>| v@)[i as int] == ins@[i as int]@);
                }
                return Err(Groth16Error::Scalar);
            },
        };
        out.push(sc);
        i += 1;
    }
    proof {
        assert(out@.map_values(|s: Scalar| scalar_repr(s)) =~= ins@.map_values(|v: Vec<u8>| v@));
    }
    Ok(out)
}

/// Verify a proof against an already-prepared key, with the given public
/// inputs in order. Returns the pairing verdict, or the exact parse
/// failure: a `false` verdict means a well-formed but invalid proof,
/// while an error means the record could not even be read.
pub fn verify_prepared(key: &PreparedKey, proof: &Vec<u8>, inputs: &Vec<Vec<u8>>) -> (r: Result<
    bool,
    Groth16Error,
>)
    ensures
        r == verify_prepared_spec(key_repr(*key), proof@, inputs@.map_values(|v: Vec<u8>| v@)),
{
    let pr = match parse_proof(proof) {
        Ok(pr) => pr,
        Err(e) => {
            return Err(e);
        },
    };
    let scalars = match parse_inputs(inputs) {
        Ok(v) => v,
        Err(e) => {
            return Err(e);
        },
    };
    let icl = key_ic_len(key);
    if icl == 0 || scalars.len() != icl - 1 {
        return Err(Groth16Error::InputCount);
    }
    match pairing_verdict(key, &pr, &scalars) {
        Some(b) => Ok(b),
        None => Err(Groth16Error::Degenerate),
    }
}

/// Verify a proof against a verifying-key document and public inputs, as
/// the validation rules use it: the document is parsed and preprocessed,
/// then the pairing equation is evaluated.
pub fn verify(doc: &VkDocument, proof: &Vec<u8>, inputs: &Vec<Vec<u8>>) -> (r: Result<
    bool,
    Groth16Error,
>)
    ensures
        r == verify_spec(doc@, proof@, inputs@.map_values(|v: Vec<u8>| v@)),
{
    let key = match prepare(doc) {
        Ok(k) => k,
        Err(e) => {
            return Err(e);
        },
    };
    verify_prepared(&key, proof, inputs)
}

} // verus!
