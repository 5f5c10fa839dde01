use vstd::prelude::*;
use crate::address::{Address, ADDRESS_LENGTH};

verus! {

broadcast use vstd::array::group_array_axioms;

/// The fixed derivation label of the exchange authority: the bytes of
/// "mint_authority".
pub open spec fn authority_label() -> Seq<u8> {
    seq![109u8, 105u8, 110u8, 116u8, 95u8, 97u8, 117u8, 116u8, 104u8, 111u8, 114u8, 105u8, 116u8, 121u8]
}

/// The fixed numeric disambiguator under which the exchange authority is
/// derived. Stable, so any caller can predict the authority ahead of time.
pub const DERIVATION_SALT: u8 = 255;

/// The longest label a derivation can carry: a derived address spends its
/// first byte on the salt and its last on the label's length.
pub const MAX_LABEL_LENGTH: usize = 30;

/// The address derived from a label and a salt: the salt, then the label,
/// zero padding, and the label's length in the final byte. For labels of at
/// most `MAX_LABEL_LENGTH` bytes the encoding is injective, so no two
/// label-salt pairs share a derived address, and nobody holds a private key
/// for one: the derivation itself is the only way to name it.
pub open spec fn derived_address(label: Seq<u8>, salt: u8) -> Seq<u8>
    recommends
        label.len() <= MAX_LABEL_LENGTH,
{
    Seq::new(
        ADDRESS_LENGTH as nat,
        |i: int|
            if i == 0 {
                salt
            } else if i == ADDRESS_LENGTH - 1 {
                label.len() as u8
            } else if 1 <= i <= label.len() {
                label[i - 1]
            } else {
                0u8
            },
    )
}

/// Computes the derived address of a label and a salt.
pub fn derive_authority(label: &Vec<u8>, salt: u8) -> (a: Address)
    requires
        label@.len() <= MAX_LABEL_LENGTH,
    ensures
        a@ == derived_address(label@, salt),
{
    let mut bytes: [u8; ADDRESS_LENGTH] = [0u8; ADDRESS_LENGTH];
    bytes[0] = salt;
    bytes[ADDRESS_LENGTH - 1] = label.len() as u8;
    let mut i: usize = 0;
    while i < label.len()
        invariant
            label@.len() <= MAX_LABEL_LENGTH,
            i <= label@.len(),
            bytes@.len() == ADDRESS_LENGTH,
            bytes@[0] == salt,
            bytes@[ADDRESS_LENGTH - 1] == label@.len() as u8,
            forall|j: int| 1 <= j <= i ==> bytes@[j] == label@[j - 1],
            forall|j: int| i < j < ADDRESS_LENGTH - 1 ==> bytes@[j] == 0u8,
        decreases label@.len() - i,
    {
        bytes[i + 1] = label[i];
        i += 1;
    }
    proof {
        assert(bytes@ =~= derived_address(label@, salt));
    }
    Address::new(bytes)
}

/// A capability presented to the mint phase: the derivation label and salt
/// from which the mint authority's address must be reproducible. No secret
/// backs it; holding the right label and salt is the whole proof.
pub struct AuthorityProof {
    pub label: Vec<u8>,
    pub salt: u8,
}

impl AuthorityProof {
    /// The address this proof derives.
    pub open spec fn derives(&self) -> Seq<u8> {
        derived_address(self.label@, self.salt)
    }

    /// Whether this proof authorizes actions of an authority at the given
    /// address.
    pub open spec fn authorizes(&self, authority: Seq<u8>) -> bool {
        self.label@.len() <= MAX_LABEL_LENGTH && self.derives() == authority
    }
}

/// Checks a proof against an expected authority address by recomputing the
/// derivation from the proof's own label and salt, exactly as any
/// independent verifier would.
pub fn verify_authority(proof: &AuthorityProof, expected: &Address) -> (ok: bool)
    ensures
        ok == proof.authorizes(expected@),
{
    if proof.label.len() > MAX_LABEL_LENGTH {
        return false;
    }
    let derived = derive_authority(&proof.label, proof.salt);
    derived.equals(expected)
}

/// The exchange authority's fixed derivation label, "mint_authority".
pub fn mint_authority_label() -> (v: Vec<u8>)
    ensures
        v@ == authority_label(),
{
    let mut v: Vec<u8> = Vec::new();
    v.push(109);
    v.push(105);
    v.push(110);
    v.push(116);
    v.push(95);
    v.push(97);
    v.push(117);
    v.push(116);
    v.push(104);
    v.push(111);
    v.push(114);
    v.push(105);
    v.push(116);
    v.push(121);
    proof {
        assert(v@ =~= authority_label());
    }
    v
}

/// The exchange authority's address, derived from the fixed label and salt.
pub fn exchange_authority() -> (a: Address)
    ensures
        a@ == derived_address(authority_label(), DERIVATION_SALT),
{
    let label = mint_authority_label();
    derive_authority(&label, DERIVATION_SALT)
}

/// The canonical proof for the exchange authority, built from the fixed
/// label and salt alone.
pub fn exchange_authority_proof() -> (p: AuthorityProof)
    ensures
        p.label@ == authority_label(),
        p.salt == DERIVATION_SALT,
        p.authorizes(derived_address(authority_label(), DERIVATION_SALT)),
{
    AuthorityProof { label: mint_authority_label(), salt: DERIVATION_SALT }
}

/// Derivation is injective on labels of admissible length: two derivations
/// agree only when label and salt both agree.
pub proof fn lemma_derivation_injective(l1: Seq<u8>, s1: u8, l2: Seq<u8>, s2: u8)
    requires
        l1.len() <= MAX_LABEL_LENGTH,
        l2.len() <= MAX_LABEL_LENGTH,
        derived_address(l1, s1) == derived_address(l2, s2),
    ensures
        l1 == l2,
        s1 == s2,
{
    let d1 = derived_address(l1, s1);
    let d2 = derived_address(l2, s2);
    assert(s1 == d1[0] && s2 == d2[0]);
    assert(d1[ADDRESS_LENGTH - 1] == l1.len() as u8);
    assert(d2[ADDRESS_LENGTH - 1] == l2.len() as u8);
    assert(l1.len() == l2.len());
    assert forall|i: int| 0 <= i < l1.len() implies l1[i] == l2[i] by {
        assert(d1[i + 1] == l1[i]);
        assert(d2[i + 1] == l2[i]);
    }
    assert(l1 =~= l2);
}

/// Exclusive authority: a proof accepted for the exchange authority's
/// derived address necessarily carries the fixed label and salt, so the
/// proof is independently reproducible by any verifier that knows them.
pub proof fn lemma_exclusive_authority(proof: AuthorityProof)
    requires
        proof.authorizes(derived_address(authority_label(), DERIVATION_SALT)),
    ensures
        proof.label@ == authority_label(),
        proof.salt == DERIVATION_SALT,
{
    lemma_derivation_injective(proof.label@, proof.salt, authority_label(), DERIVATION_SALT);
}

} // verus!
