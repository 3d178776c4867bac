use vstd::prelude::*;
use vstd::utf8::encode_utf8;

use crate::dates::Date;
use crate::hash;
use crate::hash::{append_bytes, sha512, sha512_of};
use crate::keys::{ed25519_accepts, ed25519_public_key, ed25519_signature, SigningKey, VerifyingKey};

verus! {

/// Relies on `uuid::Uuid::new_v4`: random bytes, with the version nibble set
/// to 4 and the variant bits to `10`.
#[verifier::external_body]
fn new_uuid() -> (r: [u8; 16])
    ensures
        r@[6] / 16 == 4,
        r@[8] / 64 == 2,
{
    uuid::Uuid::new_v4().into_bytes()
}

/// The UTF-8 bytes of a text.
pub open spec fn text_bytes(s: Seq<char>) -> Seq<u8> {
    encode_utf8(s)
}

/// Appends the UTF-8 bytes of `s` to `buf`.
pub(crate) fn append_text(buf: &mut Vec<u8>, s: &str)
    ensures
        final(buf)@ == old(buf)@ + text_bytes(s@),
{
    append_bytes(buf, s.as_bytes());
}

/// An identity that issues and revokes credentials and creates blocks.
#[derive(Debug, Clone)]
pub struct Issuer {
    pub uuid: [u8; 16],
    pub name: String,
    pub verifying: VerifyingKey,
}

impl Issuer {
    /// What the issuer contributes to a digest: id, name and public key.
    pub open spec fn hashed_bytes(&self) -> Seq<u8> {
        self.uuid@ + text_bytes(self.name@) + self.verifying@
    }

    /// A new issuer with a fresh id and key pair; the secret key is handed
    /// back beside it and is no part of the issuer.
    pub fn new(name: String) -> (r: (Issuer, SigningKey))
        ensures
            r.0.name@ == name@,
            r.0.verifying@ == ed25519_public_key(r.1@),
    {
        let signing = SigningKey::generate();
        let verifying = signing.verifying_key();
        let uuid = new_uuid();
        (Issuer { uuid, name, verifying }, signing)
    }

    /// Feeds the issuer's identity into a digest input.
    pub fn update_hash(&self, buf: &mut Vec<u8>)
        ensures
            final(buf)@ == old(buf)@ + self.hashed_bytes(),
    {
        append_bytes(buf, self.uuid.as_slice());
        append_text(buf, self.name.as_str());
        append_bytes(buf, self.verifying.0.as_slice());
        assert(final(buf)@ =~= old(buf)@ + self.hashed_bytes());
    }
}

/// The one an attribute is asserted about.
#[derive(Debug, Clone)]
pub struct Subject {
    pub uuid: [u8; 16],
    pub name: String,
    pub surname: String,
}

impl Subject {
    pub open spec fn hashed_bytes(&self) -> Seq<u8> {
        self.uuid@ + text_bytes(self.name@) + text_bytes(self.surname@)
    }

    /// A new subject with a fresh id.
    pub fn new(name: String, surname: String) -> (r: Subject)
        ensures
            r.name@ == name@,
            r.surname@ == surname@,
    {
        let uuid = new_uuid();
        Subject { uuid, name, surname }
    }

    /// Feeds the subject's id, name and surname into a digest input.
    pub fn hash(&self, buf: &mut Vec<u8>)
        ensures
            final(buf)@ == old(buf)@ + self.hashed_bytes(),
    {
        append_bytes(buf, self.uuid.as_slice());
        append_text(buf, self.name.as_str());
        append_text(buf, self.surname.as_str());
        assert(final(buf)@ =~= old(buf)@ + self.hashed_bytes());
    }
}

/// An inclusive validity window; an absent end means it never ends.
#[derive(Debug, Clone, Copy)]
pub struct ValidDuration {
    pub from: Date,
    pub to: Option<Date>,
}

/// The UTF-8 bytes of a day's ISO calendar text.
pub open spec fn date_bytes(d: Date) -> Seq<u8> {
    text_bytes(d.text())
}

impl ValidDuration {
    pub open spec fn hashed_bytes(&self) -> Seq<u8> {
        match self.to {
            Some(to) => date_bytes(self.from) + date_bytes(to),
            None => date_bytes(self.from),
        }
    }

    pub fn new(from: Date, to: Option<Date>) -> (r: ValidDuration)
        ensures
            r.from == from,
            r.to == to,
    {
        ValidDuration { from, to }
    }

    /// Feeds the start date and, when there is one, the end date into a
    /// digest input, each as ISO calendar text.
    pub fn hash(&self, buf: &mut Vec<u8>)
        ensures
            final(buf)@ == old(buf)@ + self.hashed_bytes(),
    {
        let from = self.from.iso_text();
        append_text(buf, from.as_str());
        match &self.to {
            Some(to) => {
                let to = to.iso_text();
                append_text(buf, to.as_str());
            },
            None => {},
        }
        assert(final(buf)@ =~= old(buf)@ + self.hashed_bytes());
    }
}

/// The claim a credential makes, such as a licence category.
#[derive(Debug, Clone)]
pub struct Attribute {
    pub name: String,
    pub value: String,
}

impl Attribute {
    pub open spec fn hashed_bytes(&self) -> Seq<u8> {
        text_bytes(self.name@) + text_bytes(self.value@)
    }

    pub fn new(name: String, value: String) -> (r: Attribute)
        ensures
            r.name@ == name@,
            r.value@ == value@,
    {
        Attribute { name, value }
    }

    /// Feeds the attribute's name and value into a digest input.
    pub fn hash(&self, buf: &mut Vec<u8>)
        ensures
            final(buf)@ == old(buf)@ + self.hashed_bytes(),
    {
        append_text(buf, self.name.as_str());
        append_text(buf, self.value.as_str());
        assert(final(buf)@ =~= old(buf)@ + self.hashed_bytes());
    }
}

/// The tag that sets a revocation's fingerprint apart from the issuance's.
pub open spec fn revocation_tag() -> Seq<u8> {
    text_bytes("revoking"@)
}

/// An attribute that an issuer asserts of a subject for a time.
#[derive(Debug, Clone)]
pub struct Credential {
    pub uuid: [u8; 16],
    pub attribute: Attribute,
    pub issuer: Issuer,
    pub subject: Subject,
    pub valid_duration: ValidDuration,
}

impl Credential {
    /// What is digested into the fingerprint, in this order: the id, the
    /// attribute, the issuer, the subject, the validity window, and the
    /// revocation tag for a revocation.
    pub open spec fn fingerprint_input(&self, revoking: bool) -> Seq<u8> {
        let content = self.uuid@ + self.attribute.hashed_bytes() + self.issuer.hashed_bytes()
            + self.subject.hashed_bytes() + self.valid_duration.hashed_bytes();
        if revoking {
            content + revocation_tag()
        } else {
            content
        }
    }

    /// The fingerprint of the issuance (`false`) or of the revocation (`true`).
    pub open spec fn fingerprint(&self, revoking: bool) -> Seq<u8> {
        sha512_of(self.fingerprint_input(revoking))
    }

    /// A credential with a fresh id.
    pub fn new(
        attribute: Attribute,
        issuer: Issuer,
        subject: Subject,
        valid_duration: ValidDuration,
    ) -> (r: Credential)
        ensures
            r.attribute == attribute,
            r.issuer == issuer,
            r.subject == subject,
            r.valid_duration == valid_duration,
    {
        let uuid = new_uuid();
        Credential { uuid, attribute, issuer, subject, valid_duration }
    }

    /// The fingerprint of the issuance, or with `revoking` of the revocation.
    pub fn hash(&self, revoking: bool) -> (r: hash::Hash)
        ensures
            r@ == self.fingerprint(revoking),
    {
        let mut buf: Vec<u8> = Vec::new();
        append_bytes(&mut buf, self.uuid.as_slice());
        self.attribute.hash(&mut buf);
        self.issuer.update_hash(&mut buf);
        self.subject.hash(&mut buf);
        self.valid_duration.hash(&mut buf);
        if revoking {
            append_text(&mut buf, "revoking");
        }
        assert(buf@ =~= self.fingerprint_input(revoking));
        sha512(buf.as_slice())
    }

    /// Fingerprints the credential and signs the fingerprint with `signer`.
    pub fn sign(&self, signer: &SigningKey, revoking: bool) -> (r: SignedCredential)
        ensures
            r.credential@ == self.fingerprint(revoking),
            r.signed_by(signer@),
    {
        let hash = self.hash(revoking);
        let signature = signer.sign(hash.0.as_slice());
        SignedCredential::new(hash, signature)
    }
}

/// Two credentials that agree on every field that is fingerprinted.
pub open spec fn same_content(a: &Credential, b: &Credential) -> bool {
    &&& a.uuid@ == b.uuid@
    &&& a.attribute.name@ == b.attribute.name@
    &&& a.attribute.value@ == b.attribute.value@
    &&& a.issuer.uuid@ == b.issuer.uuid@
    &&& a.issuer.name@ == b.issuer.name@
    &&& a.issuer.verifying@ == b.issuer.verifying@
    &&& a.subject.uuid@ == b.subject.uuid@
    &&& a.subject.name@ == b.subject.name@
    &&& a.subject.surname@ == b.subject.surname@
    &&& a.valid_duration == b.valid_duration
}

/// The issuance and the revocation of one credential digest different
/// inputs: the revocation's input is the issuance's followed by a non-empty
/// tag. (That the two digests then differ rests on SHA-512 itself.)
pub proof fn lemma_fingerprint_inputs_differ(c: &Credential)
    ensures
        c.fingerprint_input(true) == c.fingerprint_input(false) + revocation_tag(),
        revocation_tag().len() > 0,
        c.fingerprint_input(true) != c.fingerprint_input(false),
{
    reveal_strlit("revoking");
    assert("revoking"@.len() == 8);
    assert(revocation_tag().len() > 0);
    assert(c.fingerprint_input(true).len() > c.fingerprint_input(false).len());
}

/// A fingerprint is a function of the credential's content and the
/// revocation flag alone: equal content gives equal fingerprints.
pub proof fn lemma_fingerprint_is_content_function(a: &Credential, b: &Credential, revoking: bool)
    requires
        same_content(a, b),
    ensures
        a.fingerprint_input(revoking) == b.fingerprint_input(revoking),
        a.fingerprint(revoking) == b.fingerprint(revoking),
{
}

/// A credential's fingerprint with a signature over it: all that the ledger
/// keeps of a credential.
#[derive(Debug, Clone, Copy)]
pub struct SignedCredential {
    pub credential: hash::Hash,
    pub signature: hash::Hash,
}

impl SignedCredential {
    /// The signature is the one that `secret` makes on the fingerprint.
    pub open spec fn signed_by(&self, secret: Seq<u8>) -> bool {
        self.signature@ == ed25519_signature(secret, self.credential@)
    }

    /// The signature was made by the secret key whose public key is `public`.
    pub open spec fn signed_for(&self, public: Seq<u8>) -> bool {
        exists|secret: Seq<u8>|
            #![trigger ed25519_signature(secret, self.credential@)]
            secret.len() == 32 && public == ed25519_public_key(secret) && self.signed_by(secret)
    }

    /// The signature checks out under the public key `public`.
    pub open spec fn verifies_under(&self, public: Seq<u8>) -> bool {
        ed25519_accepts(public, self.credential@, self.signature@)
    }

    /// The bytes that the assertion contributes to a block's digest.
    pub open spec fn hashed_bytes(&self) -> Seq<u8> {
        self.credential@ + self.signature@
    }

    pub fn new(credential: hash::Hash, signature: hash::Hash) -> (r: SignedCredential)
        ensures
            r.credential == credential,
            r.signature == signature,
    {
        SignedCredential { credential, signature }
    }

    /// Whether the signature checks out against the fingerprint under
    /// `verifying`; one that the matching secret key made always does.
    pub fn verify(&self, verifying: &VerifyingKey) -> (r: bool)
        ensures
            r == self.verifies_under(verifying@),
            forall|secret: Seq<u8>|
                #![trigger ed25519_signature(secret, self.credential@)]
                secret.len() == 32 && verifying@ == ed25519_public_key(secret) && self.signed_by(
                    secret,
                ) ==> r,
            self.signed_for(verifying@) ==> r,
    {
        verifying.verify(self.credential.0.as_slice(), &self.signature)
    }

    /// Feeds the fingerprint, then the signature, into a digest input.
    pub fn update_hash(&self, buf: &mut Vec<u8>)
        ensures
            final(buf)@ == old(buf)@ + self.hashed_bytes(),
    {
        append_bytes(buf, self.credential.0.as_slice());
        append_bytes(buf, self.signature.0.as_slice());
        assert(final(buf)@ =~= old(buf)@ + self.hashed_bytes());
    }
}

} // verus!
