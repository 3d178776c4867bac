use vstd::prelude::*;

use crate::credential::{append_text, text_bytes, Credential, Issuer, SignedCredential};
use crate::dates::Timestamp;
use crate::hash;
use crate::hash::{append_bytes, sha512, sha512_of, zero_hash};
use crate::keys::{ed25519_signature, SigningKey, VerifyingKey};

verus! {

/// The bytes that a list of assertions contributes to a block's digest: each
/// fingerprint followed by its signature, in list order.
pub open spec fn assertions_bytes(s: Seq<SignedCredential>) -> Seq<u8>
    decreases s.len(),
{
    if s.len() == 0 {
        seq![]
    } else {
        assertions_bytes(s.drop_last()) + s.last().hashed_bytes()
    }
}

/// Some assertion of `s` has fingerprint `fingerprint` and a signature that
/// checks out under `public`.
pub open spec fn has_valid_match(
    s: Seq<SignedCredential>,
    fingerprint: Seq<u8>,
    public: Seq<u8>,
) -> bool {
    exists|j: int|
        0 <= j < s.len() && (#[trigger] s[j]).credential@ == fingerprint && s[j].verifies_under(
            public,
        )
}

/// Some assertion of `s` has fingerprint `fingerprint` and was signed by the
/// secret key whose public key is `public`.
pub open spec fn has_signed_match(
    s: Seq<SignedCredential>,
    fingerprint: Seq<u8>,
    public: Seq<u8>,
) -> bool {
    exists|j: int|
        0 <= j < s.len() && (#[trigger] s[j]).credential@ == fingerprint && s[j].signed_for(public)
}

/// A unit of chain extension: issuances and revocations gathered while the
/// block is open, then linked to its predecessor and signed by its creator.
#[derive(Debug, Clone)]
pub struct Block {
    pub timestamp: Timestamp,
    pub new_credentials: Vec<SignedCredential>,
    pub revoked_credentials: Vec<SignedCredential>,
    pub previous_hash: hash::Hash,
    pub signer: Issuer,
    pub hash: hash::Hash,
    pub signature: hash::Hash,
}

impl Block {
    /// What the block's own hash digests: the timestamp text, every issuance
    /// then every revocation, the previous hash, and the creator's identity.
    pub open spec fn hashed_bytes(&self) -> Seq<u8> {
        text_bytes(self.timestamp.text()) + assertions_bytes(self.new_credentials@)
            + assertions_bytes(self.revoked_credentials@) + self.previous_hash@
            + self.signer.hashed_bytes()
    }

    /// The block records a valid issuance with this fingerprint.
    pub open spec fn issues(&self, fingerprint: Seq<u8>, public: Seq<u8>) -> bool {
        has_valid_match(self.new_credentials@, fingerprint, public)
    }

    /// The block records a valid revocation with this fingerprint.
    pub open spec fn revokes(&self, fingerprint: Seq<u8>, public: Seq<u8>) -> bool {
        has_valid_match(self.revoked_credentials@, fingerprint, public)
    }

    /// This block is `open` finalized: the same assertions and creator, linked
    /// to `previous`, hashed over its contents, and the hash signed by `secret`.
    pub open spec fn is_finalization_of(
        &self,
        open: Block,
        previous: Seq<u8>,
        secret: Seq<u8>,
    ) -> bool {
        &&& self.new_credentials@ == open.new_credentials@
        &&& self.revoked_credentials@ == open.revoked_credentials@
        &&& self.signer == open.signer
        &&& self.previous_hash@ == previous
        &&& self.hash@ == sha512_of(self.hashed_bytes())
        &&& self.signature@ == ed25519_signature(secret, self.hash@)
    }

    /// An open block of `signer`: no assertions yet, the current time as a
    /// placeholder, and zero links, hash and signature.
    pub fn new(signer: Issuer) -> (r: Block)
        ensures
            r.new_credentials@.len() == 0,
            r.revoked_credentials@.len() == 0,
            r.previous_hash@ == zero_hash(),
            r.hash@ == zero_hash(),
            r.signature@ == zero_hash(),
            r.signer == signer,
    {
        let (timestamp, _) = Timestamp::now();
        Block {
            timestamp,
            new_credentials: Vec::new(),
            revoked_credentials: Vec::new(),
            previous_hash: hash::Hash::default(),
            signer,
            hash: hash::Hash::default(),
            signature: hash::Hash::default(),
        }
    }

    /// Appends an assertion to the revocations when `revoking`, else to the
    /// issuances. Nothing is checked here; that waits for the query.
    pub fn add_credential(&mut self, signed_credential: SignedCredential, revoking: bool)
        ensures
            revoking ==> final(self).revoked_credentials@ == old(
                self,
            ).revoked_credentials@.push(signed_credential),
            revoking ==> final(self).new_credentials@ == old(self).new_credentials@,
            !revoking ==> final(self).new_credentials@ == old(self).new_credentials@.push(
                signed_credential,
            ),
            !revoking ==> final(self).revoked_credentials@ == old(self).revoked_credentials@,
            final(self).timestamp == old(self).timestamp,
            final(self).previous_hash == old(self).previous_hash,
            final(self).signer == old(self).signer,
            final(self).hash == old(self).hash,
            final(self).signature == old(self).signature,
    {
        if revoking {
            self.revoked_credentials.push(signed_credential);
        } else {
            self.new_credentials.push(signed_credential);
        }
    }

    /// Stamps the current time, links the block to `previous_hash`, hashes it
    /// and signs the hash with `signing`.
    pub fn finalize(&mut self, previous_hash: hash::Hash, signing: &SigningKey)
        ensures
            final(self).is_finalization_of(*old(self), previous_hash@, signing@),
    {
        let (timestamp, text) = Timestamp::now();
        self.timestamp = timestamp;
        self.previous_hash = previous_hash;
        let mut buf: Vec<u8> = Vec::new();
        append_text(&mut buf, text.as_str());
        append_assertions(&mut buf, &self.new_credentials);
        append_assertions(&mut buf, &self.revoked_credentials);
        append_bytes(&mut buf, self.previous_hash.0.as_slice());
        self.signer.update_hash(&mut buf);
        assert(buf@ =~= self.hashed_bytes());
        self.hash = sha512(buf.as_slice());
        self.signature = signing.sign(self.hash.0.as_slice());
    }

    /// Whether the block holds a valid issuance with fingerprint `new_hash`,
    /// and whether it holds a valid revocation with fingerprint
    /// `revoking_hash`, each signature checked under `verifying`.
    pub fn find(
        &self,
        new_hash: &hash::Hash,
        revoking_hash: &hash::Hash,
        verifying: &VerifyingKey,
    ) -> (r: (bool, bool))
        ensures
            r.0 == self.issues(new_hash@, verifying@),
            r.1 == self.revokes(revoking_hash@, verifying@),
            has_signed_match(self.new_credentials@, new_hash@, verifying@) ==> r.0,
            has_signed_match(self.revoked_credentials@, revoking_hash@, verifying@) ==> r.1,
    {
        let new = find_valid(&self.new_credentials, new_hash, verifying);
        let revoked = find_valid(&self.revoked_credentials, revoking_hash, verifying);
        (new, revoked)
    }
}

/// Appends the digest contribution of every assertion of `list`, in order.
fn append_assertions(buf: &mut Vec<u8>, list: &Vec<SignedCredential>)
    ensures
        final(buf)@ == old(buf)@ + assertions_bytes(list@),
{
    let ghost start = buf@;
    let mut i: usize = 0;
    while i < list.len()
        invariant
            i <= list@.len(),
            buf@ == start + assertions_bytes(list@.subrange(0, i as int)),
        decreases list@.len() - i,
    {
        let ghost before = list@.subrange(0, i as int);
        list[i].update_hash(buf);
        i = i + 1;
        assert(list@.subrange(0, i as int).drop_last() =~= before);
    }
    assert(list@.subrange(0, list@.len() as int) =~= list@);
}

/// Whether some assertion of `list` has fingerprint `fingerprint` and a
/// signature that checks out under `verifying`.
fn find_valid(
    list: &Vec<SignedCredential>,
    fingerprint: &hash::Hash,
    verifying: &VerifyingKey,
) -> (r: bool)
    ensures
        r == has_valid_match(list@, fingerprint@, verifying@),
        has_signed_match(list@, fingerprint@, verifying@) ==> r,
{
    let mut i: usize = 0;
    while i < list.len()
        invariant
            i <= list@.len(),
            forall|k: int|
                0 <= k < i ==> !((#[trigger] list@[k]).credential@ == fingerprint@
                    && list@[k].verifies_under(verifying@)),
            forall|k: int|
                0 <= k < i ==> !((#[trigger] list@[k]).credential@ == fingerprint@
                    && list@[k].signed_for(verifying@)),
        decreases list@.len() - i,
    {
        if list[i].credential.same_as(fingerprint) && list[i].verify(verifying) {
            return true;
        }
        i = i + 1;
    }
    false
}

/// The hash that the next block links to: the last block's, or zeros.
pub open spec fn tail_hash(blocks: Seq<Block>) -> Seq<u8> {
    if blocks.len() == 0 {
        zero_hash()
    } else {
        blocks.last().hash@
    }
}

/// Each block records its predecessor's hash, and the first the zero hash.
pub open spec fn is_linked(blocks: Seq<Block>) -> bool {
    &&& blocks.len() > 0 ==> blocks[0].previous_hash@ == zero_hash()
    &&& forall|i: int|
        0 < i < blocks.len() ==> (#[trigger] blocks[i]).previous_hash@ == blocks[i - 1].hash@
}

/// Some block records a valid issuance with this fingerprint.
pub open spec fn chain_issues(blocks: Seq<Block>, fingerprint: Seq<u8>, public: Seq<u8>) -> bool {
    exists|i: int| 0 <= i < blocks.len() && (#[trigger] blocks[i]).issues(fingerprint, public)
}

/// Some block records a valid revocation with this fingerprint.
pub open spec fn chain_revokes(blocks: Seq<Block>, fingerprint: Seq<u8>, public: Seq<u8>) -> bool {
    exists|i: int| 0 <= i < blocks.len() && (#[trigger] blocks[i]).revokes(fingerprint, public)
}

/// Some block records an issuance of `c` signed by its issuer's secret key.
pub open spec fn chain_has_signed_issuance(blocks: Seq<Block>, c: Credential) -> bool {
    exists|i: int|
        0 <= i < blocks.len() && has_signed_match(
            (#[trigger] blocks[i]).new_credentials@,
            c.fingerprint(false),
            c.issuer.verifying@,
        )
}

/// Some block records a revocation of `c` signed by its issuer's secret key.
pub open spec fn chain_has_signed_revocation(blocks: Seq<Block>, c: Credential) -> bool {
    exists|i: int|
        0 <= i < blocks.len() && has_signed_match(
            (#[trigger] blocks[i]).revoked_credentials@,
            c.fingerprint(true),
            c.issuer.verifying@,
        )
}

/// A credential is valid on a chain when some block records its issuance and
/// none its revocation, both signed under the credential's own issuer key.
pub open spec fn credential_valid(blocks: Seq<Block>, c: Credential) -> bool {
    chain_issues(blocks, c.fingerprint(false), c.issuer.verifying@) && !chain_revokes(
        blocks,
        c.fingerprint(true),
        c.issuer.verifying@,
    )
}

/// On an empty chain no credential is valid: no issuance is recorded.
pub proof fn lemma_empty_chain_validates_nothing(c: Credential)
    ensures
        !credential_valid(Seq::<Block>::empty(), c),
{
}

/// The ledger: finalized blocks, oldest first, which only grows.
#[derive(Debug, Clone)]
pub struct Blockchain {
    chain: Vec<Block>,
}

impl Blockchain {
    /// The blocks, oldest first.
    pub closed spec fn blocks(&self) -> Seq<Block> {
        self.chain@
    }

    /// An empty chain.
    pub fn new() -> (r: Blockchain)
        ensures
            r.blocks().len() == 0,
            is_linked(r.blocks()),
    {
        Blockchain { chain: Vec::new() }
    }

    /// A chain made of blocks that were finalized before, as they stand.
    pub fn from_blocks(blocks: Vec<Block>) -> (r: Blockchain)
        ensures
            r.blocks() == blocks@,
    {
        Blockchain { chain: blocks }
    }

    /// The blocks, oldest first.
    pub fn blocks_ref(&self) -> (r: &Vec<Block>)
        ensures
            r@ == self.blocks(),
    {
        &self.chain
    }

    /// Finalizes `block` linked to the current tail (or to the zero hash on
    /// an empty chain) and appends it. Earlier blocks are left as they were.
    pub fn add_block(&mut self, block: Block, signing: &SigningKey)
        ensures
            final(self).blocks().len() == old(self).blocks().len() + 1,
            final(self).blocks().subrange(0, old(self).blocks().len() as int) == old(
                self,
            ).blocks(),
            final(self).blocks().last().is_finalization_of(
                block,
                tail_hash(old(self).blocks()),
                signing@,
            ),
            is_linked(old(self).blocks()) ==> is_linked(final(self).blocks()),
    {
        let mut block = block;
        let ghost open = block;
        let previous = if self.chain.len() == 0 {
            hash::Hash::default()
        } else {
            self.chain[self.chain.len() - 1].hash
        };
        block.finalize(previous, signing);
        self.chain.push(block);
        assert(self.chain@.subrange(0, old(self).chain@.len() as int) =~= old(self).chain@);
    }

    /// Whether `credential` is currently valid: its issuance is recorded with
    /// a valid signature of its own issuer somewhere on the chain, and no
    /// valid revocation of it is recorded anywhere, before or after.
    pub fn check_credential(&self, credential: &Credential) -> (r: bool)
        ensures
            r == credential_valid(self.blocks(), *credential),
            chain_has_signed_revocation(self.blocks(), *credential) ==> !r,
            chain_has_signed_issuance(self.blocks(), *credential) && !chain_revokes(
                self.blocks(),
                credential.fingerprint(true),
                credential.issuer.verifying@,
            ) ==> r,
    {
        let new_hash = credential.hash(false);
        let revoking_hash = credential.hash(true);
        let ghost issued = credential.fingerprint(false);
        let ghost revoked = credential.fingerprint(true);
        let ghost public = credential.issuer.verifying@;
        let mut found = false;
        let mut i: usize = 0;
        while i < self.chain.len()
            invariant
                i <= self.chain@.len(),
                issued == credential.fingerprint(false),
                revoked == credential.fingerprint(true),
                new_hash@ == issued,
                revoking_hash@ == revoked,
                public == credential.issuer.verifying@,
                found == chain_issues(self.chain@.subrange(0, i as int), issued, public),
                !chain_revokes(self.chain@.subrange(0, i as int), revoked, public),
                !chain_has_signed_revocation(self.chain@.subrange(0, i as int), *credential),
                found || !chain_has_signed_issuance(self.chain@.subrange(0, i as int), *credential),
            decreases self.chain@.len() - i,
        {
            let (f, r) = self.chain[i].find(&new_hash, &revoking_hash, &credential.issuer.verifying);
            let ghost before = self.chain@.subrange(0, i as int);
            let ghost after = self.chain@.subrange(0, i + 1 as int);
            if r {
                assert(after[i as int] == self.chain@[i as int]);
                assert(chain_revokes(self.chain@, revoked, public));
                return false;
            }
            found = found || f;
            i = i + 1;
            assert(after.drop_last() =~= before);
            assert(chain_issues(after, issued, public) == (chain_issues(before, issued, public)
                || after[i - 1].issues(issued, public)));
            assert(chain_has_signed_revocation(after, *credential) ==> chain_has_signed_revocation(
                before,
                *credential,
            ) || has_signed_match(after[i - 1].revoked_credentials@, revoked, public));
            assert(chain_has_signed_issuance(after, *credential) ==> chain_has_signed_issuance(
                before,
                *credential,
            ) || has_signed_match(after[i - 1].new_credentials@, issued, public));
        }
        assert(self.chain@.subrange(0, i as int) =~= self.chain@);
        found
    }
}

impl Default for Blockchain {
    fn default() -> (r: Blockchain)
        ensures
            r.blocks().len() == 0,
    {
        Blockchain::new()
    }
}

} // verus!
