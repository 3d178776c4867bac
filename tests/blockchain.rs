use attributes_attestation::blockchain::{Block, Blockchain};
use attributes_attestation::credential::{
    Attribute, Credential, Issuer, SignedCredential, Subject, ValidDuration,
};
use attributes_attestation::dates::Date;
use attributes_attestation::hash;
use attributes_attestation::keys::SigningKey;
use ed25519_dalek::Verifier;
use sha2::{Digest, Sha512};

fn credential_of(issuer: Issuer, value: &str) -> Credential {
    let subject = Subject::new("Alice".to_string(), "Doe".to_string());
    let attr = Attribute::new("Driving Licence".to_string(), value.to_string());
    let valid = ValidDuration::new(
        Date::from_ymd_opt(2024, 1, 1).unwrap(),
        Some(Date::from_ymd_opt(2030, 1, 1).unwrap()),
    );
    Credential::new(attr, issuer, subject, valid)
}

fn sample_credential() -> (Credential, SigningKey) {
    let (issuer, signing) = Issuer::new("Test Issuer".to_string());
    (credential_of(issuer, "Driving Licence Category B"), signing)
}

#[test]
fn test_block_add_credential_and_finalize() {
    let (credential, signing) = sample_credential();
    let signed = credential.sign(&signing, false);
    let issuer = credential.issuer.clone();
    let mut block = Block::new(issuer);
    block.add_credential(signed, false);
    block.finalize(hash::Hash::default(), &signing);
    assert_ne!(block.hash.0, [0u8; 64]);
    assert_ne!(block.signature.0, [0u8; 64]);
}

#[test]
fn test_block_add_revoked_credential() {
    let (credential, signing) = sample_credential();
    let signed = credential.sign(&signing, true);
    let issuer = credential.issuer.clone();
    let mut block = Block::new(issuer);
    block.add_credential(signed, true);
    block.finalize(hash::Hash::default(), &signing);
    assert!(block.revoked_credentials.iter().any(|c| c.credential == signed.credential));
}

#[test]
fn test_blockchain_add_block_and_check_credential() {
    let (credential, signing) = sample_credential();
    let signed = credential.sign(&signing, false);
    let issuer = credential.issuer.clone();

    let mut block = Block::new(issuer);
    block.add_credential(signed, false);

    let mut chain = Blockchain::new();
    chain.add_block(block, &signing);

    assert!(chain.check_credential(&credential));
}

#[test]
fn test_blockchain_revoked_credential_returns_false() {
    let (credential, signing) = sample_credential();
    let issuer = credential.issuer.clone();
    let signed = credential.sign(&signing, false);
    let revoked = credential.sign(&signing, true);

    let mut block = Block::new(issuer);
    block.add_credential(signed, false);
    block.add_credential(revoked, true);

    let mut chain = Blockchain::new();
    chain.add_block(block, &signing);

    assert!(!chain.check_credential(&credential));
}

#[test]
fn open_block_starts_empty_and_zeroed() {
    let (credential, _) = sample_credential();
    let block = Block::new(credential.issuer.clone());
    assert!(block.new_credentials.is_empty());
    assert!(block.revoked_credentials.is_empty());
    assert_eq!(block.previous_hash.0, [0u8; 64]);
    assert_eq!(block.hash.0, [0u8; 64]);
    assert_eq!(block.signature.0, [0u8; 64]);
    assert_eq!(block.signer.name, "Test Issuer");
}

#[test]
fn add_credential_sorts_by_flag_and_keeps_order() {
    let (credential, signing) = sample_credential();
    let a = credential.sign(&signing, false);
    let b = credential.sign(&signing, true);
    let c = SignedCredential::new(hash::Hash([3u8; 64]), hash::Hash([4u8; 64]));
    let mut block = Block::new(credential.issuer.clone());
    block.add_credential(a, false);
    block.add_credential(b, true);
    block.add_credential(c, false);
    assert_eq!(block.new_credentials.len(), 2);
    assert_eq!(block.new_credentials[0].credential, a.credential);
    assert_eq!(block.new_credentials[1].credential, c.credential);
    assert_eq!(block.revoked_credentials.len(), 1);
    assert_eq!(block.revoked_credentials[0].credential, b.credential);
}

#[test]
fn finalized_block_hash_and_signature_follow_the_recipe() {
    let (credential, signing) = sample_credential();
    let a = credential.sign(&signing, false);
    let b = credential.sign(&signing, true);
    let mut block = Block::new(credential.issuer.clone());
    block.add_credential(a, false);
    block.add_credential(b, true);
    let previous = hash::Hash([5u8; 64]);
    block.finalize(previous, &signing);
    assert_eq!(block.previous_hash, previous);

    let stamp = chrono::DateTime::from_timestamp(block.timestamp.secs, block.timestamp.nanos)
        .unwrap()
        .to_string();
    let mut h = Sha512::new();
    h.update(stamp.as_bytes());
    h.update(a.credential.0);
    h.update(a.signature.0);
    h.update(b.credential.0);
    h.update(b.signature.0);
    h.update(previous.0);
    h.update(block.signer.uuid);
    h.update(block.signer.name.as_bytes());
    h.update(block.signer.verifying.0);
    let expected: [u8; 64] = h.finalize().into();
    assert_eq!(block.hash.0, expected);

    let public = ed25519_dalek::VerifyingKey::from_bytes(&block.signer.verifying.0).unwrap();
    let signature = ed25519_dalek::Signature::from_bytes(&block.signature.0);
    assert!(public.verify(&block.hash.0, &signature).is_ok());
}

#[test]
fn chain_links_each_block_to_its_predecessor() {
    let (credential, signing) = sample_credential();
    let mut chain = Blockchain::new();
    for _ in 0..3 {
        let mut block = Block::new(credential.issuer.clone());
        block.add_credential(credential.sign(&signing, false), false);
        chain.add_block(block, &signing);
    }
    let blocks = chain.blocks_ref();
    assert_eq!(blocks.len(), 3);
    assert_eq!(blocks[0].previous_hash.0, [0u8; 64]);
    for i in 1..blocks.len() {
        assert_eq!(blocks[i].previous_hash, blocks[i - 1].hash);
    }
}

#[test]
fn adding_a_block_leaves_earlier_blocks_alone() {
    let (credential, signing) = sample_credential();
    let mut chain = Blockchain::default();
    let mut block = Block::new(credential.issuer.clone());
    block.add_credential(credential.sign(&signing, false), false);
    chain.add_block(block, &signing);
    let first_hash = chain.blocks_ref()[0].hash;
    let first_signature = chain.blocks_ref()[0].signature;
    chain.add_block(Block::new(credential.issuer.clone()), &signing);
    assert_eq!(chain.blocks_ref()[0].hash, first_hash);
    assert_eq!(chain.blocks_ref()[0].signature, first_signature);
    assert_eq!(chain.blocks_ref()[1].previous_hash, first_hash);
}

#[test]
fn other_credentials_revocation_does_not_interfere() {
    let (issuer, signing) = Issuer::new("Test Issuer".to_string());
    let original = credential_of(issuer.clone(), "Category B");
    let other = credential_of(issuer.clone(), "Category C");
    let mut chain = Blockchain::new();
    let mut first = Block::new(issuer.clone());
    first.add_credential(original.sign(&signing, false), false);
    chain.add_block(first, &signing);
    let mut second = Block::new(issuer.clone());
    second.add_credential(other.sign(&signing, true), true);
    chain.add_block(second, &signing);
    assert!(chain.check_credential(&original));
    assert!(!chain.check_credential(&other));
}

#[test]
fn empty_chain_holds_no_valid_credential() {
    let (credential, _) = sample_credential();
    let chain = Blockchain::new();
    assert!(!chain.check_credential(&credential));
}

#[test]
fn tampered_fingerprint_makes_the_credential_invalid() {
    let (credential, signing) = sample_credential();
    let mut block = Block::new(credential.issuer.clone());
    block.add_credential(credential.sign(&signing, false), false);
    let mut chain = Blockchain::new();
    chain.add_block(block, &signing);
    assert!(chain.check_credential(&credential));

    let mut blocks = chain.blocks_ref().clone();
    blocks[0].new_credentials[0].credential.0[17] ^= 0x40;
    let reloaded = Blockchain::from_blocks(blocks);
    assert!(!reloaded.check_credential(&credential));
}

#[test]
fn revocation_wins_even_before_the_issuance() {
    let (credential, signing) = sample_credential();
    let mut chain = Blockchain::new();
    let mut first = Block::new(credential.issuer.clone());
    first.add_credential(credential.sign(&signing, true), true);
    chain.add_block(first, &signing);
    let mut second = Block::new(credential.issuer.clone());
    second.add_credential(credential.sign(&signing, false), false);
    chain.add_block(second, &signing);
    assert!(!chain.check_credential(&credential));
}

#[test]
fn revocation_alone_without_issuance_is_not_valid() {
    let (credential, signing) = sample_credential();
    let mut chain = Blockchain::new();
    let mut block = Block::new(credential.issuer.clone());
    block.add_credential(credential.sign(&signing, true), true);
    chain.add_block(block, &signing);
    assert!(!chain.check_credential(&credential));
}

#[test]
fn only_the_credentials_own_issuer_key_counts() {
    let (credential, signing) = sample_credential();
    let (author, author_key) = Issuer::new("Block Author".to_string());

    // Issuance signed by the block author instead of the issuer: not valid.
    let mut chain = Blockchain::new();
    let mut block = Block::new(author.clone());
    block.add_credential(credential.sign(&author_key, false), false);
    chain.add_block(block, &author_key);
    assert!(!chain.check_credential(&credential));

    // Genuine issuance in another author's block, and a revocation forged
    // with the author's key: the credential stays valid.
    let mut chain = Blockchain::new();
    let mut block = Block::new(author.clone());
    block.add_credential(credential.sign(&signing, false), false);
    block.add_credential(credential.sign(&author_key, true), true);
    chain.add_block(block, &author_key);
    assert!(chain.check_credential(&credential));
}

#[test]
fn a_bad_copy_does_not_hide_a_valid_issuance() {
    let (credential, signing) = sample_credential();
    let genuine = credential.sign(&signing, false);
    let mut forged = genuine;
    forged.signature.0[0] ^= 1;
    let mut block = Block::new(credential.issuer.clone());
    block.add_credential(forged, false);
    block.add_credential(genuine, false);
    let fingerprint = credential.hash(false);
    let revocation = credential.hash(true);
    assert_eq!(block.find(&fingerprint, &revocation, &credential.issuer.verifying), (true, false));

    let mut only_forged = Block::new(credential.issuer.clone());
    only_forged.add_credential(forged, false);
    assert_eq!(
        only_forged.find(&fingerprint, &revocation, &credential.issuer.verifying),
        (false, false)
    );
}
