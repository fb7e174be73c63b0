use grant_contracts::cross_chain::{CrossChainMetadata, MetadataError, ReferenceType};
use grant_contracts::types::Address;

const NOW: u64 = 1_700_000_000;

fn s(text: &str) -> String {
    text.to_string()
}

fn with_grant(grant_id: u64, creator: Address) -> CrossChainMetadata {
    let mut m = CrossChainMetadata::new();
    m.create_grant_metadata(grant_id, [1u8; 32], s("QmTest123"), s("Grant"), creator, true, NOW).unwrap();
    m
}

#[test]
fn test_cross_chain_metadata_creation() {
    let mut m = CrossChainMetadata::new();
    let creator = Address(7);
    let result = m.create_grant_metadata(1u64, [1u8; 32], s("QmTest123"), s("Grant"), creator, true, NOW);
    assert!(result.is_ok());
    let result = m.create_grant_metadata(1u64, [1u8; 32], s("QmTest123"), s("Grant"), creator, true, NOW);
    assert!(result.is_err());
}

#[test]
fn test_cross_chain_references() {
    let creator = Address(7);
    let grant_id = 1u64;
    let mut m = with_grant(grant_id, creator);
    let chain_id = s("ethereum");
    let external_id = s("0x1234567890123456789012345678901234567890");

    let result = m.add_cross_chain_reference(grant_id, chain_id.clone(), external_id.clone(), ReferenceType::Contract, creator, NOW);
    assert!(result.is_ok());
    let result = m.add_cross_chain_reference(grant_id, chain_id, external_id, ReferenceType::Contract, creator, NOW);
    assert!(result.is_err());

    let references = m.get_cross_chain_references(grant_id).unwrap();
    assert_eq!(references.len(), 1);
    assert_eq!(references[0].chain_id, "ethereum");

    let grants = m.get_grants_by_chain(s("ethereum"));
    assert_eq!(grants.len(), 1);
    assert_eq!(grants[0], grant_id);
}

#[test]
fn test_cross_chain_verification() {
    let creator = Address(7);
    let verifier = Address(8);
    let grant_id = 1u64;
    let mut m = with_grant(grant_id, creator);
    let chain_id = s("ethereum");
    let external_id = s("0x1234567890123456789012345678901234567890");
    m.add_cross_chain_reference(grant_id, chain_id.clone(), external_id.clone(), ReferenceType::Contract, creator, NOW).unwrap();

    let result = m.verify_cross_chain_reference(grant_id, chain_id, external_id, verifier, true);
    assert!(result.is_ok());
    let references = m.get_cross_chain_references(grant_id).unwrap();
    assert_eq!(references[0].verified, true);
}

#[test]
fn test_metadata_search_and_statistics() {
    let creator = Address(7);
    let mut m = CrossChainMetadata::new();
    for i in 1..=3u64 {
        let schema_type = if i == 1 { s("Grant") } else { s("Project") };
        let public = i != 2;
        m.create_grant_metadata(i, [i as u8; 32], format!("QmTest{}", i), schema_type, creator, public, NOW).unwrap();
    }

    let all_metadata = m.search_metadata(None, false, false, 10, NOW);
    assert_eq!(all_metadata.len(), 2);
    let grant_metadata = m.search_metadata(Some(s("Grant")), false, false, 10, NOW);
    assert_eq!(grant_metadata.len(), 1);

    let (total, verified, public_grants, chains) = m.get_metadata_statistics(NOW);
    assert_eq!(total, 3);
    assert_eq!(verified, 0);
    assert_eq!(public_grants, 2);
    assert_eq!(chains, 0);
}

#[test]
fn test_metadata_validation() {
    let mut m = CrossChainMetadata::new();
    let validator = Address(9);
    let metadata_hash = [1u8; 32];
    let errors: Vec<String> = Vec::new();

    assert!(m.validate_metadata(metadata_hash, validator, 85, errors.clone(), NOW).is_ok());
    let validation = m.get_metadata_validation(metadata_hash);
    assert!(validation.is_some());
    assert!(validation.unwrap().valid);

    assert!(m.validate_metadata([2u8; 32], validator, 65, errors, NOW).is_ok());
    let validation = m.get_metadata_validation([2u8; 32]);
    assert!(validation.is_some());
    assert!(!validation.unwrap().valid);
}

#[test]
fn test_metadata_update() {
    let creator = Address(7);
    let grant_id = 1u64;
    let mut m = with_grant(grant_id, creator);
    let new_hash = [2u8; 32];
    let new_cid = s("QmUpdated456");
    assert!(m.update_metadata(grant_id, new_hash, new_cid.clone(), creator, NOW).is_ok());

    let updated_metadata = m.get_grant_metadata(grant_id, NOW).unwrap();
    assert_eq!(updated_metadata.metadata_hash, new_hash);
    assert_eq!(updated_metadata.ipfs_cid, new_cid);
    assert_eq!(updated_metadata.version, 2);

    let result = m.update_metadata(grant_id, [3u8; 32], s("QmFake789"), Address(99), NOW);
    assert!(result.is_err());
}

#[test]
fn metadata_uses_the_stellar_context_and_expires_after_a_year() {
    let creator = Address(7);
    let m = with_grant(5, creator);
    let md = m.get_grant_metadata(5, NOW).unwrap();
    assert_eq!(md.context, "https://stellar.org/contexts/grant");
    assert_eq!(md.expires_at, NOW + 365 * 24 * 60 * 60);
    assert!(!md.verified);
    assert_eq!(m.get_grant_metadata(5, md.expires_at + 1).err(), Some(MetadataError::MetadataExpired));
    assert_eq!(m.get_grant_metadata(6, NOW).err(), Some(MetadataError::MetadataNotFound));
}

#[test]
fn references_are_limited_and_strings_bounded() {
    let creator = Address(7);
    let mut m = with_grant(1, creator);
    for k in 0..10 {
        m.add_cross_chain_reference(1, s("polygon"), format!("id-{}", k), ReferenceType::Project, creator, NOW).unwrap();
    }
    assert_eq!(
        m.add_cross_chain_reference(1, s("polygon"), s("id-10"), ReferenceType::Project, creator, NOW),
        Err(MetadataError::MaxReferencesExceeded)
    );
    assert_eq!(
        m.add_cross_chain_reference(1, "c".repeat(33), s("x"), ReferenceType::Custom, creator, NOW),
        Err(MetadataError::StringTooLong)
    );
    assert_eq!(
        m.create_grant_metadata(2, [0u8; 32], "q".repeat(65), s("Grant"), creator, true, NOW),
        Err(MetadataError::StringTooLong)
    );
    assert_eq!(
        m.verify_cross_chain_reference(1, s("ethereum"), s("nope"), creator, true),
        Err(MetadataError::ReferenceNotFound)
    );
    let (_, _, _, chains) = m.get_metadata_statistics(NOW);
    assert_eq!(chains, 1);
    assert_eq!(m.get_grants_by_chain(s("polygon")).len(), 10);
}

#[test]
fn revalidation_replaces_the_earlier_result() {
    let mut m = CrossChainMetadata::new();
    m.validate_metadata([4u8; 32], Address(1), 50, Vec::new(), NOW).unwrap();
    m.validate_metadata([4u8; 32], Address(2), 90, vec![s("none")], NOW + 1).unwrap();
    let v = m.get_metadata_validation([4u8; 32]).unwrap();
    assert!(v.valid);
    assert_eq!(v.validator, Address(2));
    assert_eq!(m.validations.len(), 1);
}
