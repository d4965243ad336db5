use certificate_registry::certificate_issuance::CertificateContract;
use certificate_registry::types::CertificateError;
use certificate_registry::types::CertificateMetadata;
use certificate_registry::types::CertificateStatus;

const ADMIN: u64 = 10;
const ISSUER: u64 = 20;
const RECIPIENT: u64 = 30;

fn metadata(title: &str, course_name: &str) -> CertificateMetadata {
    CertificateMetadata {
        title: title.to_string(),
        description: "A course".to_string(),
        course_name: course_name.to_string(),
        completion_date: 1704067200,
        ipfs_hash: "QmHash".to_string(),
    }
}

#[test]
fn test_full_lifecycle() {
    let mut registry = CertificateContract::new();

    registry.initialize(ADMIN).unwrap();
    registry.add_issuer(ISSUER);

    let result =
        registry.issue_certificate("C1".to_string(), ISSUER, RECIPIENT, metadata("T", "X"), 1000);
    let certificate = result.unwrap();
    assert_eq!(certificate.status, CertificateStatus::Active);
    assert_eq!(registry.get_certificate_count(), 1);

    // The admin may revoke a certificate another issuer created.
    assert_eq!(registry.revoke_certificate("C1".to_string(), ADMIN, 2000), Ok(()));
    assert!(!registry.verify_certificate(&"C1".to_string()));

    // Revoking twice fails.
    assert_eq!(
        registry.revoke_certificate("C1".to_string(), ADMIN, 3000),
        Err(CertificateError::AlreadyRevoked)
    );
}

#[test]
fn test_reissue_after_revocation_fails() {
    let mut registry = CertificateContract::new();

    registry.initialize(ADMIN).unwrap();
    registry.add_issuer(ISSUER);

    registry
        .issue_certificate("C1".to_string(), ISSUER, RECIPIENT, metadata("T", "X"), 1000)
        .unwrap();
    registry.revoke_certificate("C1".to_string(), ISSUER, 2000).unwrap();

    // Ids are never reusable, even after revocation.
    let again =
        registry.issue_certificate("C1".to_string(), ISSUER, RECIPIENT, metadata("T", "X"), 3000);
    assert_eq!(again, Err(CertificateError::AlreadyExists));
    assert_eq!(registry.get_certificate_count(), 1);
}

#[test]
fn test_empty_course_name_is_invalid() {
    let mut registry = CertificateContract::new();

    registry.initialize(ADMIN).unwrap();
    registry.add_issuer(ISSUER);

    let result =
        registry.issue_certificate("C1".to_string(), ISSUER, RECIPIENT, metadata("T", ""), 1000);
    assert_eq!(result, Err(CertificateError::InvalidData));

    // The failed attempt left no trace.
    assert_eq!(registry.get_certificate_count(), 0);
    assert_eq!(
        registry.get_certificate(&"C1".to_string()),
        Err(CertificateError::NotFound)
    );
}

#[test]
fn test_revoke_unknown_id_not_found() {
    let mut registry = CertificateContract::new();

    registry.initialize(ADMIN).unwrap();

    assert_eq!(
        registry.revoke_certificate("C404".to_string(), ADMIN, 1000),
        Err(CertificateError::NotFound)
    );
}

#[test]
fn test_removed_issuer_cannot_issue() {
    let mut registry = CertificateContract::new();

    registry.initialize(ADMIN).unwrap();
    registry.add_issuer(ISSUER);
    registry.remove_issuer(ISSUER);

    let result =
        registry.issue_certificate("C1".to_string(), ISSUER, RECIPIENT, metadata("T", "X"), 1000);
    assert_eq!(result, Err(CertificateError::Unauthorized));
}

#[test]
fn test_recipient_query_returns_no_ids() {
    let mut registry = CertificateContract::new();

    registry.initialize(ADMIN).unwrap();
    registry.add_issuer(ISSUER);
    registry
        .issue_certificate("C1".to_string(), ISSUER, RECIPIENT, metadata("T", "X"), 1000)
        .unwrap();

    // No recipient index exists yet: the list is empty for everyone.
    assert!(registry.get_certificates_by_recipient(RECIPIENT).is_empty());
}

#[test]
fn test_events_are_recorded_once() {
    let mut registry = CertificateContract::new();

    registry.initialize(ADMIN).unwrap();
    registry.add_issuer(ISSUER);
    registry
        .issue_certificate("C1".to_string(), ISSUER, RECIPIENT, metadata("T", "X"), 1000)
        .unwrap();
    registry.revoke_certificate("C1".to_string(), ADMIN, 2000).unwrap();

    let issued = registry.get_issued_events();
    assert_eq!(issued.len(), 1);
    assert_eq!(issued[0].id, "C1".to_string());
    assert_eq!(issued[0].issuer, ISSUER);
    assert_eq!(issued[0].recipient, RECIPIENT);
    assert_eq!(issued[0].issued_at, 1000);

    let revoked = registry.get_revoked_events();
    assert_eq!(revoked.len(), 1);
    assert_eq!(revoked[0].id, "C1".to_string());
    assert_eq!(revoked[0].revoked_by, ADMIN);
    assert_eq!(revoked[0].revoked_at, 2000);
}
