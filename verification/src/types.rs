//! The registry's data types, each with a mathematical view: strings are
//! viewed as character sequences so that contracts can speak of record
//! contents exactly.

use vstd::prelude::*;

verus! {

/// An account address, as the host environment identifies callers.
pub type Address = u64;

/// Lifecycle status of a certificate. `Expired` is a reserved state: no
/// operation currently transitions into it.
#[derive(Clone, Copy, Debug, Eq, PartialEq, Structural)]
pub enum CertificateStatus {
    Active,
    Revoked,
    Expired,
}

/// Mathematical view of a certificate's metadata.
#[verifier::ext_equal]
pub struct MetadataView {
    pub title: Seq<char>,
    pub description: Seq<char>,
    pub course_name: Seq<char>,
    pub completion_date: u64,
    pub ipfs_hash: Seq<char>,
}

/// Descriptive fields attached to a certificate at issuance. `title` and
/// `course_name` must be non-empty for the metadata to be accepted.
#[derive(Debug, Eq, PartialEq)]
pub struct CertificateMetadata {
    pub title: String,
    pub description: String,
    pub course_name: String,
    pub completion_date: u64,
    /// Reference to additional data kept off-registry.
    pub ipfs_hash: String,
}

impl View for CertificateMetadata {
    type V = MetadataView;

    open spec fn view(&self) -> MetadataView {
        MetadataView {
            title: self.title@,
            description: self.description@,
            course_name: self.course_name@,
            completion_date: self.completion_date,
            ipfs_hash: self.ipfs_hash@,
        }
    }
}

impl Clone for CertificateMetadata {
    fn clone(&self) -> (res: Self)
        ensures
            res@ == self@,
    {
        CertificateMetadata {
            title: self.title.clone(),
            description: self.description.clone(),
            course_name: self.course_name.clone(),
            completion_date: self.completion_date,
            ipfs_hash: self.ipfs_hash.clone(),
        }
    }
}

/// Mathematical view of a certificate record.
#[verifier::ext_equal]
pub struct CertView {
    pub id: Seq<char>,
    pub issuer: Address,
    pub recipient: Address,
    pub metadata: MetadataView,
    pub issued_at: u64,
    pub status: CertificateStatus,
}

/// A credential record. Everything but `status` is immutable after
/// creation; `status` only ever moves from `Active` to `Revoked`.
#[derive(Debug, Eq, PartialEq)]
pub struct Certificate {
    pub id: String,
    pub issuer: Address,
    pub recipient: Address,
    pub metadata: CertificateMetadata,
    pub issued_at: u64,
    pub status: CertificateStatus,
}

impl View for Certificate {
    type V = CertView;

    open spec fn view(&self) -> CertView {
        CertView {
            id: self.id@,
            issuer: self.issuer,
            recipient: self.recipient,
            metadata: self.metadata@,
            issued_at: self.issued_at,
            status: self.status,
        }
    }
}

impl Clone for Certificate {
    fn clone(&self) -> (res: Self)
        ensures
            res@ == self@,
    {
        Certificate {
            id: self.id.clone(),
            issuer: self.issuer,
            recipient: self.recipient,
            metadata: self.metadata.clone(),
            issued_at: self.issued_at,
            status: self.status,
        }
    }
}

/// Why an operation was refused. Every error is a terminal business-rule
/// violation; no operation leaves a partial effect behind it.
#[derive(Clone, Copy, Debug, Eq, PartialEq, Structural)]
pub enum CertificateError {
    AlreadyInitialized,
    AlreadyExists,
    NotFound,
    Unauthorized,
    InvalidData,
    AlreadyRevoked,
}

/// Mathematical view of an issuance event.
#[verifier::ext_equal]
pub struct IssuedEventView {
    pub id: Seq<char>,
    pub issuer: Address,
    pub recipient: Address,
    pub issued_at: u64,
}

/// Event recorded exactly once for every successful issuance.
#[derive(Debug, Eq, PartialEq)]
pub struct CertificateIssuedEvent {
    pub id: String,
    pub issuer: Address,
    pub recipient: Address,
    pub issued_at: u64,
}

impl View for CertificateIssuedEvent {
    type V = IssuedEventView;

    open spec fn view(&self) -> IssuedEventView {
        IssuedEventView {
            id: self.id@,
            issuer: self.issuer,
            recipient: self.recipient,
            issued_at: self.issued_at,
        }
    }
}

/// Mathematical view of a revocation event.
#[verifier::ext_equal]
pub struct RevokedEventView {
    pub id: Seq<char>,
    pub revoked_by: Address,
    pub revoked_at: u64,
}

/// Event recorded exactly once for every successful revocation.
#[derive(Debug, Eq, PartialEq)]
pub struct CertificateRevokedEvent {
    pub id: String,
    pub revoked_by: Address,
    pub revoked_at: u64,
}

impl View for CertificateRevokedEvent {
    type V = RevokedEventView;

    open spec fn view(&self) -> RevokedEventView {
        RevokedEventView {
            id: self.id@,
            revoked_by: self.revoked_by,
            revoked_at: self.revoked_at,
        }
    }
}

} // verus!
