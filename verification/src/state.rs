//! The abstract registry state and the transition each operation makes on
//! it. Executable code in `certificate_issuance` is proved to follow these
//! transitions exactly; the laws in `laws` are proved from them alone.

use vstd::prelude::*;

use crate::types::CertView;
use crate::types::CertificateError;
use crate::types::CertificateStatus;
use crate::types::IssuedEventView;
use crate::types::MetadataView;
use crate::types::RevokedEventView;

verus! {

/// Everything the registry remembers: the administrator (once set), the
/// set of authorized issuers, every certificate ever issued, and the
/// events emitted so far.
#[verifier::ext_equal]
pub struct RegistryState {
    pub admin: Option<u64>,
    pub issuers: Set<u64>,
    pub certs: Seq<CertView>,
    pub issued_events: Seq<IssuedEventView>,
    pub revoked_events: Seq<RevokedEventView>,
}

impl RegistryState {
    /// The state before any operation has run.
    pub open spec fn empty() -> RegistryState {
        RegistryState {
            admin: None,
            issuers: Set::empty(),
            certs: Seq::empty(),
            issued_events: Seq::empty(),
            revoked_events: Seq::empty(),
        }
    }

    pub open spec fn is_initialized(self) -> bool {
        self.admin is Some
    }

    pub open spec fn is_issuer(self, a: u64) -> bool {
        self.issuers.contains(a)
    }

    /// Certificate ids are never reused, so at most one record carries any
    /// given id.
    pub open spec fn ids_distinct(self) -> bool {
        forall|i: int, j: int|
            0 <= i < j < self.certs.len() ==> self.certs[i].id != self.certs[j].id
    }

    pub open spec fn has_certificate(self, id: Seq<char>) -> bool {
        exists|i: int| 0 <= i < self.certs.len() && self.certs[i].id == id
    }

    /// Position of the record carrying `id`; meaningful when
    /// `has_certificate(id)` holds.
    pub open spec fn cert_index(self, id: Seq<char>) -> int {
        choose|i: int| 0 <= i < self.certs.len() && self.certs[i].id == id
    }

    /// The record carrying `id`; meaningful when `has_certificate(id)`
    /// holds.
    pub open spec fn certificate(self, id: Seq<char>) -> CertView {
        self.certs[self.cert_index(id)]
    }

    /// How many certificates were ever issued. Records are never deleted,
    /// so this is exactly the number of issuances.
    pub open spec fn certificate_count(self) -> nat {
        self.certs.len()
    }

    /// A certificate verifies exactly when it exists and is still active.
    pub open spec fn is_valid(self, id: Seq<char>) -> bool {
        self.has_certificate(id) && self.certificate(id).status == CertificateStatus::Active
    }
}

/// Metadata is acceptable when its required text fields are non-empty.
pub open spec fn metadata_valid(m: MetadataView) -> bool {
    m.title.len() > 0 && m.course_name.len() > 0
}

/// Initialization: sets the administrator once and makes it an issuer;
/// refused thereafter.
pub open spec fn step_initialize(s: RegistryState, admin: u64) -> (RegistryState, Result<
    (),
    CertificateError,
>) {
    if s.is_initialized() {
        (s, Err(CertificateError::AlreadyInitialized))
    } else {
        (
            RegistryState { admin: Some(admin), issuers: s.issuers.insert(admin), ..s },
            Ok(()),
        )
    }
}

/// Authorizes `issuer`; idempotent. The caller must be the administrator,
/// which the host environment checks before the operation runs.
pub open spec fn step_add_issuer(s: RegistryState, issuer: u64) -> RegistryState {
    RegistryState { issuers: s.issuers.insert(issuer), ..s }
}

/// Withdraws authorization from `issuer`; removing a non-member changes
/// nothing.
pub open spec fn step_remove_issuer(s: RegistryState, issuer: u64) -> RegistryState {
    RegistryState { issuers: s.issuers.remove(issuer), ..s }
}

/// Issuance: checked in the order authorization, uniqueness, data
/// validity; on success appends the new active record and its event.
pub open spec fn step_issue(
    s: RegistryState,
    id: Seq<char>,
    issuer: u64,
    recipient: u64,
    metadata: MetadataView,
    issued_at: u64,
) -> (RegistryState, Result<CertView, CertificateError>) {
    if !s.is_issuer(issuer) {
        (s, Err(CertificateError::Unauthorized))
    } else if s.has_certificate(id) {
        (s, Err(CertificateError::AlreadyExists))
    } else if !metadata_valid(metadata) {
        (s, Err(CertificateError::InvalidData))
    } else {
        let cert = CertView {
            id,
            issuer,
            recipient,
            metadata,
            issued_at,
            status: CertificateStatus::Active,
        };
        let ev = IssuedEventView { id, issuer, recipient, issued_at };
        (
            RegistryState {
                certs: s.certs.push(cert),
                issued_events: s.issued_events.push(ev),
                ..s
            },
            Ok(cert),
        )
    }
}

/// Revocation: checked in the order existence, current status,
/// authorization (issuer of the record or the administrator); on success
/// marks the record revoked and appends the event.
pub open spec fn step_revoke(
    s: RegistryState,
    id: Seq<char>,
    revoker: u64,
    revoked_at: u64,
) -> (RegistryState, Result<(), CertificateError>) {
    if !s.has_certificate(id) {
        (s, Err(CertificateError::NotFound))
    } else {
        let i = s.cert_index(id);
        let cert = s.certs[i];
        if cert.status == CertificateStatus::Revoked {
            (s, Err(CertificateError::AlreadyRevoked))
        } else if revoker != cert.issuer && Some(revoker) != s.admin {
            (s, Err(CertificateError::Unauthorized))
        } else {
            let updated = CertView { status: CertificateStatus::Revoked, ..cert };
            let ev = RevokedEventView { id, revoked_by: revoker, revoked_at };
            (
                RegistryState {
                    certs: s.certs.update(i, updated),
                    revoked_events: s.revoked_events.push(ev),
                    ..s
                },
                Ok(()),
            )
        }
    }
}

} // verus!
