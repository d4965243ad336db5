//! Laws of the registry, proved from the transitions in `state` alone.
//! Together with the operation contracts in `certificate_issuance`, which
//! tie every executable operation to its transition, they hold of the
//! running registry.

use vstd::prelude::*;

use crate::state::RegistryState;
use crate::state::metadata_valid;
use crate::state::step_add_issuer;
use crate::state::step_initialize;
use crate::state::step_issue;
use crate::state::step_remove_issuer;
use crate::state::step_revoke;
use crate::types::Address;
use crate::types::CertView;
use crate::types::CertificateError;
use crate::types::CertificateStatus;
use crate::types::MetadataView;

verus! {

/// Initialization is guarded: the first call sets the administrator, and
/// any later call fails with `AlreadyInitialized` and changes nothing —
/// in particular the administrator stays as it was.
pub proof fn lemma_initialize_twice_fails(s: RegistryState, first: Address, second: Address)
    requires
        !s.is_initialized(),
    ensures
        ({
            let (s1, r1) = step_initialize(s, first);
            let (s2, r2) = step_initialize(s1, second);
            &&& r1 == Ok::<(), CertificateError>(())
            &&& s1.admin == Some(first)
            &&& r2 == Err::<(), CertificateError>(CertificateError::AlreadyInitialized)
            &&& s2 == s1
        }),
{
}

/// After adding an issuer it is authorized; after then removing it, it is
/// not.
pub proof fn lemma_add_then_remove_issuer(s: RegistryState, a: Address)
    ensures
        step_add_issuer(s, a).is_issuer(a),
        !step_remove_issuer(step_add_issuer(s, a), a).is_issuer(a),
{
}

/// Issuing with an authorized issuer, a fresh id and valid metadata
/// succeeds: the returned record is stored under its id with status
/// `Active`, it verifies, and the certificate count rises by exactly one.
pub proof fn lemma_issue_success(
    s: RegistryState,
    id: Seq<char>,
    issuer: Address,
    recipient: Address,
    metadata: MetadataView,
    issued_at: u64,
)
    requires
        s.ids_distinct(),
        s.is_issuer(issuer),
        !s.has_certificate(id),
        metadata_valid(metadata),
    ensures
        ({
            let (s1, r) = step_issue(s, id, issuer, recipient, metadata, issued_at);
            let cert = CertView {
                id,
                issuer,
                recipient,
                metadata,
                issued_at,
                status: CertificateStatus::Active,
            };
            &&& r == Ok::<CertView, CertificateError>(cert)
            &&& s1.has_certificate(id)
            &&& s1.certificate(id) == cert
            &&& s1.is_valid(id)
            &&& s1.certificate_count() == s.certificate_count() + 1
            &&& s1.ids_distinct()
        }),
{
    let (s1, r) = step_issue(s, id, issuer, recipient, metadata, issued_at);
    let cert = CertView {
        id,
        issuer,
        recipient,
        metadata,
        issued_at,
        status: CertificateStatus::Active,
    };
    assert(s1.certs[s.certs.len() as int] == cert);
    assert(s1.has_certificate(id));
    let k = s1.cert_index(id);
    assert(0 <= k < s1.certs.len() && s1.certs[k].id == id);
    if k < s.certs.len() {
        assert(s.certs[k].id == id);
        assert(s.has_certificate(id));
    }
    assert(s1.certificate(id) == cert);
    assert forall|i: int, j: int|
        0 <= i < j < s1.certs.len() implies s1.certs[i].id != s1.certs[j].id by {
        if j == s.certs.len() {
            if s.certs[i].id == id {
                assert(s.has_certificate(id));
            }
        }
    }
}

/// An id already in the registry can never be issued again by an
/// authorized issuer: the attempt fails with `AlreadyExists` and changes
/// nothing. With `lemma_revoke_preserves_certificates` this holds even
/// after the certificate was revoked, since revocation removes no id.
pub proof fn lemma_reissue_fails(
    s: RegistryState,
    id: Seq<char>,
    issuer: Address,
    recipient: Address,
    metadata: MetadataView,
    issued_at: u64,
)
    requires
        s.is_issuer(issuer),
        s.has_certificate(id),
    ensures
        step_issue(s, id, issuer, recipient, metadata, issued_at) == (
            s,
            Err::<CertView, CertificateError>(CertificateError::AlreadyExists),
        ),
{
}

/// Revocation never adds or removes records: the certificate count is
/// unchanged, and exactly the ids present before are present after.
pub proof fn lemma_revoke_preserves_certificates(
    s: RegistryState,
    id: Seq<char>,
    revoker: Address,
    revoked_at: u64,
)
    ensures
        step_revoke(s, id, revoker, revoked_at).0.certificate_count() == s.certificate_count(),
        forall|x: Seq<char>|
            #[trigger] step_revoke(s, id, revoker, revoked_at).0.has_certificate(x)
                == s.has_certificate(x),
{
    let s1 = step_revoke(s, id, revoker, revoked_at).0;
    assert forall|x: Seq<char>| #[trigger] s1.has_certificate(x) == s.has_certificate(x) by {
        if s1.has_certificate(x) {
            let i = choose|i: int| 0 <= i < s1.certs.len() && s1.certs[i].id == x;
            assert(s.certs[i].id == x);
        }
        if s.has_certificate(x) {
            let i = choose|i: int| 0 <= i < s.certs.len() && s.certs[i].id == x;
            assert(s1.certs[i].id == x);
        }
    }
}

/// Metadata with an empty title or course name is never accepted: the
/// state is unchanged, and when the earlier checks (authorization,
/// uniqueness) pass, the reported error is `InvalidData` — so no record
/// is created and the count does not move.
pub proof fn lemma_issue_invalid_metadata(
    s: RegistryState,
    id: Seq<char>,
    issuer: Address,
    recipient: Address,
    metadata: MetadataView,
    issued_at: u64,
)
    requires
        !metadata_valid(metadata),
    ensures
        ({
            let (s1, r) = step_issue(s, id, issuer, recipient, metadata, issued_at);
            &&& s1 == s
            &&& r is Err
            &&& s.is_issuer(issuer) && !s.has_certificate(id) ==> r == Err::<
                CertView,
                CertificateError,
            >(CertificateError::InvalidData)
        }),
{
}

/// The failing revocations: an unknown id gives `NotFound`, an already
/// revoked certificate gives `AlreadyRevoked`, and a caller who is
/// neither the record's issuer nor the administrator gives
/// `Unauthorized`. Each failure leaves the state unchanged.
pub proof fn lemma_revoke_errors(s: RegistryState, id: Seq<char>, revoker: Address, revoked_at: u64)
    ensures
        ({
            let (s1, r) = step_revoke(s, id, revoker, revoked_at);
            &&& !s.has_certificate(id) ==> s1 == s && r == Err::<(), CertificateError>(
                CertificateError::NotFound,
            )
            &&& s.has_certificate(id) && s.certificate(id).status == CertificateStatus::Revoked
                ==> s1 == s && r == Err::<(), CertificateError>(CertificateError::AlreadyRevoked)
            &&& s.has_certificate(id) && s.certificate(id).status != CertificateStatus::Revoked
                && revoker != s.certificate(id).issuer && Some(revoker) != s.admin ==> s1 == s && r
                == Err::<(), CertificateError>(CertificateError::Unauthorized)
        }),
{
}

/// A successfully revoked certificate no longer verifies.
pub proof fn lemma_revoked_not_valid(
    s: RegistryState,
    id: Seq<char>,
    revoker: Address,
    revoked_at: u64,
)
    requires
        s.ids_distinct(),
    ensures
        ({
            let (s1, r) = step_revoke(s, id, revoker, revoked_at);
            r is Ok ==> !s1.is_valid(id)
        }),
{
    let (s1, r) = step_revoke(s, id, revoker, revoked_at);
    if r is Ok {
        let i = s.cert_index(id);
        assert(0 <= i < s.certs.len() && s.certs[i].id == id);
        assert(s1.certs[i].status == CertificateStatus::Revoked);
        assert(s1.has_certificate(id)) by {
            assert(s1.certs[i].id == id);
        }
        let k = s1.cert_index(id);
        assert(0 <= k < s1.certs.len() && s1.certs[k].id == id);
        if k != i {
            assert(s.certs[k].id == id);
            if k < i {
                assert(s.certs[k].id != s.certs[i].id);
            } else {
                assert(s.certs[i].id != s.certs[k].id);
            }
        }
    }
}

} // verus!
