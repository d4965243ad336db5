//! The executable registry. Every operation is proved to perform exactly
//! the transition that `state` describes on the registry's abstract view.

use vstd::prelude::*;

use crate::state::RegistryState;
use crate::state::step_add_issuer;
use crate::state::step_initialize;
use crate::state::step_issue;
use crate::state::step_remove_issuer;
use crate::state::step_revoke;
use crate::types::Address;
use crate::types::CertView;
use crate::types::Certificate;
use crate::types::CertificateError;
use crate::types::CertificateIssuedEvent;
use crate::types::CertificateMetadata;
use crate::types::CertificateRevokedEvent;
use crate::types::CertificateStatus;
use crate::types::IssuedEventView;
use crate::types::RevokedEventView;

verus! {

/// The views of a sequence of certificate records.
pub open spec fn cert_views(s: Seq<Certificate>) -> Seq<CertView> {
    s.map_values(|c: Certificate| c@)
}

/// The views of a sequence of issuance events.
pub open spec fn issued_views(s: Seq<CertificateIssuedEvent>) -> Seq<IssuedEventView> {
    s.map_values(|e: CertificateIssuedEvent| e@)
}

/// The views of a sequence of revocation events.
pub open spec fn revoked_views(s: Seq<CertificateRevokedEvent>) -> Seq<RevokedEventView> {
    s.map_values(|e: CertificateRevokedEvent| e@)
}

/// Maps an issuance result to its mathematical view: the record's view on
/// success, the error unchanged on failure.
pub open spec fn issue_result_view(r: Result<Certificate, CertificateError>) -> Result<
    CertView,
    CertificateError,
> {
    match r {
        Ok(c) => Ok(c@),
        Err(e) => Err(e),
    }
}

/// Appending to a duplicate-free list adds exactly one member to the set
/// it represents.
proof fn lemma_push_to_set(s: Seq<Address>, a: Address)
    ensures
        s.push(a).to_set() == s.to_set().insert(a),
{
    s.lemma_push_to_set_commute(a);
    assert(s.push(a).to_set() =~= s.to_set().insert(a));
}

/// Removing the one position holding `a` from a duplicate-free list
/// removes exactly `a` from the set it represents.
proof fn lemma_remove_to_set(s: Seq<Address>, i: int, a: Address)
    requires
        0 <= i < s.len(),
        s[i] == a,
        forall|p: int, q: int| 0 <= p < q < s.len() ==> s[p] != s[q],
    ensures
        s.remove(i).to_set() == s.to_set().remove(a),
{
    s.remove_ensures(i);
    let r = s.remove(i);
    assert forall|x: Address| r.to_set().contains(x) == s.to_set().remove(a).contains(x) by {
        if r.contains(x) {
            let j = choose|j: int| 0 <= j < r.len() && r[j] == x;
            if j < i {
                assert(s[j] == x);
            } else {
                assert(s[j + 1] == x);
            }
        }
        if s.contains(x) && x != a {
            let j = choose|j: int| 0 <= j < s.len() && s[j] == x;
            if j < i {
                assert(r[j] == x);
            } else {
                assert(r[j - 1] == x);
            }
        }
    }
    assert(r.to_set() =~= s.to_set().remove(a));
}

/// The certificate registry. Its view is the abstract `RegistryState`;
/// every operation's contract relates the view after the call to the view
/// before it through the `state` transitions.
pub struct CertificateContract {
    admin: Option<Address>,
    issuers: Vec<Address>,
    certificates: Vec<Certificate>,
    certificate_count: u64,
    issued_events: Vec<CertificateIssuedEvent>,
    revoked_events: Vec<CertificateRevokedEvent>,
}

impl View for CertificateContract {
    type V = RegistryState;

    closed spec fn view(&self) -> RegistryState {
        RegistryState {
            admin: self.admin,
            issuers: self.issuers@.to_set(),
            certs: cert_views(self.certificates@),
            issued_events: issued_views(self.issued_events@),
            revoked_events: revoked_views(self.revoked_events@),
        }
    }
}

impl CertificateContract {
    /// Well-formedness: ids are unique, the stored counter equals the
    /// number of records, issuance events match records one to one, the
    /// issuer list holds no duplicates, and nothing predates
    /// initialization.
    pub closed spec fn wf(self) -> bool {
        &&& self@.ids_distinct()
        &&& self.certificate_count == self.certificates@.len()
        &&& self.issued_events@.len() == self.certificates@.len()
        &&& (forall|i: int, j: int|
            0 <= i < j < self.issuers@.len() ==> self.issuers@[i] != self.issuers@[j])
        &&& (self.admin is None ==> self.issuers@.len() == 0 && self.certificates@.len() == 0
            && self.issued_events@.len() == 0 && self.revoked_events@.len() == 0)
    }

    /// Well-formedness includes the uniqueness of stored ids; client
    /// proofs need this to reason about lookups in the registry's view.
    pub proof fn lemma_wf_ids_distinct(self)
        requires
            self.wf(),
        ensures
            self@.ids_distinct(),
    {
    }

    /// A fresh registry: uninitialized and empty.
    pub fn new() -> (r: CertificateContract)
        ensures
            r.wf(),
            r@ == RegistryState::empty(),
    {
        let r = CertificateContract {
            admin: None,
            issuers: Vec::new(),
            certificates: Vec::new(),
            certificate_count: 0,
            issued_events: Vec::new(),
            revoked_events: Vec::new(),
        };
        proof {
            assert(r@ =~= RegistryState::empty());
        }
        r
    }

    /// Position of `a` in the issuer list, if present.
    fn issuer_position(&self, a: Address) -> (r: Option<usize>)
        ensures
            match r {
                Some(i) => i < self.issuers@.len() && self.issuers@[i as int] == a,
                None => !self.issuers@.contains(a),
            },
    {
        let n = self.issuers.len();
        let mut k: usize = 0;
        while k < n
            invariant
                n == self.issuers@.len(),
                k <= n,
                forall|j: int| 0 <= j < k ==> self.issuers@[j] != a,
            decreases n - k,
        {
            if self.issuers[k] == a {
                return Some(k);
            }
            k += 1;
        }
        None
    }

    /// Sets the administrator, once, and makes it an authorized issuer.
    /// Refused with `AlreadyInitialized` on any later call, which changes
    /// nothing. The host must have authenticated the caller as `admin`
    /// before this runs.
    pub fn initialize(&mut self, admin: Address) -> (r: Result<(), CertificateError>)
        requires
            old(self).wf(),
        ensures
            final(self).wf(),
            (final(self)@, r) == step_initialize(old(self)@, admin),
    {
        if self.admin.is_some() {
            return Err(CertificateError::AlreadyInitialized);
        }
        self.admin = Some(admin);
        self.issuers.push(admin);
        self.certificate_count = 0;
        proof {
            lemma_push_to_set(old(self).issuers@, admin);
            assert(self@ =~= step_initialize(old(self)@, admin).0);
        }
        Ok(())
    }

    /// Authorizes `issuer`; already-authorized issuers stay authorized.
    /// The host must have authenticated the caller as the administrator,
    /// and the registry must be initialized, before this runs.
    pub fn add_issuer(&mut self, issuer: Address)
        requires
            old(self).wf(),
            old(self)@.is_initialized(),
        ensures
            final(self).wf(),
            final(self)@ == step_add_issuer(old(self)@, issuer),
    {
        match self.issuer_position(issuer) {
            None => {
                self.issuers.push(issuer);
                proof {
                    lemma_push_to_set(old(self).issuers@, issuer);
                    assert(self@ =~= step_add_issuer(old(self)@, issuer));
                    assert forall|i: int, j: int|
                        0 <= i < j < self.issuers@.len() implies self.issuers@[i]
                        != self.issuers@[j] by {
                        if j == old(self).issuers@.len() {
                            if old(self).issuers@[i] == issuer {
                                assert(old(self).issuers@.contains(issuer));
                            }
                        }
                    }
                }
            },
            Some(i) => {
                proof {
                    assert(old(self).issuers@.contains(issuer)) by {
                        assert(old(self).issuers@[i as int] == issuer);
                    }
                    assert(self@.issuers =~= self@.issuers.insert(issuer));
                    assert(self@ =~= step_add_issuer(old(self)@, issuer));
                }
            },
        }
    }

    /// Withdraws authorization from `issuer`; removing an address that is
    /// not an issuer changes nothing. The host must have authenticated
    /// the caller as the administrator, and the registry must be
    /// initialized, before this runs.
    pub fn remove_issuer(&mut self, issuer: Address)
        requires
            old(self).wf(),
            old(self)@.is_initialized(),
        ensures
            final(self).wf(),
            final(self)@ == step_remove_issuer(old(self)@, issuer),
    {
        match self.issuer_position(issuer) {
            Some(i) => {
                self.issuers.remove(i);
                proof {
                    let s = old(self).issuers@;
                    lemma_remove_to_set(s, i as int, issuer);
                    s.remove_ensures(i as int);
                    assert(self@ =~= step_remove_issuer(old(self)@, issuer));
                    assert forall|p: int, q: int|
                        0 <= p < q < self.issuers@.len() implies self.issuers@[p]
                        != self.issuers@[q] by {
                        if p < i as int {
                            assert(self.issuers@[p] == s[p]);
                        } else {
                            assert(self.issuers@[p] == s[p + 1]);
                        }
                        if q < i as int {
                            assert(self.issuers@[q] == s[q]);
                        } else {
                            assert(self.issuers@[q] == s[q + 1]);
                        }
                    }
                }
            },
            None => {
                proof {
                    assert(self@.issuers =~= self@.issuers.remove(issuer));
                    assert(self@ =~= step_remove_issuer(old(self)@, issuer));
                }
            },
        }
    }

    /// The administrator's address; callable only once the registry is
    /// initialized.
    pub fn get_admin(&self) -> (r: Address)
        requires
            self@.is_initialized(),
        ensures
            Some(r) == self@.admin,
    {
        self.admin.unwrap()
    }

    /// How many certificates were ever issued; revocation never lowers
    /// it.
    pub fn get_certificate_count(&self) -> (r: u64)
        requires
            self.wf(),
        ensures
            r == self@.certificate_count(),
    {
        self.certificate_count
    }

    /// Position of the record carrying `id`, if one exists.
    fn find_certificate(&self, id: &String) -> (r: Option<usize>)
        ensures
            match r {
                Some(i) => i < self@.certs.len() && self@.certs[i as int].id == id@,
                None => !self@.has_certificate(id@),
            },
    {
        let n = self.certificates.len();
        let mut k: usize = 0;
        while k < n
            invariant
                n == self.certificates@.len(),
                k <= n,
                forall|j: int| 0 <= j < k ==> self.certificates@[j].id@ != id@,
            decreases n - k,
        {
            if self.certificates[k].id == *id {
                proof {
                    assert(self@.certs[k as int].id == id@);
                }
                return Some(k);
            }
            k += 1;
        }
        proof {
            assert forall|i: int| 0 <= i < self@.certs.len() implies self@.certs[i].id != id@ by {
                assert(self@.certs[i].id == self.certificates@[i].id@);
            }
        }
        None
    }

    /// The position that `cert_index` denotes is the one `i` found by
    /// search: ids are unique.
    proof fn lemma_found_index(self, id: Seq<char>, i: int)
        requires
            self.wf(),
            0 <= i < self@.certs.len(),
            self@.certs[i].id == id,
        ensures
            self@.has_certificate(id),
            self@.cert_index(id) == i,
            self@.certificate(id) == self@.certs[i],
    {
        assert(self@.has_certificate(id));
        let k = self@.cert_index(id);
        assert(0 <= k < self@.certs.len() && self@.certs[k].id == id);
        if k < i {
            assert(self@.certs[k].id != self@.certs[i].id);
        }
        if k > i {
            assert(self@.certs[i].id != self@.certs[k].id);
        }
    }

    /// Issues a new certificate: the caller (authenticated as `issuer` by
    /// the host) must be an authorized issuer, the id must be unused, and
    /// title and course name must be non-empty. `issued_at` is the
    /// environment's current timestamp. On success the active record is
    /// stored and returned, the count rises by one, and an issuance event
    /// is recorded; on failure nothing changes.
    pub fn issue_certificate(
        &mut self,
        id: String,
        issuer: Address,
        recipient: Address,
        metadata: CertificateMetadata,
        issued_at: u64,
    ) -> (r: Result<Certificate, CertificateError>)
        requires
            old(self).wf(),
        ensures
            final(self).wf(),
            final(self)@ == step_issue(old(self)@, id@, issuer, recipient, metadata@, issued_at).0,
            issue_result_view(r) == step_issue(
                old(self)@,
                id@,
                issuer,
                recipient,
                metadata@,
                issued_at,
            ).1,
    {
        if !self.validate_issuer(issuer) {
            return Err(CertificateError::Unauthorized);
        }
        match self.find_certificate(&id) {
            Some(i) => {
                proof {
                    assert(old(self)@.has_certificate(id@)) by {
                        assert(old(self)@.certs[i as int].id == id@);
                    }
                }
                return Err(CertificateError::AlreadyExists);
            },
            None => {},
        }
        if metadata.title.as_str().is_empty() || metadata.course_name.as_str().is_empty() {
            return Err(CertificateError::InvalidData);
        }
        let certificate = Certificate {
            id: id.clone(),
            issuer,
            recipient,
            metadata,
            issued_at,
            status: CertificateStatus::Active,
        };
        self.certificates.push(certificate.clone());
        let n = self.certificates.len();
        self.certificate_count = n as u64;
        self.issued_events.push(CertificateIssuedEvent { id, issuer, recipient, issued_at });
        proof {
            let prev = old(self)@;
            let cv = certificate@;
            assert(prev.admin is Some) by {
                if prev.admin is None {
                    assert(old(self).issuers@.len() == 0);
                    assert(!old(self).issuers@.contains(issuer));
                }
            }
            assert(self@.certs =~= prev.certs.push(cv));
            assert(self@.issued_events =~= prev.issued_events.push(
                IssuedEventView { id: id@, issuer, recipient, issued_at },
            ));
            assert(self@ =~= step_issue(prev, id@, issuer, recipient, metadata@, issued_at).0);
            assert forall|i: int, j: int|
                0 <= i < j < self@.certs.len() implies self@.certs[i].id != self@.certs[j].id by {
                if j == prev.certs.len() {
                    if prev.certs[i].id == id@ {
                        assert(prev.has_certificate(id@));
                    }
                }
            }
        }
        Ok(certificate)
    }

    /// Looks up the record carrying `id` and returns a copy of it, or
    /// `NotFound` when no certificate with that id was ever issued.
    pub fn get_certificate(&self, id: &String) -> (r: Result<Certificate, CertificateError>)
        requires
            self.wf(),
        ensures
            match r {
                Ok(c) => self@.has_certificate(id@) && c@ == self@.certificate(id@),
                Err(e) => !self@.has_certificate(id@) && e == CertificateError::NotFound,
            },
    {
        match self.find_certificate(id) {
            Some(i) => {
                proof {
                    self.lemma_found_index(id@, i as int);
                }
                Ok(self.certificates[i].clone())
            },
            None => Err(CertificateError::NotFound),
        }
    }

    /// Revokes the certificate carrying `id`: it must exist, must not be
    /// revoked already, and the caller (authenticated as `revoker` by the
    /// host) must be the record's issuer or the administrator; the checks
    /// run in that order. `revoked_at` is the environment's current
    /// timestamp. On success the record is marked revoked, once and for
    /// all, and a revocation event is recorded; on failure nothing
    /// changes.
    pub fn revoke_certificate(&mut self, id: String, revoker: Address, revoked_at: u64) -> (r:
        Result<(), CertificateError>)
        requires
            old(self).wf(),
        ensures
            final(self).wf(),
            (final(self)@, r) == step_revoke(old(self)@, id@, revoker, revoked_at),
    {
        let i = match self.find_certificate(&id) {
            None => {
                return Err(CertificateError::NotFound);
            },
            Some(i) => i,
        };
        proof {
            old(self).lemma_found_index(id@, i as int);
        }
        if self.certificates[i].status == CertificateStatus::Revoked {
            return Err(CertificateError::AlreadyRevoked);
        }
        let by_admin = match self.admin {
            Some(a) => a == revoker,
            None => false,
        };
        if revoker != self.certificates[i].issuer && !by_admin {
            return Err(CertificateError::Unauthorized);
        }
        let mut record = self.certificates.remove(i);
        record.status = CertificateStatus::Revoked;
        self.certificates.insert(i, record);
        self.revoked_events.push(CertificateRevokedEvent { id, revoked_by: revoker, revoked_at });
        proof {
            let prev = old(self)@;
            let s0 = old(self).certificates@;
            let updated = CertView { status: CertificateStatus::Revoked, ..prev.certs[i as int] };
            s0.remove_ensures(i as int);
            assert(self@.certs =~= prev.certs.update(i as int, updated)) by {
                let mid = s0.remove(i as int);
                mid.insert_ensures(i as int, self.certificates@[i as int]);
                assert forall|j: int| 0 <= j < self@.certs.len() implies self@.certs[j]
                    == prev.certs.update(i as int, updated)[j] by {
                    if j < i as int {
                        assert(self.certificates@[j] == mid[j]);
                        assert(mid[j] == s0[j]);
                    } else if j == i as int {
                        assert(self.certificates@[j]@ == updated);
                    } else {
                        assert(self.certificates@[j] == mid[j - 1]);
                        assert(mid[j - 1] == s0[j]);
                    }
                }
            }
            assert(self@.revoked_events =~= prev.revoked_events.push(
                RevokedEventView { id: id@, revoked_by: revoker, revoked_at },
            ));
            assert(self@ =~= step_revoke(prev, id@, revoker, revoked_at).0);
            assert forall|p: int, q: int|
                0 <= p < q < self@.certs.len() implies self@.certs[p].id != self@.certs[q].id by {
                assert(self@.certs[p].id == prev.certs[p].id);
                assert(self@.certs[q].id == prev.certs[q].id);
            }
        }
        Ok(())
    }

    /// Whether the certificate carrying `id` exists and is still active.
    /// Unknown ids and revoked certificates give `false`; this never
    /// fails.
    pub fn verify_certificate(&self, id: &String) -> (r: bool)
        requires
            self.wf(),
        ensures
            r == self@.is_valid(id@),
    {
        match self.get_certificate(id) {
            Ok(certificate) => certificate.status == CertificateStatus::Active,
            Err(_) => false,
        }
    }

    /// Ids of the certificates issued to `recipient`. The recipient index
    /// this needs does not exist yet, so the list is empty for every
    /// recipient.
    pub fn get_certificates_by_recipient(&self, recipient: Address) -> (r: Vec<String>)
        ensures
            r@.len() == 0,
    {
        let ids: Vec<String> = Vec::new();
        ids
    }

    /// The issuance events recorded so far, oldest first.
    pub fn get_issued_events(&self) -> (r: &Vec<CertificateIssuedEvent>)
        ensures
            issued_views(r@) == self@.issued_events,
    {
        &self.issued_events
    }

    /// The revocation events recorded so far, oldest first.
    pub fn get_revoked_events(&self) -> (r: &Vec<CertificateRevokedEvent>)
        ensures
            revoked_views(r@) == self@.revoked_events,
    {
        &self.revoked_events
    }

    /// Whether `issuer` is currently authorized to issue certificates.
    /// Open to anyone; no authentication is involved.
    pub fn validate_issuer(&self, issuer: Address) -> (r: bool)
        ensures
            r == self@.is_issuer(issuer),
    {
        match self.issuer_position(issuer) {
            Some(i) => {
                proof {
                    assert(self.issuers@.contains(issuer)) by {
                        assert(self.issuers@[i as int] == issuer);
                    }
                }
                true
            },
            None => false,
        }
    }
}

} // verus!
