//! The certificate registry: an administrator, one certificate per
//! (course, student) pair, a nonce per signer of meta-transactions, and the
//! events that the registry emits.

use vstd::prelude::*;
use crate::bytes::{bytes_equal, copy_bytes};
use crate::store::{Store, StoreKey};

verus! {

/// The plain views of a sequence of byte strings.
pub open spec fn byte_strings(v: Seq<Vec<u8>>) -> Seq<Seq<u8>> {
    v.map_values(|b: Vec<u8>| b@)
}

/// A certificate issued to a student for a course.
#[derive(Clone, Debug, PartialEq, Eq)]
pub struct Certificate {
    pub course_symbol: Vec<u8>,
    pub student: Vec<u8>,
    pub course_name: Vec<u8>,
    pub issue_date: u64,
    pub revoked: bool,
}

pub struct CertificateView {
    pub course_symbol: Seq<u8>,
    pub student: Seq<u8>,
    pub course_name: Seq<u8>,
    pub issue_date: u64,
    pub revoked: bool,
}

impl View for Certificate {
    type V = CertificateView;

    open spec fn view(&self) -> CertificateView {
        CertificateView {
            course_symbol: self.course_symbol@,
            student: self.student@,
            course_name: self.course_name@,
            issue_date: self.issue_date,
            revoked: self.revoked,
        }
    }
}

impl Certificate {
    /// A copy of this certificate.
    pub fn copied(&self) -> (c: Certificate)
        ensures
            c@ == self@,
    {
        Certificate {
            course_symbol: copy_bytes(&self.course_symbol),
            student: copy_bytes(&self.student),
            course_name: copy_bytes(&self.course_name),
            issue_date: self.issue_date,
            revoked: self.revoked,
        }
    }
}

/// The views of a sequence of certificates.
pub open spec fn certificate_views(v: Seq<Certificate>) -> Seq<CertificateView> {
    v.map_values(|c: Certificate| c@)
}

/// The certificate that issuing gives `student` for a course.
pub open spec fn fresh_certificate(
    course_symbol: Seq<u8>,
    student: Seq<u8>,
    course_name: Seq<u8>,
    issue_date: u64,
) -> CertificateView {
    CertificateView { course_symbol, student, course_name, issue_date, revoked: false }
}

/// Composite storage key: one entry per (course, student) pair.
#[derive(Clone, Debug)]
pub struct CertKey {
    pub course_symbol: Vec<u8>,
    pub student: Vec<u8>,
}

impl View for CertKey {
    type V = (Seq<u8>, Seq<u8>);

    open spec fn view(&self) -> (Seq<u8>, Seq<u8>) {
        (self.course_symbol@, self.student@)
    }
}

impl StoreKey for CertKey {
    fn same_key(&self, other: &Self) -> (same: bool) {
        bytes_equal(&self.course_symbol, &other.course_symbol) && bytes_equal(
            &self.student,
            &other.student,
        )
    }
}

impl StoreKey for Vec<u8> {
    fn same_key(&self, other: &Self) -> (same: bool) {
        bytes_equal(self, other)
    }
}

/// What a meta-transaction asks the registry to do: issue one certificate,
/// under the signer's next nonce.
#[derive(Clone, Debug)]
pub struct MetaTxCallData {
    pub course_symbol: Vec<u8>,
    pub student: Vec<u8>,
    pub course_name: Vec<u8>,
    pub nonce: u64,
}

pub struct MetaTxCallDataView {
    pub course_symbol: Seq<u8>,
    pub student: Seq<u8>,
    pub course_name: Seq<u8>,
    pub nonce: u64,
}

impl View for MetaTxCallData {
    type V = MetaTxCallDataView;

    open spec fn view(&self) -> MetaTxCallDataView {
        MetaTxCallDataView {
            course_symbol: self.course_symbol@,
            student: self.student@,
            course_name: self.course_name@,
            nonce: self.nonce,
        }
    }
}

/// An event emitted by the registry.
#[derive(Clone, Debug, PartialEq, Eq)]
pub enum CertificateEvent {
    /// Topics `cert_issued` and the course; data the student and the course name.
    CertIssued { course_symbol: Vec<u8>, student: Vec<u8>, course_name: Vec<u8> },
    /// Topics `cert_revoked` and the course; data the revoking caller and the student.
    CertRevoked { course_symbol: Vec<u8>, caller: Vec<u8>, student: Vec<u8> },
    /// Topics `meta_tx_issued` and the course; data the student and the course name.
    MetaTxIssued { course_symbol: Vec<u8>, student: Vec<u8>, course_name: Vec<u8> },
}

pub enum CertificateEventView {
    CertIssued { course_symbol: Seq<u8>, student: Seq<u8>, course_name: Seq<u8> },
    CertRevoked { course_symbol: Seq<u8>, caller: Seq<u8>, student: Seq<u8> },
    MetaTxIssued { course_symbol: Seq<u8>, student: Seq<u8>, course_name: Seq<u8> },
}

impl View for CertificateEvent {
    type V = CertificateEventView;

    open spec fn view(&self) -> CertificateEventView {
        match self {
            CertificateEvent::CertIssued { course_symbol, student, course_name } => {
                CertificateEventView::CertIssued {
                    course_symbol: course_symbol@,
                    student: student@,
                    course_name: course_name@,
                }
            },
            CertificateEvent::CertRevoked { course_symbol, caller, student } => {
                CertificateEventView::CertRevoked {
                    course_symbol: course_symbol@,
                    caller: caller@,
                    student: student@,
                }
            },
            CertificateEvent::MetaTxIssued { course_symbol, student, course_name } => {
                CertificateEventView::MetaTxIssued {
                    course_symbol: course_symbol@,
                    student: student@,
                    course_name: course_name@,
                }
            },
        }
    }
}

/// The views of a sequence of events.
pub open spec fn event_views(v: Seq<CertificateEvent>) -> Seq<CertificateEventView> {
    v.map_values(|e: CertificateEvent| e@)
}

/// The `cert_issued` events that issuing to `students` emits, in order.
pub open spec fn issued_events(
    course_symbol: Seq<u8>,
    students: Seq<Seq<u8>>,
    course_name: Seq<u8>,
) -> Seq<CertificateEventView> {
    students.map_values(
        |s: Seq<u8>|
            CertificateEventView::CertIssued { course_symbol, student: s, course_name },
    )
}

/// The certificates that issuing to `students` returns, in order.
pub open spec fn issued_certificates(
    course_symbol: Seq<u8>,
    students: Seq<Seq<u8>>,
    course_name: Seq<u8>,
    issue_date: u64,
) -> Seq<CertificateView> {
    students.map_values(|s: Seq<u8>| fresh_certificate(course_symbol, s, course_name, issue_date))
}

/// Why the registry refuses a request.
#[derive(Clone, Copy, Debug, PartialEq, Eq)]
pub enum CertificateError {
    /// `init` on a registry that has an administrator.
    AlreadyInitialized,
    /// An administrator's request on a registry that has none.
    NotInitialized,
    /// The caller is not the administrator.
    Unauthorized,
    /// No certificate is stored for the (course, student) pair.
    CertificateNotFound,
    /// The meta-transaction's nonce is not the signer's next nonce.
    InvalidNonce,
}

/// What the registry's instance storage holds, and the events emitted so far.
pub struct CertificateContractView {
    pub admin: Option<Seq<u8>>,
    pub certificates: Map<(Seq<u8>, Seq<u8>), CertificateView>,
    pub nonces: Map<Seq<u8>, u64>,
    pub events: Seq<CertificateEventView>,
}

impl CertificateContractView {
    /// The registry with no administrator, no entries and no events.
    pub open spec fn empty() -> Self {
        CertificateContractView {
            admin: None,
            certificates: Map::empty(),
            nonces: Map::empty(),
            events: Seq::empty(),
        }
    }

    /// The certificate stored for (course, student), if any.
    pub open spec fn certificate(self, course_symbol: Seq<u8>, student: Seq<u8>) -> Option<
        CertificateView,
    > {
        if self.certificates.contains_key((course_symbol, student)) {
            Some(self.certificates[(course_symbol, student)])
        } else {
            None
        }
    }

    /// The next nonce expected from `signer`; 0 for one that never signed.
    pub open spec fn nonce_of(self, signer: Seq<u8>) -> u64 {
        if self.nonces.contains_key(signer) {
            self.nonces[signer]
        } else {
            0
        }
    }

    /// Setting the administrator, which is allowed once.
    pub open spec fn init(self, admin: Seq<u8>) -> Result<Self, CertificateError> {
        if self.admin is Some {
            Err(CertificateError::AlreadyInitialized)
        } else {
            Ok(CertificateContractView { admin: Some(admin), ..self })
        }
    }

    /// Issuing the course's certificate to each of `students`: each gets a
    /// fresh certificate under its own key, and one `cert_issued` event is
    /// emitted per student.
    pub open spec fn issue(
        self,
        course_symbol: Seq<u8>,
        students: Seq<Seq<u8>>,
        course_name: Seq<u8>,
        issue_date: u64,
    ) -> Self {
        CertificateContractView {
            certificates: Map::new(
                |k: (Seq<u8>, Seq<u8>)|
                    self.certificates.contains_key(k) || (k.0 == course_symbol && students.contains(
                        k.1,
                    )),
                |k: (Seq<u8>, Seq<u8>)|
                    if k.0 == course_symbol && students.contains(k.1) {
                        fresh_certificate(course_symbol, k.1, course_name, issue_date)
                    } else {
                        self.certificates[k]
                    },
            ),
            events: self.events + issued_events(course_symbol, students, course_name),
            ..self
        }
    }

    /// Revoking the certificate of (course, student), which only the
    /// administrator may do.
    pub open spec fn revoke(self, caller: Seq<u8>, course_symbol: Seq<u8>, student: Seq<u8>) -> Result<
        Self,
        CertificateError,
    > {
        match self.admin {
            None => Err(CertificateError::NotInitialized),
            Some(admin) => {
                if caller != admin {
                    Err(CertificateError::Unauthorized)
                } else if !self.certificates.contains_key((course_symbol, student)) {
                    Err(CertificateError::CertificateNotFound)
                } else {
                    let old_cert = self.certificates[(course_symbol, student)];
                    Ok(
                        CertificateContractView {
                            certificates: self.certificates.insert(
                                (course_symbol, student),
                                CertificateView { revoked: true, ..old_cert },
                            ),
                            events: self.events.push(
                                CertificateEventView::CertRevoked { course_symbol, caller, student },
                            ),
                            ..self
                        },
                    )
                }
            },
        }
    }

    /// Executing a meta-transaction signed by `caller`: only the
    /// administrator may, under its next nonce; the certificate is issued,
    /// the nonce advances by one and a `meta_tx_issued` event is emitted.
    pub open spec fn execute_meta_tx(
        self,
        caller: Seq<u8>,
        call_data: MetaTxCallDataView,
        issue_date: u64,
    ) -> Result<(Self, CertificateView), CertificateError> {
        match self.admin {
            None => Err(CertificateError::NotInitialized),
            Some(admin) => {
                if caller != admin {
                    Err(CertificateError::Unauthorized)
                } else if call_data.nonce != self.nonce_of(caller) {
                    Err(CertificateError::InvalidNonce)
                } else {
                    let cert = fresh_certificate(
                        call_data.course_symbol,
                        call_data.student,
                        call_data.course_name,
                        issue_date,
                    );
                    Ok(
                        (
                            CertificateContractView {
                                certificates: self.certificates.insert(
                                    (call_data.course_symbol, call_data.student),
                                    cert,
                                ),
                                nonces: self.nonces.insert(caller, (call_data.nonce + 1) as u64),
                                events: self.events.push(
                                    CertificateEventView::MetaTxIssued {
                                        course_symbol: call_data.course_symbol,
                                        student: call_data.student,
                                        course_name: call_data.course_name,
                                    },
                                ),
                                ..self
                            },
                            cert,
                        ),
                    )
                }
            },
        }
    }
}

/// The certificate registry contract, over its instance storage.
pub struct CertificateContract {
    admin: Option<Vec<u8>>,
    certificates: Store<CertKey, Certificate>,
    nonces: Store<Vec<u8>, u64>,
    events: Vec<CertificateEvent>,
}

impl View for CertificateContract {
    type V = CertificateContractView;

    closed spec fn view(&self) -> CertificateContractView {
        CertificateContractView {
            admin: match self.admin {
                Some(a) => Some(a@),
                None => None,
            },
            certificates: self.certificates@,
            nonces: self.nonces@,
            events: event_views(self.events@),
        }
    }
}

impl CertificateContract {
    pub closed spec fn wf(&self) -> bool {
        &&& self.certificates.wf()
        &&& self.nonces.wf()
    }

    /// A registry with empty storage and no events.
    pub fn new() -> (c: Self)
        ensures
            c.wf(),
            c@ == CertificateContractView::empty(),
    {
        let c = CertificateContract {
            admin: None,
            certificates: Store::new(),
            nonces: Store::new(),
            events: Vec::new(),
        };
        assert(event_views(c.events@) =~= Seq::empty());
        c
    }

    /// Initialize the contract with an administrator address.
    /// Must be called once before any other function.
    pub fn init(&mut self, admin: Vec<u8>) -> (r: Result<(), CertificateError>)
        requires
            old(self).wf(),
        ensures
            final(self).wf(),
            match old(self)@.init(admin@) {
                Ok(next) => r is Ok && final(self)@ == next,
                Err(e) => r == Err::<(), CertificateError>(e) && final(self)@ == old(self)@,
            },
    {
        if self.admin.is_some() {
            return Err(CertificateError::AlreadyInitialized);
        }
        self.admin = Some(admin);
        Ok(())
    }

    /// Issue certificates to one or more students for a course in a single
    /// transaction. Each student gets a certificate stored under its
    /// (course_symbol, student) key, and a `cert_issued` event is emitted for
    /// every certificate.
    pub fn issue(
        &mut self,
        course_symbol: &Vec<u8>,
        students: &Vec<Vec<u8>>,
        course_name: &Vec<u8>,
        issue_date: u64,
    ) -> (issued: Vec<Certificate>)
        requires
            old(self).wf(),
        ensures
            final(self).wf(),
            final(self)@ == old(self)@.issue(
                course_symbol@,
                byte_strings(students@),
                course_name@,
                issue_date,
            ),
            certificate_views(issued@) == issued_certificates(
                course_symbol@,
                byte_strings(students@),
                course_name@,
                issue_date,
            ),
            issued@.len() == students@.len(),
            forall|i: int|
                0 <= i < students@.len() ==> {
                    &&& (#[trigger] issued@[i]).student@ == students@[i]@
                    &&& issued@[i].course_symbol@ == course_symbol@
                    &&& issued@[i].course_name@ == course_name@
                    &&& issued@[i].issue_date == issue_date
                    &&& !issued@[i].revoked
                },
    {
        let ghost start = self@;
        let ghost all = byte_strings(students@);
        let mut issued: Vec<Certificate> = Vec::new();
        let n = students.len();
        let mut i: usize = 0;
        assert(all.take(0) =~= Seq::<Seq<u8>>::empty());
        let ghost nothing_yet = start.issue(course_symbol@, all.take(0), course_name@, issue_date);
        assert(self@.certificates =~= nothing_yet.certificates);
        assert(self@ =~= nothing_yet);
        assert(certificate_views(issued@) =~= issued_certificates(
            course_symbol@,
            all.take(0),
            course_name@,
            issue_date,
        ));
        while i < n
            invariant
                self.wf(),
                n == students@.len(),
                all == byte_strings(students@),
                i <= n,
                self@ == start.issue(course_symbol@, all.take(i as int), course_name@, issue_date),
                certificate_views(issued@) == issued_certificates(
                    course_symbol@,
                    all.take(i as int),
                    course_name@,
                    issue_date,
                ),
            decreases n - i,
        {
            let ghost before_issued = issued@;
            let ghost before_events = self.events@;
            let student = &students[i];
            let key = CertKey { course_symbol: copy_bytes(course_symbol), student: copy_bytes(student) };
            let cert = Certificate {
                course_symbol: copy_bytes(course_symbol),
                student: copy_bytes(student),
                course_name: copy_bytes(course_name),
                issue_date,
                revoked: false,
            };
            let returned = cert.copied();
            self.certificates.set(key, cert);
            self.events.push(
                CertificateEvent::CertIssued {
                    course_symbol: copy_bytes(course_symbol),
                    student: copy_bytes(student),
                    course_name: copy_bytes(course_name),
                },
            );
            issued.push(returned);
            proof {
                let s = all[i as int];
                let prefix = all.take(i as int);
                let next = all.take(i + 1);
                assert(next =~= prefix.push(s));
                assert forall|x: Seq<u8>| next.contains(x) <==> (prefix.contains(x) || x == s) by {
                    if prefix.contains(x) {
                        let j = choose|j: int| 0 <= j < prefix.len() && prefix[j] == x;
                        assert(next[j] == x);
                    }
                    if x == s {
                        assert(next[i as int] == x);
                    }
                    if next.contains(x) {
                        let j = choose|j: int| 0 <= j < next.len() && next[j] == x;
                        if j < i {
                            assert(prefix[j] == x);
                        }
                    }
                }
                let goal = start.issue(course_symbol@, next, course_name@, issue_date);
                let ev = CertificateEventView::CertIssued {
                    course_symbol: course_symbol@,
                    student: s,
                    course_name: course_name@,
                };
                assert(event_views(self.events@) =~= event_views(before_events).push(ev));
                assert(issued_events(course_symbol@, next, course_name@) =~= issued_events(
                    course_symbol@,
                    prefix,
                    course_name@,
                ).push(ev));
                assert(certificate_views(issued@) =~= certificate_views(before_issued).push(
                    fresh_certificate(course_symbol@, s, course_name@, issue_date),
                ));
                assert(issued_certificates(course_symbol@, next, course_name@, issue_date)
                    =~= issued_certificates(course_symbol@, prefix, course_name@, issue_date).push(
                    fresh_certificate(course_symbol@, s, course_name@, issue_date),
                ));
                assert(self@.certificates =~= goal.certificates);
                assert(event_views(self.events@) =~= goal.events);
                assert(self@ =~= goal);
                assert(certificate_views(issued@) =~= issued_certificates(
                    course_symbol@,
                    next,
                    course_name@,
                    issue_date,
                ));
            }
            i = i + 1;
        }
        assert(all.take(n as int) =~= all);
        assert forall|i: int| 0 <= i < students@.len() implies {
            &&& (#[trigger] issued@[i]).student@ == students@[i]@
            &&& issued@[i].course_symbol@ == course_symbol@
            &&& issued@[i].course_name@ == course_name@
            &&& issued@[i].issue_date == issue_date
            &&& !issued@[i].revoked
        } by {
            assert(certificate_views(issued@)[i] == issued@[i]@);
            assert(all[i] == students@[i]@);
        }
        issued
    }

    /// Revoke a certificate by course symbol and student address.
    /// Only callable by the administrator.
    pub fn revoke(&mut self, caller: &Vec<u8>, course_symbol: &Vec<u8>, student: &Vec<u8>) -> (r:
        Result<(), CertificateError>)
        requires
            old(self).wf(),
        ensures
            final(self).wf(),
            match old(self)@.revoke(caller@, course_symbol@, student@) {
                Ok(next) => r is Ok && final(self)@ == next,
                Err(e) => r == Err::<(), CertificateError>(e) && final(self)@ == old(self)@,
            },
    {
        let is_admin = match &self.admin {
            None => {
                return Err(CertificateError::NotInitialized);
            },
            Some(admin) => bytes_equal(caller, admin),
        };
        if !is_admin {
            return Err(CertificateError::Unauthorized);
        }
        let key = CertKey { course_symbol: copy_bytes(course_symbol), student: copy_bytes(student) };
        let mut cert = match self.certificates.get(&key) {
            None => {
                return Err(CertificateError::CertificateNotFound);
            },
            Some(stored) => stored.copied(),
        };
        cert.revoked = true;
        self.certificates.set(key, cert);
        let ghost before_events = self.events@;
        self.events.push(
            CertificateEvent::CertRevoked {
                course_symbol: copy_bytes(course_symbol),
                caller: copy_bytes(caller),
                student: copy_bytes(student),
            },
        );
        proof {
            assert(self.events@ =~= before_events.push(self.events@.last()));
            assert(event_views(self.events@) =~= event_views(before_events).push(
                self.events@.last()@,
            ));
            let goal = old(self)@.revoke(caller@, course_symbol@, student@);
            assert(goal is Ok);
            assert(self@ =~= goal->Ok_0);
        }
        Ok(())
    }

    /// Retrieve a certificate by course symbol and student address.
    pub fn get_certificate(&self, course_symbol: Vec<u8>, student: Vec<u8>) -> (r: Option<
        Certificate,
    >)
        requires
            self.wf(),
        ensures
            match r {
                Some(c) => self@.certificate(course_symbol@, student@) == Some(c@),
                None => self@.certificate(course_symbol@, student@) is None,
            },
    {
        let key = CertKey { course_symbol, student };
        match self.certificates.get(&key) {
            Some(stored) => Some(stored.copied()),
            None => None,
        }
    }

    /// The next nonce expected from `signer`.
    pub fn get_nonce(&self, signer: &Vec<u8>) -> (nonce: u64)
        requires
            self.wf(),
        ensures
            nonce == self@.nonce_of(signer@),
    {
        match self.nonces.get(signer) {
            Some(n) => *n,
            None => 0,
        }
    }

    /// Execute a meta-transaction signed by `caller`, issuing the certificate
    /// that `call_data` describes. Only the administrator may sign, each
    /// nonce is accepted once and in order, and a `meta_tx_issued` event is
    /// emitted. The signature is carried with the call and not checked here.
    pub fn execute_meta_tx(
        &mut self,
        caller: &Vec<u8>,
        _signature: &Vec<u8>,
        call_data: &MetaTxCallData,
        issue_date: u64,
    ) -> (r: Result<Certificate, CertificateError>)
        requires
            old(self).wf(),
            old(self)@.admin == Some(caller@) && call_data.nonce == old(self)@.nonce_of(caller@)
                ==> call_data.nonce < u64::MAX,
        ensures
            final(self).wf(),
            match old(self)@.execute_meta_tx(caller@, call_data@, issue_date) {
                Ok((next, cert)) => r matches Ok(c) && c@ == cert && final(self)@ == next,
                Err(e) => r == Err::<Certificate, CertificateError>(e) && final(self)@ == old(
                    self,
                )@,
            },
    {
        let is_admin = match &self.admin {
            None => {
                return Err(CertificateError::NotInitialized);
            },
            Some(admin) => bytes_equal(caller, admin),
        };
        if !is_admin {
            return Err(CertificateError::Unauthorized);
        }
        let expected = self.get_nonce(caller);
        if call_data.nonce != expected {
            return Err(CertificateError::InvalidNonce);
        }
        let key = CertKey {
            course_symbol: copy_bytes(&call_data.course_symbol),
            student: copy_bytes(&call_data.student),
        };
        let cert = Certificate {
            course_symbol: copy_bytes(&call_data.course_symbol),
            student: copy_bytes(&call_data.student),
            course_name: copy_bytes(&call_data.course_name),
            issue_date,
            revoked: false,
        };
        let returned = cert.copied();
        self.certificates.set(key, cert);
        self.nonces.set(copy_bytes(caller), expected + 1);
        let ghost before_events = self.events@;
        self.events.push(
            CertificateEvent::MetaTxIssued {
                course_symbol: copy_bytes(&call_data.course_symbol),
                student: copy_bytes(&call_data.student),
                course_name: copy_bytes(&call_data.course_name),
            },
        );
        proof {
            assert(self.events@ =~= before_events.push(self.events@.last()));
            assert(event_views(self.events@) =~= event_views(before_events).push(
                self.events@.last()@,
            ));
            let goal = old(self)@.execute_meta_tx(caller@, call_data@, issue_date);
            assert(goal is Ok);
            assert(self@ =~= goal->Ok_0.0);
        }
        Ok(returned)
    }

    /// The events emitted so far, oldest first.
    pub fn events(&self) -> (events: &Vec<CertificateEvent>)
        ensures
            event_views(events@) == self@.events,
    {
        &self.events
    }

    /// Puts back a certificate entry read from instance storage.
    pub fn load_certificate(&mut self, certificate: Certificate)
        requires
            old(self).wf(),
        ensures
            final(self).wf(),
            final(self)@ == (CertificateContractView {
                certificates: old(self)@.certificates.insert(
                    (certificate.course_symbol@, certificate.student@),
                    certificate@,
                ),
                ..old(self)@
            }),
    {
        let key = CertKey {
            course_symbol: copy_bytes(&certificate.course_symbol),
            student: copy_bytes(&certificate.student),
        };
        self.certificates.set(key, certificate);
    }

    /// Puts back a signer's nonce entry read from instance storage.
    pub fn load_nonce(&mut self, signer: Vec<u8>, nonce: u64)
        requires
            old(self).wf(),
        ensures
            final(self).wf(),
            final(self)@ == (CertificateContractView {
                nonces: old(self)@.nonces.insert(signer@, nonce),
                ..old(self)@
            }),
    {
        self.nonces.set(signer, nonce);
    }
}

} // verus!
