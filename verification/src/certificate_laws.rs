//! What holds of the certificate registry across its operations.

use vstd::prelude::*;
use crate::certificate::{
    CertificateContractView, CertificateError, CertificateEventView, CertificateView,
    MetaTxCallDataView, issued_certificates,
};

verus! {

/// The registry can be initialized once: a second `init`, with any
/// administrator, is refused with `AlreadyInitialized`.
pub proof fn init_succeeds_once(v: CertificateContractView, first: Seq<u8>, second: Seq<u8>)
    requires
        v.admin is None,
    ensures
        v.init(first) is Ok,
        v.init(first)->Ok_0.admin == Some(first),
        v.init(first)->Ok_0.init(second) == Err::<CertificateContractView, CertificateError>(
            CertificateError::AlreadyInitialized,
        ),
{
}

/// After issuing, the certificate of every listed student reads back as
/// issued: for that course and student, with the course name and issue
/// date, and not revoked.
pub proof fn issued_certificate_reads_back(
    v: CertificateContractView,
    course_symbol: Seq<u8>,
    students: Seq<Seq<u8>>,
    course_name: Seq<u8>,
    issue_date: u64,
    student: Seq<u8>,
)
    requires
        students.contains(student),
    ensures
        v.issue(course_symbol, students, course_name, issue_date).certificate(
            course_symbol,
            student,
        ) == Some(
            (CertificateView { course_symbol, student, course_name, issue_date, revoked: false }),
        ),
{
}

/// Issuing leaves the certificate of every other (course, student) pair as
/// it was.
pub proof fn issue_leaves_other_certificates(
    v: CertificateContractView,
    course_symbol: Seq<u8>,
    students: Seq<Seq<u8>>,
    course_name: Seq<u8>,
    issue_date: u64,
    other_course: Seq<u8>,
    other_student: Seq<u8>,
)
    requires
        other_course != course_symbol || !students.contains(other_student),
    ensures
        v.issue(course_symbol, students, course_name, issue_date).certificate(
            other_course,
            other_student,
        ) == v.certificate(other_course, other_student),
{
}

/// Issuing emits exactly one `cert_issued` event per listed student, in the
/// order of the list, after the events emitted before.
pub proof fn issue_emits_one_event_per_student(
    v: CertificateContractView,
    course_symbol: Seq<u8>,
    students: Seq<Seq<u8>>,
    course_name: Seq<u8>,
    issue_date: u64,
)
    ensures
        ({
            let after = v.issue(course_symbol, students, course_name, issue_date);
            &&& after.events.len() == v.events.len() + students.len()
            &&& after.events.take(v.events.len() as int) == v.events
            &&& forall|i: int|
                0 <= i < students.len() ==> #[trigger] after.events[v.events.len() + i]
                    == (CertificateEventView::CertIssued {
                    course_symbol,
                    student: students[i],
                    course_name,
                })
        }),
{
    let after = v.issue(course_symbol, students, course_name, issue_date);
    assert(after.events.take(v.events.len() as int) =~= v.events);
}

/// Distinct students of one course get distinct certificates, each under
/// its own key.
pub proof fn each_student_gets_own_certificate(
    v: CertificateContractView,
    course_symbol: Seq<u8>,
    students: Seq<Seq<u8>>,
    course_name: Seq<u8>,
    issue_date: u64,
    a: Seq<u8>,
    b: Seq<u8>,
)
    requires
        students.contains(a),
        students.contains(b),
        a != b,
    ensures
        ({
            let after = v.issue(course_symbol, students, course_name, issue_date);
            &&& after.certificate(course_symbol, a) matches Some(ca)
            &&& after.certificate(course_symbol, b) matches Some(cb)
            &&& ca.student == a
            &&& cb.student == b
            &&& ca != cb
        }),
{
}

/// A revocation by the administrator marks that one certificate revoked,
/// keeps everything else it holds, and leaves every other certificate as
/// it was; it emits one `cert_revoked` event.
pub proof fn revoke_marks_only_that_certificate(
    v: CertificateContractView,
    caller: Seq<u8>,
    course_symbol: Seq<u8>,
    student: Seq<u8>,
    other_course: Seq<u8>,
    other_student: Seq<u8>,
)
    requires
        v.revoke(caller, course_symbol, student) is Ok,
    ensures
        ({
            let after = v.revoke(caller, course_symbol, student)->Ok_0;
            let before = v.certificates[(course_symbol, student)];
            &&& v.certificate(course_symbol, student) is Some
            &&& after.certificate(course_symbol, student) == Some(
                CertificateView { revoked: true, ..before },
            )
            &&& (other_course != course_symbol || other_student != student) ==> after.certificate(
                other_course,
                other_student,
            ) == v.certificate(other_course, other_student)
            &&& after.events == v.events.push(
                CertificateEventView::CertRevoked { course_symbol, caller, student },
            )
        }),
{
}

/// Only the administrator may revoke or execute meta-transactions: anyone
/// else is refused with `Unauthorized`.
pub proof fn only_admin_may_act(
    v: CertificateContractView,
    caller: Seq<u8>,
    course_symbol: Seq<u8>,
    student: Seq<u8>,
    call_data: MetaTxCallDataView,
    issue_date: u64,
)
    requires
        v.admin is Some,
        v.admin != Some(caller),
    ensures
        v.revoke(caller, course_symbol, student) == Err::<
            CertificateContractView,
            CertificateError,
        >(CertificateError::Unauthorized),
        v.execute_meta_tx(caller, call_data, issue_date) == Err::<
            (CertificateContractView, CertificateView),
            CertificateError,
        >(CertificateError::Unauthorized),
{
}

/// Once set, the administrator never changes, and no operation removes a
/// certificate.
pub proof fn admin_and_certificates_persist(
    v: CertificateContractView,
    new_admin: Seq<u8>,
    caller: Seq<u8>,
    course_symbol: Seq<u8>,
    students: Seq<Seq<u8>>,
    course_name: Seq<u8>,
    issue_date: u64,
    student: Seq<u8>,
    call_data: MetaTxCallDataView,
    key: (Seq<u8>, Seq<u8>),
)
    requires
        v.admin is Some,
        v.certificates.contains_key(key),
    ensures
        v.init(new_admin) is Err,
        v.issue(course_symbol, students, course_name, issue_date).admin == v.admin,
        v.issue(course_symbol, students, course_name, issue_date).certificates.contains_key(key),
        v.revoke(caller, course_symbol, student) matches Ok(after) ==> {
            &&& after.admin == v.admin
            &&& after.certificates.contains_key(key)
        },
        v.execute_meta_tx(caller, call_data, issue_date) matches Ok((after, _)) ==> {
            &&& after.admin == v.admin
            &&& after.certificates.contains_key(key)
        },
{
}

/// A meta-transaction that succeeds issues its certificate, which then
/// reads back, and advances the signer's nonce by one, leaving every other
/// signer's nonce as it was.
pub proof fn meta_tx_issues_and_advances_nonce(
    v: CertificateContractView,
    caller: Seq<u8>,
    call_data: MetaTxCallDataView,
    issue_date: u64,
    other_signer: Seq<u8>,
)
    requires
        v.execute_meta_tx(caller, call_data, issue_date) is Ok,
        v.nonce_of(caller) < u64::MAX,
    ensures
        ({
            let (after, cert) = v.execute_meta_tx(caller, call_data, issue_date)->Ok_0;
            &&& cert == (CertificateView {
                course_symbol: call_data.course_symbol,
                student: call_data.student,
                course_name: call_data.course_name,
                issue_date,
                revoked: false,
            })
            &&& after.certificate(call_data.course_symbol, call_data.student) == Some(cert)
            &&& after.nonce_of(caller) == v.nonce_of(caller) + 1
            &&& other_signer != caller ==> after.nonce_of(other_signer) == v.nonce_of(other_signer)
        }),
{
}

/// A meta-transaction cannot be replayed: once it has been executed, the
/// same call data is refused with `InvalidNonce`.
pub proof fn meta_tx_replay_is_rejected(
    v: CertificateContractView,
    caller: Seq<u8>,
    call_data: MetaTxCallDataView,
    first_date: u64,
    second_date: u64,
)
    requires
        v.execute_meta_tx(caller, call_data, first_date) is Ok,
        v.nonce_of(caller) < u64::MAX,
    ensures
        v.execute_meta_tx(caller, call_data, first_date)->Ok_0.0.execute_meta_tx(
            caller,
            call_data,
            second_date,
        ) == Err::<(CertificateContractView, CertificateView), CertificateError>(
            CertificateError::InvalidNonce,
        ),
{
}

/// Issuing returns one certificate per listed student, in list order: the
/// i-th is the i-th student's, for the course, name and date of the call,
/// and not revoked.
pub proof fn issue_returns_each_students_certificate_in_order(
    course_symbol: Seq<u8>,
    students: Seq<Seq<u8>>,
    course_name: Seq<u8>,
    issue_date: u64,
)
    ensures
        issued_certificates(course_symbol, students, course_name, issue_date).len()
            == students.len(),
        forall|i: int|
            0 <= i < students.len() ==> #[trigger] issued_certificates(
                course_symbol,
                students,
                course_name,
                issue_date,
            )[i] == (CertificateView {
                course_symbol,
                student: students[i],
                course_name,
                issue_date,
                revoked: false,
            }),
{
}

/// `init` succeeds exactly when no administrator is set, and then sets it
/// and nothing else.
pub proof fn init_succeeds_exactly_when_unset(v: CertificateContractView, admin: Seq<u8>)
    ensures
        v.init(admin) is Ok <==> v.admin is None,
        v.init(admin) matches Ok(after) ==> {
            &&& after.admin == Some(admin)
            &&& after.certificates == v.certificates
            &&& after.nonces == v.nonces
            &&& after.events == v.events
        },
{
}

/// A revocation succeeds exactly when the caller is the administrator and a
/// certificate is stored for the pair; it then marks that certificate
/// revoked, keeping its other fields. Otherwise the answer names the first
/// condition that fails: no administrator, another caller, no certificate.
pub proof fn revoke_succeeds_exactly_for_admin_and_stored_certificate(
    v: CertificateContractView,
    caller: Seq<u8>,
    course_symbol: Seq<u8>,
    student: Seq<u8>,
)
    ensures
        v.revoke(caller, course_symbol, student) is Ok <==> (v.admin == Some(caller)
            && v.certificates.contains_key((course_symbol, student))),
        v.admin is None ==> v.revoke(caller, course_symbol, student) == Err::<
            CertificateContractView,
            CertificateError,
        >(CertificateError::NotInitialized),
        v.admin == Some(caller) && !v.certificates.contains_key((course_symbol, student))
            ==> v.revoke(caller, course_symbol, student) == Err::<
            CertificateContractView,
            CertificateError,
        >(CertificateError::CertificateNotFound),
        v.revoke(caller, course_symbol, student) matches Ok(after) ==> {
            let before = v.certificates[(course_symbol, student)];
            &&& after.certificates.contains_key((course_symbol, student))
            &&& after.certificates[(course_symbol, student)].revoked
            &&& after.certificates[(course_symbol, student)].course_symbol == before.course_symbol
            &&& after.certificates[(course_symbol, student)].student == before.student
            &&& after.certificates[(course_symbol, student)].course_name == before.course_name
            &&& after.certificates[(course_symbol, student)].issue_date == before.issue_date
            &&& after.admin == v.admin
            &&& after.nonces == v.nonces
        },
{
}

/// A meta-transaction succeeds exactly when its signer is the administrator
/// and its nonce is the signer's next nonce. It then stores the requested
/// certificate, fresh and unrevoked, and the signer's next nonce becomes
/// one more. Otherwise the answer names the first condition that fails.
pub proof fn meta_tx_succeeds_exactly_for_admin_and_next_nonce(
    v: CertificateContractView,
    caller: Seq<u8>,
    call_data: MetaTxCallDataView,
    issue_date: u64,
)
    requires
        call_data.nonce < u64::MAX,
    ensures
        v.execute_meta_tx(caller, call_data, issue_date) is Ok <==> (v.admin == Some(caller)
            && call_data.nonce == v.nonce_of(caller)),
        v.admin is None ==> v.execute_meta_tx(caller, call_data, issue_date) == Err::<
            (CertificateContractView, CertificateView),
            CertificateError,
        >(CertificateError::NotInitialized),
        v.admin == Some(caller) && call_data.nonce != v.nonce_of(caller) ==> v.execute_meta_tx(
            caller,
            call_data,
            issue_date,
        ) == Err::<(CertificateContractView, CertificateView), CertificateError>(
            CertificateError::InvalidNonce,
        ),
        v.execute_meta_tx(caller, call_data, issue_date) matches Ok((after, cert)) ==> {
            &&& cert == (CertificateView {
                course_symbol: call_data.course_symbol,
                student: call_data.student,
                course_name: call_data.course_name,
                issue_date,
                revoked: false,
            })
            &&& after.certificates.contains_key((call_data.course_symbol, call_data.student))
            &&& after.certificates[(call_data.course_symbol, call_data.student)] == cert
            &&& after.nonces.contains_key(caller)
            &&& after.nonces[caller] == call_data.nonce + 1
            &&& after.admin == v.admin
        },
{
}

/// The next nonce of a signer is what is stored for it, and 0 for a signer
/// with nothing stored.
pub proof fn nonce_of_reads_storage(v: CertificateContractView, signer: Seq<u8>)
    ensures
        v.nonces.contains_key(signer) ==> v.nonce_of(signer) == v.nonces[signer],
        !v.nonces.contains_key(signer) ==> v.nonce_of(signer) == 0,
{
}

/// The certificate read for a pair is what is stored for it, and none where
/// nothing is stored.
pub proof fn certificate_reads_storage(
    v: CertificateContractView,
    course_symbol: Seq<u8>,
    student: Seq<u8>,
)
    ensures
        v.certificates.contains_key((course_symbol, student)) ==> v.certificate(
            course_symbol,
            student,
        ) == Some(v.certificates[(course_symbol, student)]),
        !v.certificates.contains_key((course_symbol, student)) ==> v.certificate(
            course_symbol,
            student,
        ) is None,
{
}

/// A successful meta-transaction changes only the requested certificate and
/// the signer's nonce, and emits one `meta_tx_issued` event for it.
pub proof fn meta_tx_changes_only_its_certificate_and_nonce(
    v: CertificateContractView,
    caller: Seq<u8>,
    call_data: MetaTxCallDataView,
    issue_date: u64,
    other_course: Seq<u8>,
    other_student: Seq<u8>,
    other_signer: Seq<u8>,
)
    requires
        v.execute_meta_tx(caller, call_data, issue_date) is Ok,
    ensures
        ({
            let after = v.execute_meta_tx(caller, call_data, issue_date)->Ok_0.0;
            &&& (other_course != call_data.course_symbol || other_student != call_data.student)
                ==> after.certificate(other_course, other_student) == v.certificate(
                other_course,
                other_student,
            )
            &&& other_signer != caller ==> after.nonce_of(other_signer) == v.nonce_of(other_signer)
            &&& after.events == v.events.push(
                CertificateEventView::MetaTxIssued {
                    course_symbol: call_data.course_symbol,
                    student: call_data.student,
                    course_name: call_data.course_name,
                },
            )
        }),
{
}

/// Issuing sets no administrator and touches no nonce.
pub proof fn issue_keeps_admin_and_nonces(
    v: CertificateContractView,
    course_symbol: Seq<u8>,
    students: Seq<Seq<u8>>,
    course_name: Seq<u8>,
    issue_date: u64,
)
    ensures
        v.issue(course_symbol, students, course_name, issue_date).admin == v.admin,
        v.issue(course_symbol, students, course_name, issue_date).nonces == v.nonces,
{
}

} // verus!
