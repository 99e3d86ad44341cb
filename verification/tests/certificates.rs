use contracts::certificate::{
    Certificate, CertificateContract, CertificateError, CertificateEvent, MetaTxCallData,
};

fn bytes(s: &str) -> Vec<u8> {
    s.as_bytes().to_vec()
}

fn setup() -> (CertificateContract, Vec<u8>) {
    let mut contract = CertificateContract::new();
    let admin = bytes("GADMINACCOUNT");
    contract.init(admin.clone()).unwrap();
    (contract, admin)
}

fn count_issued(contract: &CertificateContract) -> usize {
    contract
        .events()
        .iter()
        .filter(|e| matches!(e, CertificateEvent::CertIssued { .. }))
        .count()
}

#[test]
fn issues_and_loads_certificate_successfully() {
    let (mut client, _admin) = setup();

    let course_symbol = bytes("SOLID");
    let student = bytes("GSTUDENT");
    let course_name = bytes("Rust 101");

    let issued = client.issue(&course_symbol, &vec![student.clone()], &course_name, 1_234);

    assert_eq!(issued.len(), 1);
    let cert = issued[0].clone();
    assert_eq!(cert.course_symbol, course_symbol);
    assert_eq!(cert.student, student);
    assert_eq!(cert.course_name, course_name);
    assert_eq!(cert.issue_date, 1_234);
    assert!(!cert.revoked);

    let stored = client.get_certificate(course_symbol.clone(), student.clone());
    assert_eq!(stored, Some(cert));
}

#[test]
fn returns_none_for_non_existent_certificate() {
    let (client, _admin) = setup();

    let course_symbol = bytes("MISSIN");
    let student = bytes("GSTUDENT");
    assert!(client.get_certificate(course_symbol, student).is_none());
}

#[test]
fn issues_multiple_students_in_one_call() {
    let (mut client, _admin) = setup();

    let course_symbol = bytes("MULTI");
    let course_name = bytes("Web3 Basics");
    let student_a = bytes("GSTUDENTA");
    let student_b = bytes("GSTUDENTB");
    let student_c = bytes("GSTUDENTC");

    let students = vec![student_a.clone(), student_b.clone(), student_c.clone()];
    let issued = client.issue(&course_symbol, &students, &course_name, 5_000);

    assert_eq!(issued.len(), 3);

    for student in [&student_a, &student_b, &student_c] {
        let cert = client.get_certificate(course_symbol.clone(), student.clone()).unwrap();
        assert_eq!(cert.student, *student);
        assert_eq!(cert.issue_date, 5_000);
        assert!(!cert.revoked);
    }
}

#[test]
fn each_student_gets_unique_storage_key() {
    let (mut client, _admin) = setup();

    let course_symbol = bytes("UNIQ");
    let course_name = bytes("Soroban 101");
    let student_a = bytes("GSTUDENTA");
    let student_b = bytes("GSTUDENTB");

    client.issue(&course_symbol, &vec![student_a.clone(), student_b.clone()], &course_name, 0);

    let cert_a = client.get_certificate(course_symbol.clone(), student_a).unwrap();
    let cert_b = client.get_certificate(course_symbol.clone(), student_b).unwrap();
    assert_ne!(cert_a.student, cert_b.student);
}

#[test]
fn verifies_event_emitted_per_student() {
    let (mut client, _admin) = setup();

    let course_symbol = bytes("SOLID");
    let course_name = bytes("Rust 101");
    let student_a = bytes("GSTUDENTA");
    let student_b = bytes("GSTUDENTB");

    client.issue(&course_symbol, &vec![student_a.clone(), student_b.clone()], &course_name, 0);

    assert_eq!(count_issued(&client), 2);
}

#[test]
fn admin_can_revoke_certificate() {
    let (mut client, admin) = setup();

    let course_symbol = bytes("SOLID");
    let student = bytes("GSTUDENT");
    let course_name = bytes("Rust 101");

    client.issue(&course_symbol, &vec![student.clone()], &course_name, 0);
    client.revoke(&admin, &course_symbol, &student).unwrap();

    let cert = client.get_certificate(course_symbol, student).unwrap();
    assert!(cert.revoked);
}

#[test]
fn revoke_does_not_affect_other_students() {
    let (mut client, admin) = setup();

    let course_symbol = bytes("SOLID");
    let course_name = bytes("Rust 101");
    let student_a = bytes("GSTUDENTA");
    let student_b = bytes("GSTUDENTB");

    client.issue(&course_symbol, &vec![student_a.clone(), student_b.clone()], &course_name, 0);

    client.revoke(&admin, &course_symbol, &student_a).unwrap();

    assert!(client.get_certificate(course_symbol.clone(), student_a).unwrap().revoked);
    assert!(!client.get_certificate(course_symbol.clone(), student_b).unwrap().revoked);
}

#[test]
fn revoke_emits_event() {
    let (mut client, admin) = setup();

    let course_symbol = bytes("SOLID");
    let student = bytes("GSTUDENT");
    let course_name = bytes("Rust 101");

    client.issue(&course_symbol, &vec![student.clone()], &course_name, 0);
    client.revoke(&admin, &course_symbol, &student).unwrap();

    let last = client.events().last().unwrap().clone();
    assert_eq!(
        last,
        CertificateEvent::CertRevoked {
            course_symbol: course_symbol.clone(),
            caller: admin.clone(),
            student: student.clone(),
        }
    );
}

#[test]
fn non_admin_cannot_revoke_certificate() {
    let (mut client, _admin) = setup();

    let course_symbol = bytes("SOLID");
    let student = bytes("GSTUDENT");
    let course_name = bytes("Rust 101");

    client.issue(&course_symbol, &vec![student.clone()], &course_name, 0);

    let attacker = bytes("GATTACKER");
    assert_eq!(
        client.revoke(&attacker, &course_symbol, &student),
        Err(CertificateError::Unauthorized)
    );
    assert!(!client.get_certificate(course_symbol, student).unwrap().revoked);
}

#[test]
fn meta_tx_issues_certificate_for_student() {
    let (mut client, admin) = setup();

    let course_symbol = bytes("META");
    let student = bytes("GSTUDENT");
    let course_name = bytes("Meta Course");

    let call_data = MetaTxCallData {
        course_symbol: course_symbol.clone(),
        student: student.clone(),
        course_name: course_name.clone(),
        nonce: 0,
    };

    let cert = client.execute_meta_tx(&admin, &Vec::new(), &call_data, 9_000).unwrap();

    assert_eq!(cert.student, student);
    assert_eq!(cert.course_symbol, course_symbol);
    assert_eq!(cert.issue_date, 9_000);
    assert!(!cert.revoked);

    assert_eq!(client.get_certificate(course_symbol, student), Some(cert));
}

#[test]
fn meta_tx_nonce_increments_after_execution() {
    let (mut client, admin) = setup();

    let call_data = MetaTxCallData {
        course_symbol: bytes("NONCE"),
        student: bytes("GSTUDENT"),
        course_name: bytes("Nonce Test"),
        nonce: 0,
    };

    assert_eq!(client.get_nonce(&admin), 0);
    client.execute_meta_tx(&admin, &Vec::new(), &call_data, 0).unwrap();
    assert_eq!(client.get_nonce(&admin), 1);
}

#[test]
fn meta_tx_replay_is_rejected() {
    let (mut client, admin) = setup();

    let call_data = MetaTxCallData {
        course_symbol: bytes("REPLY"),
        student: bytes("GSTUDENT"),
        course_name: bytes("Replay Test"),
        nonce: 0,
    };

    assert!(client.execute_meta_tx(&admin, &Vec::new(), &call_data.clone(), 0).is_ok());
    assert_eq!(
        client.execute_meta_tx(&admin, &Vec::new(), &call_data, 0),
        Err(CertificateError::InvalidNonce)
    );
    assert_eq!(client.get_nonce(&admin), 1);
}

#[test]
fn meta_tx_non_admin_is_rejected() {
    let (mut client, _admin) = setup();

    let attacker = bytes("GATTACKER");
    let call_data = MetaTxCallData {
        course_symbol: bytes("HACK"),
        student: bytes("GSTUDENT"),
        course_name: bytes("Hack Attempt"),
        nonce: 0,
    };

    assert_eq!(
        client.execute_meta_tx(&attacker, &Vec::new(), &call_data, 0),
        Err(CertificateError::Unauthorized)
    );
    assert!(client.get_certificate(bytes("HACK"), bytes("GSTUDENT")).is_none());
}

#[test]
fn meta_tx_emits_event() {
    let (mut client, admin) = setup();

    let course_symbol = bytes("EVNT");
    let call_data = MetaTxCallData {
        course_symbol: course_symbol.clone(),
        student: bytes("GSTUDENT"),
        course_name: bytes("Event Test"),
        nonce: 0,
    };

    client.execute_meta_tx(&admin, &Vec::new(), &call_data, 0).unwrap();

    match client.events().last().unwrap() {
        CertificateEvent::MetaTxIssued { course_symbol: c, .. } => assert_eq!(*c, course_symbol),
        other => panic!("unexpected event {:?}", other),
    }
}

// ---------------------------------------------------------------------------
// Further cases
// ---------------------------------------------------------------------------

#[test]
fn second_init_is_refused() {
    let (mut client, admin) = setup();
    assert_eq!(client.init(bytes("GOTHER")), Err(CertificateError::AlreadyInitialized));
    // The administrator is still the first one.
    client.issue(&bytes("SOLID"), &vec![bytes("GSTUDENT")], &bytes("Rust 101"), 0);
    assert!(client.revoke(&admin, &bytes("SOLID"), &bytes("GSTUDENT")).is_ok());
}

#[test]
fn revoke_before_init_is_refused() {
    let mut client = CertificateContract::new();
    client.issue(&bytes("SOLID"), &vec![bytes("GSTUDENT")], &bytes("Rust 101"), 0);
    assert_eq!(
        client.revoke(&bytes("GADMINACCOUNT"), &bytes("SOLID"), &bytes("GSTUDENT")),
        Err(CertificateError::NotInitialized)
    );
}

#[test]
fn revoke_of_missing_certificate_is_refused() {
    let (mut client, admin) = setup();
    let events_before = client.events().len();
    assert_eq!(
        client.revoke(&admin, &bytes("SOLID"), &bytes("GNOBODY")),
        Err(CertificateError::CertificateNotFound)
    );
    assert_eq!(client.events().len(), events_before);
}

#[test]
fn meta_tx_before_init_is_refused() {
    let mut client = CertificateContract::new();
    let call_data = MetaTxCallData {
        course_symbol: bytes("META"),
        student: bytes("GSTUDENT"),
        course_name: bytes("Meta Course"),
        nonce: 0,
    };
    assert_eq!(
        client.execute_meta_tx(&bytes("GADMINACCOUNT"), &Vec::new(), &call_data, 0),
        Err(CertificateError::NotInitialized)
    );
}

#[test]
fn meta_tx_accepts_nonces_in_order() {
    let (mut client, admin) = setup();
    let mut call_data = MetaTxCallData {
        course_symbol: bytes("SEQ"),
        student: bytes("GSTUDENT"),
        course_name: bytes("Sequence"),
        nonce: 1,
    };
    assert_eq!(
        client.execute_meta_tx(&admin, &Vec::new(), &call_data, 0),
        Err(CertificateError::InvalidNonce)
    );
    call_data.nonce = 0;
    assert!(client.execute_meta_tx(&admin, &Vec::new(), &call_data, 0).is_ok());
    call_data.nonce = 1;
    assert!(client.execute_meta_tx(&admin, &Vec::new(), &call_data, 0).is_ok());
    assert_eq!(client.get_nonce(&admin), 2);
    assert_eq!(client.get_nonce(&bytes("GSTUDENT")), 0);
}

#[test]
fn issue_to_no_students_changes_nothing() {
    let (mut client, _admin) = setup();
    let issued = client.issue(&bytes("SOLID"), &Vec::new(), &bytes("Rust 101"), 7);
    assert!(issued.is_empty());
    assert!(client.events().is_empty());
}

#[test]
fn issue_lists_a_repeated_student_twice() {
    let (mut client, _admin) = setup();
    let student = bytes("GSTUDENT");
    let issued =
        client.issue(&bytes("SOLID"), &vec![student.clone(), student.clone()], &bytes("Rust 101"), 3);
    assert_eq!(issued.len(), 2);
    assert_eq!(issued[0], issued[1]);
    assert_eq!(count_issued(&client), 2);
    assert_eq!(
        client.events()[1],
        CertificateEvent::CertIssued {
            course_symbol: bytes("SOLID"),
            student: student.clone(),
            course_name: bytes("Rust 101"),
        }
    );
}

#[test]
fn reissue_replaces_a_revoked_certificate() {
    let (mut client, admin) = setup();
    let student = bytes("GSTUDENT");
    client.issue(&bytes("SOLID"), &vec![student.clone()], &bytes("Rust 101"), 1);
    client.revoke(&admin, &bytes("SOLID"), &student).unwrap();
    client.issue(&bytes("SOLID"), &vec![student.clone()], &bytes("Rust 102"), 2);
    let cert = client.get_certificate(bytes("SOLID"), student.clone()).unwrap();
    assert!(!cert.revoked);
    assert_eq!(cert.issue_date, 2);
    assert_eq!(cert.course_name, bytes("Rust 102"));
}

#[test]
fn certificates_of_other_courses_are_separate() {
    let (mut client, admin) = setup();
    let student = bytes("GSTUDENT");
    client.issue(&bytes("SOLID"), &vec![student.clone()], &bytes("Rust 101"), 1);
    client.issue(&bytes("WEB3"), &vec![student.clone()], &bytes("Web3 Basics"), 2);
    client.revoke(&admin, &bytes("SOLID"), &student).unwrap();
    assert!(client.get_certificate(bytes("SOLID"), student.clone()).unwrap().revoked);
    let other = client.get_certificate(bytes("WEB3"), student.clone()).unwrap();
    assert!(!other.revoked);
    assert_eq!(other.issue_date, 2);
}

#[test]
fn loaded_entries_read_back() {
    let mut client = CertificateContract::new();
    let cert = Certificate {
        course_symbol: bytes("SOLID"),
        student: bytes("GSTUDENT"),
        course_name: bytes("Rust 101"),
        issue_date: 42,
        revoked: true,
    };
    client.load_certificate(cert.clone());
    client.load_nonce(bytes("GADMINACCOUNT"), 5);
    assert_eq!(client.get_certificate(bytes("SOLID"), bytes("GSTUDENT")), Some(cert));
    assert_eq!(client.get_nonce(&bytes("GADMINACCOUNT")), 5);
    assert!(client.events().is_empty());
}
