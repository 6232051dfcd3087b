use truenas_nss::{iterpw, NssModule, PasswdEntry, PasswdIterator, RawPasswd, RawText};

#[test]
fn test_passwd_entry_creation() {
    let entry = PasswdEntry {
        pw_name: "testuser".to_string(),
        pw_uid: 1000,
        pw_gid: 1000,
        pw_gecos: "Test User".to_string(),
        pw_dir: "/home/testuser".to_string(),
        pw_shell: "/bin/bash".to_string(),
        source: "files".to_string(),
    };

    assert_eq!(entry.pw_name, "testuser");
    assert_eq!(entry.pw_uid, 1000);
    assert_eq!(entry.pw_gid, 1000);
    assert_eq!(entry.pw_gecos, "Test User");
    assert_eq!(entry.pw_dir, "/home/testuser");
    assert_eq!(entry.pw_shell, "/bin/bash");
    assert_eq!(entry.source, "files");
}

#[test]
fn test_passwd_iterator_creation() {
    let iterator = PasswdIterator::new(NssModule::Files);
    assert_eq!(iterator.module, NssModule::Files);
    assert!(!iterator.initialized);
}

#[test]
fn test_passwd_iterator_function() {
    let iterator = iterpw(NssModule::Files);
    assert_eq!(iterator.module, NssModule::Files);
    assert!(!iterator.initialized);
}

#[test]
fn test_parse_passwd_null_shell_reads_empty() {
    let raw = RawPasswd {
        name: RawText::Text("alice".to_string()),
        uid: 1000,
        gid: 100,
        gecos: RawText::Text("Alice".to_string()),
        dir: RawText::Text("/home/alice".to_string()),
        shell: RawText::Null,
    };
    let entry = truenas_nss::passwd::parse_passwd_result(Some(raw), NssModule::Files)
        .expect("decoding must not fail")
        .expect("a named record must decode to a hit");
    assert_eq!(entry.pw_name, "alice");
    assert_eq!(entry.pw_shell, "");
    assert_eq!(entry.source, "FILES");
}

#[test]
fn test_parse_passwd_null_record_is_miss() {
    let decoded = truenas_nss::passwd::parse_passwd_result(None, NssModule::Files)
        .expect("decoding must not fail");
    assert!(decoded.is_none());
}

#[test]
fn test_parse_passwd_null_name_rejected() {
    let raw = RawPasswd {
        name: RawText::Null,
        uid: 1,
        gid: 1,
        gecos: RawText::Null,
        dir: RawText::Null,
        shell: RawText::Null,
    };
    let result = truenas_nss::passwd::parse_passwd_result(Some(raw), NssModule::Files);
    assert!(matches!(result, Err(truenas_nss::NssError::InvalidUtf8)));
}

#[test]
fn test_parse_passwd_malformed_name_rejected() {
    let raw = RawPasswd {
        name: RawText::Malformed,
        uid: 1,
        gid: 1,
        gecos: RawText::Null,
        dir: RawText::Null,
        shell: RawText::Null,
    };
    let result = truenas_nss::passwd::parse_passwd_result(Some(raw), NssModule::Files);
    assert!(matches!(result, Err(truenas_nss::NssError::InvalidUtf8)));
}
