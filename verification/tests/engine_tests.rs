use truenas_nss::{
    getgrall, getgrnam, getpwall, getpwnam, getpwuid, itergrp, iterpw, GrReply, NssCallPort,
    NssError, NssModule, NssOperation, NssRegistry, NssReturnCode, OpTable, PwReply, RawGroup,
    RawPasswd, RawText,
};

#[derive(Clone)]
struct MockUser {
    name: String,
    uid: u32,
    gid: u32,
    gecos: String,
    dir: String,
    shell: String,
}

fn user(name: &str, uid: u32, gid: u32) -> MockUser {
    MockUser {
        name: name.to_string(),
        uid,
        gid,
        gecos: format!("{} gecos", name),
        dir: format!("/home/{}", name),
        shell: "/bin/sh".to_string(),
    }
}

#[derive(Clone)]
struct MockBackend {
    available: bool,
    present: [bool; 10],
    users: Vec<MockUser>,
    groups: Vec<(String, u32, Vec<String>)>,
    min_pw_buflen: usize,
    keyed_unavail: bool,
    begin_pw_fails: bool,
    pw_cursor: usize,
    gr_cursor: usize,
    load_calls: u32,
    end_pw_calls: u32,
    end_gr_calls: u32,
}

impl MockBackend {
    fn with_all_ops() -> MockBackend {
        MockBackend {
            available: true,
            present: [true; 10],
            users: Vec::new(),
            groups: Vec::new(),
            min_pw_buflen: 0,
            keyed_unavail: false,
            begin_pw_fails: false,
            pw_cursor: 0,
            gr_cursor: 0,
            load_calls: 0,
            end_pw_calls: 0,
            end_gr_calls: 0,
        }
    }

    fn unavailable() -> MockBackend {
        let mut b = MockBackend::with_all_ops();
        b.available = false;
        b
    }
}

struct MockPort {
    files: MockBackend,
    sss: MockBackend,
    winbind: MockBackend,
    call_log: Vec<(NssModule, &'static str)>,
    last_path: String,
    last_symbols: Vec<String>,
}

impl MockPort {
    fn new(files: MockBackend, sss: MockBackend, winbind: MockBackend) -> MockPort {
        MockPort {
            files,
            sss,
            winbind,
            call_log: Vec::new(),
            last_path: String::new(),
            last_symbols: Vec::new(),
        }
    }

    fn backend(&mut self, module: NssModule) -> &mut MockBackend {
        match module {
            NssModule::Files => &mut self.files,
            NssModule::Sss => &mut self.sss,
            NssModule::Winbind => &mut self.winbind,
        }
    }
}

fn raw_pw(u: &MockUser) -> RawPasswd {
    RawPasswd {
        name: RawText::Text(u.name.clone()),
        uid: u.uid,
        gid: u.gid,
        gecos: RawText::Text(u.gecos.clone()),
        dir: RawText::Text(u.dir.clone()),
        shell: RawText::Text(u.shell.clone()),
    }
}

fn raw_gr(g: &(String, u32, Vec<String>)) -> RawGroup {
    RawGroup {
        name: RawText::Text(g.0.clone()),
        gid: g.1,
        members: Some(g.2.iter().map(|m| RawText::Text(m.clone())).collect()),
    }
}

fn hit_pw(u: &MockUser) -> PwReply {
    PwReply { ret_code: 1, errno: 0, record: Some(raw_pw(u)) }
}

fn miss_pw() -> PwReply {
    PwReply { ret_code: 0, errno: 0, record: None }
}

fn unavail_pw() -> PwReply {
    PwReply { ret_code: -1, errno: 0, record: None }
}

fn erange_pw() -> PwReply {
    PwReply { ret_code: 0, errno: 34, record: None }
}

fn hit_gr(g: &(String, u32, Vec<String>)) -> GrReply {
    GrReply { ret_code: 1, errno: 0, record: Some(raw_gr(g)) }
}

fn miss_gr() -> GrReply {
    GrReply { ret_code: 0, errno: 0, record: None }
}

impl NssCallPort for MockPort {
    fn load_module(&mut self, module: NssModule, path: &str, symbols: &Vec<String>) -> Option<OpTable> {
        self.last_path = path.to_string();
        self.last_symbols = symbols.clone();
        let b = self.backend(module);
        b.load_calls += 1;
        if b.available {
            Some(OpTable { present: b.present })
        } else {
            None
        }
    }

    fn call_pw_by_name(&mut self, module: NssModule, name: &str, buffer_len: usize) -> PwReply {
        self.call_log.push((module, "getpwnam_r"));
        let b = self.backend(module);
        if b.keyed_unavail {
            return unavail_pw();
        }
        if buffer_len < b.min_pw_buflen {
            return erange_pw();
        }
        match b.users.iter().find(|u| u.name == name) {
            Some(u) => hit_pw(u),
            None => miss_pw(),
        }
    }

    fn call_pw_by_uid(&mut self, module: NssModule, uid: u32, buffer_len: usize) -> PwReply {
        self.call_log.push((module, "getpwuid_r"));
        let b = self.backend(module);
        if b.keyed_unavail {
            return unavail_pw();
        }
        if buffer_len < b.min_pw_buflen {
            return erange_pw();
        }
        match b.users.iter().find(|u| u.uid == uid) {
            Some(u) => hit_pw(u),
            None => miss_pw(),
        }
    }

    fn call_pw_ent(&mut self, module: NssModule, _buffer_len: usize) -> PwReply {
        self.call_log.push((module, "getpwent_r"));
        let b = self.backend(module);
        if b.pw_cursor < b.users.len() {
            let u = b.users[b.pw_cursor].clone();
            b.pw_cursor += 1;
            hit_pw(&u)
        } else {
            miss_pw()
        }
    }

    fn call_set_pw_ent(&mut self, module: NssModule) -> i32 {
        self.call_log.push((module, "setpwent"));
        let b = self.backend(module);
        if b.begin_pw_fails {
            return -1;
        }
        b.pw_cursor = 0;
        1
    }

    fn call_end_pw_ent(&mut self, module: NssModule) -> i32 {
        self.call_log.push((module, "endpwent"));
        let b = self.backend(module);
        b.end_pw_calls += 1;
        1
    }

    fn call_gr_by_name(&mut self, module: NssModule, name: &str, _buffer_len: usize) -> GrReply {
        self.call_log.push((module, "getgrnam_r"));
        let b = self.backend(module);
        if b.keyed_unavail {
            return GrReply { ret_code: -1, errno: 0, record: None };
        }
        match b.groups.iter().find(|g| g.0 == name) {
            Some(g) => hit_gr(g),
            None => miss_gr(),
        }
    }

    fn call_gr_by_gid(&mut self, module: NssModule, gid: u32, _buffer_len: usize) -> GrReply {
        self.call_log.push((module, "getgrgid_r"));
        let b = self.backend(module);
        match b.groups.iter().find(|g| g.1 == gid) {
            Some(g) => hit_gr(g),
            None => miss_gr(),
        }
    }

    fn call_gr_ent(&mut self, module: NssModule, _buffer_len: usize) -> GrReply {
        self.call_log.push((module, "getgrent_r"));
        let b = self.backend(module);
        if b.gr_cursor < b.groups.len() {
            let g = b.groups[b.gr_cursor].clone();
            b.gr_cursor += 1;
            hit_gr(&g)
        } else {
            miss_gr()
        }
    }

    fn call_set_gr_ent(&mut self, module: NssModule) -> i32 {
        self.call_log.push((module, "setgrent"));
        let b = self.backend(module);
        b.gr_cursor = 0;
        1
    }

    fn call_end_gr_ent(&mut self, module: NssModule) -> i32 {
        self.call_log.push((module, "endgrent"));
        let b = self.backend(module);
        b.end_gr_calls += 1;
        1
    }
}

#[test]
fn test_buffer_growth_retry() {
    let mut files = MockBackend::with_all_ops();
    files.users.push(user("alice", 1000, 100));
    files.min_pw_buflen = 8192;
    let mut port = MockPort::new(files, MockBackend::with_all_ops(), MockBackend::with_all_ops());
    let mut registry = NssRegistry::new();

    let entry = getpwnam(&mut registry, &mut port, "alice", Some(NssModule::Files))
        .expect("buffer growth must be invisible to the caller");
    assert_eq!(entry.pw_name, "alice");
    assert_eq!(entry.pw_uid, 1000);
    assert_eq!(entry.pw_gid, 100);
    assert_eq!(entry.pw_gecos, "alice gecos");
    assert_eq!(entry.pw_dir, "/home/alice");
    assert_eq!(entry.pw_shell, "/bin/sh");
    assert_eq!(entry.source, "FILES");
    // The backend saw the undersized attempts; the caller saw none of them.
    let attempts = port
        .call_log
        .iter()
        .filter(|(_, op)| *op == "getpwnam_r")
        .count();
    assert!(attempts > 1);
}

#[test]
fn test_cross_key_consistency() {
    let mut files = MockBackend::with_all_ops();
    files.users.push(user("alice", 1000, 100));
    let mut port = MockPort::new(files, MockBackend::with_all_ops(), MockBackend::with_all_ops());
    let mut registry = NssRegistry::new();

    let by_name =
        getpwnam(&mut registry, &mut port, "alice", Some(NssModule::Files)).expect("hit by name");
    let by_uid =
        getpwuid(&mut registry, &mut port, 1000, Some(NssModule::Files)).expect("hit by uid");
    assert_eq!(by_name.pw_uid, by_uid.pw_uid);
    assert_eq!(by_name.pw_gid, by_uid.pw_gid);
    assert_eq!(by_name.pw_name, by_uid.pw_name);
}

#[test]
fn test_fallback_ordering() {
    let mut winbind = MockBackend::with_all_ops();
    winbind.users.push(user("alice", 5000, 5000));
    let mut port = MockPort::new(MockBackend::with_all_ops(), MockBackend::with_all_ops(), winbind);
    let mut registry = NssRegistry::new();

    let entry = getpwnam(&mut registry, &mut port, "alice", None).expect("hit in the last backend");
    assert_eq!(entry.source, "WINBIND");
    let tried: Vec<NssModule> = port
        .call_log
        .iter()
        .filter(|(_, op)| *op == "getpwnam_r")
        .map(|(m, _)| *m)
        .collect();
    assert_eq!(tried, vec![NssModule::Files, NssModule::Sss, NssModule::Winbind]);
}

#[test]
fn test_enumeration_exhaustion_and_cleanup() {
    let mut files = MockBackend::with_all_ops();
    files.users.push(user("a", 1, 1));
    files.users.push(user("b", 2, 2));
    files.users.push(user("c", 3, 3));
    let mut port = MockPort::new(files, MockBackend::with_all_ops(), MockBackend::with_all_ops());
    let mut registry = NssRegistry::new();

    let mut it = iterpw(NssModule::Files);
    let mut hits = 0;
    while let Some(step) = it.next(&mut registry, &mut port) {
        step.expect("no failure expected");
        hits += 1;
    }
    assert_eq!(hits, 3);
    // Exhaustion does not close the cursor by itself.
    assert_eq!(port.files.end_pw_calls, 0);
    it.close(&mut registry, &mut port);
    assert_eq!(port.files.end_pw_calls, 1);
    // A second disposal must not issue a second end-call.
    it.close(&mut registry, &mut port);
    assert_eq!(port.files.end_pw_calls, 1);
    assert!(it.next(&mut registry, &mut port).is_none());
    assert_eq!(port.files.end_pw_calls, 1);
}

#[test]
fn test_enumeration_early_abandonment_cleanup() {
    let mut files = MockBackend::with_all_ops();
    files.users.push(user("a", 1, 1));
    files.users.push(user("b", 2, 2));
    files.users.push(user("c", 3, 3));
    let mut port = MockPort::new(files, MockBackend::with_all_ops(), MockBackend::with_all_ops());
    let mut registry = NssRegistry::new();

    let mut it = iterpw(NssModule::Files);
    let first = it.next(&mut registry, &mut port).expect("one record");
    assert_eq!(first.expect("no failure expected").pw_name, "a");
    it.close(&mut registry, &mut port);
    assert_eq!(port.files.end_pw_calls, 1);
    it.close(&mut registry, &mut port);
    assert_eq!(port.files.end_pw_calls, 1);
}

#[test]
fn test_enumeration_begin_failure_is_terminal() {
    let mut files = MockBackend::with_all_ops();
    files.users.push(user("a", 1, 1));
    files.begin_pw_fails = true;
    let mut port = MockPort::new(files, MockBackend::with_all_ops(), MockBackend::with_all_ops());
    let mut registry = NssRegistry::new();

    let mut it = iterpw(NssModule::Files);
    let first = it.next(&mut registry, &mut port).expect("the failure is surfaced once");
    assert!(matches!(
        first,
        Err(NssError::NssOperationFailed { operation: NssOperation::SetPwEnt, .. })
    ));
    // Surfaced once; afterwards the session is unusable.
    assert!(it.next(&mut registry, &mut port).is_none());
    // The session never opened, so disposal must not issue an end-call.
    it.close(&mut registry, &mut port);
    assert_eq!(port.files.end_pw_calls, 0);
}

#[test]
fn test_operation_absence_isolation() {
    let mut files = MockBackend::with_all_ops();
    files.users.push(user("alice", 1000, 100));
    files.present[NssOperation::SetPwEnt.as_index()] = false;
    files.present[NssOperation::GetPwEnt.as_index()] = false;
    files.present[NssOperation::EndPwEnt.as_index()] = false;
    let mut port = MockPort::new(files, MockBackend::with_all_ops(), MockBackend::with_all_ops());
    let mut registry = NssRegistry::new();

    // Enumeration against this backend fails for want of its entry point...
    let mut it = iterpw(NssModule::Files);
    let step = it.next(&mut registry, &mut port).expect("the failure is surfaced");
    match step {
        Err(NssError::LibraryError(text)) => {
            assert_eq!(text, "Function setpwent not found in files");
        }
        other => panic!("expected a missing-entry-point failure, got {:?}", other),
    }
    it.close(&mut registry, &mut port);

    // ...while keyed lookups against the same backend are unaffected.
    let entry = getpwnam(&mut registry, &mut port, "alice", Some(NssModule::Files))
        .expect("keyed lookup must be unaffected");
    assert_eq!(entry.pw_name, "alice");
}

#[test]
fn test_aggregate_listing_order() {
    let mut files = MockBackend::with_all_ops();
    files.users.push(user("root", 0, 0));
    files.users.push(user("alice", 1000, 100));
    let mut sss = MockBackend::with_all_ops();
    sss.users.push(user("alice", 2000, 200));
    let mut winbind = MockBackend::with_all_ops();
    winbind.users.push(user("bob", 3000, 300));
    let mut port = MockPort::new(files, sss, winbind);
    let mut registry = NssRegistry::new();

    let all = getpwall(&mut registry, &mut port, None).expect("listing must succeed");
    let names: Vec<&str> = all.iter().map(|e| e.pw_name.as_str()).collect();
    let sources: Vec<&str> = all.iter().map(|e| e.source.as_str()).collect();
    // Backend-by-backend in priority order, duplicates kept.
    assert_eq!(names, vec!["root", "alice", "alice", "bob"]);
    assert_eq!(sources, vec!["FILES", "FILES", "SSS", "WINBIND"]);
}

#[test]
fn test_getpwall_skips_unloadable_backend() {
    let mut files = MockBackend::with_all_ops();
    files.users.push(user("root", 0, 0));
    let mut sss = MockBackend::with_all_ops();
    sss.users.push(user("alice", 2000, 200));
    let mut port = MockPort::new(files, sss, MockBackend::unavailable());
    let mut registry = NssRegistry::new();

    let all = getpwall(&mut registry, &mut port, None).expect("listing must skip the missing backend");
    let names: Vec<&str> = all.iter().map(|e| e.pw_name.as_str()).collect();
    assert_eq!(names, vec!["root", "alice"]);
}

#[test]
fn test_group_listing_and_members() {
    let mut files = MockBackend::with_all_ops();
    files
        .groups
        .push(("wheel".to_string(), 10, vec!["root".to_string(), "alice".to_string()]));
    let mut port = MockPort::new(files, MockBackend::with_all_ops(), MockBackend::with_all_ops());
    let mut registry = NssRegistry::new();

    let all = getgrall(&mut registry, &mut port, Some(NssModule::Files)).expect("listing");
    assert_eq!(all.len(), 1);
    assert_eq!(all[0].gr_name, "wheel");
    assert_eq!(all[0].gr_gid, 10);
    assert_eq!(all[0].gr_mem, vec!["root", "alice"]);
    assert_eq!(all[0].source, "FILES");
    assert_eq!(port.files.end_gr_calls, 1);
}

#[test]
fn test_group_iterator_exhaustion() {
    let mut files = MockBackend::with_all_ops();
    files.groups.push(("wheel".to_string(), 10, vec![]));
    files.groups.push(("devs".to_string(), 20, vec!["alice".to_string()]));
    let mut port = MockPort::new(files, MockBackend::with_all_ops(), MockBackend::with_all_ops());
    let mut registry = NssRegistry::new();

    let mut it = itergrp(NssModule::Files);
    let mut names = Vec::new();
    while let Some(step) = it.next(&mut registry, &mut port) {
        names.push(step.expect("no failure expected").gr_name);
    }
    it.close(&mut registry, &mut port);
    assert_eq!(names, vec!["wheel", "devs"]);
    assert_eq!(port.files.end_gr_calls, 1);
}

#[test]
fn test_unavail_status_skipped_in_fallback() {
    let mut files = MockBackend::with_all_ops();
    files.keyed_unavail = true;
    let mut sss = MockBackend::with_all_ops();
    sss.users.push(user("alice", 2000, 200));
    let mut port = MockPort::new(files, sss, MockBackend::with_all_ops());
    let mut registry = NssRegistry::new();

    let entry = getpwnam(&mut registry, &mut port, "alice", None)
        .expect("an unavailable backend is skipped");
    assert_eq!(entry.source, "SSS");
}

#[test]
fn test_load_failure_cached() {
    let mut port =
        MockPort::new(MockBackend::unavailable(), MockBackend::with_all_ops(), MockBackend::with_all_ops());
    let mut registry = NssRegistry::new();

    let first = getpwnam(&mut registry, &mut port, "alice", Some(NssModule::Files));
    match first {
        Err(NssError::LibraryError(text)) => {
            assert_eq!(text, "Failed to load library: /usr/lib/x86_64-linux-gnu/libnss_files.so.2");
        }
        other => panic!("expected a load failure, got {:?}", other),
    }
    let second = getpwnam(&mut registry, &mut port, "alice", Some(NssModule::Files));
    assert!(second.is_err());
    // The failed load is cached: one attempt, not one per call.
    assert_eq!(port.files.load_calls, 1);
}

#[test]
fn test_registry_resolves_symbol_names() {
    let mut files = MockBackend::with_all_ops();
    files.users.push(user("root", 0, 0));
    let mut port = MockPort::new(files, MockBackend::with_all_ops(), MockBackend::with_all_ops());
    let mut registry = NssRegistry::new();

    getpwnam(&mut registry, &mut port, "root", Some(NssModule::Files)).expect("hit");
    assert_eq!(port.last_path, "/usr/lib/x86_64-linux-gnu/libnss_files.so.2");
    assert_eq!(port.last_symbols.len(), 10);
    assert_eq!(
        port.last_symbols[NssOperation::GetPwNam.as_index()],
        "_nss_files_getpwnam_r"
    );
    assert_eq!(
        port.last_symbols[NssOperation::EndGrEnt.as_index()],
        "_nss_files_endgrent"
    );
}

#[test]
fn test_terminal_not_found_shape() {
    let mut port = MockPort::new(
        MockBackend::with_all_ops(),
        MockBackend::with_all_ops(),
        MockBackend::with_all_ops(),
    );
    let mut registry = NssRegistry::new();

    let result = getpwnam(&mut registry, &mut port, "nobody", None);
    match result {
        Err(NssError::NssOperationFailed { errno, operation, return_code, module }) => {
            assert_eq!(errno, 0);
            assert_eq!(operation, NssOperation::GetPwNam);
            assert_eq!(return_code, NssReturnCode::NotFound);
            assert_eq!(module, NssModule::Files);
        }
        other => panic!("expected the terminal not-found failure, got {:?}", other),
    }
}

#[test]
fn test_nonexistent_user() {
    let mut port = MockPort::new(
        MockBackend::with_all_ops(),
        MockBackend::with_all_ops(),
        MockBackend::with_all_ops(),
    );
    let mut registry = NssRegistry::new();

    let result = getpwnam(&mut registry, &mut port, "nonexistent_user_12345", None);
    match result {
        Ok(_) => panic!("Expected error for nonexistent user"),
        Err(e) => println!("Expected error for nonexistent user: {}", e.message()),
    }
}

#[test]
fn test_nonexistent_group() {
    let mut port = MockPort::new(
        MockBackend::with_all_ops(),
        MockBackend::with_all_ops(),
        MockBackend::with_all_ops(),
    );
    let mut registry = NssRegistry::new();

    let result = getgrnam(&mut registry, &mut port, "nonexistent_group_12345", None);
    match result {
        Ok(_) => panic!("Expected error for nonexistent group"),
        Err(e) => println!("Expected error for nonexistent group: {}", e.message()),
    }
}

#[test]
fn test_group_keyed_lookups() {
    let mut files = MockBackend::with_all_ops();
    files
        .groups
        .push(("wheel".to_string(), 10, vec!["root".to_string()]));
    let mut port = MockPort::new(files, MockBackend::with_all_ops(), MockBackend::with_all_ops());
    let mut registry = NssRegistry::new();

    let by_name =
        getgrnam(&mut registry, &mut port, "wheel", Some(NssModule::Files)).expect("hit by name");
    assert_eq!(by_name.gr_gid, 10);
    assert_eq!(by_name.gr_mem, vec!["root"]);
    assert_eq!(by_name.source, "FILES");

    let by_gid = truenas_nss::getgrgid(&mut registry, &mut port, 10, Some(NssModule::Files))
        .expect("hit by gid");
    assert_eq!(by_gid.gr_name, "wheel");
    assert_eq!(by_gid.gr_gid, by_name.gr_gid);
}
