//! User records: decoding, keyed lookups with fallback, enumeration
//! sessions, and the aggregate listing.

use vstd::prelude::*;

use crate::error::{NssError, NssResult};
use crate::nss_common::{module_upper_name_spec, NssModule, NssOperation};
use crate::port::{opt_text, opt_text_ok, opt_text_spec, NssCallPort, RawPasswd, RawText};
use crate::nss_common::NssReturnCode;
use crate::protocol::{
    chain_skips, chain_skips_spec, fallback_modules, fallback_modules_spec, impl_err_shape,
    interpret_reply, lemma_blocks_append_block, sources_in_blocks, str_contains_nul,
    terminal_not_found, terminal_not_found_spec, CallStep,
};
use crate::registry::{
    get_nss_function, lemma_registry_evolves_refl, lemma_registry_evolves_trans,
    lemma_resolve_transition_evolves, op_available, registry_evolves, resolve_err_text,
    resolve_transition, status_of, NssRegistry,
};

verus! {

/// The scratch-buffer size a call starts with; doubled on overflow.
pub const PASSWD_INIT_BUFLEN: usize = 1024;

/// An owned, backend-tagged user record. `source` is always the
/// upper-case identifier of the backend that produced the hit.
#[derive(Debug, Clone)]
pub struct PasswdEntry {
    pub pw_name: String,
    pub pw_uid: u32,
    pub pw_gid: u32,
    pub pw_gecos: String,
    pub pw_dir: String,
    pub pw_shell: String,
    pub source: String,
}

/// What decoding a raw user record yields: a null record area is a
/// miss; a missing or malformed primary name rejects the whole record
/// with the encoding error, never a silent skip; otherwise every field
/// is carried over, null optional fields read as empty text, and the
/// record is tagged with the backend that produced it.
pub open spec fn parse_pw_post(
    raw: Option<RawPasswd>,
    m: NssModule,
    r: NssResult<Option<PasswdEntry>>,
) -> bool {
    match raw {
        Option::None => r matches Ok(Option::None),
        Option::Some(p) => match p.name {
            RawText::Null => r matches Err(NssError::InvalidUtf8),
            RawText::Malformed => r matches Err(NssError::InvalidUtf8),
            RawText::Text(nm) => {
                if opt_text_ok(p.gecos) && opt_text_ok(p.dir) && opt_text_ok(p.shell) {
                    r matches Ok(Option::Some(e)) && e.pw_name@ == nm@ && e.pw_uid == p.uid
                        && e.pw_gid == p.gid && e.pw_gecos@ == opt_text_spec(p.gecos) && e.pw_dir@
                        == opt_text_spec(p.dir) && e.pw_shell@ == opt_text_spec(p.shell)
                        && e.source@ == module_upper_name_spec(m)
                } else {
                    r matches Err(NssError::InvalidUtf8)
                }
            },
        },
    }
}

/// Converts a raw user record into an owned, backend-tagged record; see
/// `parse_pw_post`.
pub fn parse_passwd_result(raw: Option<RawPasswd>, module: NssModule) -> (r: NssResult<
    Option<PasswdEntry>,
>)
    ensures
        parse_pw_post(raw, module, r),
{
    match raw {
        Option::None => Ok(Option::None),
        Option::Some(p) => {
            match p.name {
                RawText::Null => Err(NssError::InvalidUtf8),
                RawText::Malformed => Err(NssError::InvalidUtf8),
                RawText::Text(nm) => {
                    let pw_gecos = match opt_text(p.gecos) {
                        Ok(s) => s,
                        Err(e) => {
                            return Err(e);
                        },
                    };
                    let pw_dir = match opt_text(p.dir) {
                        Ok(s) => s,
                        Err(e) => {
                            return Err(e);
                        },
                    };
                    let pw_shell = match opt_text(p.shell) {
                        Ok(s) => s,
                        Err(e) => {
                            return Err(e);
                        },
                    };
                    Ok(
                        Option::Some(
                            PasswdEntry {
                                pw_name: nm,
                                pw_uid: p.uid,
                                pw_gid: p.gid,
                                pw_gecos,
                                pw_dir,
                                pw_shell,
                                source: module.upper_name().to_owned(),
                            },
                        ),
                    )
                },
            }
        },
    }
}

/// Cross-key consistency: decoding is a function of the raw record and
/// the backend alone, so a by-name lookup and a by-id lookup that decoded
/// the same raw record return records with identical uid, gid and name.
pub proof fn lemma_lookup_key_consistency(
    p: RawPasswd,
    m: NssModule,
    r1: NssResult<Option<PasswdEntry>>,
    r2: NssResult<Option<PasswdEntry>>,
)
    requires
        parse_pw_post(Some(p), m, r1),
        parse_pw_post(Some(p), m, r2),
        r1 matches Ok(Some(_)),
        r2 matches Ok(Some(_)),
    ensures
        r1->Ok_0->Some_0.pw_uid == r2->Ok_0->Some_0.pw_uid,
        r1->Ok_0->Some_0.pw_gid == r2->Ok_0->Some_0.pw_gid,
        r1->Ok_0->Some_0.pw_name@ == r2->Ok_0->Some_0.pw_name@,
{
}

/// One buffered call of the user-by-name entry point of one backend:
/// resolves the entry point, rejects a key no C string can carry, then
/// invokes the entry point with a growing scratch buffer until it gets a
/// decodable outcome.
pub fn getpwnam_r_impl<P: NssCallPort>(
    registry: &mut NssRegistry,
    port: &mut P,
    name: &str,
    module: NssModule,
    buffer_len: usize,
) -> (r: NssResult<Option<PasswdEntry>>)
    requires
        buffer_len >= 1,
    ensures
        resolve_transition(*old(registry), *final (registry), module),
        r matches Ok(Some(e)) ==> e.source@ == module_upper_name_spec(module),
        r matches Ok(Some(e)) ==> exists|p: RawPasswd| #[trigger]
            parse_pw_post(Some(p), module, r),
        r matches Err(e) ==> impl_err_shape(e, NssOperation::GetPwNam, module),
        !op_available(status_of(*final (registry), module), NssOperation::GetPwNam) ==> (r
            matches Err(e) && resolve_err_text(*final (registry), NssOperation::GetPwNam, module, e)),
        (r matches Err(e) && e matches NssError::LibraryError(_)) ==> !op_available(
            status_of(*final (registry), module),
            NssOperation::GetPwNam,
        ),
        op_available(status_of(*final (registry), module), NssOperation::GetPwNam)
            && name@.contains('\0') ==> r matches Err(NssError::InvalidUtf8),
{
    match get_nss_function(registry, port, NssOperation::GetPwNam, module) {
        Err(e) => {
            return Err(e);
        },
        Ok(()) => {},
    }
    if str_contains_nul(name) {
        return Err(NssError::InvalidUtf8);
    }
    let mut buffer_len = buffer_len;
    loop
        invariant
            buffer_len >= 1,
            resolve_transition(*old(registry), *registry, module),
            op_available(status_of(*registry, module), NssOperation::GetPwNam),
            !name@.contains('\0'),
        decreases usize::MAX - buffer_len,
    {
        let reply = port.call_pw_by_name(module, name, buffer_len);
        match interpret_reply(reply.errno, reply.ret_code, buffer_len, NssOperation::GetPwNam, module) {
            CallStep::GrowBuffer { next_len } => {
                buffer_len = next_len;
            },
            CallStep::Fail(e) => {
                return Err(e);
            },
            CallStep::NotFoundDone => {
                return Ok(Option::None);
            },
            CallStep::DecodeHit => {
                let r = parse_passwd_result(reply.record, module);
                proof {
                    if r is Ok && reply.record is Some {
                        let p = reply.record->Some_0;
                        assert(parse_pw_post(Some(p), module, r));
                    }
                }
                return r;
            },
        }
    }
}

/// One buffered call of the user-by-id entry point of one backend.
pub fn getpwuid_r_impl<P: NssCallPort>(
    registry: &mut NssRegistry,
    port: &mut P,
    uid: u32,
    module: NssModule,
    buffer_len: usize,
) -> (r: NssResult<Option<PasswdEntry>>)
    requires
        buffer_len >= 1,
    ensures
        resolve_transition(*old(registry), *final (registry), module),
        r matches Ok(Some(e)) ==> e.source@ == module_upper_name_spec(module),
        r matches Ok(Some(e)) ==> exists|p: RawPasswd| #[trigger] parse_pw_post(Some(p), module, r)
            && p.uid == e.pw_uid,
        r matches Err(e) ==> impl_err_shape(e, NssOperation::GetPwUid, module),
        !op_available(status_of(*final (registry), module), NssOperation::GetPwUid) ==> (r
            matches Err(e) && resolve_err_text(*final (registry), NssOperation::GetPwUid, module, e)),
        (r matches Err(e) && e matches NssError::LibraryError(_)) ==> !op_available(
            status_of(*final (registry), module),
            NssOperation::GetPwUid,
        ),
{
    match get_nss_function(registry, port, NssOperation::GetPwUid, module) {
        Err(e) => {
            return Err(e);
        },
        Ok(()) => {},
    }
    let mut buffer_len = buffer_len;
    loop
        invariant
            buffer_len >= 1,
            resolve_transition(*old(registry), *registry, module),
            op_available(status_of(*registry, module), NssOperation::GetPwUid),
        decreases usize::MAX - buffer_len,
    {
        let reply = port.call_pw_by_uid(module, uid, buffer_len);
        match interpret_reply(reply.errno, reply.ret_code, buffer_len, NssOperation::GetPwUid, module) {
            CallStep::GrowBuffer { next_len } => {
                buffer_len = next_len;
            },
            CallStep::Fail(e) => {
                return Err(e);
            },
            CallStep::NotFoundDone => {
                return Ok(Option::None);
            },
            CallStep::DecodeHit => {
                let r = parse_passwd_result(reply.record, module);
                proof {
                    if r is Ok && reply.record is Some {
                        let p = reply.record->Some_0;
                        assert(parse_pw_post(Some(p), module, r));
                    }
                }
                return r;
            },
        }
    }
}

/// Looks a user up by name. With a pinned backend only that backend is
/// tried and its failure is returned verbatim; with none, the backends
/// are tried in fixed priority order, returning the first hit, skipping
/// one that misses, reports itself unavailable, or cannot be loaded, and
/// aborting on any other failure. A miss everywhere is the terminal
/// not-found failure.
pub fn getpwnam<P: NssCallPort>(
    registry: &mut NssRegistry,
    port: &mut P,
    name: &str,
    module: Option<NssModule>,
) -> (r: NssResult<PasswdEntry>)
    ensures
        registry_evolves(*old(registry), *final (registry)),
        r matches Ok(e) ==> exists|m: NssModule| #[trigger]
            fallback_modules_spec(module).contains(m) && e.source@ == module_upper_name_spec(m),
        match module {
            Some(m) => (r matches Ok(e) ==> e.source@ == module_upper_name_spec(m)),
            None => true,
        },
        match module {
            Some(m) => !op_available(status_of(*final (registry), m), NssOperation::GetPwNam) ==> (r
                matches Err(e) && resolve_err_text(*final (registry), NssOperation::GetPwNam, m, e)),
            None => true,
        },
        module is None ==> (r matches Err(e) ==> !chain_skips_spec(e)),
        r matches Err(e) ==> terminal_not_found_spec(e, NssOperation::GetPwNam) || exists|
            m: NssModule,
        | #[trigger] fallback_modules_spec(module).contains(m) && impl_err_shape(
            e,
            NssOperation::GetPwNam,
            m,
        ),
{
    match module {
        Some(m) => {
            proof {
                assert(fallback_modules_spec(module)[0] == m);
                assert(fallback_modules_spec(module).contains(m));
            }
            let step = getpwnam_r_impl(registry, port, name, m, PASSWD_INIT_BUFLEN);
            proof {
                lemma_resolve_transition_evolves(*old(registry), *registry, m);
            }
            match step {
                Ok(Some(entry)) => Ok(entry),
                Ok(None) => Err(terminal_not_found(NssOperation::GetPwNam)),
                Err(e) => Err(e),
            }
        },
        None => {
            let ghost reg0 = *registry;
            let mods = fallback_modules(module);
            let mut i: usize = 0;
            proof {
                lemma_registry_evolves_refl(*registry);
            }
            while i < mods.len()
                invariant
                    i <= mods@.len(),
                    module is None,
                    mods@ == fallback_modules_spec(module),
                    reg0 == *old(registry),
                    registry_evolves(reg0, *registry),
                decreases mods@.len() - i,
            {
                let m = mods[i];
                proof {
                    assert(mods@[i as int] == m);
                    assert(fallback_modules_spec(module).contains(m));
                }
                let ghost reg_before = *registry;
                let step = getpwnam_r_impl(registry, port, name, m, PASSWD_INIT_BUFLEN);
                proof {
                    lemma_resolve_transition_evolves(reg_before, *registry, m);
                    lemma_registry_evolves_trans(reg0, reg_before, *registry);
                }
                match step {
                    Ok(Some(entry)) => {
                        return Ok(entry);
                    },
                    Ok(None) => {},
                    Err(e) => {
                        if !chain_skips(&e) {
                            return Err(e);
                        }
                    },
                }
                i = i + 1;
            }
            Err(terminal_not_found(NssOperation::GetPwNam))
        },
    }
}

/// Looks a user up by numeric id; same pinning and fallback behaviour
/// as `getpwnam`.
pub fn getpwuid<P: NssCallPort>(
    registry: &mut NssRegistry,
    port: &mut P,
    uid: u32,
    module: Option<NssModule>,
) -> (r: NssResult<PasswdEntry>)
    ensures
        registry_evolves(*old(registry), *final (registry)),
        r matches Ok(e) ==> exists|m: NssModule| #[trigger]
            fallback_modules_spec(module).contains(m) && e.source@ == module_upper_name_spec(m),
        match module {
            Some(m) => (r matches Ok(e) ==> e.source@ == module_upper_name_spec(m)),
            None => true,
        },
        match module {
            Some(m) => !op_available(status_of(*final (registry), m), NssOperation::GetPwUid) ==> (r
                matches Err(e) && resolve_err_text(*final (registry), NssOperation::GetPwUid, m, e)),
            None => true,
        },
        module is None ==> (r matches Err(e) ==> !chain_skips_spec(e)),
        r matches Err(e) ==> terminal_not_found_spec(e, NssOperation::GetPwUid) || exists|
            m: NssModule,
        | #[trigger] fallback_modules_spec(module).contains(m) && impl_err_shape(
            e,
            NssOperation::GetPwUid,
            m,
        ),
{
    match module {
        Some(m) => {
            proof {
                assert(fallback_modules_spec(module)[0] == m);
                assert(fallback_modules_spec(module).contains(m));
            }
            let step = getpwuid_r_impl(registry, port, uid, m, PASSWD_INIT_BUFLEN);
            proof {
                lemma_resolve_transition_evolves(*old(registry), *registry, m);
            }
            match step {
                Ok(Some(entry)) => Ok(entry),
                Ok(None) => Err(terminal_not_found(NssOperation::GetPwUid)),
                Err(e) => Err(e),
            }
        },
        None => {
            let ghost reg0 = *registry;
            let mods = fallback_modules(module);
            let mut i: usize = 0;
            proof {
                lemma_registry_evolves_refl(*registry);
            }
            while i < mods.len()
                invariant
                    i <= mods@.len(),
                    module is None,
                    mods@ == fallback_modules_spec(module),
                    reg0 == *old(registry),
                    registry_evolves(reg0, *registry),
                decreases mods@.len() - i,
            {
                let m = mods[i];
                proof {
                    assert(mods@[i as int] == m);
                    assert(fallback_modules_spec(module).contains(m));
                }
                let ghost reg_before = *registry;
                let step = getpwuid_r_impl(registry, port, uid, m, PASSWD_INIT_BUFLEN);
                proof {
                    lemma_resolve_transition_evolves(reg_before, *registry, m);
                    lemma_registry_evolves_trans(reg0, reg_before, *registry);
                }
                match step {
                    Ok(Some(entry)) => {
                        return Ok(entry);
                    },
                    Ok(None) => {},
                    Err(e) => {
                        if !chain_skips(&e) {
                            return Err(e);
                        }
                    },
                }
                i = i + 1;
            }
            Err(terminal_not_found(NssOperation::GetPwUid))
        },
    }
}

/// One call of the begin-user-enumeration entry point of one backend;
/// any status other than `Success` is a failure.
pub fn setpwent_impl<P: NssCallPort>(
    registry: &mut NssRegistry,
    port: &mut P,
    module: NssModule,
) -> (r: NssResult<()>)
    ensures
        resolve_transition(*old(registry), *final (registry), module),
        r matches Err(e) ==> impl_err_shape(e, NssOperation::SetPwEnt, module),
        !op_available(status_of(*final (registry), module), NssOperation::SetPwEnt) ==> (r
            matches Err(e) && resolve_err_text(*final (registry), NssOperation::SetPwEnt, module, e)),
{
    match get_nss_function(registry, port, NssOperation::SetPwEnt, module) {
        Err(e) => {
            return Err(e);
        },
        Ok(()) => {},
    }
    let code = port.call_set_pw_ent(module);
    let rc = NssReturnCode::from(code);
    if rc == NssReturnCode::Success {
        Ok(())
    } else {
        Err(
            NssError::NssOperationFailed {
                errno: 0,
                operation: NssOperation::SetPwEnt,
                return_code: rc,
                module,
            },
        )
    }
}

/// One call of the end-user-enumeration entry point of one backend;
/// any status other than `Success` is a failure.
pub fn endpwent_impl<P: NssCallPort>(
    registry: &mut NssRegistry,
    port: &mut P,
    module: NssModule,
) -> (r: NssResult<()>)
    ensures
        resolve_transition(*old(registry), *final (registry), module),
        r matches Err(e) ==> impl_err_shape(e, NssOperation::EndPwEnt, module),
        !op_available(status_of(*final (registry), module), NssOperation::EndPwEnt) ==> (r
            matches Err(e) && resolve_err_text(*final (registry), NssOperation::EndPwEnt, module, e)),
{
    match get_nss_function(registry, port, NssOperation::EndPwEnt, module) {
        Err(e) => {
            return Err(e);
        },
        Ok(()) => {},
    }
    let code = port.call_end_pw_ent(module);
    let rc = NssReturnCode::from(code);
    if rc == NssReturnCode::Success {
        Ok(())
    } else {
        Err(
            NssError::NssOperationFailed {
                errno: 0,
                operation: NssOperation::EndPwEnt,
                return_code: rc,
                module,
            },
        )
    }
}

/// One buffered call of the next-user enumeration entry point of one
/// backend; a miss means the enumeration is exhausted.
pub fn getpwent_r_impl<P: NssCallPort>(
    registry: &mut NssRegistry,
    port: &mut P,
    module: NssModule,
    buffer_len: usize,
) -> (r: NssResult<Option<PasswdEntry>>)
    requires
        buffer_len >= 1,
    ensures
        resolve_transition(*old(registry), *final (registry), module),
        r matches Ok(Some(e)) ==> e.source@ == module_upper_name_spec(module),
        r matches Ok(Some(e)) ==> exists|p: RawPasswd| #[trigger]
            parse_pw_post(Some(p), module, r),
        r matches Err(e) ==> impl_err_shape(e, NssOperation::GetPwEnt, module),
        !op_available(status_of(*final (registry), module), NssOperation::GetPwEnt) ==> (r
            matches Err(e) && resolve_err_text(*final (registry), NssOperation::GetPwEnt, module, e)),
{
    match get_nss_function(registry, port, NssOperation::GetPwEnt, module) {
        Err(e) => {
            return Err(e);
        },
        Ok(()) => {},
    }
    let mut buffer_len = buffer_len;
    loop
        invariant
            buffer_len >= 1,
            resolve_transition(*old(registry), *registry, module),
            op_available(status_of(*registry, module), NssOperation::GetPwEnt),
        decreases usize::MAX - buffer_len,
    {
        let reply = port.call_pw_ent(module, buffer_len);
        match interpret_reply(reply.errno, reply.ret_code, buffer_len, NssOperation::GetPwEnt, module) {
            CallStep::GrowBuffer { next_len } => {
                buffer_len = next_len;
            },
            CallStep::Fail(e) => {
                return Err(e);
            },
            CallStep::NotFoundDone => {
                return Ok(Option::None);
            },
            CallStep::DecodeHit => {
                let r = parse_passwd_result(reply.record, module);
                proof {
                    if r is Ok && reply.record is Some {
                        let p = reply.record->Some_0;
                        assert(parse_pw_post(Some(p), module, r));
                    }
                }
                return r;
            },
        }
    }
}

/// A stateful enumeration session over one backend's user database.
///
/// The session is `Unopened` until the first fetch issues the begin-call,
/// `Open` while fetches advance the backend's cursor, and disposed by an
/// explicit [`PasswdIterator::close`], which issues the end-call exactly
/// once if the session ever opened — and never again. `end_calls` is the
/// session's own tally of end-calls it has issued; it never exceeds one.
pub struct PasswdIterator {
    pub module: NssModule,
    pub initialized: bool,
    pub closed: bool,
    pub failed: bool,
    pub end_calls: Ghost<nat>,
}

impl PasswdIterator {
    /// The session invariant: the end-call has been issued exactly once
    /// if the session reached `Open` and was disposed, and never
    /// otherwise.
    pub open spec fn wf(&self) -> bool {
        self.end_calls@ == if self.closed && self.initialized {
            1nat
        } else {
            0nat
        }
    }

    /// A fresh, unopened session against one backend.
    #[must_use]
    pub fn new(module: NssModule) -> (it: PasswdIterator)
        ensures
            it.module == module,
            !it.initialized,
            !it.closed,
            !it.failed,
            it.end_calls@ == 0,
            it.wf(),
    {
        PasswdIterator { module, initialized: false, closed: false, failed: false, end_calls: Ghost(0nat) }
    }

    /// The end-call fires at most once over the whole life of a session,
    /// whatever sequence of fetches and disposals it went through.
    pub proof fn lemma_end_call_at_most_once(&self)
        requires
            self.wf(),
        ensures
            self.end_calls@ <= 1,
    {
    }

    /// Fetches the next record: the first fetch issues the begin-call
    /// (whose failure makes the session unusable, surfaced once); a miss
    /// ends the sequence without closing the backend's cursor, which
    /// stays parked until [`PasswdIterator::close`]. Never issues an
    /// end-call.
    pub fn next<P: NssCallPort>(&mut self, registry: &mut NssRegistry, port: &mut P) -> (r: Option<
        NssResult<PasswdEntry>,
    >)
        requires
            old(self).wf(),
        ensures
            final (self).wf(),
            final (self).module == old(self).module,
            final (self).closed == old(self).closed,
            final (self).end_calls == old(self).end_calls,
            old(self).initialized ==> final (self).initialized,
            registry_evolves(*old(registry), *final (registry)),
            old(self).closed || old(self).failed ==> *final (self) == *old(self) && r is None,
            final (self).failed ==> old(self).failed || r matches Some(Err(_)),
            (r matches Some(Err(_)) && !final (self).initialized) ==> final (self).failed,
            r matches Some(Ok(e)) ==> e.source@ == module_upper_name_spec(old(self).module)
                && final (self).initialized,
            r matches Some(Err(e)) ==> impl_err_shape(e, NssOperation::SetPwEnt, old(self).module)
                || impl_err_shape(e, NssOperation::GetPwEnt, old(self).module),
    {
        if self.closed || self.failed {
            proof {
                lemma_registry_evolves_refl(*registry);
            }
            return Option::None;
        }
        if !self.initialized {
            let ghost reg_a = *registry;
            match setpwent_impl(registry, port, self.module) {
                Ok(()) => {
                    self.initialized = true;
                    proof {
                        lemma_resolve_transition_evolves(reg_a, *registry, self.module);
                    }
                },
                Err(e) => {
                    self.failed = true;
                    proof {
                        lemma_resolve_transition_evolves(reg_a, *registry, self.module);
                    }
                    return Option::Some(Err(e));
                },
            }
        }
        let ghost reg_b = *registry;
        proof {
            lemma_registry_evolves_refl(reg_b);
        }
        let step = getpwent_r_impl(registry, port, self.module, PASSWD_INIT_BUFLEN);
        proof {
            lemma_resolve_transition_evolves(reg_b, *registry, self.module);
            lemma_registry_evolves_trans(*old(registry), reg_b, *registry);
        }
        match step {
            Ok(Some(entry)) => Option::Some(Ok(entry)),
            Ok(None) => Option::None,
            Err(e) => Option::Some(Err(e)),
        }
    }

    /// Disposes the session: issues the end-call exactly once if the
    /// session ever reached `Open`, and nothing at all otherwise or on a
    /// second disposal. A failed end-call is best-effort cleanup and is
    /// not escalated.
    pub fn close<P: NssCallPort>(&mut self, registry: &mut NssRegistry, port: &mut P)
        requires
            old(self).wf(),
        ensures
            final (self).wf(),
            final (self).closed,
            final (self).module == old(self).module,
            final (self).initialized == old(self).initialized,
            final (self).failed == old(self).failed,
            registry_evolves(*old(registry), *final (registry)),
            old(self).closed ==> *final (self) == *old(self),
            final (self).end_calls@ == old(self).end_calls@ + (if old(self).initialized && !old(
                self,
            ).closed {
                1nat
            } else {
                0nat
            }),
    {
        if self.initialized && !self.closed {
            let ghost reg_a = *registry;
            // Best-effort cleanup: a failed end-call is not escalated.
            let _cleanup = endpwent_impl(registry, port, self.module);
            proof {
                lemma_resolve_transition_evolves(reg_a, *registry, self.module);
            }
            self.closed = true;
            self.end_calls = Ghost(self.end_calls@ + 1);
        } else {
            self.closed = true;
            proof {
                lemma_registry_evolves_refl(*registry);
            }
        }
    }
}

/// A fresh user-enumeration session against one backend.
#[must_use]
pub fn iterpw(module: NssModule) -> (it: PasswdIterator)
    ensures
        it.module == module,
        !it.initialized,
        !it.closed,
        !it.failed,
        it.end_calls@ == 0,
        it.wf(),
{
    PasswdIterator::new(module)
}

/// The source tags of a listing, in order.
pub open spec fn pw_sources(s: Seq<PasswdEntry>) -> Seq<Seq<char>> {
    s.map_values(|e: PasswdEntry| e.source@)
}

/// Enumerates one backend to the end, closing the session on every exit
/// path. An unavailable or unloadable backend yields what was collected
/// before the failure; any other failure is surfaced.
fn collect_module_users<P: NssCallPort>(
    registry: &mut NssRegistry,
    port: &mut P,
    module: NssModule,
    pinned: bool,
) -> (r: NssResult<Vec<PasswdEntry>>)
    ensures
        registry_evolves(*old(registry), *final (registry)),
        r matches Ok(v) ==> forall|k: int|
            0 <= k < v@.len() ==> #[trigger] v@[k].source@ == module_upper_name_spec(module),
        r matches Err(e) ==> (pinned || !chain_skips_spec(e)) && (impl_err_shape(
            e,
            NssOperation::SetPwEnt,
            module,
        ) || impl_err_shape(e, NssOperation::GetPwEnt, module)),
{
    let mut it = PasswdIterator::new(module);
    let mut entries: Vec<PasswdEntry> = Vec::new();
    proof {
        lemma_registry_evolves_refl(*registry);
    }
    loop
        invariant
            it.wf(),
            it.module == module,
            !it.closed,
            !it.failed,
            registry_evolves(*old(registry), *registry),
            forall|k: int|
                0 <= k < entries@.len() ==> #[trigger] entries@[k].source@
                    == module_upper_name_spec(module),
        decreases usize::MAX - entries@.len(),
    {
        let ghost reg_a = *registry;
        let step = it.next(registry, port);
        proof {
            lemma_registry_evolves_trans(*old(registry), reg_a, *registry);
        }
        match step {
            Option::None => {
                let ghost reg_b = *registry;
                it.close(registry, port);
                proof {
                    lemma_registry_evolves_trans(*old(registry), reg_b, *registry);
                }
                return Ok(entries);
            },
            Option::Some(Ok(entry)) => {
                if entries.len() == usize::MAX {
                    // The machine cannot hold a longer listing; stop as
                    // if exhausted.
                    let ghost reg_b = *registry;
                    it.close(registry, port);
                    proof {
                        lemma_registry_evolves_trans(*old(registry), reg_b, *registry);
                    }
                    return Ok(entries);
                }
                entries.push(entry);
            },
            Option::Some(Err(e)) => {
                let ghost reg_b = *registry;
                it.close(registry, port);
                proof {
                    lemma_registry_evolves_trans(*old(registry), reg_b, *registry);
                }
                if !pinned && chain_skips(&e) {
                    return Ok(entries);
                } else {
                    return Err(e);
                }
            },
        }
    }
}

/// Lists every user of the pinned backend, or of all backends in fixed
/// priority order: the listing is the backend-by-backend concatenation of
/// each backend's records, in the order the backends produced them, with
/// no deduplication. Under fallback, a backend that is unavailable or
/// cannot be loaded contributes what it produced before the failure and
/// any other failure aborts the listing; a pinned backend's failure is
/// returned verbatim.
pub fn getpwall<P: NssCallPort>(
    registry: &mut NssRegistry,
    port: &mut P,
    module: Option<NssModule>,
) -> (r: NssResult<Vec<PasswdEntry>>)
    ensures
        registry_evolves(*old(registry), *final (registry)),
        r matches Ok(v) ==> sources_in_blocks(pw_sources(v@), fallback_modules_spec(module)),
        module is None ==> (r matches Err(e) ==> !chain_skips_spec(e)),
        r matches Err(e) ==> exists|m: NssModule| #[trigger]
            fallback_modules_spec(module).contains(m) && (impl_err_shape(
            e,
            NssOperation::SetPwEnt,
            m,
        ) || impl_err_shape(e, NssOperation::GetPwEnt, m)),
        match module {
            Some(m) => (r matches Ok(v) ==> forall|k: int|
                0 <= k < v@.len() ==> #[trigger] v@[k].source@ == module_upper_name_spec(m)),
            None => true,
        },
{
    let ghost reg0 = *registry;
    let pinned = match module {
        Option::Some(_) => true,
        Option::None => false,
    };
    let mods = fallback_modules(module);
    let mut all: Vec<PasswdEntry> = Vec::new();
    let mut i: usize = 0;
    proof {
        lemma_registry_evolves_refl(*registry);
        assert(mods@.subrange(0, 0) =~= Seq::<NssModule>::empty());
    }
    while i < mods.len()
        invariant
            i <= mods@.len(),
            mods@ == fallback_modules_spec(module),
            reg0 == *old(registry),
            pinned == (module is Some),
            registry_evolves(reg0, *registry),
            sources_in_blocks(pw_sources(all@), mods@.subrange(0, i as int)),
            match module {
                Some(m) => forall|k: int|
                    0 <= k < all@.len() ==> #[trigger] all@[k].source@ == module_upper_name_spec(
                        m,
                    ),
                None => true,
            },
        decreases mods@.len() - i,
    {
        let m = mods[i];
        let ghost reg_a = *registry;
        let part_result = collect_module_users(registry, port, m, pinned);
        proof {
            lemma_registry_evolves_trans(reg0, reg_a, *registry);
        }
        let mut part = match part_result {
            Ok(v) => v,
            Err(e) => {
                proof {
                    assert(mods@[i as int] == m);
                    assert(fallback_modules_spec(module).contains(m));
                }
                return Err(e);
            },
        };
        proof {
            lemma_blocks_append_block(
                pw_sources(all@),
                mods@.subrange(0, i as int),
                pw_sources(part@),
                m,
            );
            assert(pw_sources(all@ + part@) =~= pw_sources(all@) + pw_sources(part@));
            assert(mods@.subrange(0, i as int).push(m) =~= mods@.subrange(0, i as int + 1));
        }
        all.append(&mut part);
        i = i + 1;
    }
    proof {
        assert(mods@.subrange(0, mods@.len() as int) =~= mods@);
    }
    Ok(all)
}

} // verus!
