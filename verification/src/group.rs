//! Group records: decoding (with the member list's null-safety rules),
//! keyed lookups with fallback, enumeration sessions, and the aggregate
//! listing.

use vstd::prelude::*;

use crate::error::{NssError, NssResult};
use crate::nss_common::{module_upper_name_spec, NssModule, NssOperation, NssReturnCode};
use crate::port::{NssCallPort, RawGroup, RawText};
use crate::protocol::{
    chain_skips, chain_skips_spec, fallback_modules, fallback_modules_spec, impl_err_shape,
    interpret_reply, lemma_blocks_append_block, sources_in_blocks, str_contains_nul,
    terminal_not_found, terminal_not_found_spec, CallStep,
};
use crate::registry::{
    get_nss_function, lemma_registry_evolves_refl, lemma_registry_evolves_trans,
    lemma_resolve_transition_evolves, op_available, registry_evolves, resolve_err_text,
    resolve_transition, status_of, NssRegistry,
};

verus! {

/// The scratch-buffer size a call starts with; doubled on overflow.
pub const GROUP_INIT_BUFLEN: usize = 1024;

/// An owned, backend-tagged group record. `source` is always the
/// upper-case identifier of the backend that produced the hit.
#[derive(Debug, Clone)]
pub struct GroupEntry {
    pub gr_name: String,
    pub gr_gid: u32,
    pub gr_mem: Vec<String>,
    pub source: String,
}

/// What a raw member array decodes to: the member names before the first
/// null entry, in order — a null entry terminates the array, as the
/// native layout prescribes — or nothing if a kept member is malformed.
pub open spec fn decode_members(list: Seq<RawText>) -> Option<Seq<Seq<char>>>
    decreases list.len(),
{
    if list.len() == 0 {
        Option::Some(Seq::<Seq<char>>::empty())
    } else {
        match list[0] {
            RawText::Null => Option::Some(Seq::<Seq<char>>::empty()),
            RawText::Malformed => Option::None,
            RawText::Text(s) => match decode_members(list.drop_first()) {
                Option::Some(rest) => Option::Some(seq![s@] + rest),
                Option::None => Option::None,
            },
        }
    }
}

/// What decoding a raw group record yields: a null record area is a
/// miss; a missing or malformed primary name rejects the whole record
/// with the encoding error, never a silent skip, as does a malformed
/// member; a null member-array pointer reads as an empty member list,
/// never as an error; and the record is tagged with the backend that
/// produced it.
pub open spec fn parse_gr_post(
    raw: Option<RawGroup>,
    m: NssModule,
    r: NssResult<Option<GroupEntry>>,
) -> bool {
    match raw {
        Option::None => r matches Ok(Option::None),
        Option::Some(g) => match g.name {
            RawText::Null => r matches Err(NssError::InvalidUtf8),
            RawText::Malformed => r matches Err(NssError::InvalidUtf8),
            RawText::Text(nm) => {
                let mems = match g.members {
                    Option::None => Option::Some(Seq::<Seq<char>>::empty()),
                    Option::Some(list) => decode_members(list@),
                };
                match mems {
                    Option::None => r matches Err(NssError::InvalidUtf8),
                    Option::Some(ms) => r matches Ok(Option::Some(e)) && e.gr_name@ == nm@
                        && e.gr_gid == g.gid && e.gr_mem.deep_view() == ms && e.source@
                        == module_upper_name_spec(m),
                }
            },
        },
    }
}

/// Decodes a member array; see `decode_members`.
fn decode_member_list(list: &Vec<RawText>) -> (r: Result<Vec<String>, NssError>)
    ensures
        match r {
            Ok(v) => decode_members(list@) == Option::Some(v.deep_view()),
            Err(e) => decode_members(list@) is None && e matches NssError::InvalidUtf8,
        },
{
    let mut out: Vec<String> = Vec::new();
    let mut i: usize = 0;
    proof {
        assert(list@.subrange(0, list@.len() as int) =~= list@);
        assert(out.deep_view() =~= Seq::<Seq<char>>::empty());
        if decode_members(list@) is Some {
            let rest = decode_members(list@)->Some_0;
            assert(out.deep_view() + rest =~= rest);
        }
    }
    loop
        invariant
            i <= list@.len(),
            decode_members(list@) == match decode_members(
                list@.subrange(i as int, list@.len() as int),
            ) {
                Option::Some(rest) => Option::Some(out.deep_view() + rest),
                Option::None => Option::<Seq<Seq<char>>>::None,
            },
        decreases list@.len() - i,
    {
        let ghost tail = list@.subrange(i as int, list@.len() as int);
        if i == list.len() {
            proof {
                assert(tail.len() == 0);
                assert(out.deep_view() + Seq::<Seq<char>>::empty() =~= out.deep_view());
            }
            return Ok(out);
        }
        proof {
            assert(tail[0] == list@[i as int]);
            assert(tail.drop_first() =~= list@.subrange(i as int + 1, list@.len() as int));
        }
        match &list[i] {
            RawText::Null => {
                proof {
                    assert(out.deep_view() + Seq::<Seq<char>>::empty() =~= out.deep_view());
                }
                return Ok(out);
            },
            RawText::Malformed => {
                return Err(NssError::InvalidUtf8);
            },
            RawText::Text(s) => {
                let ghost prev = out.deep_view();
                out.push(s.clone());
                proof {
                    assert(out.deep_view() =~= prev + seq![s@]);
                    if decode_members(tail.drop_first()) is Some {
                        let rest = decode_members(tail.drop_first())->Some_0;
                        assert(prev + (seq![s@] + rest) =~= (prev + seq![s@]) + rest);
                    }
                }
            },
        }
        i = i + 1;
    }
}

/// Converts a raw group record into an owned, backend-tagged record; see
/// `parse_gr_post`.
pub fn parse_group_result(raw: Option<RawGroup>, module: NssModule) -> (r: NssResult<
    Option<GroupEntry>,
>)
    ensures
        parse_gr_post(raw, module, r),
{
    match raw {
        Option::None => Ok(Option::None),
        Option::Some(g) => {
            match g.name {
                RawText::Null => Err(NssError::InvalidUtf8),
                RawText::Malformed => Err(NssError::InvalidUtf8),
                RawText::Text(nm) => {
                    let gr_mem = match g.members {
                        Option::None => {
                            let empty_members: Vec<String> = Vec::new();
                            proof {
                                assert(empty_members.deep_view() =~= Seq::<Seq<char>>::empty());
                            }
                            empty_members
                        },
                        Option::Some(list) => match decode_member_list(&list) {
                            Ok(v) => v,
                            Err(e) => {
                                return Err(e);
                            },
                        },
                    };
                    Ok(
                        Option::Some(
                            GroupEntry {
                                gr_name: nm,
                                gr_gid: g.gid,
                                gr_mem,
                                source: module.upper_name().to_owned(),
                            },
                        ),
                    )
                },
            }
        },
    }
}

/// One buffered call of the group-by-name entry point of one backend:
/// resolves the entry point, rejects a key no C string can carry, then
/// invokes the entry point with a growing scratch buffer until it gets a
/// decodable outcome.
pub fn getgrnam_r_impl<P: NssCallPort>(
    registry: &mut NssRegistry,
    port: &mut P,
    name: &str,
    module: NssModule,
    buffer_len: usize,
) -> (r: NssResult<Option<GroupEntry>>)
    requires
        buffer_len >= 1,
    ensures
        resolve_transition(*old(registry), *final (registry), module),
        r matches Ok(Some(e)) ==> e.source@ == module_upper_name_spec(module),
        r matches Ok(Some(e)) ==> exists|p: RawGroup| #[trigger]
            parse_gr_post(Some(p), module, r),
        r matches Err(e) ==> impl_err_shape(e, NssOperation::GetGrNam, module),
        !op_available(status_of(*final (registry), module), NssOperation::GetGrNam) ==> (r
            matches Err(e) && resolve_err_text(*final (registry), NssOperation::GetGrNam, module, e)),
        (r matches Err(e) && e matches NssError::LibraryError(_)) ==> !op_available(
            status_of(*final (registry), module),
            NssOperation::GetGrNam,
        ),
        op_available(status_of(*final (registry), module), NssOperation::GetGrNam)
            && name@.contains('\0') ==> r matches Err(NssError::InvalidUtf8),
{
    match get_nss_function(registry, port, NssOperation::GetGrNam, module) {
        Err(e) => {
            return Err(e);
        },
        Ok(()) => {},
    }
    if str_contains_nul(name) {
        return Err(NssError::InvalidUtf8);
    }
    let mut buffer_len = buffer_len;
    loop
        invariant
            buffer_len >= 1,
            resolve_transition(*old(registry), *registry, module),
            op_available(status_of(*registry, module), NssOperation::GetGrNam),
            !name@.contains('\0'),
        decreases usize::MAX - buffer_len,
    {
        let reply = port.call_gr_by_name(module, name, buffer_len);
        match interpret_reply(reply.errno, reply.ret_code, buffer_len, NssOperation::GetGrNam, module) {
            CallStep::GrowBuffer { next_len } => {
                buffer_len = next_len;
            },
            CallStep::Fail(e) => {
                return Err(e);
            },
            CallStep::NotFoundDone => {
                return Ok(Option::None);
            },
            CallStep::DecodeHit => {
                let r = parse_group_result(reply.record, module);
                proof {
                    if r is Ok && reply.record is Some {
                        let p = reply.record->Some_0;
                        assert(parse_gr_post(Some(p), module, r));
                    }
                }
                return r;
            },
        }
    }
}

/// One buffered call of the group-by-id entry point of one backend.
pub fn getgrgid_r_impl<P: NssCallPort>(
    registry: &mut NssRegistry,
    port: &mut P,
    gid: u32,
    module: NssModule,
    buffer_len: usize,
) -> (r: NssResult<Option<GroupEntry>>)
    requires
        buffer_len >= 1,
    ensures
        resolve_transition(*old(registry), *final (registry), module),
        r matches Ok(Some(e)) ==> e.source@ == module_upper_name_spec(module),
        r matches Ok(Some(e)) ==> exists|p: RawGroup| #[trigger] parse_gr_post(Some(p), module, r)
            && p.gid == e.gr_gid,
        r matches Err(e) ==> impl_err_shape(e, NssOperation::GetGrGid, module),
        !op_available(status_of(*final (registry), module), NssOperation::GetGrGid) ==> (r
            matches Err(e) && resolve_err_text(*final (registry), NssOperation::GetGrGid, module, e)),
        (r matches Err(e) && e matches NssError::LibraryError(_)) ==> !op_available(
            status_of(*final (registry), module),
            NssOperation::GetGrGid,
        ),
{
    match get_nss_function(registry, port, NssOperation::GetGrGid, module) {
        Err(e) => {
            return Err(e);
        },
        Ok(()) => {},
    }
    let mut buffer_len = buffer_len;
    loop
        invariant
            buffer_len >= 1,
            resolve_transition(*old(registry), *registry, module),
            op_available(status_of(*registry, module), NssOperation::GetGrGid),
        decreases usize::MAX - buffer_len,
    {
        let reply = port.call_gr_by_gid(module, gid, buffer_len);
        match interpret_reply(reply.errno, reply.ret_code, buffer_len, NssOperation::GetGrGid, module) {
            CallStep::GrowBuffer { next_len } => {
                buffer_len = next_len;
            },
            CallStep::Fail(e) => {
                return Err(e);
            },
            CallStep::NotFoundDone => {
                return Ok(Option::None);
            },
            CallStep::DecodeHit => {
                let r = parse_group_result(reply.record, module);
                proof {
                    if r is Ok && reply.record is Some {
                        let p = reply.record->Some_0;
                        assert(parse_gr_post(Some(p), module, r));
                    }
                }
                return r;
            },
        }
    }
}

/// Looks a group up by name. With a pinned backend only that backend is
/// tried and its failure is returned verbatim; with none, the backends
/// are tried in fixed priority order, returning the first hit, skipping
/// one that misses, reports itself unavailable, or cannot be loaded, and
/// aborting on any other failure. A miss everywhere is the terminal
/// not-found failure.
pub fn getgrnam<P: NssCallPort>(
    registry: &mut NssRegistry,
    port: &mut P,
    name: &str,
    module: Option<NssModule>,
) -> (r: NssResult<GroupEntry>)
    ensures
        registry_evolves(*old(registry), *final (registry)),
        r matches Ok(e) ==> exists|m: NssModule| #[trigger]
            fallback_modules_spec(module).contains(m) && e.source@ == module_upper_name_spec(m),
        match module {
            Some(m) => (r matches Ok(e) ==> e.source@ == module_upper_name_spec(m)),
            None => true,
        },
        match module {
            Some(m) => !op_available(status_of(*final (registry), m), NssOperation::GetGrNam) ==> (r
                matches Err(e) && resolve_err_text(*final (registry), NssOperation::GetGrNam, m, e)),
            None => true,
        },
        module is None ==> (r matches Err(e) ==> !chain_skips_spec(e)),
        r matches Err(e) ==> terminal_not_found_spec(e, NssOperation::GetGrNam) || exists|
            m: NssModule,
        | #[trigger] fallback_modules_spec(module).contains(m) && impl_err_shape(
            e,
            NssOperation::GetGrNam,
            m,
        ),
{
    match module {
        Some(m) => {
            proof {
                assert(fallback_modules_spec(module)[0] == m);
                assert(fallback_modules_spec(module).contains(m));
            }
            let step = getgrnam_r_impl(registry, port, name, m, GROUP_INIT_BUFLEN);
            proof {
                lemma_resolve_transition_evolves(*old(registry), *registry, m);
            }
            match step {
                Ok(Some(entry)) => Ok(entry),
                Ok(None) => Err(terminal_not_found(NssOperation::GetGrNam)),
                Err(e) => Err(e),
            }
        },
        None => {
            let ghost reg0 = *registry;
            let mods = fallback_modules(module);
            let mut i: usize = 0;
            proof {
                lemma_registry_evolves_refl(*registry);
            }
            while i < mods.len()
                invariant
                    i <= mods@.len(),
                    module is None,
                    mods@ == fallback_modules_spec(module),
                    reg0 == *old(registry),
                    registry_evolves(reg0, *registry),
                decreases mods@.len() - i,
            {
                let m = mods[i];
                proof {
                    assert(mods@[i as int] == m);
                    assert(fallback_modules_spec(module).contains(m));
                }
                let ghost reg_before = *registry;
                let step = getgrnam_r_impl(registry, port, name, m, GROUP_INIT_BUFLEN);
                proof {
                    lemma_resolve_transition_evolves(reg_before, *registry, m);
                    lemma_registry_evolves_trans(reg0, reg_before, *registry);
                }
                match step {
                    Ok(Some(entry)) => {
                        return Ok(entry);
                    },
                    Ok(None) => {},
                    Err(e) => {
                        if !chain_skips(&e) {
                            return Err(e);
                        }
                    },
                }
                i = i + 1;
            }
            Err(terminal_not_found(NssOperation::GetGrNam))
        },
    }
}

/// Looks a group up by numeric id; same pinning and fallback behaviour
/// as `getgrnam`.
pub fn getgrgid<P: NssCallPort>(
    registry: &mut NssRegistry,
    port: &mut P,
    gid: u32,
    module: Option<NssModule>,
) -> (r: NssResult<GroupEntry>)
    ensures
        registry_evolves(*old(registry), *final (registry)),
        r matches Ok(e) ==> exists|m: NssModule| #[trigger]
            fallback_modules_spec(module).contains(m) && e.source@ == module_upper_name_spec(m),
        match module {
            Some(m) => (r matches Ok(e) ==> e.source@ == module_upper_name_spec(m)),
            None => true,
        },
        match module {
            Some(m) => !op_available(status_of(*final (registry), m), NssOperation::GetGrGid) ==> (r
                matches Err(e) && resolve_err_text(*final (registry), NssOperation::GetGrGid, m, e)),
            None => true,
        },
        module is None ==> (r matches Err(e) ==> !chain_skips_spec(e)),
        r matches Err(e) ==> terminal_not_found_spec(e, NssOperation::GetGrGid) || exists|
            m: NssModule,
        | #[trigger] fallback_modules_spec(module).contains(m) && impl_err_shape(
            e,
            NssOperation::GetGrGid,
            m,
        ),
{
    match module {
        Some(m) => {
            proof {
                assert(fallback_modules_spec(module)[0] == m);
                assert(fallback_modules_spec(module).contains(m));
            }
            let step = getgrgid_r_impl(registry, port, gid, m, GROUP_INIT_BUFLEN);
            proof {
                lemma_resolve_transition_evolves(*old(registry), *registry, m);
            }
            match step {
                Ok(Some(entry)) => Ok(entry),
                Ok(None) => Err(terminal_not_found(NssOperation::GetGrGid)),
                Err(e) => Err(e),
            }
        },
        None => {
            let ghost reg0 = *registry;
            let mods = fallback_modules(module);
            let mut i: usize = 0;
            proof {
                lemma_registry_evolves_refl(*registry);
            }
            while i < mods.len()
                invariant
                    i <= mods@.len(),
                    module is None,
                    mods@ == fallback_modules_spec(module),
                    reg0 == *old(registry),
                    registry_evolves(reg0, *registry),
                decreases mods@.len() - i,
            {
                let m = mods[i];
                proof {
                    assert(mods@[i as int] == m);
                    assert(fallback_modules_spec(module).contains(m));
                }
                let ghost reg_before = *registry;
                let step = getgrgid_r_impl(registry, port, gid, m, GROUP_INIT_BUFLEN);
                proof {
                    lemma_resolve_transition_evolves(reg_before, *registry, m);
                    lemma_registry_evolves_trans(reg0, reg_before, *registry);
                }
                match step {
                    Ok(Some(entry)) => {
                        return Ok(entry);
                    },
                    Ok(None) => {},
                    Err(e) => {
                        if !chain_skips(&e) {
                            return Err(e);
                        }
                    },
                }
                i = i + 1;
            }
            Err(terminal_not_found(NssOperation::GetGrGid))
        },
    }
}

/// One call of the begin-group-enumeration entry point of one backend;
/// any status other than `Success` is a failure.
pub fn setgrent_impl<P: NssCallPort>(
    registry: &mut NssRegistry,
    port: &mut P,
    module: NssModule,
) -> (r: NssResult<()>)
    ensures
        resolve_transition(*old(registry), *final (registry), module),
        r matches Err(e) ==> impl_err_shape(e, NssOperation::SetGrEnt, module),
        !op_available(status_of(*final (registry), module), NssOperation::SetGrEnt) ==> (r
            matches Err(e) && resolve_err_text(*final (registry), NssOperation::SetGrEnt, module, e)),
{
    match get_nss_function(registry, port, NssOperation::SetGrEnt, module) {
        Err(e) => {
            return Err(e);
        },
        Ok(()) => {},
    }
    let code = port.call_set_gr_ent(module);
    let rc = NssReturnCode::from(code);
    if rc == NssReturnCode::Success {
        Ok(())
    } else {
        Err(
            NssError::NssOperationFailed {
                errno: 0,
                operation: NssOperation::SetGrEnt,
                return_code: rc,
                module,
            },
        )
    }
}

/// One call of the end-group-enumeration entry point of one backend;
/// any status other than `Success` is a failure.
pub fn endgrent_impl<P: NssCallPort>(
    registry: &mut NssRegistry,
    port: &mut P,
    module: NssModule,
) -> (r: NssResult<()>)
    ensures
        resolve_transition(*old(registry), *final (registry), module),
        r matches Err(e) ==> impl_err_shape(e, NssOperation::EndGrEnt, module),
        !op_available(status_of(*final (registry), module), NssOperation::EndGrEnt) ==> (r
            matches Err(e) && resolve_err_text(*final (registry), NssOperation::EndGrEnt, module, e)),
{
    match get_nss_function(registry, port, NssOperation::EndGrEnt, module) {
        Err(e) => {
            return Err(e);
        },
        Ok(()) => {},
    }
    let code = port.call_end_gr_ent(module);
    let rc = NssReturnCode::from(code);
    if rc == NssReturnCode::Success {
        Ok(())
    } else {
        Err(
            NssError::NssOperationFailed {
                errno: 0,
                operation: NssOperation::EndGrEnt,
                return_code: rc,
                module,
            },
        )
    }
}

/// One buffered call of the next-group enumeration entry point of one
/// backend; a miss means the enumeration is exhausted.
pub fn getgrent_r_impl<P: NssCallPort>(
    registry: &mut NssRegistry,
    port: &mut P,
    module: NssModule,
    buffer_len: usize,
) -> (r: NssResult<Option<GroupEntry>>)
    requires
        buffer_len >= 1,
    ensures
        resolve_transition(*old(registry), *final (registry), module),
        r matches Ok(Some(e)) ==> e.source@ == module_upper_name_spec(module),
        r matches Ok(Some(e)) ==> exists|p: RawGroup| #[trigger]
            parse_gr_post(Some(p), module, r),
        r matches Err(e) ==> impl_err_shape(e, NssOperation::GetGrEnt, module),
        !op_available(status_of(*final (registry), module), NssOperation::GetGrEnt) ==> (r
            matches Err(e) && resolve_err_text(*final (registry), NssOperation::GetGrEnt, module, e)),
{
    match get_nss_function(registry, port, NssOperation::GetGrEnt, module) {
        Err(e) => {
            return Err(e);
        },
        Ok(()) => {},
    }
    let mut buffer_len = buffer_len;
    loop
        invariant
            buffer_len >= 1,
            resolve_transition(*old(registry), *registry, module),
            op_available(status_of(*registry, module), NssOperation::GetGrEnt),
        decreases usize::MAX - buffer_len,
    {
        let reply = port.call_gr_ent(module, buffer_len);
        match interpret_reply(reply.errno, reply.ret_code, buffer_len, NssOperation::GetGrEnt, module) {
            CallStep::GrowBuffer { next_len } => {
                buffer_len = next_len;
            },
            CallStep::Fail(e) => {
                return Err(e);
            },
            CallStep::NotFoundDone => {
                return Ok(Option::None);
            },
            CallStep::DecodeHit => {
                let r = parse_group_result(reply.record, module);
                proof {
                    if r is Ok && reply.record is Some {
                        let p = reply.record->Some_0;
                        assert(parse_gr_post(Some(p), module, r));
                    }
                }
                return r;
            },
        }
    }
}

/// A stateful enumeration session over one backend's group database.
///
/// The session is `Unopened` until the first fetch issues the begin-call,
/// `Open` while fetches advance the backend's cursor, and disposed by an
/// explicit [`GroupIterator::close`], which issues the end-call exactly
/// once if the session ever opened — and never again. `end_calls` is the
/// session's own tally of end-calls it has issued; it never exceeds one.
pub struct GroupIterator {
    pub module: NssModule,
    pub initialized: bool,
    pub closed: bool,
    pub failed: bool,
    pub end_calls: Ghost<nat>,
}

impl GroupIterator {
    /// The session invariant: the end-call has been issued exactly once
    /// if the session reached `Open` and was disposed, and never
    /// otherwise.
    pub open spec fn wf(&self) -> bool {
        self.end_calls@ == if self.closed && self.initialized {
            1nat
        } else {
            0nat
        }
    }

    /// A fresh, unopened session against one backend.
    #[must_use]
    pub fn new(module: NssModule) -> (it: GroupIterator)
        ensures
            it.module == module,
            !it.initialized,
            !it.closed,
            !it.failed,
            it.end_calls@ == 0,
            it.wf(),
    {
        GroupIterator { module, initialized: false, closed: false, failed: false, end_calls: Ghost(0nat) }
    }

    /// The end-call fires at most once over the whole life of a session,
    /// whatever sequence of fetches and disposals it went through.
    pub proof fn lemma_end_call_at_most_once(&self)
        requires
            self.wf(),
        ensures
            self.end_calls@ <= 1,
    {
    }

    /// Fetches the next record: the first fetch issues the begin-call
    /// (whose failure makes the session unusable, surfaced once); a miss
    /// ends the sequence without closing the backend's cursor, which
    /// stays parked until [`GroupIterator::close`]. Never issues an
    /// end-call.
    pub fn next<P: NssCallPort>(&mut self, registry: &mut NssRegistry, port: &mut P) -> (r: Option<
        NssResult<GroupEntry>,
    >)
        requires
            old(self).wf(),
        ensures
            final (self).wf(),
            final (self).module == old(self).module,
            final (self).closed == old(self).closed,
            final (self).end_calls == old(self).end_calls,
            old(self).initialized ==> final (self).initialized,
            registry_evolves(*old(registry), *final (registry)),
            old(self).closed || old(self).failed ==> *final (self) == *old(self) && r is None,
            final (self).failed ==> old(self).failed || r matches Some(Err(_)),
            (r matches Some(Err(_)) && !final (self).initialized) ==> final (self).failed,
            r matches Some(Ok(e)) ==> e.source@ == module_upper_name_spec(old(self).module)
                && final (self).initialized,
            r matches Some(Err(e)) ==> impl_err_shape(e, NssOperation::SetGrEnt, old(self).module)
                || impl_err_shape(e, NssOperation::GetGrEnt, old(self).module),
    {
        if self.closed || self.failed {
            proof {
                lemma_registry_evolves_refl(*registry);
            }
            return Option::None;
        }
        if !self.initialized {
            let ghost reg_a = *registry;
            match setgrent_impl(registry, port, self.module) {
                Ok(()) => {
                    self.initialized = true;
                    proof {
                        lemma_resolve_transition_evolves(reg_a, *registry, self.module);
                    }
                },
                Err(e) => {
                    self.failed = true;
                    proof {
                        lemma_resolve_transition_evolves(reg_a, *registry, self.module);
                    }
                    return Option::Some(Err(e));
                },
            }
        }
        let ghost reg_b = *registry;
        proof {
            lemma_registry_evolves_refl(reg_b);
        }
        let step = getgrent_r_impl(registry, port, self.module, GROUP_INIT_BUFLEN);
        proof {
            lemma_resolve_transition_evolves(reg_b, *registry, self.module);
            lemma_registry_evolves_trans(*old(registry), reg_b, *registry);
        }
        match step {
            Ok(Some(entry)) => Option::Some(Ok(entry)),
            Ok(None) => Option::None,
            Err(e) => Option::Some(Err(e)),
        }
    }

    /// Disposes the session: issues the end-call exactly once if the
    /// session ever reached `Open`, and nothing at all otherwise or on a
    /// second disposal. A failed end-call is best-effort cleanup and is
    /// not escalated.
    pub fn close<P: NssCallPort>(&mut self, registry: &mut NssRegistry, port: &mut P)
        requires
            old(self).wf(),
        ensures
            final (self).wf(),
            final (self).closed,
            final (self).module == old(self).module,
            final (self).initialized == old(self).initialized,
            final (self).failed == old(self).failed,
            registry_evolves(*old(registry), *final (registry)),
            old(self).closed ==> *final (self) == *old(self),
            final (self).end_calls@ == old(self).end_calls@ + (if old(self).initialized && !old(
                self,
            ).closed {
                1nat
            } else {
                0nat
            }),
    {
        if self.initialized && !self.closed {
            let ghost reg_a = *registry;
            // Best-effort cleanup: a failed end-call is not escalated.
            let _cleanup = endgrent_impl(registry, port, self.module);
            proof {
                lemma_resolve_transition_evolves(reg_a, *registry, self.module);
            }
            self.closed = true;
            self.end_calls = Ghost(self.end_calls@ + 1);
        } else {
            self.closed = true;
            proof {
                lemma_registry_evolves_refl(*registry);
            }
        }
    }
}

/// A fresh group-enumeration session against one backend.
#[must_use]
pub fn itergrp(module: NssModule) -> (it: GroupIterator)
    ensures
        it.module == module,
        !it.initialized,
        !it.closed,
        !it.failed,
        it.end_calls@ == 0,
        it.wf(),
{
    GroupIterator::new(module)
}

/// The source tags of a listing, in order.
pub open spec fn gr_sources(s: Seq<GroupEntry>) -> Seq<Seq<char>> {
    s.map_values(|e: GroupEntry| e.source@)
}

/// Enumerates one backend to the end, closing the session on every exit
/// path. An unavailable or unloadable backend yields what was collected
/// before the failure; any other failure is surfaced.
fn collect_module_groups<P: NssCallPort>(
    registry: &mut NssRegistry,
    port: &mut P,
    module: NssModule,
    pinned: bool,
) -> (r: NssResult<Vec<GroupEntry>>)
    ensures
        registry_evolves(*old(registry), *final (registry)),
        r matches Ok(v) ==> forall|k: int|
            0 <= k < v@.len() ==> #[trigger] v@[k].source@ == module_upper_name_spec(module),
        r matches Err(e) ==> (pinned || !chain_skips_spec(e)) && (impl_err_shape(
            e,
            NssOperation::SetGrEnt,
            module,
        ) || impl_err_shape(e, NssOperation::GetGrEnt, module)),
{
    let mut it = GroupIterator::new(module);
    let mut entries: Vec<GroupEntry> = Vec::new();
    proof {
        lemma_registry_evolves_refl(*registry);
    }
    loop
        invariant
            it.wf(),
            it.module == module,
            !it.closed,
            !it.failed,
            registry_evolves(*old(registry), *registry),
            forall|k: int|
                0 <= k < entries@.len() ==> #[trigger] entries@[k].source@
                    == module_upper_name_spec(module),
        decreases usize::MAX - entries@.len(),
    {
        let ghost reg_a = *registry;
        let step = it.next(registry, port);
        proof {
            lemma_registry_evolves_trans(*old(registry), reg_a, *registry);
        }
        match step {
            Option::None => {
                let ghost reg_b = *registry;
                it.close(registry, port);
                proof {
                    lemma_registry_evolves_trans(*old(registry), reg_b, *registry);
                }
                return Ok(entries);
            },
            Option::Some(Ok(entry)) => {
                if entries.len() == usize::MAX {
                    // The machine cannot hold a longer listing; stop as
                    // if exhausted.
                    let ghost reg_b = *registry;
                    it.close(registry, port);
                    proof {
                        lemma_registry_evolves_trans(*old(registry), reg_b, *registry);
                    }
                    return Ok(entries);
                }
                entries.push(entry);
            },
            Option::Some(Err(e)) => {
                let ghost reg_b = *registry;
                it.close(registry, port);
                proof {
                    lemma_registry_evolves_trans(*old(registry), reg_b, *registry);
                }
                if !pinned && chain_skips(&e) {
                    return Ok(entries);
                } else {
                    return Err(e);
                }
            },
        }
    }
}

/// Lists every group of the pinned backend, or of all backends in fixed
/// priority order: the listing is the backend-by-backend concatenation of
/// each backend's records, in the order the backends produced them, with
/// no deduplication. Under fallback, a backend that is unavailable or
/// cannot be loaded contributes what it produced before the failure and
/// any other failure aborts the listing; a pinned backend's failure is
/// returned verbatim.
pub fn getgrall<P: NssCallPort>(
    registry: &mut NssRegistry,
    port: &mut P,
    module: Option<NssModule>,
) -> (r: NssResult<Vec<GroupEntry>>)
    ensures
        registry_evolves(*old(registry), *final (registry)),
        r matches Ok(v) ==> sources_in_blocks(gr_sources(v@), fallback_modules_spec(module)),
        module is None ==> (r matches Err(e) ==> !chain_skips_spec(e)),
        r matches Err(e) ==> exists|m: NssModule| #[trigger]
            fallback_modules_spec(module).contains(m) && (impl_err_shape(
            e,
            NssOperation::SetGrEnt,
            m,
        ) || impl_err_shape(e, NssOperation::GetGrEnt, m)),
        match module {
            Some(m) => (r matches Ok(v) ==> forall|k: int|
                0 <= k < v@.len() ==> #[trigger] v@[k].source@ == module_upper_name_spec(m)),
            None => true,
        },
{
    let ghost reg0 = *registry;
    let pinned = match module {
        Option::Some(_) => true,
        Option::None => false,
    };
    let mods = fallback_modules(module);
    let mut all: Vec<GroupEntry> = Vec::new();
    let mut i: usize = 0;
    proof {
        lemma_registry_evolves_refl(*registry);
        assert(mods@.subrange(0, 0) =~= Seq::<NssModule>::empty());
    }
    while i < mods.len()
        invariant
            i <= mods@.len(),
            mods@ == fallback_modules_spec(module),
            reg0 == *old(registry),
            pinned == (module is Some),
            registry_evolves(reg0, *registry),
            sources_in_blocks(gr_sources(all@), mods@.subrange(0, i as int)),
            match module {
                Some(m) => forall|k: int|
                    0 <= k < all@.len() ==> #[trigger] all@[k].source@ == module_upper_name_spec(
                        m,
                    ),
                None => true,
            },
        decreases mods@.len() - i,
    {
        let m = mods[i];
        let ghost reg_a = *registry;
        let part_result = collect_module_groups(registry, port, m, pinned);
        proof {
            lemma_registry_evolves_trans(reg0, reg_a, *registry);
        }
        let mut part = match part_result {
            Ok(v) => v,
            Err(e) => {
                proof {
                    assert(mods@[i as int] == m);
                    assert(fallback_modules_spec(module).contains(m));
                }
                return Err(e);
            },
        };
        proof {
            lemma_blocks_append_block(
                gr_sources(all@),
                mods@.subrange(0, i as int),
                gr_sources(part@),
                m,
            );
            assert(gr_sources(all@ + part@) =~= gr_sources(all@) + gr_sources(part@));
            assert(mods@.subrange(0, i as int).push(m) =~= mods@.subrange(0, i as int + 1));
        }
        all.append(&mut part);
        i = i + 1;
    }
    proof {
        assert(mods@.subrange(0, mods@.len() as int) =~= mods@);
    }
    Ok(all)
}

} // verus!
