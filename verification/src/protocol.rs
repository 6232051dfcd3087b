//! The buffered reentrant-call protocol and the fallback chain's fixed
//! rules.
//!
//! One invocation of an entry point leaves behind a native error number
//! and an undecoded status. [`interpret_reply`] turns those into the one
//! decision the protocol takes next: grow the scratch buffer and retry
//! (doubling, so growth is invisible to the caller), fail with a
//! structured error, report a clean miss, or decode the record area.
//!
//! The chain rules say which backends a lookup tries and in which order,
//! and which per-backend failures the chain absorbs by moving on.

use vstd::prelude::*;
use vstd::string::StrSliceExecFns;

use crate::error::NssError;
use crate::nss_common::{
    module_upper_name_spec, return_code_of, NssModule, NssOperation, NssReturnCode,
};
use crate::registry::{load_error_spec, missing_fn_error_spec};

verus! {

/// The native error number that reports a too-small scratch buffer
/// (`ERANGE` on the fixed Linux layout this library targets).
pub const NATIVE_ERANGE: i32 = 34;

/// What the protocol does after one invocation of an entry point.
#[derive(Debug, Clone)]
pub enum CallStep {
    /// The scratch buffer was too small: retry with `next_len` bytes.
    GrowBuffer { next_len: usize },
    /// The call failed; the error to surface.
    Fail(NssError),
    /// The backend reported a clean miss (or end of enumeration).
    NotFoundDone,
    /// The backend produced a record: decode it.
    DecodeHit,
}

/// The magnitude of a native error number, as stored in an error.
pub open spec fn errno_abs_spec(errno: i32) -> u32 {
    if errno >= 0 {
        errno as u32
    } else {
        (-(errno as int)) as u32
    }
}

fn errno_abs(errno: i32) -> (r: u32)
    ensures
        r == errno_abs_spec(errno),
{
    if errno >= 0 {
        errno as u32
    } else if errno == i32::MIN {
        2147483648
    } else {
        (-errno) as u32
    }
}

/// The protocol's decision after a call that left error number `errno`
/// and returned the native status `ret_code`, with a scratch buffer of
/// `buffer_len` bytes:
/// - no error and status `NotFound` is a clean miss;
/// - no error and status `Success` or `Return` proceeds to decoding;
/// - no error and any other status fails with `NssOperationFailed`;
/// - `ERANGE` doubles the buffer and retries, until the doubled length
///   would no longer fit in the machine's address range, which fails with
///   `BufferTooSmall` (the growth cap);
/// - any other error number fails with `NssOperationFailed`.
pub open spec fn step_spec(
    errno: i32,
    ret_code: i32,
    buffer_len: usize,
    op: NssOperation,
    m: NssModule,
) -> CallStep {
    if errno == 0 {
        let code = return_code_of(ret_code as int);
        if code is NotFound {
            CallStep::NotFoundDone
        } else if code is Success || code is Return {
            CallStep::DecodeHit
        } else {
            CallStep::Fail(
                NssError::NssOperationFailed {
                    errno: 0,
                    operation: op,
                    return_code: code,
                    module: m,
                },
            )
        }
    } else if errno == NATIVE_ERANGE {
        if buffer_len <= usize::MAX / 2 {
            CallStep::GrowBuffer { next_len: (buffer_len * 2) as usize }
        } else {
            CallStep::Fail(NssError::BufferTooSmall { needed: buffer_len })
        }
    } else {
        CallStep::Fail(
            NssError::NssOperationFailed {
                errno: errno_abs_spec(errno),
                operation: op,
                return_code: return_code_of(ret_code as int),
                module: m,
            },
        )
    }
}

/// Decides the protocol's next step from one reply; see `step_spec`.
pub fn interpret_reply(
    errno: i32,
    ret_code: i32,
    buffer_len: usize,
    op: NssOperation,
    m: NssModule,
) -> (r: CallStep)
    ensures
        r == step_spec(errno, ret_code, buffer_len, op, m),
{
    if errno == 0 {
        let code = NssReturnCode::from(ret_code);
        if code == NssReturnCode::NotFound {
            CallStep::NotFoundDone
        } else if code == NssReturnCode::Success || code == NssReturnCode::Return {
            CallStep::DecodeHit
        } else {
            CallStep::Fail(
                NssError::NssOperationFailed {
                    errno: 0,
                    operation: op,
                    return_code: code,
                    module: m,
                },
            )
        }
    } else if errno == NATIVE_ERANGE {
        if buffer_len <= usize::MAX / 2 {
            CallStep::GrowBuffer { next_len: buffer_len * 2 }
        } else {
            CallStep::Fail(NssError::BufferTooSmall { needed: buffer_len })
        }
    } else {
        CallStep::Fail(
            NssError::NssOperationFailed {
                errno: errno_abs(errno),
                operation: op,
                return_code: NssReturnCode::from(ret_code),
                module: m,
            },
        )
    }
}

/// Whether a lookup key cannot be carried by a C string: a key with an
/// embedded NUL character is rejected before any native call.
pub fn str_contains_nul(s: &str) -> (b: bool)
    ensures
        b == s@.contains('\0'),
{
    let len = s.unicode_len();
    let mut i: usize = 0;
    while i < len
        invariant
            i <= len,
            len == s@.len(),
            forall|j: int| 0 <= j < i as int ==> s@[j] != '\0',
        decreases len - i,
    {
        let c = s.get_char(i);
        if c == '\0' {
            proof {
                assert(s@[i as int] == '\0');
            }
            return true;
        }
        i = i + 1;
    }
    false
}

/// The failures one keyed call or one enumeration step against backend
/// `m` through entry point `op` can surface: a failed status tagged with
/// exactly that entry point and backend, a scratch buffer that could not
/// grow, a record whose primary name was not decodable, or the backend's
/// library being unloadable or lacking the entry point. A decoded record
/// is never reported as `NullPointer`.
pub open spec fn impl_err_shape(e: NssError, op: NssOperation, m: NssModule) -> bool {
    match e {
        NssError::NssOperationFailed { operation, module, .. } => operation == op && module == m,
        NssError::BufferTooSmall { .. } => true,
        NssError::InvalidUtf8 => true,
        NssError::NullPointer => false,
        NssError::LibraryError(t) => t@ == load_error_spec(m) || t@ == missing_fn_error_spec(
            op,
            m,
        ),
    }
}

/// The fixed priority order of the fallback chain.
pub open spec fn priority_order() -> Seq<NssModule> {
    seq![NssModule::Files, NssModule::Sss, NssModule::Winbind]
}

/// The backends a call tries: the pinned backend alone, or all three in
/// priority order.
pub open spec fn fallback_modules_spec(sel: Option<NssModule>) -> Seq<NssModule> {
    match sel {
        Some(m) => seq![m],
        None => priority_order(),
    }
}

/// The backends to try for a caller's backend selection; see
/// `fallback_modules_spec`.
pub fn fallback_modules(sel: Option<NssModule>) -> (mods: Vec<NssModule>)
    ensures
        mods@ == fallback_modules_spec(sel),
{
    let mut mods: Vec<NssModule> = Vec::new();
    match sel {
        Some(m) => {
            mods.push(m);
            proof {
                assert(mods@ =~= seq![m]);
            }
        },
        None => {
            mods.push(NssModule::Files);
            mods.push(NssModule::Sss);
            mods.push(NssModule::Winbind);
            proof {
                assert(mods@ =~= priority_order());
            }
        },
    }
    mods
}

/// Whether the fallback chain absorbs a per-backend failure and moves on
/// to the next backend: it does for an unloadable or incomplete backend
/// (`LibraryError`) and for a backend that reported itself unavailable;
/// every other failure aborts the chain.
pub open spec fn chain_skips_spec(e: NssError) -> bool {
    ||| e matches NssError::LibraryError(_)
    ||| e matches NssError::NssOperationFailed {
        return_code: NssReturnCode::Unavail,
        ..
    }
}

/// Decides whether the chain absorbs a failure; see `chain_skips_spec`.
pub fn chain_skips(e: &NssError) -> (r: bool)
    ensures
        r == chain_skips_spec(*e),
{
    match e {
        NssError::LibraryError(_) => true,
        NssError::NssOperationFailed { return_code: NssReturnCode::Unavail, .. } => true,
        _ => false,
    }
}

/// The aggregate-listing order: `tags` (the source tags of a listing, in
/// order) is the backend-by-backend concatenation of one block per
/// backend of `mods`, each block tagged with that backend's upper-case
/// identifier — nothing interleaved, nothing reordered, nothing removed.
pub open spec fn sources_in_blocks(tags: Seq<Seq<char>>, mods: Seq<NssModule>) -> bool
    decreases mods.len(),
{
    if mods.len() == 0 {
        tags.len() == 0
    } else {
        exists|i: int|
            #![trigger tags.subrange(i, tags.len() as int)]
            0 <= i <= tags.len() && (forall|k: int|
                0 <= k < i ==> tags[k] == module_upper_name_spec(mods[0]))
                && sources_in_blocks(
                tags.subrange(i, tags.len() as int),
                mods.subrange(1, mods.len() as int),
            )
    }
}

/// Appending one backend's whole block of tags to a listing that is
/// already in blocks keeps it in blocks, with that backend appended to
/// the block order.
pub proof fn lemma_blocks_append_block(
    tags: Seq<Seq<char>>,
    mods: Seq<NssModule>,
    new_tags: Seq<Seq<char>>,
    m: NssModule,
)
    requires
        sources_in_blocks(tags, mods),
        forall|k: int| 0 <= k < new_tags.len() ==> new_tags[k] == module_upper_name_spec(m),
    ensures
        sources_in_blocks(tags + new_tags, mods.push(m)),
    decreases mods.len(),
{
    let all = tags + new_tags;
    let mp = mods.push(m);
    if mods.len() == 0 {
        assert(tags.len() == 0);
        assert(all =~= new_tags);
        assert(mp[0] == m);
        let rest = all.subrange(all.len() as int, all.len() as int);
        assert(rest.len() == 0);
        assert(mp.subrange(1, mp.len() as int).len() == 0);
        assert(sources_in_blocks(rest, mp.subrange(1, mp.len() as int)));
        assert(forall|k: int| 0 <= k < all.len() ==> all[k] == module_upper_name_spec(mp[0]));
        assert(sources_in_blocks(all, mp));
    } else {
        let i = choose|i: int|
            #![trigger tags.subrange(i, tags.len() as int)]
            0 <= i <= tags.len() && (forall|k: int|
                0 <= k < i ==> tags[k] == module_upper_name_spec(mods[0]))
                && sources_in_blocks(
                tags.subrange(i, tags.len() as int),
                mods.subrange(1, mods.len() as int),
            );
        lemma_blocks_append_block(
            tags.subrange(i, tags.len() as int),
            mods.subrange(1, mods.len() as int),
            new_tags,
            m,
        );
        assert(all.subrange(i, all.len() as int) =~= tags.subrange(i, tags.len() as int)
            + new_tags);
        assert(mp.subrange(1, mp.len() as int) =~= mods.subrange(1, mods.len() as int).push(m));
        assert(sources_in_blocks(
            all.subrange(i, all.len() as int),
            mp.subrange(1, mp.len() as int),
        ));
        assert(mp[0] == mods[0]);
        assert(forall|k: int| 0 <= k < i ==> all[k] == module_upper_name_spec(mp[0]));
        assert(sources_in_blocks(all, mp));
    }
}

/// The terminal failure of an exhausted chain: a `NotFound` status with no
/// native error number. By convention it is tagged with the first backend
/// in priority order, whichever backends were actually tried.
pub open spec fn terminal_not_found_spec(e: NssError, op: NssOperation) -> bool {
    e == (NssError::NssOperationFailed {
        errno: 0,
        operation: op,
        return_code: NssReturnCode::NotFound,
        module: NssModule::Files,
    })
}

/// The terminal failure of an exhausted chain; see
/// `terminal_not_found_spec`.
pub fn terminal_not_found(op: NssOperation) -> (e: NssError)
    ensures
        terminal_not_found_spec(e, op),
{
    NssError::NssOperationFailed {
        errno: 0,
        operation: op,
        return_code: NssReturnCode::NotFound,
        module: NssModule::Files,
    }
}

} // verus!
