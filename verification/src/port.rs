//! The boundary to the native backends.
//!
//! Everything a backend hands back crosses this boundary as plain data: a
//! raw reply carries the entry point's return value, the native error
//! number, and the record area already chased into owned fields. A C
//! string becomes [`RawText`]: absent where the pointer was null, text
//! where it decoded, and `Malformed` where its bytes were not valid UTF-8
//! — so every decision about those cases is made, and proved, in this
//! crate.
//!
//! [`NssCallPort`] is the one unverified seam: the embedding program
//! implements it with dynamic loading and the real reentrant calls, and
//! tests implement it with in-memory fakes. Its methods promise nothing;
//! every caller in this crate is verified to handle any reply whatsoever.

use vstd::prelude::*;

use crate::nss_common::NssModule;

verus! {

/// One C-string field of a raw record, as the boundary hands it over.
#[derive(Debug, Clone)]
pub enum RawText {
    /// The field's pointer was null.
    Null,
    /// The field decoded to text.
    Text(String),
    /// The field's bytes were not valid UTF-8.
    Malformed,
}

/// Whether an optional field decodes at all: only malformed bytes reject
/// a field, never a null pointer.
pub open spec fn opt_text_ok(t: RawText) -> bool {
    !(t is Malformed)
}

/// The text an optional field decodes to: a null pointer reads as empty
/// text, never as an error.
pub open spec fn opt_text_spec(t: RawText) -> Seq<char> {
    match t {
        RawText::Text(s) => s@,
        _ => Seq::<char>::empty(),
    }
}

/// Decodes one optional field; see `opt_text_ok` and `opt_text_spec`.
pub fn opt_text(t: RawText) -> (r: Result<String, crate::error::NssError>)
    ensures
        match r {
            Ok(s) => opt_text_ok(t) && s@ == opt_text_spec(t),
            Err(e) => !opt_text_ok(t) && e matches crate::error::NssError::InvalidUtf8,
        },
{
    match t {
        RawText::Null => Ok(String::new()),
        RawText::Text(s) => Ok(s),
        RawText::Malformed => Err(crate::error::NssError::InvalidUtf8),
    }
}

/// A raw user record: the fields of the native record area after a hit,
/// with every string pointer chased.
#[derive(Debug, Clone)]
pub struct RawPasswd {
    pub name: RawText,
    pub uid: u32,
    pub gid: u32,
    pub gecos: RawText,
    pub dir: RawText,
    pub shell: RawText,
}

/// A raw group record. `members` is `None` where the member-array pointer
/// itself was null; otherwise the array's entries up to and including any
/// null entry the boundary chose to pass through.
#[derive(Debug, Clone)]
pub struct RawGroup {
    pub name: RawText,
    pub gid: u32,
    pub members: Option<Vec<RawText>>,
}

/// What one invocation of a user entry point came back with.
#[derive(Debug, Clone)]
pub struct PwReply {
    /// The entry point's return value, an undecoded native status.
    pub ret_code: i32,
    /// The native error number the call left in its output slot.
    pub errno: i32,
    /// The record area, or `None` where the result pointer was null.
    pub record: Option<RawPasswd>,
}

/// What one invocation of a group entry point came back with.
#[derive(Debug, Clone)]
pub struct GrReply {
    pub ret_code: i32,
    pub errno: i32,
    pub record: Option<RawGroup>,
}

/// Which of the ten entry points a loaded backend library actually
/// exposes, by table slot (see `op_index_spec`).
#[derive(Debug, Clone, Copy)]
pub struct OpTable {
    pub present: [bool; 10],
}

/// The native side of the engine. One implementation loads the real
/// backend libraries and performs the reentrant calls; test doubles
/// script their replies.
///
/// No method carries a contract: the engine is verified against every
/// reply an implementation could produce.
pub trait NssCallPort {
    /// Loads the backend library at `path` and resolves the ten symbols
    /// named in `symbols` (indexed by operation slot). `None` means the
    /// library could not be loaded; absence of a single symbol is recorded
    /// in the table, not an error.
    fn load_module(&mut self, module: NssModule, path: &str, symbols: &Vec<String>) -> (r: Option<
        OpTable,
    >);

    /// Invokes the user-by-name entry point with a scratch buffer of
    /// `buffer_len` bytes.
    fn call_pw_by_name(&mut self, module: NssModule, name: &str, buffer_len: usize) -> (r: PwReply);

    /// Invokes the user-by-id entry point.
    fn call_pw_by_uid(&mut self, module: NssModule, uid: u32, buffer_len: usize) -> (r: PwReply);

    /// Invokes the next-user enumeration entry point.
    fn call_pw_ent(&mut self, module: NssModule, buffer_len: usize) -> (r: PwReply);

    /// Invokes the begin-user-enumeration entry point; returns its native
    /// status.
    fn call_set_pw_ent(&mut self, module: NssModule) -> (r: i32);

    /// Invokes the end-user-enumeration entry point; returns its native
    /// status.
    fn call_end_pw_ent(&mut self, module: NssModule) -> (r: i32);

    /// Invokes the group-by-name entry point.
    fn call_gr_by_name(&mut self, module: NssModule, name: &str, buffer_len: usize) -> (r: GrReply);

    /// Invokes the group-by-id entry point.
    fn call_gr_by_gid(&mut self, module: NssModule, gid: u32, buffer_len: usize) -> (r: GrReply);

    /// Invokes the next-group enumeration entry point.
    fn call_gr_ent(&mut self, module: NssModule, buffer_len: usize) -> (r: GrReply);

    /// Invokes the begin-group-enumeration entry point; returns its native
    /// status.
    fn call_set_gr_ent(&mut self, module: NssModule) -> (r: i32);

    /// Invokes the end-group-enumeration entry point; returns its native
    /// status.
    fn call_end_gr_ent(&mut self, module: NssModule) -> (r: i32);
}

} // verus!
