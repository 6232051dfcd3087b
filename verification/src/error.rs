//! The error taxonomy of the library, with the exact text each error renders
//! to.

use vstd::prelude::*;
use vstd::string::StringExecFns;

use crate::decimal::{dec_of, u64_to_dec};
use crate::nss_common::{NssModule, NssOperation, NssReturnCode};

verus! {

/// Everything a lookup, listing or enumeration can fail with.
///
/// `NssOperationFailed` carries the native error number, the entry point
/// that reported it, the decoded status and the backend. `LibraryError`
/// covers both an unloadable backend library and a missing entry point.
#[derive(Debug, Clone)]
pub enum NssError {
    NssOperationFailed { errno: u32, operation: NssOperation, return_code: NssReturnCode, module: NssModule },
    BufferTooSmall { needed: usize },
    InvalidUtf8,
    NullPointer,
    LibraryError(String),
}

pub type NssResult<T> = Result<T, NssError>;

/// The variant name of an operation, as it appears in error text.
pub open spec fn op_label_spec(op: NssOperation) -> Seq<char> {
    match op {
        NssOperation::GetGrNam => "GetGrNam"@,
        NssOperation::GetGrGid => "GetGrGid"@,
        NssOperation::SetGrEnt => "SetGrEnt"@,
        NssOperation::EndGrEnt => "EndGrEnt"@,
        NssOperation::GetGrEnt => "GetGrEnt"@,
        NssOperation::GetPwNam => "GetPwNam"@,
        NssOperation::GetPwUid => "GetPwUid"@,
        NssOperation::GetPwEnt => "GetPwEnt"@,
        NssOperation::SetPwEnt => "SetPwEnt"@,
        NssOperation::EndPwEnt => "EndPwEnt"@,
    }
}

/// The variant name of a status, as it appears in error text.
pub open spec fn code_label_spec(code: NssReturnCode) -> Seq<char> {
    match code {
        NssReturnCode::TryAgain => "TryAgain"@,
        NssReturnCode::Unavail => "Unavail"@,
        NssReturnCode::NotFound => "NotFound"@,
        NssReturnCode::Success => "Success"@,
        NssReturnCode::Return => "Return"@,
    }
}

/// The variant name of a backend, as it appears in error text.
pub open spec fn module_label_spec(m: NssModule) -> Seq<char> {
    match m {
        NssModule::Files => "Files"@,
        NssModule::Sss => "Sss"@,
        NssModule::Winbind => "Winbind"@,
    }
}

/// The full text of an error.
pub open spec fn error_message_spec(e: NssError) -> Seq<char> {
    match e {
        NssError::NssOperationFailed { errno, operation, return_code, module } => "NSS operation "@
            + op_label_spec(operation) + " failed with errno "@ + dec_of(errno as int) + ": "@
            + code_label_spec(return_code) + " on module ["@ + module_label_spec(module) + "]"@,
        NssError::BufferTooSmall { needed } => "Buffer too small, need "@ + dec_of(needed as int)
            + " bytes"@,
        NssError::InvalidUtf8 => "Invalid UTF-8 string"@,
        NssError::NullPointer => "Null pointer encountered"@,
        NssError::LibraryError(text) => "Library loading error: "@ + text@,
    }
}

fn op_label(op: &NssOperation) -> (r: &'static str)
    ensures
        r@ == op_label_spec(*op),
{
    match op {
        NssOperation::GetGrNam => "GetGrNam",
        NssOperation::GetGrGid => "GetGrGid",
        NssOperation::SetGrEnt => "SetGrEnt",
        NssOperation::EndGrEnt => "EndGrEnt",
        NssOperation::GetGrEnt => "GetGrEnt",
        NssOperation::GetPwNam => "GetPwNam",
        NssOperation::GetPwUid => "GetPwUid",
        NssOperation::GetPwEnt => "GetPwEnt",
        NssOperation::SetPwEnt => "SetPwEnt",
        NssOperation::EndPwEnt => "EndPwEnt",
    }
}

fn code_label(code: &NssReturnCode) -> (r: &'static str)
    ensures
        r@ == code_label_spec(*code),
{
    match code {
        NssReturnCode::TryAgain => "TryAgain",
        NssReturnCode::Unavail => "Unavail",
        NssReturnCode::NotFound => "NotFound",
        NssReturnCode::Success => "Success",
        NssReturnCode::Return => "Return",
    }
}

fn module_label(m: &NssModule) -> (r: &'static str)
    ensures
        r@ == module_label_spec(*m),
{
    match m {
        NssModule::Files => "Files",
        NssModule::Sss => "Sss",
        NssModule::Winbind => "Winbind",
    }
}

impl NssError {
    /// The error rendered as text, exactly as specified by
    /// `error_message_spec`.
    #[must_use]
    pub fn message(&self) -> (r: String)
        ensures
            r@ == error_message_spec(*self),
    {
        match self {
            NssError::NssOperationFailed { errno, operation, return_code, module } => {
                let mut r = "NSS operation ".to_owned();
                r.append(op_label(operation));
                r.append(" failed with errno ");
                let errno_text = u64_to_dec(*errno as u64);
                r.append(errno_text.as_str());
                r.append(": ");
                r.append(code_label(return_code));
                r.append(" on module [");
                r.append(module_label(module));
                r.append("]");
                r
            },
            NssError::BufferTooSmall { needed } => {
                let mut r = "Buffer too small, need ".to_owned();
                let needed_text = u64_to_dec(*needed as u64);
                r.append(needed_text.as_str());
                r.append(" bytes");
                r
            },
            NssError::InvalidUtf8 => "Invalid UTF-8 string".to_owned(),
            NssError::NullPointer => "Null pointer encountered".to_owned(),
            NssError::LibraryError(text) => {
                let mut r = "Library loading error: ".to_owned();
                r.append(text.as_str());
                r
            },
        }
    }
}

} // verus!
