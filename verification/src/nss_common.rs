//! The backend descriptor table: the three supported backends with their
//! on-disk library paths and names, the ten operation entry points a
//! backend may expose, and the native status codes those entry points
//! return.

use vstd::prelude::*;

verus! {

/// Directory that holds the identity-service plugin libraries.
pub const NSS_MODULES_DIR: &'static str = "/usr/lib/x86_64-linux-gnu";

/// On-disk path of the local-files backend library.
pub const FILES_NSS_PATH: &'static str = "/usr/lib/x86_64-linux-gnu/libnss_files.so.2";

/// On-disk path of the directory-service backend library.
pub const SSS_NSS_PATH: &'static str = "/usr/lib/x86_64-linux-gnu/libnss_sss.so.2";

/// On-disk path of the domain-join backend library.
pub const WINBIND_NSS_PATH: &'static str = "/usr/lib/x86_64-linux-gnu/libnss_winbind.so.2";

/// Status reported by a native entry point, decoded from its small-integer
/// return value.
#[derive(Debug, Clone, Copy, PartialEq, Eq, Structural)]
pub enum NssReturnCode {
    TryAgain,
    Unavail,
    NotFound,
    Success,
    Return,
}

/// The status that a native return value denotes: -2, -1, 0, 1 and 2 map to
/// the five statuses; every unrecognized value normalizes to `Unavail`.
pub open spec fn return_code_of(code: int) -> NssReturnCode {
    if code == -2 {
        NssReturnCode::TryAgain
    } else if code == -1 {
        NssReturnCode::Unavail
    } else if code == 0 {
        NssReturnCode::NotFound
    } else if code == 1 {
        NssReturnCode::Success
    } else if code == 2 {
        NssReturnCode::Return
    } else {
        NssReturnCode::Unavail
    }
}

impl From<i32> for NssReturnCode {
    fn from(code: i32) -> (r: NssReturnCode) {
        match code {
            -2 => NssReturnCode::TryAgain,
            -1 => NssReturnCode::Unavail,
            0 => NssReturnCode::NotFound,
            1 => NssReturnCode::Success,
            2 => NssReturnCode::Return,
            _ => NssReturnCode::Unavail,
        }
    }
}

impl vstd::std_specs::convert::FromSpecImpl<i32> for NssReturnCode {
    open spec fn obeys_from_spec() -> bool {
        true
    }

    open spec fn from_spec(v: i32) -> NssReturnCode {
        return_code_of(v as int)
    }
}

/// One of the three supported backends, in fixed priority order
/// `Files`, `Sss`, `Winbind`.
#[derive(Debug, Clone, Copy, PartialEq, Eq, Hash, Structural)]
pub enum NssModule {
    Files,
    Sss,
    Winbind,
}

/// The library path of a backend, as a sequence of characters.
pub open spec fn module_path_spec(m: NssModule) -> Seq<char> {
    match m {
        NssModule::Files => "/usr/lib/x86_64-linux-gnu/libnss_files.so.2"@,
        NssModule::Sss => "/usr/lib/x86_64-linux-gnu/libnss_sss.so.2"@,
        NssModule::Winbind => "/usr/lib/x86_64-linux-gnu/libnss_winbind.so.2"@,
    }
}

/// The lower-case name of a backend, as a sequence of characters.
pub open spec fn module_name_spec(m: NssModule) -> Seq<char> {
    match m {
        NssModule::Files => "files"@,
        NssModule::Sss => "sss"@,
        NssModule::Winbind => "winbind"@,
    }
}

/// The upper-case identifier of a backend, used to tag the records it
/// produced.
pub open spec fn module_upper_name_spec(m: NssModule) -> Seq<char> {
    match m {
        NssModule::Files => "FILES"@,
        NssModule::Sss => "SSS"@,
        NssModule::Winbind => "WINBIND"@,
    }
}

impl NssModule {
    /// The on-disk path of this backend's library.
    #[must_use]
    pub fn path(&self) -> (r: &'static str)
        ensures
            r@ == module_path_spec(*self),
    {
        match self {
            NssModule::Files => FILES_NSS_PATH,
            NssModule::Sss => SSS_NSS_PATH,
            NssModule::Winbind => WINBIND_NSS_PATH,
        }
    }

    /// The lower-case backend name, as used inside entry-point symbol names.
    #[must_use]
    pub fn name(&self) -> (r: &'static str)
        ensures
            r@ == module_name_spec(*self),
    {
        match self {
            NssModule::Files => "files",
            NssModule::Sss => "sss",
            NssModule::Winbind => "winbind",
        }
    }

    /// The upper-case backend identifier that tags returned records.
    #[must_use]
    pub fn upper_name(&self) -> (r: &'static str)
        ensures
            r@ == module_upper_name_spec(*self),
    {
        match self {
            NssModule::Files => "FILES",
            NssModule::Sss => "SSS",
            NssModule::Winbind => "WINBIND",
        }
    }
}

/// One of the ten entry points a backend may expose: keyed lookups and
/// begin/next/end enumeration, for user and for group records. A backend
/// may legitimately lack some of them.
#[derive(Debug, Clone, Copy, PartialEq, Eq, Hash, Structural)]
pub enum NssOperation {
    GetGrNam,
    GetGrGid,
    SetGrEnt,
    EndGrEnt,
    GetGrEnt,
    GetPwNam,
    GetPwUid,
    GetPwEnt,
    SetPwEnt,
    EndPwEnt,
}

/// The native function name of an operation, as a sequence of characters.
pub open spec fn function_name_spec(op: NssOperation) -> Seq<char> {
    match op {
        NssOperation::GetGrNam => "getgrnam_r"@,
        NssOperation::GetGrGid => "getgrgid_r"@,
        NssOperation::SetGrEnt => "setgrent"@,
        NssOperation::EndGrEnt => "endgrent"@,
        NssOperation::GetGrEnt => "getgrent_r"@,
        NssOperation::GetPwNam => "getpwnam_r"@,
        NssOperation::GetPwUid => "getpwuid_r"@,
        NssOperation::GetPwEnt => "getpwent_r"@,
        NssOperation::SetPwEnt => "setpwent"@,
        NssOperation::EndPwEnt => "endpwent"@,
    }
}

/// The slot of an operation in a backend's fixed ten-entry table.
pub open spec fn op_index_spec(op: NssOperation) -> int {
    match op {
        NssOperation::GetGrNam => 0,
        NssOperation::GetGrGid => 1,
        NssOperation::SetGrEnt => 2,
        NssOperation::EndGrEnt => 3,
        NssOperation::GetGrEnt => 4,
        NssOperation::GetPwNam => 5,
        NssOperation::GetPwUid => 6,
        NssOperation::GetPwEnt => 7,
        NssOperation::SetPwEnt => 8,
        NssOperation::EndPwEnt => 9,
    }
}

impl NssOperation {
    /// The native function name of this operation, without the backend
    /// prefix.
    #[must_use]
    pub fn function_name(&self) -> (r: &'static str)
        ensures
            r@ == function_name_spec(*self),
    {
        match self {
            NssOperation::GetGrNam => "getgrnam_r",
            NssOperation::GetGrGid => "getgrgid_r",
            NssOperation::SetGrEnt => "setgrent",
            NssOperation::EndGrEnt => "endgrent",
            NssOperation::GetGrEnt => "getgrent_r",
            NssOperation::GetPwNam => "getpwnam_r",
            NssOperation::GetPwUid => "getpwuid_r",
            NssOperation::GetPwEnt => "getpwent_r",
            NssOperation::SetPwEnt => "setpwent",
            NssOperation::EndPwEnt => "endpwent",
        }
    }

    /// The slot of this operation in a backend's resolved entry-point table.
    #[must_use]
    pub fn as_index(self) -> (r: usize)
        ensures
            r == op_index_spec(self),
            r < 10,
    {
        match self {
            NssOperation::GetGrNam => 0,
            NssOperation::GetGrGid => 1,
            NssOperation::SetGrEnt => 2,
            NssOperation::EndGrEnt => 3,
            NssOperation::GetGrEnt => 4,
            NssOperation::GetPwNam => 5,
            NssOperation::GetPwUid => 6,
            NssOperation::GetPwEnt => 7,
            NssOperation::SetPwEnt => 8,
            NssOperation::EndPwEnt => 9,
        }
    }
}

/// The operation whose table slot is `i`; inverse of `op_index_spec`.
pub open spec fn operation_at(i: int) -> NssOperation {
    if i == 0 {
        NssOperation::GetGrNam
    } else if i == 1 {
        NssOperation::GetGrGid
    } else if i == 2 {
        NssOperation::SetGrEnt
    } else if i == 3 {
        NssOperation::EndGrEnt
    } else if i == 4 {
        NssOperation::GetGrEnt
    } else if i == 5 {
        NssOperation::GetPwNam
    } else if i == 6 {
        NssOperation::GetPwUid
    } else if i == 7 {
        NssOperation::GetPwEnt
    } else if i == 8 {
        NssOperation::SetPwEnt
    } else {
        NssOperation::EndPwEnt
    }
}

/// The operation stored at a given slot of the ten-entry table; inverse of
/// `as_index`.
pub fn operation_of_index(i: usize) -> (op: NssOperation)
    requires
        i < 10,
    ensures
        op == operation_at(i as int),
        op_index_spec(op) == i as int,
{
    match i {
        0 => NssOperation::GetGrNam,
        1 => NssOperation::GetGrGid,
        2 => NssOperation::SetGrEnt,
        3 => NssOperation::EndGrEnt,
        4 => NssOperation::GetGrEnt,
        5 => NssOperation::GetPwNam,
        6 => NssOperation::GetPwUid,
        7 => NssOperation::GetPwEnt,
        8 => NssOperation::SetPwEnt,
        _ => NssOperation::EndPwEnt,
    }
}

} // verus!
