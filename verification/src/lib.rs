//! Identity-record resolution against operating-system identity-service
//! plugins (local files, directory service, domain join), called through
//! their reentrant entry points with a growable scratch buffer, a fixed
//! fallback order across backends, and stateful enumeration sessions.
//!
//! The native calls themselves (dynamic loading and the reentrant entry
//! points) are performed by an implementation of [`port::NssCallPort`]
//! supplied by the embedding program; everything this crate decides —
//! symbol naming, registry caching, buffer growth, status and errno
//! translation, record decoding, fallback order, and session cleanup —
//! is verified.

pub mod decimal;
pub mod error;
pub mod nss_common;
pub mod group;
pub mod passwd;
pub mod port;
pub mod protocol;
pub mod registry;

pub use error::{NssError, NssResult};
pub use group::{getgrall, getgrgid, getgrnam, itergrp, GroupEntry, GroupIterator};
pub use nss_common::{NssModule, NssOperation, NssReturnCode};
pub use nss_common::{FILES_NSS_PATH, NSS_MODULES_DIR, SSS_NSS_PATH, WINBIND_NSS_PATH};
pub use passwd::{getpwall, getpwnam, getpwuid, iterpw, PasswdEntry, PasswdIterator};
pub use port::{GrReply, NssCallPort, OpTable, PwReply, RawGroup, RawPasswd, RawText};
pub use registry::{get_nss_function, NssRegistry};
