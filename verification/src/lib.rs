//! The core of a PIN-protected wallet with a worker process beside it.
//!
//! One half keeps a secret record at rest: a key is derived from the PIN
//! (`kdf`), the record is sealed under it (`cipher`, `record`), and the
//! envelope is kept in a single slot (`store`). The other half talks to the
//! worker: it numbers requests (`correlator`), writes the request line and
//! judges the lines that come back (`sidecar`), one call at a time
//! (`commands`). Nothing here touches a file or a process; the caller does,
//! and is told what to do.
pub mod cipher;
pub mod commands;
pub mod correlator;
pub mod error;
pub mod json;
pub mod kdf;
pub mod record;
pub mod sidecar;
pub mod store;
pub mod text;
