//! A minimal, verified bridge that routes log records to a foreign callback.
//!
//! The bridge holds an address-sized callback slot together with an opaque,
//! address-sized user-data token. Log records are sanitized into
//! null-terminated byte strings and, while the callback slot is live,
//! turned into exactly one invocation of the foreign callback. A handle
//! detaches the callback once, after which every later record is silently
//! dropped and the data token is handed back to its owner.
//!
//! The crate itself never dereferences the callback or data addresses: it
//! decides, for each record, whether an invocation happens and with which
//! exact payload. The thin foreign-function shell that performs the actual
//! call lives outside the verified library.

pub mod bridge;
pub mod encode;
pub mod severity;
pub mod stream;
