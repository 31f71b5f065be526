//! Management of the per-machine identity records of an installed application:
//! where the records live, how a fresh identity is made, and how the records
//! are rewritten with a backup taken first.

pub mod encoding;
pub mod backup;
pub mod error;
pub mod identity;
pub mod inspect;
pub mod paths;
pub mod record;
pub mod text;
pub mod update;
