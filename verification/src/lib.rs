//! A verified core for a dual-slot (A/B) operating-system image updater:
//! partition-layout planning, bounded retrying, slot discovery, digest
//! verification, and the provisioning / update / boot-commit state
//! machines, each with its contract. The drivers around it perform the
//! I/O the machines ask for and feed the outcomes back in as events.

pub mod command;
pub mod commit;
pub mod devices;
pub mod digest;
pub mod errors;
pub mod layout;
pub mod meta;
pub mod provision;
pub mod retry;
pub mod tee;
pub mod update;
