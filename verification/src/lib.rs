//! A record store and bidirectional graph index for versioned entries of an
//! append-only ledger, with an authenticated call layer between storage
//! partitions.
//!
//! Every record keeps one stable identity address while each write appends a
//! new revision. Relationships between records are directed, typed and tagged
//! edges that are kept in reciprocal pairs, in one partition or across two.
//!
//! The engine:
//! - [`identity`]: the two kinds of address;
//! - [`records`]: the record store, with what holds of it in
//!   [`records::laws`];
//! - [`indexes`]: the index engine, with index pairs in [`indexes::remote`]
//!   and what holds of it in [`indexes::laws`];
//! - [`rpc`]: calls between partitions and between the modules of one;
//! - [`pagination`]: cursors and page metadata;
//! - [`errors`], [`attributes`], [`sequences`]: what the others share.
//!
//! The entities that are built on it: [`economic_resource`] with
//! [`economic_event`] and [`process`], [`proposal`] with [`proposal_by_id`]
//! and [`proposed_intent`], [`satisfaction`], and the declarations of
//! [`zome_defs`]. [`vf_core`] holds the fields common to all entities, and
//! [`runner`] the status signals of the conductor launcher.

pub mod attributes;
pub mod economic_event;
pub mod economic_resource;
pub mod errors;
pub mod identity;
pub mod indexes;
pub mod pagination;
pub mod process;
pub mod proposal;
pub mod proposal_by_id;
pub mod proposed_intent;
pub mod records;
pub mod rpc;
pub mod runner;
pub mod satisfaction;
pub mod sequences;
pub mod vf_core;
pub mod zome_defs;
