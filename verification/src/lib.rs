//! Acquisition of the retail chains' mandated price-disclosure files.
//!
//! Dozens of independent portals publish catalog and store-list files behind
//! structurally different sites. This library holds the verified heart of
//! the pipeline that lands them: parsing inconsistent filenames into typed
//! identities, keeping the most recent version per slot, the per-portal
//! discovery logic that turns fetched pages and listings into download
//! descriptors, the integrity check on downloaded bodies, and the accounting
//! of the global transfer cap. The driver that moves the bytes lives outside
//! the library and takes every decision from it.

pub mod adapters;
pub mod counter;
pub mod country_code;
pub mod curate;
pub mod download;
pub mod file_info;
pub mod models;
pub mod nutrition;
pub mod online_store;
pub mod orchestrator;
pub mod sanitization;
pub mod store;
pub mod strutil;
