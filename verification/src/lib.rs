//! Runtime stub of a self-contained executable: it locates the payload
//! bundled with the running launcher, keeps an extracted copy in a cache
//! directory keyed by the launcher's file name, refreshes that cache
//! atomically when the launcher changed, and hands control to the extracted
//! target, forwarding its exit status.
//!
//! Everything that decides — decoding the build-time target descriptor,
//! composing the cache path, judging freshness from modification times,
//! parsing the embedded archive, checking entry paths, planning the atomic
//! refresh, and propagating the child's exit code — lives here and is
//! verified. The surrounding process (stat, read, write, rename, spawn)
//! feeds these functions plain values and carries out their decisions.

pub mod archive;
pub mod cache;
pub mod delegate;
pub mod descriptor;
pub mod errors;
pub mod paths;
