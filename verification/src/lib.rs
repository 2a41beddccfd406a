//! Screen-mirroring redaction pipeline: the per-frame logic that decides when
//! sensitive-data detection runs, what it reports, which regions stay redacted
//! and how they are painted over before a frame is presented.

pub mod cache;
pub mod detector;
pub mod duty_cycle;
pub mod frame;
pub mod luminance;
pub mod matcher;
pub mod redaction;
pub mod safe_mirror;
pub mod types;
