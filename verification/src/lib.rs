//! Probe planning and reply correlation for link-layer host and port scans.
//!
//! The crate holds the decisions of a scan: which frames to emit, which
//! captured frames to keep, and which verdicts follow from them. Opening
//! channels, sleeping and threading are left to the caller, who is told
//! step by step what to do (see [`session`]).
//!
//! - [`addr`], [`time`], [`host`], [`frame`], [`setting`], [`result`]: the
//!   values that a scan works on.
//! - [`packet`], [`probe`]: composing the probes of each kind of scan.
//! - [`capture`]: what the listener keeps.
//! - [`correlate`]: reading hosts and port verdicts from captured frames.
//! - [`connect`]: handing out the attempts of a connect scan.
//! - [`scan`], [`session`]: one scan from setting to result.
//! - [`interface`], [`base_type`], [`scanner`], [`async_scanner`]:
//!   scanners that keep their settings and their last result.
//! - [`probe_laws`], [`correlate_laws`], [`scan_laws`], [`session_laws`]:
//!   what holds of every plan, of all findings, and of every course that
//!   a scan can take.

pub mod addr;
pub mod time;
pub mod host;
pub mod frame;
pub mod setting;
pub mod result;
pub mod packet;
pub mod probe;
pub mod probe_laws;
pub mod capture;
pub mod correlate;
pub mod correlate_laws;
pub mod connect;
pub mod scan;
pub mod scan_laws;
pub mod session;
pub mod session_laws;
pub mod interface;
pub mod base_type;
pub mod scanner;
pub mod async_scanner;
