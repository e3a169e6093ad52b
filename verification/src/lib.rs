//! The decisions behind an HDR display settings panel, verified with Verus.
//!
//! The library reads no file and runs no command. It takes what the system
//! shows as plain values, says what it means, and says what to run next: what
//! an EDID declares, which connector and which vendor are in use, what the
//! settings files hold, how settings are applied, how the panel changes with
//! each message and what it shows.

pub mod apply;
pub mod calib;
pub mod conf;
pub mod connector;
pub mod controls;
pub mod cta;
pub mod edid;
pub mod gpu;
pub mod luminance;
pub mod number;
pub mod page;
pub mod panel;
pub mod shown;
pub mod text;
