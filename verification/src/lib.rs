//! Host information reports: the values a host hands back for its topology,
//! names, system directory, user identity and memory counters, rendered as
//! numbered text sections.

pub mod host;
pub mod report;
pub mod session;
pub mod text;
pub mod wide;
