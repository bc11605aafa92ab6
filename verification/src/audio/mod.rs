//! The audio side: sample formats and channel layouts, endpoint selection,
//! and the bookkeeping that keeps the analysis clock honest across holes in
//! the stream.

pub mod capture;
pub mod device;
pub mod format;
