//! The parts of the pairing display that do not draw.

pub mod nonmut_wrap;
pub mod qr;

pub use nonmut_wrap::{NonMutWrap, NonMutWrappable};
pub use qr::QrWidget;
