//! A US/UK keyboard as a USB HID host sees it: the keys, the characters they type,
//! and the reports that type a text.

pub mod key;
pub mod report;
pub mod sequence;
pub mod stream;

pub use key::{Key, LEFT_SHIFT};
pub use report::ReportFrame;
pub use stream::{print_reports, ReportStream};
