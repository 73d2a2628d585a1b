//! Verified core of a proximity-card reader that types a tag's identifier
//! on a USB HID keyboard interface.

pub mod hexcode;
pub mod keystroke;
pub mod lifecycle;
pub mod report;
pub mod tag;
pub mod tag_loop;
pub mod transport;
pub mod wakeup;
