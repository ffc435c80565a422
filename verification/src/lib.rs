//! Compiles text into the USB HID boot-keyboard reports that type it.
//!
//! A text is typed one character at a time: a report that presses the key of the
//! character, then a report that releases it. The release is what lets a host
//! tell a doubled letter from one key held down. Characters that the keyboard
//! does not have are passed over, and the reports of every text end with a
//! release.
//!
//! [`keyboard::print_reports`] opens the stream of reports of a text;
//! [`keyboard::sequence::reports`] says which reports these are.

pub mod keyboard;
