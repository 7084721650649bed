//! Driver core of a binary wristwatch: the pin encoder and display state, and
//! the bring-up and standby sequencing of the real-time clock. The crate holds
//! no peripheral handle; it computes register words and the order of hardware
//! operations, and the firmware around it performs them.

pub mod display;
pub mod display_lemmas;
pub mod rtc;
pub mod rtc_lemmas;
