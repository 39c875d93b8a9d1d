//! What holds of the library as a whole, beyond what each function says of itself.

pub mod bridge_course;
pub mod bridge_run;
pub mod exchange;
pub mod labels;
pub mod mirror;
pub mod popup;
pub mod process;
pub mod status;
