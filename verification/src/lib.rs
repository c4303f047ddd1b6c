//! Verified decision and formatting logic of the xdsign sign-in tool.

pub mod locations;
pub mod paths;
pub mod pictures;
pub mod progress;
pub mod records;
pub mod signing;
pub mod template_style;
pub mod text;
pub mod xddcc;
