//! Windows that transcribed text can be sent to.

use vstd::prelude::*;

pub mod windows;

verus! {

/// A window that text can be sent to.
#[derive(Debug, Clone, PartialEq, Eq)]
pub struct TargetWindow {
    pub window_id: String,
    pub title: String,
    pub app_name: String,
    pub process_id: u32,
    pub icon: Option<String>,
}

} // verus!
