//! Decisions of the text injection command.

use vstd::prelude::*;

use crate::preferences::TextInjectionMethod;

verus! {

/// How far the window activation is left to settle before text is sent, in
/// milliseconds.
pub const ACTIVATION_SETTLE_MS: u64 = 50;

/// What sending a text takes.
#[derive(Debug, Clone, Copy, PartialEq, Eq, Structural)]
pub struct InjectionPlan {
    /// The process whose window is brought to the front first, if any.
    pub activate: Option<u32>,
    /// How the text is sent.
    pub method: TextInjectionMethod,
}

/// Plan the injection of `text`: an empty text takes nothing at all; any
/// other is sent by `method`, after the window of `target_process_id` has
/// been brought to the front where one is named.
pub fn plan_injection(
    text: &str,
    target_process_id: Option<u32>,
    method: TextInjectionMethod,
) -> (plan: Option<InjectionPlan>)
    ensures
        text@.len() == 0 ==> plan is None,
        (text@.len() > 0 ==> plan == Some(InjectionPlan { activate: target_process_id, method })),
{
    if text.is_empty() {
        None
    } else {
        Some(InjectionPlan { activate: target_process_id, method })
    }
}

} // verus!
