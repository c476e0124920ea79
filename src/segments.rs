//! Statusline segments that this crate feeds.

use vstd::prelude::*;
use crate::api::{display_text, BalanceData};
use crate::resolver::Action;

verus! {

/// Which segment a piece of the statusline belongs to.
#[derive(Clone, Copy, Debug, PartialEq, Eq, Structural)]
pub enum SegmentId {
    Balance,
    Group,
}

/// Text of one segment.
#[derive(Clone, Debug)]
pub struct SegmentData {
    pub primary: String,
    pub secondary: String,
}

/// A segment's entry in the statusline configuration.
#[derive(Clone, Copy, Debug, PartialEq, Eq)]
pub struct SegmentConfig {
    pub id: SegmentId,
    pub enabled: bool,
}

/// The balance that a resolution settled on, if it settled on one.
pub open spec fn outcome_of(action: Action) -> Option<BalanceData> {
    match action {
        Action::Deliver { data, .. } => Some(data),
        _ => None,
    }
}

/// The balance segment.
#[derive(Clone, Copy, Debug, Default)]
pub struct BalanceSegment;

impl BalanceSegment {
    pub fn new() -> (r: BalanceSegment) {
        BalanceSegment
    }

    pub fn id(&self) -> (r: SegmentId)
        ensures
            r == SegmentId::Balance,
    {
        SegmentId::Balance
    }

    /// The segment for the final action of a resolution: the balance's
    /// display text, or nothing at all when no balance was had.
    pub fn try_collect(&self, outcome: Action) -> (r: Option<SegmentData>)
        ensures
            match outcome_of(outcome) {
                Some(d) => r matches Some(s) && s.primary@ == display_text(d) && s.secondary@.len() == 0,
                None => r is None,
            },
    {
        match outcome {
            Action::Deliver { data, .. } => Some(SegmentData { primary: data.format_display(), secondary: String::new() }),
            _ => None,
        }
    }
}

/// The group segment; the billing service gives no group, so it shows nothing.
#[derive(Clone, Copy, Debug, Default)]
pub struct GroupSegment;

impl GroupSegment {
    pub fn new() -> (r: GroupSegment) {
        GroupSegment
    }

    pub fn id(&self) -> (r: SegmentId)
        ensures
            r == SegmentId::Group,
    {
        SegmentId::Group
    }

    pub fn collect(&self) -> (r: Option<SegmentData>)
        ensures
            r is None,
    {
        None
    }
}

/// Enables the first balance segment of the configuration, if there is one.
pub fn enable_balance_segment(segments: &mut Vec<SegmentConfig>)
    ensures
        final(segments)@.len() == old(segments)@.len(),
        forall|i: int| 0 <= i < old(segments)@.len() ==> #[trigger] final(segments)@[i].id == old(segments)@[i].id,
        forall|i: int| 0 <= i < old(segments)@.len() ==> #[trigger] final(segments)@[i].enabled == (old(segments)@[i].enabled
            || (old(segments)@[i].id == SegmentId::Balance
                && forall|j: int| 0 <= j < i ==> old(segments)@[j].id != SegmentId::Balance)),
{
    let mut i: usize = 0;
    while i < segments.len()
        invariant
            i <= segments@.len(),
            segments@ == old(segments)@,
            forall|j: int| 0 <= j < i ==> old(segments)@[j].id != SegmentId::Balance,
        decreases segments@.len() - i,
    {
        if segments[i].id == SegmentId::Balance {
            let id = segments[i].id;
            segments.set(i, SegmentConfig { id, enabled: true });
            return;
        }
        i = i + 1;
    }
}

} // verus!
