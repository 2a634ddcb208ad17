//! Process integrity levels: classifying a mandatory-label RID and refusing to act on a
//! process of higher integrity than the caller's.
use vstd::prelude::*;

use crate::protocol::AdvancedIntegrityLevel;
use crate::types::{WinrError, WinrResult};

verus! {

/// Windows mandatory integrity levels, lowest first.
#[derive(Debug, Clone, Copy, PartialEq, Eq, Structural)]
pub enum IntegrityLevel {
    Untrusted,
    Low,
    Medium,
    High,
    System,
    Protected,
}

/// Position of a level in the order untrusted < low < medium < high < system < protected.
pub open spec fn level_rank(level: IntegrityLevel) -> nat {
    match level {
        IntegrityLevel::Untrusted => 0,
        IntegrityLevel::Low => 1,
        IntegrityLevel::Medium => 2,
        IntegrityLevel::High => 3,
        IntegrityLevel::System => 4,
        IntegrityLevel::Protected => 5,
    }
}

/// The level of a mandatory-label RID: each 0x1000 band is one level, from 0x5000 on protected.
pub open spec fn level_of_rid(rid: u32) -> IntegrityLevel {
    if rid < 0x1000 {
        IntegrityLevel::Untrusted
    } else if rid < 0x2000 {
        IntegrityLevel::Low
    } else if rid < 0x3000 {
        IntegrityLevel::Medium
    } else if rid < 0x4000 {
        IntegrityLevel::High
    } else if rid < 0x5000 {
        IntegrityLevel::System
    } else {
        IntegrityLevel::Protected
    }
}

/// Stable lowercase name of a level.
pub open spec fn level_name(level: IntegrityLevel) -> Seq<char> {
    match level {
        IntegrityLevel::Untrusted => "untrusted"@,
        IntegrityLevel::Low => "low"@,
        IntegrityLevel::Medium => "medium"@,
        IntegrityLevel::High => "high"@,
        IntegrityLevel::System => "system"@,
        IntegrityLevel::Protected => "protected"@,
    }
}

impl IntegrityLevel {
    /// The level of a mandatory-label RID.
    pub fn from_rid(rid: u32) -> (r: Self)
        ensures
            r == level_of_rid(rid),
    {
        if rid < 0x1000 {
            IntegrityLevel::Untrusted
        } else if rid < 0x2000 {
            IntegrityLevel::Low
        } else if rid < 0x3000 {
            IntegrityLevel::Medium
        } else if rid < 0x4000 {
            IntegrityLevel::High
        } else if rid < 0x5000 {
            IntegrityLevel::System
        } else {
            IntegrityLevel::Protected
        }
    }

    /// Stable lowercase name.
    pub fn as_str(self) -> (r: &'static str)
        ensures
            r@ == level_name(self),
    {
        match self {
            IntegrityLevel::Untrusted => "untrusted",
            IntegrityLevel::Low => "low",
            IntegrityLevel::Medium => "medium",
            IntegrityLevel::High => "high",
            IntegrityLevel::System => "system",
            IntegrityLevel::Protected => "protected",
        }
    }

    /// Position of the level in the integrity order.
    pub fn rank(self) -> (r: u8)
        ensures
            r == level_rank(self),
    {
        match self {
            IntegrityLevel::Untrusted => 0,
            IntegrityLevel::Low => 1,
            IntegrityLevel::Medium => 2,
            IntegrityLevel::High => 3,
            IntegrityLevel::System => 4,
            IntegrityLevel::Protected => 5,
        }
    }
}

/// A higher RID never maps to a lower level.
pub proof fn lemma_rid_order_preserved(a: u32, b: u32)
    requires
        a <= b,
    ensures
        level_rank(level_of_rid(a)) <= level_rank(level_of_rid(b)),
{
}

/// Refuses to act on a target process of higher integrity than the current process.
pub fn enforce_integrity_level(current: IntegrityLevel, target: IntegrityLevel) -> (r: WinrResult<()>)
    ensures
        level_rank(target) > level_rank(current) ==> r == Err::<(), WinrError>(WinrError::IntegrityLevelDenied),
        level_rank(target) <= level_rank(current) ==> r is Ok,
{
    if target.rank() > current.rank() {
        return Err(WinrError::IntegrityLevelDenied);
    }
    Ok(())
}

/// The advanced-backend integrity level of a mandatory-label RID.
pub open spec fn advanced_level_of_rid(rid: u32) -> AdvancedIntegrityLevel {
    match level_of_rid(rid) {
        IntegrityLevel::Untrusted => AdvancedIntegrityLevel::Untrusted,
        IntegrityLevel::Low => AdvancedIntegrityLevel::Low,
        IntegrityLevel::Medium => AdvancedIntegrityLevel::Medium,
        IntegrityLevel::High => AdvancedIntegrityLevel::High,
        IntegrityLevel::System => AdvancedIntegrityLevel::System,
        IntegrityLevel::Protected => AdvancedIntegrityLevel::Protected,
    }
}

/// The advanced-backend integrity level of a mandatory-label RID.
pub fn advanced_integrity_level_from_rid(rid: u32) -> (r: AdvancedIntegrityLevel)
    ensures
        r == advanced_level_of_rid(rid),
{
    match IntegrityLevel::from_rid(rid) {
        IntegrityLevel::Untrusted => AdvancedIntegrityLevel::Untrusted,
        IntegrityLevel::Low => AdvancedIntegrityLevel::Low,
        IntegrityLevel::Medium => AdvancedIntegrityLevel::Medium,
        IntegrityLevel::High => AdvancedIntegrityLevel::High,
        IntegrityLevel::System => AdvancedIntegrityLevel::System,
        IntegrityLevel::Protected => AdvancedIntegrityLevel::Protected,
    }
}

} // verus!
