//! Catalogue of the host's fullscreen message banners. The numeric codes are
//! the host's own identifiers; the glue that calls the host's display routine
//! passes `code()` through unchanged.
use vstd::prelude::*;

verus! {

/// A fullscreen banner the host can display. Each variant stands for one
/// entry of the host's fixed message table.
#[derive(Clone, Copy, Debug, PartialEq, Eq, Structural)]
pub enum FullscreenMsgIndex {
    DemigodFelled,
    LegendFelled,
    GreatEnemyFelled,
    EnemyFelled,
    YouDied,
    HostVanquished,
    BloodFingerVanquished,
    DutyFullFilled,
    LostGraceDiscovered,
    MapFound,
    GreatRuneRestored,
    GodSlain,
    DuelistVanquished,
    Defeat,
    InvaderVanquished,
    Down6,
    Down5,
    Down4,
    Down3,
    Down2,
    Down1,
    Down0,
    Up7,
    Up6,
    Up5,
    Up4,
    Up3,
    Up2,
    Up1,
    HeartStolen,
}

impl FullscreenMsgIndex {
    /// The host's numeric identifier for this banner.
    pub open spec fn spec_code(self) -> u32 {
        match self {
            FullscreenMsgIndex::DemigodFelled => 1,
            FullscreenMsgIndex::LegendFelled => 2,
            FullscreenMsgIndex::GreatEnemyFelled => 3,
            FullscreenMsgIndex::EnemyFelled => 4,
            FullscreenMsgIndex::YouDied => 5,
            FullscreenMsgIndex::HostVanquished => 7,
            FullscreenMsgIndex::BloodFingerVanquished => 8,
            FullscreenMsgIndex::DutyFullFilled => 9,
            FullscreenMsgIndex::LostGraceDiscovered => 11,
            FullscreenMsgIndex::MapFound => 17,
            FullscreenMsgIndex::GreatRuneRestored => 21,
            FullscreenMsgIndex::GodSlain => 22,
            FullscreenMsgIndex::DuelistVanquished => 23,
            FullscreenMsgIndex::Defeat => 16,
            FullscreenMsgIndex::InvaderVanquished => 25,
            FullscreenMsgIndex::Down6 => 13,
            FullscreenMsgIndex::Down5 => 14,
            FullscreenMsgIndex::Down4 => 15,
            FullscreenMsgIndex::Down3 => 24,
            FullscreenMsgIndex::Down2 => 30,
            FullscreenMsgIndex::Down1 => 31,
            FullscreenMsgIndex::Down0 => 32,
            FullscreenMsgIndex::Up7 => 33,
            FullscreenMsgIndex::Up6 => 34,
            FullscreenMsgIndex::Up5 => 35,
            FullscreenMsgIndex::Up4 => 36,
            FullscreenMsgIndex::Up3 => 37,
            FullscreenMsgIndex::Up2 => 38,
            FullscreenMsgIndex::Up1 => 39,
            FullscreenMsgIndex::HeartStolen => 40,
        }
    }

    /// Executable form of `spec_code`, for the glue that talks to the host.
    pub fn code(self) -> (r: u32)
        ensures
            r == self.spec_code(),
    {
        match self {
            FullscreenMsgIndex::DemigodFelled => 1,
            FullscreenMsgIndex::LegendFelled => 2,
            FullscreenMsgIndex::GreatEnemyFelled => 3,
            FullscreenMsgIndex::EnemyFelled => 4,
            FullscreenMsgIndex::YouDied => 5,
            FullscreenMsgIndex::HostVanquished => 7,
            FullscreenMsgIndex::BloodFingerVanquished => 8,
            FullscreenMsgIndex::DutyFullFilled => 9,
            FullscreenMsgIndex::LostGraceDiscovered => 11,
            FullscreenMsgIndex::MapFound => 17,
            FullscreenMsgIndex::GreatRuneRestored => 21,
            FullscreenMsgIndex::GodSlain => 22,
            FullscreenMsgIndex::DuelistVanquished => 23,
            FullscreenMsgIndex::Defeat => 16,
            FullscreenMsgIndex::InvaderVanquished => 25,
            FullscreenMsgIndex::Down6 => 13,
            FullscreenMsgIndex::Down5 => 14,
            FullscreenMsgIndex::Down4 => 15,
            FullscreenMsgIndex::Down3 => 24,
            FullscreenMsgIndex::Down2 => 30,
            FullscreenMsgIndex::Down1 => 31,
            FullscreenMsgIndex::Down0 => 32,
            FullscreenMsgIndex::Up7 => 33,
            FullscreenMsgIndex::Up6 => 34,
            FullscreenMsgIndex::Up5 => 35,
            FullscreenMsgIndex::Up4 => 36,
            FullscreenMsgIndex::Up3 => 37,
            FullscreenMsgIndex::Up2 => 38,
            FullscreenMsgIndex::Up1 => 39,
            FullscreenMsgIndex::HeartStolen => 40,
        }
    }
}

/// The usable entry count of a host character set: the primary count, or
/// the fallback count where the primary reads as the set's unset marker
/// (all bits set).
pub fn effective_chr_count(primary: u32, fallback: u32) -> (r: u32)
    ensures
        r == (if primary == 0xffffffffu32 {
            fallback
        } else {
            primary
        }),
{
    if primary == 0xffffffff {
        fallback
    } else {
        primary
    }
}

} // verus!
