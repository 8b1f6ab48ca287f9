//! Plain-value models of the host structures this library reads or writes.
//! Only the fields the logic depends on are modelled; padding, pointers and
//! floating-point fields stay with the unverified glue that walks host memory.
use vstd::prelude::*;

verus! {

/// Map coordinates of a position in the host world.
#[derive(Clone, Copy, Debug, PartialEq, Eq, Structural)]
pub struct MapId {
    pub index: u8,
    pub region: u8,
    pub block: u8,
    pub area: u8,
}

/// Identity of a character as the host session layer sees it.
#[derive(Clone, Copy, Debug, PartialEq, Eq, Structural)]
pub struct WhoID {
    pub map_id: i32,
    pub chr_selector: i32,
}

/// Handle of a spawned field instance.
#[derive(Clone, Copy, Debug, PartialEq, Eq, Structural)]
pub struct FieldInsHandle {
    pub instance_id: i32,
    pub map_id: MapId,
}

/// The slice of the host's per-character data module that the logic reads.
#[derive(Clone, Copy, Debug, PartialEq, Eq, Structural)]
pub struct ChrDataModule {
    pub hp: u32,
}

/// The slice of the host's game-progress singleton that the logic touches:
/// the new-game-cycle counter.
#[derive(Clone, Copy, Debug, PartialEq, Eq, Structural)]
pub struct GameDataMan {
    pub clear_count: u32,
}

} // verus!
