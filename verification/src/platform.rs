//! Device families and their boot-log offset tables.
//!
//! A TA image stores up to ten boot logs at offsets that differ per device
//! family. Only the Tama family's offsets are documented; every other
//! family is explicitly unsupported rather than guessed at.

use vstd::prelude::*;

use crate::error::TaError;

verus! {

/// A device family. Each family lays its boot logs out at its own offsets.
#[derive(Copy, Clone, Debug, PartialEq, Eq, Structural)]
pub enum Platform {
    Loire,
    Tone,
    Yoshino,
    Nile,
    Tama,
    Ganges,
    Kumano,
    Seine,
    Edo,
    Lena,
    Sagami,
}

/// The ten boot-log offsets of the Tama family, in storage order.
pub open spec fn tama_bootlog_offsets() -> Seq<usize> {
    seq![
        0x2A22E,
        0x2DA22,
        0x31CEE,
        0x3542A,
        0x38C46,
        0x3C7A2,
        0x65412,
        0x68C2E,
        0x6C78A,
        0x70A2E,
    ]
}

impl Platform {
    /// The boot-log offset table of this family, or `NotImplemented` where
    /// the offsets are undocumented (never a silently wrong table).
    pub fn bootlog_offset(self) -> (r: Result<[usize; 10], TaError>)
        ensures
            self is Tama ==> (r matches Ok(offs) && offs@ == tama_bootlog_offsets()),
            !(self is Tama) ==> r == Err::<[usize; 10], TaError>(TaError::NotImplemented(self)),
    {
        match self {
            Platform::Tama => {
                let offs: [usize; 10] = [
                    0x2A22E,
                    0x2DA22,
                    0x31CEE,
                    0x3542A,
                    0x38C46,
                    0x3C7A2,
                    0x65412,
                    0x68C2E,
                    0x6C78A,
                    0x70A2E,
                ];
                proof {
                    assert(offs@ =~= tama_bootlog_offsets());
                }
                Ok(offs)
            },
            p => Err(TaError::NotImplemented(p)),
        }
    }
}

} // verus!
