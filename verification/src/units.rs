//! Unit-creation blocks: the assembler family, whose per-instance state is an
//! optional selection out of the block's fixed list of buildable units.
use vstd::prelude::*;

use crate::block::{DeserializeError, ItemType, SerializeError, State};
use crate::data::{DataRead, ReadError};
use crate::dynamic::{DynData, DynType};

verus! {

/// A kind of unit an assembler can build.
#[derive(Clone, Copy, Debug, PartialEq, Eq, Structural)]
pub enum UnitType {
    Dagger,
    Crawler,
    Nova,
    Flare,
    Mono,
    Risso,
    Retusa,
    Stell,
    Elude,
    Merui,
}

/// The selected unit index was outside the block's list.
#[derive(Clone, Copy, Debug, PartialEq, Eq, Structural)]
pub struct AssemblerDeserializeError {
    /// The index the configuration carried.
    pub idx: i32,
    /// How many units the block can build.
    pub count: i32,
}

/// The state held a unit this block cannot build.
#[derive(Clone, Copy, Debug, PartialEq, Eq, Structural)]
pub struct AssemblerSerializeError(pub UnitType);

/// A unit factory. Its persisted configuration is a signed 32-bit index into
/// its unit list, where -1 means "none selected".
pub struct AssemblerBlock {
    size: u8,
    symmetric: bool,
    build_cost: Vec<(ItemType, u32)>,
    valid: Vec<UnitType>,
}

/// Exactly what decoding an assembler configuration against the unit list
/// `valid` yields: empty and -1 mean no selection, an in-range index selects
/// that unit, an out-of-range index is rejected with both the index and the
/// list's size, and any other variant is a type mismatch.
pub open spec fn assembler_decodes(
    valid: Seq<UnitType>,
    data: DynData,
    r: Result<Option<State>, DeserializeError>,
) -> bool {
    match data {
        DynData::Empty => r == Ok::<Option<State>, DeserializeError>(
            Some(State::Assembler(None)),
        ),
        DynData::Int(idx) => if idx == -1 {
            r == Ok::<Option<State>, DeserializeError>(Some(State::Assembler(None)))
        } else if 0 <= idx < valid.len() {
            r == Ok::<Option<State>, DeserializeError>(
                Some(State::Assembler(Some(valid[idx as int]))),
            )
        } else {
            r == Err::<Option<State>, DeserializeError>(
                DeserializeError::Assembler(
                    AssemblerDeserializeError { idx, count: valid.len() as i32 },
                ),
            )
        },
        _ => r == Err::<Option<State>, DeserializeError>(
            DeserializeError::InvalidType { have: data.spec_get_type(), expect: DynType::Int },
        ),
    }
}

/// Exactly what encoding an assembler selection against the unit list `valid`
/// yields: no selection encodes to -1, a buildable unit to its first index in
/// the list, and a foreign unit is rejected carrying that unit.
pub open spec fn assembler_encodes(
    valid: Seq<UnitType>,
    selected: Option<UnitType>,
    r: Result<DynData, SerializeError>,
) -> bool {
    match selected {
        None => r == Ok::<DynData, SerializeError>(DynData::Int(-1i32)),
        Some(u) => match r {
            Ok(d) => d matches DynData::Int(i) && 0 <= i < valid.len() && valid[i as int] == u
                && forall|j: int| 0 <= j < i ==> valid[j] != u,
            Err(e) => e == SerializeError::Assembler(AssemblerSerializeError(u)) && forall|j: int|
                0 <= j < valid.len() ==> valid[j] != u,
        },
    }
}

impl AssemblerBlock {
    #[verifier::type_invariant]
    spec fn inv(self) -> bool {
        1 <= self.valid@.len() <= i32::MAX && self.size != 0
    }

    /// The block's footprint.
    pub closed spec fn spec_size(&self) -> u8 {
        self.size
    }

    /// Whether rotation leaves the block's look unchanged.
    pub closed spec fn spec_symmetric(&self) -> bool {
        self.symmetric
    }

    /// The block's construction bill.
    pub closed spec fn spec_build_cost(&self) -> Seq<(ItemType, u32)> {
        self.build_cost@
    }

    /// The units this block can build, in index order.
    pub closed spec fn spec_valid(&self) -> Seq<UnitType> {
        self.valid@
    }

    /// Builds the descriptor. A factory has a footprint and at least one
    /// buildable unit, and its unit list is indexed by a signed 32-bit value.
    pub fn new(size: u8, symmetric: bool, build_cost: Vec<(ItemType, u32)>, valid: Vec<
        UnitType,
    >) -> (r: Self)
        requires
            size != 0,
            valid@.len() >= 1,
            valid@.len() <= i32::MAX,
        ensures
            r.spec_size() == size,
            r.spec_symmetric() == symmetric,
            r.spec_build_cost() == build_cost@,
            r.spec_valid() == valid@,
    {
        AssemblerBlock { size, symmetric, build_cost, valid }
    }

    /// The footprint.
    pub fn get_size(&self) -> (r: u8)
        ensures
            r == self.spec_size(),
    {
        self.size
    }

    /// Whether rotation leaves the block's look unchanged.
    pub fn is_symmetric(&self) -> (r: bool)
        ensures
            r == self.spec_symmetric(),
    {
        self.symmetric
    }

    /// The construction bill.
    pub fn get_build_cost(&self) -> (r: &Vec<(ItemType, u32)>)
        ensures
            r@ == self.spec_build_cost(),
    {
        &self.build_cost
    }

    /// The default configuration: no unit selected.
    pub fn data_from_i32(&self, _config: i32) -> (r: DynData)
        ensures
            r == DynData::Int(-1i32),
    {
        DynData::Int(-1i32)
    }

    /// Decodes a persisted configuration into a selection, exactly as
    /// [`assembler_decodes`] lays out.
    pub fn deserialize_state(&self, data: DynData) -> (r: Result<Option<State>, DeserializeError>)
        ensures
            assembler_decodes(self.spec_valid(), data, r),
    {
        proof {
            use_type_invariant(self);
        }
        match data {
            DynData::Empty => Ok(Some(State::Assembler(None))),
            DynData::Int(idx) => {
                if idx == -1 {
                    Ok(Some(State::Assembler(None)))
                } else if idx >= 0 && (idx as usize) < self.valid.len() {
                    Ok(Some(State::Assembler(Some(self.valid[idx as usize]))))
                } else {
                    Err(
                        DeserializeError::Assembler(
                            AssemblerDeserializeError { idx, count: self.valid.len() as i32 },
                        ),
                    )
                }
            },
            other => Err(
                DeserializeError::InvalidType { have: other.get_type(), expect: DynType::Int },
            ),
        }
    }

    /// Reads an assembler's legacy entity payload tail. The loader reads the
    /// carried payload block first with its own collaborators; what follows
    /// it — progress, plan and point, fourteen bytes this library does not
    /// model — is skipped whole.
    pub fn read_legacy(&self, buff: &mut DataRead) -> (r: Result<(), ReadError>)
        ensures
            final(buff).bytes() == old(buff).bytes(),
            ({
                let pos = old(buff).position();
                let b = old(buff).bytes();
                match r {
                    Ok(()) => pos + 14 <= b.len() && final(buff).position() == pos + 14,
                    Err(e) => e == ReadError::Underflow && pos + 14 > b.len() && final(buff).position() == pos,
                }
            }),
    {
        buff.skip(14)
    }

    /// Encodes a selection back into its persisted index, exactly as
    /// [`assembler_encodes`] lays out. The state must be an assembler
    /// selection; pairing state with its owning kind is the caller's charge.
    pub fn serialize_state(&self, state: &State) -> (r: Result<DynData, SerializeError>)
        requires
            state is Assembler,
        ensures
            assembler_encodes(self.spec_valid(), state->Assembler_0, r),
    {
        match state {
            State::Assembler(None) => Ok(DynData::Int(-1i32)),
            State::Assembler(Some(u)) => {
                proof {
                    use_type_invariant(self);
                }
                let mut i: usize = 0;
                while i < self.valid.len()
                    invariant
                        i <= self.spec_valid().len(),
                        self.spec_valid().len() <= i32::MAX,
                        state is Assembler && state->Assembler_0 == Some(*u),
                        forall|j: int| 0 <= j < i ==> self.spec_valid()[j] != *u,
                    decreases self.spec_valid().len() - i,
                {
                    if self.valid[i] == *u {
                        proof {
                            assert(self.spec_valid()[i as int] == *u);
                        }
                        return Ok(DynData::Int(i as i32));
                    }
                    i = i + 1;
                }
                Err(SerializeError::Assembler(AssemblerSerializeError(*u)))
            },
            // unreachable under the requires
            _ => Ok(DynData::Empty),
        }
    }
}

} // verus!
