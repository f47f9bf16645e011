//! The block state contract and registry.
//!
//! Every block kind implements one capability set: footprint, symmetry,
//! build cost, default configuration, decode and encode of per-instance
//! state, clone, and the mirror and rotate transforms. The kinds form a
//! closed set dispatched by exhaustive match, so adding a kind is a
//! compile-time-checked change. Every kind accepts exactly the dynamic-value
//! variants its own format defines and rejects all others with a typed
//! mismatch error carrying the observed and the expected type.
use vstd::prelude::*;

use crate::data::{DataRead, ReadError};
use crate::dynamic::{DynData, DynType};
use crate::logic::{message_decodes, message_encodes, processor_decodes, processor_encodes,
    switch_decodes, switch_encodes, MessageLogic, ProcessorLogic, ProcessorState, ProcessorView,
    SwitchLogic};
use crate::units::{assembler_decodes, assembler_encodes, AssemblerBlock,
    AssemblerDeserializeError, AssemblerSerializeError, UnitType};

verus! {

/// A resource a block costs to build.
#[derive(Clone, Copy, Debug, PartialEq, Eq, Structural)]
pub enum ItemType {
    Copper,
    Lead,
    Metaglass,
    Graphite,
    Titanium,
    Thorium,
    Silicon,
    Plastanium,
    PhaseFabric,
    SurgeAlloy,
    Beryllium,
    Tungsten,
    Oxide,
    Carbide,
}

/// A grid position, handed to default-configuration builders.
#[derive(Clone, Copy, Debug, PartialEq, Eq, Structural)]
pub struct GridPos(pub u16, pub u16);

/// The per-instance state a placed block owns, keyed by its kind: the small
/// closed set of payload shapes the kinds actually use.
#[derive(Debug)]
pub enum State {
    /// A message block's text.
    Message(String),
    /// A switch's flag.
    Switch(bool),
    /// A processor's code and link table.
    Processor(ProcessorState),
    /// An assembler's selected unit, if any.
    Assembler(Option<UnitType>),
}

/// The mathematical value of a [`State`].
pub enum StateView {
    Message(Seq<char>),
    Switch(bool),
    Processor(ProcessorView),
    Assembler(Option<UnitType>),
}

impl View for State {
    type V = StateView;

    open spec fn view(&self) -> StateView {
        match self {
            State::Message(s) => StateView::Message(s@),
            State::Switch(b) => StateView::Switch(*b),
            State::Processor(p) => StateView::Processor(p@),
            State::Assembler(u) => StateView::Assembler(*u),
        }
    }
}

impl Clone for State {
    fn clone(&self) -> (r: Self)
        ensures
            r@ == self@,
    {
        match self {
            State::Message(s) => State::Message(s.clone()),
            State::Switch(b) => State::Switch(*b),
            State::Processor(p) => State::Processor(p.clone()),
            State::Assembler(u) => State::Assembler(*u),
        }
    }
}

/// Why decoding a persisted configuration into block state failed. The
/// original cause stays retrievable; nothing is flattened to text.
#[derive(Debug)]
pub enum DeserializeError {
    /// The configuration's variant is not one the block kind accepts.
    InvalidType { have: DynType, expect: DynType },
    /// A processor payload failed to decompress or parse.
    Processor(crate::logic::ProcessorDeserializeError),
    /// An assembler index was out of range.
    Assembler(AssemblerDeserializeError),
}

/// Why encoding block state failed. The original cause stays retrievable.
#[derive(Debug)]
pub enum SerializeError {
    /// A processor payload failed to compress.
    Processor(crate::logic::ProcessorSerializeError),
    /// An assembler state held a unit the block cannot build.
    Assembler(AssemblerSerializeError),
}

/// A block kind with no custom per-instance state, such as a conveyor or a
/// storage block: it always decodes to no state and always encodes to the
/// empty value, regardless of call history.
pub struct SimpleBlock {
    size: u8,
    symmetric: bool,
    build_cost: Vec<(ItemType, u32)>,
}

impl SimpleBlock {
    /// The block's footprint.
    pub closed spec fn spec_size(&self) -> u8 {
        self.size
    }

    /// Whether rotation leaves the block's look unchanged.
    pub closed spec fn spec_symmetric(&self) -> bool {
        self.symmetric
    }

    /// The block's construction bill.
    pub closed spec fn spec_build_cost(&self) -> Seq<(ItemType, u32)> {
        self.build_cost@
    }

    pub fn new(size: u8, symmetric: bool, build_cost: Vec<(ItemType, u32)>) -> (r: Self)
        requires
            size != 0,
        ensures
            r.spec_size() == size,
            r.spec_symmetric() == symmetric,
            r.spec_build_cost() == build_cost@,
    {
        SimpleBlock { size, symmetric, build_cost }
    }

    /// A stateless kind always decodes to "no state", whatever the
    /// configuration holds.
    pub fn deserialize_state(&self, _data: DynData) -> (r: Result<Option<State>, DeserializeError>)
        ensures
            r == Ok::<Option<State>, DeserializeError>(None),
    {
        Ok(None)
    }

    /// A stateless kind always encodes to the empty value.
    pub fn serialize_state(&self, _state: &State) -> (r: Result<DynData, SerializeError>)
        ensures
            r == Ok::<DynData, SerializeError>(DynData::Empty),
    {
        Ok(DynData::Empty)
    }
}

/// The closed set of block kinds, dispatched by exhaustive match.
pub enum BlockLogicEnum {
    Message(MessageLogic),
    Switch(SwitchLogic),
    Processor(ProcessorLogic),
    Assembler(AssemblerBlock),
    Simple(SimpleBlock),
}

impl BlockLogicEnum {
    /// The kind's footprint.
    pub open spec fn spec_size(&self) -> u8 {
        match self {
            BlockLogicEnum::Message(_) => 1,
            BlockLogicEnum::Switch(_) => 1,
            BlockLogicEnum::Processor(p) => p.spec_size(),
            BlockLogicEnum::Assembler(a) => a.spec_size(),
            BlockLogicEnum::Simple(s) => s.spec_size(),
        }
    }

    /// Whether rotation leaves the kind's look unchanged.
    pub open spec fn spec_symmetric(&self) -> bool {
        match self {
            BlockLogicEnum::Message(_) => true,
            BlockLogicEnum::Switch(_) => true,
            BlockLogicEnum::Processor(_) => true,
            BlockLogicEnum::Assembler(a) => a.spec_symmetric(),
            BlockLogicEnum::Simple(s) => s.spec_symmetric(),
        }
    }

    /// The kind's construction bill; empty where none is known.
    pub open spec fn spec_build_cost(&self) -> Seq<(ItemType, u32)> {
        match self {
            BlockLogicEnum::Message(_) => Seq::<(ItemType, u32)>::empty(),
            BlockLogicEnum::Switch(_) => Seq::<(ItemType, u32)>::empty(),
            BlockLogicEnum::Processor(_) => Seq::<(ItemType, u32)>::empty(),
            BlockLogicEnum::Assembler(a) => a.spec_build_cost(),
            BlockLogicEnum::Simple(s) => s.spec_build_cost(),
        }
    }

    /// The kind's default configuration.
    pub open spec fn spec_default_data(&self) -> DynData {
        match self {
            BlockLogicEnum::Assembler(_) => DynData::Int(-1i32),
            _ => DynData::Empty,
        }
    }

    /// Exactly what decoding a configuration against this kind yields.
    pub open spec fn decodes(&self, data: DynData, r: Result<Option<State>, DeserializeError>) -> bool {
        match self {
            BlockLogicEnum::Message(_) => message_decodes(data, r),
            BlockLogicEnum::Switch(_) => switch_decodes(data, r),
            BlockLogicEnum::Processor(_) => processor_decodes(data, r),
            BlockLogicEnum::Assembler(a) => assembler_decodes(a.spec_valid(), data, r),
            BlockLogicEnum::Simple(_) => r == Ok::<Option<State>, DeserializeError>(None),
        }
    }

    /// Whether a state's shape belongs to this kind, so that encoding it is
    /// meaningful. A stateless kind ignores the state.
    pub open spec fn owns_state(&self, state: State) -> bool {
        match self {
            BlockLogicEnum::Message(_) => state is Message,
            BlockLogicEnum::Switch(_) => state is Switch,
            BlockLogicEnum::Processor(_) => state is Processor
                && state->Processor_0@.links.len() <= i32::MAX,
            BlockLogicEnum::Assembler(_) => state is Assembler,
            BlockLogicEnum::Simple(_) => true,
        }
    }

    /// Exactly what encoding a state against this kind yields.
    pub open spec fn encodes(&self, state: State, r: Result<DynData, SerializeError>) -> bool {
        match self {
            BlockLogicEnum::Message(_) => message_encodes(state->Message_0@, r),
            BlockLogicEnum::Switch(_) => switch_encodes(state->Switch_0, r),
            BlockLogicEnum::Processor(_) => processor_encodes(state->Processor_0@, r),
            BlockLogicEnum::Assembler(a) => assembler_encodes(
                a.spec_valid(),
                state->Assembler_0,
                r,
            ),
            BlockLogicEnum::Simple(_) => r == Ok::<DynData, SerializeError>(DynData::Empty),
        }
    }

    /// The footprint.
    pub fn get_size(&self) -> (r: u8)
        ensures
            r == self.spec_size(),
    {
        match self {
            BlockLogicEnum::Message(m) => m.get_size(),
            BlockLogicEnum::Switch(s) => s.get_size(),
            BlockLogicEnum::Processor(p) => p.get_size(),
            BlockLogicEnum::Assembler(a) => a.get_size(),
            BlockLogicEnum::Simple(s) => s.size,
        }
    }

    /// Whether rotation leaves the kind's look unchanged.
    pub fn is_symmetric(&self) -> (r: bool)
        ensures
            r == self.spec_symmetric(),
    {
        match self {
            BlockLogicEnum::Message(m) => m.is_symmetric(),
            BlockLogicEnum::Switch(s) => s.is_symmetric(),
            BlockLogicEnum::Processor(p) => p.is_symmetric(),
            BlockLogicEnum::Assembler(a) => a.is_symmetric(),
            BlockLogicEnum::Simple(s) => s.symmetric,
        }
    }

    /// The construction bill, or nothing where the bill is empty.
    pub fn create_build_cost(&self) -> (r: Option<&Vec<(ItemType, u32)>>)
        ensures
            match r {
                Some(v) => v@ == self.spec_build_cost() && v@.len() > 0,
                None => self.spec_build_cost().len() == 0,
            },
    {
        let bill = match self {
            BlockLogicEnum::Assembler(a) => a.get_build_cost(),
            BlockLogicEnum::Simple(s) => &s.build_cost,
            _ => {
                return None;
            },
        };
        if bill.len() == 0 {
            None
        } else {
            Some(bill)
        }
    }

    /// The default configuration for a freshly placed block.
    pub fn data_from_i32(&self, config: i32, _pos: GridPos) -> (r: DynData)
        ensures
            r == self.spec_default_data(),
    {
        match self {
            BlockLogicEnum::Message(m) => m.data_from_i32(config),
            BlockLogicEnum::Switch(s) => s.data_from_i32(config),
            BlockLogicEnum::Processor(p) => p.data_from_i32(config),
            BlockLogicEnum::Assembler(a) => a.data_from_i32(config),
            BlockLogicEnum::Simple(_) => DynData::Empty,
        }
    }

    /// Decodes a persisted configuration into this kind's state.
    pub fn deserialize_state(&self, data: DynData) -> (r: Result<Option<State>, DeserializeError>)
        ensures
            self.decodes(data, r),
    {
        match self {
            BlockLogicEnum::Message(m) => m.deserialize_state(data),
            BlockLogicEnum::Switch(s) => s.deserialize_state(data),
            BlockLogicEnum::Processor(p) => p.deserialize_state(data),
            BlockLogicEnum::Assembler(a) => a.deserialize_state(data),
            BlockLogicEnum::Simple(s) => s.deserialize_state(data),
        }
    }

    /// Clones a state; per-instance state is owned, never shared.
    pub fn clone_state(&self, state: &State) -> (r: State)
        ensures
            r@ == state@,
    {
        state.clone()
    }

    /// Mirrors a state in place. None of these kinds holds direction, so the
    /// state is left as it was.
    pub fn mirror_state(&self, state: &mut State, _horizontally: bool, _vertically: bool)
        ensures
            *final(state) == *old(state),
    {
    }

    /// Rotates a state in place. None of these kinds holds direction, so the
    /// state is left as it was.
    pub fn rotate_state(&self, state: &mut State, _clockwise: bool)
        ensures
            *final(state) == *old(state),
    {
    }

    /// Encodes a state of this kind back into a persisted configuration.
    pub fn serialize_state(&self, state: &State) -> (r: Result<DynData, SerializeError>)
        requires
            self.owns_state(*state),
        ensures
            self.encodes(*state, r),
    {
        match self {
            BlockLogicEnum::Message(m) => m.serialize_state(state),
            BlockLogicEnum::Switch(s) => s.serialize_state(state),
            BlockLogicEnum::Processor(p) => p.serialize_state(state),
            BlockLogicEnum::Assembler(a) => a.serialize_state(state),
            BlockLogicEnum::Simple(s) => s.serialize_state(state),
        }
    }
}

/// A block: an immutable descriptor built once at registry construction.
/// Equal to another block exactly when the names are equal.
pub struct Block {
    name: String,
    logic: BlockLogicEnum,
}

impl PartialEq for Block {
    fn eq(&self, other: &Block) -> (r: bool) {
        self.name == other.name
    }
}

impl vstd::std_specs::cmp::PartialEqSpecImpl for Block {
    open spec fn obeys_eq_spec() -> bool {
        true
    }

    open spec fn eq_spec(&self, other: &Block) -> bool {
        self.spec_name() == other.spec_name()
    }
}

impl Block {
    /// The block's identifying name.
    pub closed spec fn spec_name(&self) -> Seq<char> {
        self.name@
    }

    /// The block's kind.
    pub closed spec fn spec_logic(&self) -> BlockLogicEnum {
        self.logic
    }

    /// Builds a descriptor.
    pub fn new(name: String, logic: BlockLogicEnum) -> (r: Self)
        ensures
            r.spec_name() == name@,
            r.spec_logic() == logic,
    {
        Block { name, logic }
    }

    /// This block's name.
    pub fn name(&self) -> (r: &str)
        ensures
            r@ == self.spec_name(),
    {
        self.name.as_str()
    }

    /// The footprint; blocks are as wide as they are tall.
    pub fn get_size(&self) -> (r: u8)
        ensures
            r == self.spec_logic().spec_size(),
    {
        self.logic.get_size()
    }

    /// Whether rotating the block matters.
    pub fn is_symmetric(&self) -> (r: bool)
        ensures
            r == self.spec_logic().spec_symmetric(),
    {
        self.logic.is_symmetric()
    }

    /// The construction bill, or nothing where the bill is empty.
    pub fn get_build_cost(&self) -> (r: Option<&Vec<(ItemType, u32)>>)
        ensures
            match r {
                Some(v) => v@ == self.spec_logic().spec_build_cost() && v@.len() > 0,
                None => self.spec_logic().spec_build_cost().len() == 0,
            },
    {
        self.logic.create_build_cost()
    }

    /// The default configuration for a freshly placed block.
    pub fn data_from_i32(&self, config: i32, pos: GridPos) -> (r: DynData)
        ensures
            r == self.spec_logic().spec_default_data(),
    {
        self.logic.data_from_i32(config, pos)
    }

    /// Decodes a persisted configuration into this block's state.
    pub fn deserialize_state(&self, data: DynData) -> (r: Result<Option<State>, DeserializeError>)
        ensures
            self.spec_logic().decodes(data, r),
    {
        self.logic.deserialize_state(data)
    }

    /// Clones a state when a schematic is copied.
    pub fn clone_state(&self, state: &State) -> (r: State)
        ensures
            r@ == state@,
    {
        self.logic.clone_state(state)
    }

    /// Mirrors a state in place.
    pub fn mirror_state(&self, state: &mut State, horizontally: bool, vertically: bool)
        ensures
            *final(state) == *old(state),
    {
        self.logic.mirror_state(state, horizontally, vertically);
    }

    /// Rotates a state in place.
    pub fn rotate_state(&self, state: &mut State, clockwise: bool)
        ensures
            *final(state) == *old(state),
    {
        self.logic.rotate_state(state, clockwise);
    }

    /// Encodes a state of this block's kind back into a persisted
    /// configuration.
    pub fn serialize_state(&self, state: &State) -> (r: Result<DynData, SerializeError>)
        requires
            self.spec_logic().owns_state(*state),
        ensures
            self.spec_logic().encodes(*state, r),
    {
        self.logic.serialize_state(state)
    }
}

/// The possible rotation states of a placed object.
#[derive(Clone, Copy, Debug, Eq, PartialEq, Structural)]
pub enum Rotation {
    Up,
    Right,
    Down,
    Left,
}

impl Rotation {
    /// The number of quarter turns this rotation stands for when a sprite is
    /// turned.
    pub open spec fn spec_count(self) -> u8 {
        match self {
            Rotation::Up => 0,
            Rotation::Right => 1,
            Rotation::Down => 2,
            Rotation::Left => 3,
        }
    }

    /// Counts quarter turns.
    pub fn count(self) -> (r: u8)
        ensures
            r == self.spec_count(),
    {
        match self {
            Rotation::Up => 0,
            Rotation::Right => 1,
            Rotation::Down => 2,
            Rotation::Left => 3,
        }
    }

    /// This rotation's bit in a four-way direction mask.
    pub open spec fn spec_mask(self) -> u8 {
        match self {
            Rotation::Up => 8,
            Rotation::Right => 4,
            Rotation::Down => 2,
            Rotation::Left => 1,
        }
    }

    /// The four-way direction mask bit.
    pub fn mask(self) -> (r: u8)
        ensures
            r == self.spec_mask(),
    {
        match self {
            Rotation::Up => 8,
            Rotation::Right => 4,
            Rotation::Down => 2,
            Rotation::Left => 1,
        }
    }

    /// The arrow drawn for this rotation.
    pub fn ch(self) -> (r: char)
        ensures
            r == (match self {
                Rotation::Right => '>',
                Rotation::Up => '^',
                Rotation::Left => '<',
                Rotation::Down => 'v',
            }),
    {
        match self {
            Rotation::Right => '>',
            Rotation::Up => '^',
            Rotation::Left => '<',
            Rotation::Down => 'v',
        }
    }

    /// Where this rotation points after mirroring.
    pub open spec fn spec_mirrored(self, horizontally: bool, vertically: bool) -> Rotation {
        match self {
            Rotation::Right => if horizontally {
                Rotation::Left
            } else {
                Rotation::Right
            },
            Rotation::Up => if vertically {
                Rotation::Down
            } else {
                Rotation::Up
            },
            Rotation::Left => if horizontally {
                Rotation::Right
            } else {
                Rotation::Left
            },
            Rotation::Down => if vertically {
                Rotation::Up
            } else {
                Rotation::Down
            },
        }
    }

    /// Mirrors the direction.
    pub fn mirrored(self, horizontally: bool, vertically: bool) -> (r: Self)
        ensures
            r == self.spec_mirrored(horizontally, vertically),
    {
        match self {
            Rotation::Right => if horizontally {
                Rotation::Left
            } else {
                Rotation::Right
            },
            Rotation::Up => if vertically {
                Rotation::Down
            } else {
                Rotation::Up
            },
            Rotation::Left => if horizontally {
                Rotation::Right
            } else {
                Rotation::Left
            },
            Rotation::Down => if vertically {
                Rotation::Up
            } else {
                Rotation::Down
            },
        }
    }

    /// Mirrors in place.
    pub fn mirror(&mut self, horizontally: bool, vertically: bool)
        ensures
            *final(self) == old(self).spec_mirrored(horizontally, vertically),
    {
        *self = self.mirrored(horizontally, vertically);
    }

    /// Where this rotation points after a quarter turn.
    pub open spec fn spec_rotated(self, clockwise: bool) -> Rotation {
        match self {
            Rotation::Right => if clockwise {
                Rotation::Down
            } else {
                Rotation::Up
            },
            Rotation::Up => if clockwise {
                Rotation::Right
            } else {
                Rotation::Left
            },
            Rotation::Left => if clockwise {
                Rotation::Up
            } else {
                Rotation::Down
            },
            Rotation::Down => if clockwise {
                Rotation::Left
            } else {
                Rotation::Right
            },
        }
    }

    /// Turns a quarter turn.
    pub fn rotated(self, clockwise: bool) -> (r: Self)
        ensures
            r == self.spec_rotated(clockwise),
    {
        match self {
            Rotation::Right => if clockwise {
                Rotation::Down
            } else {
                Rotation::Up
            },
            Rotation::Up => if clockwise {
                Rotation::Right
            } else {
                Rotation::Left
            },
            Rotation::Left => if clockwise {
                Rotation::Up
            } else {
                Rotation::Down
            },
            Rotation::Down => if clockwise {
                Rotation::Left
            } else {
                Rotation::Right
            },
        }
    }

    /// Turns a quarter turn in place.
    pub fn rotate(&mut self, clockwise: bool)
        ensures
            *final(self) == old(self).spec_rotated(clockwise),
    {
        *self = self.rotated(clockwise);
    }

    /// Where this rotation points after a half turn.
    pub open spec fn spec_rotated_180(self) -> Rotation {
        match self {
            Rotation::Right => Rotation::Left,
            Rotation::Up => Rotation::Down,
            Rotation::Left => Rotation::Right,
            Rotation::Down => Rotation::Up,
        }
    }

    /// Turns a half turn.
    pub fn rotated_180(self) -> (r: Self)
        ensures
            r == self.spec_rotated_180(),
    {
        match self {
            Rotation::Right => Rotation::Left,
            Rotation::Up => Rotation::Down,
            Rotation::Left => Rotation::Right,
            Rotation::Down => Rotation::Up,
        }
    }

    /// Turns a half turn in place.
    pub fn rotate_180(&mut self)
        ensures
            *final(self) == old(self).spec_rotated_180(),
    {
        *self = self.rotated_180();
    }

    /// The rotation persisted as the low two bits of a byte.
    pub open spec fn spec_from_u8(val: u8) -> Rotation {
        if val & 3 == 0 {
            Rotation::Right
        } else if val & 3 == 1 {
            Rotation::Up
        } else if val & 3 == 2 {
            Rotation::Left
        } else {
            Rotation::Down
        }
    }

    /// The byte a rotation is persisted as.
    pub open spec fn spec_to_u8(self) -> u8 {
        match self {
            Rotation::Right => 0,
            Rotation::Up => 1,
            Rotation::Left => 2,
            Rotation::Down => 3,
        }
    }
}

impl From<u8> for Rotation {
    fn from(val: u8) -> (r: Self) {
        if val & 3 == 0 {
            Rotation::Right
        } else if val & 3 == 1 {
            Rotation::Up
        } else if val & 3 == 2 {
            Rotation::Left
        } else {
            Rotation::Down
        }
    }
}

impl vstd::std_specs::convert::FromSpecImpl<u8> for Rotation {
    open spec fn obeys_from_spec() -> bool {
        true
    }

    open spec fn from_spec(val: u8) -> Rotation {
        Rotation::spec_from_u8(val)
    }
}

impl From<Rotation> for u8 {
    fn from(rot: Rotation) -> (r: Self) {
        match rot {
            Rotation::Right => 0,
            Rotation::Up => 1,
            Rotation::Left => 2,
            Rotation::Down => 3,
        }
    }
}

impl vstd::std_specs::convert::FromSpecImpl<Rotation> for u8 {
    open spec fn obeys_from_spec() -> bool {
        true
    }

    open spec fn from_spec(rot: Rotation) -> u8 {
        rot.spec_to_u8()
    }
}

/// The read-only, name-keyed collection of all known blocks, built once and
/// never mutated afterwards.
pub struct BlockRegistry {
    blocks: Vec<Block>,
}

impl BlockRegistry {
    /// Every block registered, in registration order.
    pub closed spec fn entries(&self) -> Seq<Block> {
        self.blocks@
    }

    /// Some registered block carries this name.
    pub open spec fn has_block_named(&self, name: Seq<char>) -> bool {
        exists|i: int|
            0 <= i < self.entries().len() && (#[trigger] self.entries()[i]).spec_name() == name
    }

    /// No two registered blocks share a name.
    pub open spec fn names_unique(&self) -> bool {
        forall|i: int, j: int|
            0 <= i < j < self.entries().len() ==> (#[trigger] self.entries()[i]).spec_name() != (
            #[trigger] self.entries()[j]).spec_name()
    }

    /// An empty registry.
    pub fn new() -> (r: Self)
        ensures
            r.entries() == Seq::<Block>::empty(),
            r.names_unique(),
    {
        BlockRegistry { blocks: Vec::new() }
    }

    /// How many blocks are registered.
    pub fn len(&self) -> (r: usize)
        ensures
            r == self.entries().len(),
    {
        self.blocks.len()
    }

    /// Registers a block. A block whose name is already taken is handed back
    /// unchanged and the registry is left as it was, so lookup stays
    /// unambiguous.
    pub fn register(&mut self, block: Block) -> (r: Result<(), Block>)
        ensures
            match r {
                Ok(()) => !old(self).has_block_named(block.spec_name()) && final(self).entries()
                    == old(self).entries().push(block),
                Err(b) => b == block && *final(self) == *old(self) && old(self).has_block_named(
                    block.spec_name(),
                ),
            },
            old(self).names_unique() ==> final(self).names_unique(),
    {
        let mut i: usize = 0;
        while i < self.blocks.len()
            invariant
                i <= self.entries().len(),
                forall|j: int| 0 <= j < i ==> (#[trigger] self.entries()[j]).spec_name()
                    != block.spec_name(),
                self == old(self),
            decreases self.entries().len() - i,
        {
            let here = &self.blocks[i];
            proof {
                assert(self.entries()[i as int] == *here);
            }
            if here.name == block.name {
                return Err(block);
            }
            i = i + 1;
        }
        self.blocks.push(block);
        proof {
            assert(self.entries() == old(self).entries().push(block));
            if old(self).names_unique() {
                assert forall|a: int, b: int|
                    0 <= a < b < self.entries().len() implies (#[trigger] self.entries()[
                a]).spec_name() != (#[trigger] self.entries()[b]).spec_name() by {
                    if b < self.entries().len() - 1 {
                        assert(old(self).entries()[a].spec_name() != old(
                            self,
                        ).entries()[b].spec_name());
                    } else {
                        assert(old(self).entries()[a].spec_name() != block.spec_name());
                    }
                }
            }
        }
        Ok(())
    }

    /// Resolves a block by name during schematic or map decode. An
    /// unrecognized name is a recoverable miss returned to the caller.
    pub fn get(&self, name: &str) -> (r: Option<&Block>)
        ensures
            match r {
                Some(b) => b.spec_name() == name@ && exists|i: int|
                    0 <= i < self.entries().len() && self.entries()[i] == *b,
                None => !self.has_block_named(name@),
            },
    {
        let needle = name.to_owned();
        let mut i: usize = 0;
        while i < self.blocks.len()
            invariant
                i <= self.entries().len(),
                needle@ == name@,
                forall|j: int| 0 <= j < i ==> (#[trigger] self.entries()[j]).spec_name() != name@,
            decreases self.entries().len() - i,
        {
            let here = &self.blocks[i];
            proof {
                assert(self.entries()[i as int] == *here);
            }
            if here.name == needle {
                return Some(here);
            }
            i = i + 1;
        }
        None
    }
}

/// Registers one block under its name. A name already taken keeps its first
/// registration, so the name is resolvable either way and every name already
/// resolvable stays so.
fn put(reg: &mut BlockRegistry, name: &str, logic: BlockLogicEnum)
    ensures
        old(reg).names_unique() ==> final(reg).names_unique(),
        final(reg).has_block_named(name@),
        forall|n: Seq<char>| old(reg).has_block_named(n) ==> #[trigger] final(reg).has_block_named(n),
{
    let block = Block::new(name.to_owned(), logic);
    match reg.register(block) {
        Ok(()) => {
            proof {
                assert(reg.entries()[reg.entries().len() - 1].spec_name() == name@);
                assert forall|n: Seq<char>| old(reg).has_block_named(n) implies #[trigger] reg.has_block_named(
                    n,
                ) by {
                    let i = choose|i: int|
                        0 <= i < old(reg).entries().len() && (#[trigger] old(
                            reg,
                        ).entries()[i]).spec_name() == n;
                    assert(reg.entries()[i] == old(reg).entries()[i]);
                    assert(reg.entries()[i].spec_name() == n);
                }
            }
        },
        Err(_) => {},
    }
}

/// The logic blocks are resolvable: signs, switches, the three processor
/// sizes, memory and displays.
pub open spec fn logic_blocks_present(reg: BlockRegistry) -> bool {
    &&& reg.has_block_named("message"@)
    &&& reg.has_block_named("switch"@)
    &&& reg.has_block_named("micro-processor"@)
    &&& reg.has_block_named("logic-processor"@)
    &&& reg.has_block_named("hyper-processor"@)
    &&& reg.has_block_named("memory-cell"@)
    &&& reg.has_block_named("memory-bank"@)
    &&& reg.has_block_named("logic-display"@)
    &&& reg.has_block_named("large-logic-display"@)
}

/// The distribution blocks are resolvable.
pub open spec fn distribution_blocks_present(reg: BlockRegistry) -> bool {
    &&& reg.has_block_named("conveyor"@)
}

/// The storage blocks are resolvable: cores, containers and vaults.
pub open spec fn storage_blocks_present(reg: BlockRegistry) -> bool {
    &&& reg.has_block_named("core-shard"@)
    &&& reg.has_block_named("core-foundation"@)
    &&& reg.has_block_named("core-nucleus"@)
    &&& reg.has_block_named("core-bastion"@)
    &&& reg.has_block_named("core-citadel"@)
    &&& reg.has_block_named("core-acropolis"@)
    &&& reg.has_block_named("container"@)
    &&& reg.has_block_named("vault"@)
    &&& reg.has_block_named("unloader"@)
    &&& reg.has_block_named("reinforced-container"@)
    &&& reg.has_block_named("reinforced-vault"@)
}

/// The drills and extractors are resolvable.
pub open spec fn drill_blocks_present(reg: BlockRegistry) -> bool {
    &&& reg.has_block_named("mechanical-drill"@)
    &&& reg.has_block_named("pneumatic-drill"@)
    &&& reg.has_block_named("laser-drill"@)
    &&& reg.has_block_named("blast-drill"@)
    &&& reg.has_block_named("water-extractor"@)
    &&& reg.has_block_named("oil-extractor"@)
    &&& reg.has_block_named("vent-condenser"@)
    &&& reg.has_block_named("cliff-crusher"@)
    &&& reg.has_block_named("plasma-bore"@)
    &&& reg.has_block_named("large-plasma-bore"@)
    &&& reg.has_block_named("impact-drill"@)
    &&& reg.has_block_named("eruption-drill"@)
}

/// The campaign blocks are resolvable.
pub open spec fn campaign_blocks_present(reg: BlockRegistry) -> bool {
    &&& reg.has_block_named("launch-pad"@)
    &&& reg.has_block_named("interplanetary-accelerator"@)
}

/// The unit-creation blocks are resolvable: factories, fabricators,
/// reconstructors and repair towers.
pub open spec fn unit_blocks_present(reg: BlockRegistry) -> bool {
    &&& reg.has_block_named("ground-factory"@)
    &&& reg.has_block_named("air-factory"@)
    &&& reg.has_block_named("naval-factory"@)
    &&& reg.has_block_named("tank-fabricator"@)
    &&& reg.has_block_named("ship-fabricator"@)
    &&& reg.has_block_named("mech-fabricator"@)
    &&& reg.has_block_named("additive-reconstructor"@)
    &&& reg.has_block_named("multiplicative-reconstructor"@)
    &&& reg.has_block_named("exponential-reconstructor"@)
    &&& reg.has_block_named("tetrative-reconstructor"@)
    &&& reg.has_block_named("repair-point"@)
    &&& reg.has_block_named("repair-turret"@)
    &&& reg.has_block_named("tank-refabricator"@)
    &&& reg.has_block_named("mech-refabricator"@)
    &&& reg.has_block_named("ship-refabricator"@)
    &&& reg.has_block_named("prime-refabricator"@)
    &&& reg.has_block_named("tank-assembler"@)
    &&& reg.has_block_named("ship-assembler"@)
    &&& reg.has_block_named("mech-assembler"@)
    &&& reg.has_block_named("basic-assembler-module"@)
    &&& reg.has_block_named("unit-repair-tower"@)
}

/// The first half of the single-tile environment blocks is resolvable,
/// darksand through ferric-craters: floors, ores, liquids, panels and the
/// first walls.
pub open spec fn environment_floors_present(reg: BlockRegistry) -> bool {
    &&& reg.has_block_named("darksand"@)
    &&& reg.has_block_named("sand-floor"@)
    &&& reg.has_block_named("yellow-stone"@)
    &&& reg.has_block_named("arkyic-stone"@)
    &&& reg.has_block_named("carbon-stone"@)
    &&& reg.has_block_named("ore-beryllium"@)
    &&& reg.has_block_named("ore-copper"@)
    &&& reg.has_block_named("ore-lead"@)
    &&& reg.has_block_named("ore-coal"@)
    &&& reg.has_block_named("ore-scrap"@)
    &&& reg.has_block_named("ore-thorium"@)
    &&& reg.has_block_named("ore-titanium"@)
    &&& reg.has_block_named("ore-tungsten"@)
    &&& reg.has_block_named("ore-crystal-thorium"@)
    &&& reg.has_block_named("ore-wall-beryllium"@)
    &&& reg.has_block_named("ore-wall-thorium"@)
    &&& reg.has_block_named("ore-wall-tungsten"@)
    &&& reg.has_block_named("graphitic-wall"@)
    &&& reg.has_block_named("dacite"@)
    &&& reg.has_block_named("dirt"@)
    &&& reg.has_block_named("arkycite-floor"@)
    &&& reg.has_block_named("basalt"@)
    &&& reg.has_block_named("ice"@)
    &&& reg.has_block_named("molten-slag"@)
    &&& reg.has_block_named("moss"@)
    &&& reg.has_block_named("mud"@)
    &&& reg.has_block_named("magmarock"@)
    &&& reg.has_block_named("grass"@)
    &&& reg.has_block_named("ice-snow"@)
    &&& reg.has_block_named("hotrock"@)
    &&& reg.has_block_named("char"@)
    &&& reg.has_block_named("snow"@)
    &&& reg.has_block_named("salt"@)
    &&& reg.has_block_named("shale"@)
    &&& reg.has_block_named("metal-floor"@)
    &&& reg.has_block_named("metal-floor-2"@)
    &&& reg.has_block_named("metal-floor-3"@)
    &&& reg.has_block_named("metal-floor-4"@)
    &&& reg.has_block_named("metal-floor-5"@)
    &&& reg.has_block_named("dark-panel-1"@)
    &&& reg.has_block_named("dark-panel-2"@)
    &&& reg.has_block_named("dark-panel-3"@)
    &&& reg.has_block_named("dark-panel-4"@)
    &&& reg.has_block_named("dark-panel-5"@)
    &&& reg.has_block_named("dark-panel-6"@)
    &&& reg.has_block_named("darksand-tainted-water"@)
    &&& reg.has_block_named("darksand-water"@)
    &&& reg.has_block_named("deep-tainted-water"@)
    &&& reg.has_block_named("deep-water"@)
    &&& reg.has_block_named("sand-water"@)
    &&& reg.has_block_named("shallow-water"@)
    &&& reg.has_block_named("space"@)
    &&& reg.has_block_named("stone"@)
    &&& reg.has_block_named("build1"@)
    &&& reg.has_block_named("boulder"@)
    &&& reg.has_block_named("arkyic-wall"@)
    &&& reg.has_block_named("beryllic-stone-wall"@)
    &&& reg.has_block_named("beryllic-stone"@)
    &&& reg.has_block_named("bluemat"@)
    &&& reg.has_block_named("carbon-wall"@)
    &&& reg.has_block_named("cliff"@)
    &&& reg.has_block_named("core-zone"@)
    &&& reg.has_block_named("crater-stone"@)
    &&& reg.has_block_named("crystal-floor"@)
    &&& reg.has_block_named("crystalline-stone-wall"@)
    &&& reg.has_block_named("crystalline-stone"@)
    &&& reg.has_block_named("dacite-wall"@)
    &&& reg.has_block_named("dark-metal"@)
    &&& reg.has_block_named("metal-floor-damaged"@)
    &&& reg.has_block_named("dense-red-stone"@)
    &&& reg.has_block_named("dirt-wall"@)
    &&& reg.has_block_named("dune-wall"@)
    &&& reg.has_block_named("ferric-craters"@)
}

/// The second half of the single-tile environment blocks is resolvable,
/// ferric-stone-wall through build16: the remaining walls, boulders, flora
/// and build markers.
pub open spec fn environment_terrain_present(reg: BlockRegistry) -> bool {
    &&& reg.has_block_named("ferric-stone-wall"@)
    &&& reg.has_block_named("ferric-stone"@)
    &&& reg.has_block_named("ice-wall"@)
    &&& reg.has_block_named("pebbles"@)
    &&& reg.has_block_named("pine"@)
    &&& reg.has_block_named("pooled-cryofluid"@)
    &&& reg.has_block_named("red-diamond-wall"@)
    &&& reg.has_block_named("red-ice-wall"@)
    &&& reg.has_block_named("red-ice"@)
    &&& reg.has_block_named("red-stone-wall"@)
    &&& reg.has_block_named("red-stone"@)
    &&& reg.has_block_named("redmat"@)
    &&& reg.has_block_named("regolith-wall"@)
    &&& reg.has_block_named("regolith"@)
    &&& reg.has_block_named("rhyolite-crater"@)
    &&& reg.has_block_named("rhyolite-wall"@)
    &&& reg.has_block_named("rhyolite"@)
    &&& reg.has_block_named("rough-rhyolite"@)
    &&& reg.has_block_named("salt-wall"@)
    &&& reg.has_block_named("sand-wall"@)
    &&& reg.has_block_named("shale-wall"@)
    &&& reg.has_block_named("shrubs"@)
    &&& reg.has_block_named("snow-pine"@)
    &&& reg.has_block_named("snow-wall"@)
    &&& reg.has_block_named("spawn"@)
    &&& reg.has_block_named("spore-moss"@)
    &&& reg.has_block_named("spore-pine"@)
    &&& reg.has_block_named("spore-wall"@)
    &&& reg.has_block_named("stone-wall"@)
    &&& reg.has_block_named("tainted-water"@)
    &&& reg.has_block_named("tar"@)
    &&& reg.has_block_named("yellow-stone-plates"@)
    &&& reg.has_block_named("yellow-stone-wall"@)
    &&& reg.has_block_named("yellow-stone-boulder"@)
    &&& reg.has_block_named("snow-boulder"@)
    &&& reg.has_block_named("shale-boulder"@)
    &&& reg.has_block_named("arkyic-boulder"@)
    &&& reg.has_block_named("basalt-boulder"@)
    &&& reg.has_block_named("beryllic-boulder"@)
    &&& reg.has_block_named("carbon-boulder"@)
    &&& reg.has_block_named("crystalline-boulder"@)
    &&& reg.has_block_named("dacite-boulder"@)
    &&& reg.has_block_named("ferric-boulder"@)
    &&& reg.has_block_named("red-ice-boulder"@)
    &&& reg.has_block_named("red-stone-boulder"@)
    &&& reg.has_block_named("rhyolite-boulder"@)
    &&& reg.has_block_named("sand-boulder"@)
    &&& reg.has_block_named("pur-bush"@)
    &&& reg.has_block_named("tendrils"@)
    &&& reg.has_block_named("white-tree-dead"@)
    &&& reg.has_block_named("yellowcoral"@)
    &&& reg.has_block_named("white-tree"@)
    &&& reg.has_block_named("redweed"@)
    &&& reg.has_block_named("spore-cluster"@)
    &&& reg.has_block_named("crystal-blocks"@)
    &&& reg.has_block_named("crystal-cluster"@)
    &&& reg.has_block_named("vibrant-crystal-cluster"@)
    &&& reg.has_block_named("crystal-orbs"@)
    &&& reg.has_block_named("build2"@)
    &&& reg.has_block_named("build3"@)
    &&& reg.has_block_named("build4"@)
    &&& reg.has_block_named("build5"@)
    &&& reg.has_block_named("build6"@)
    &&& reg.has_block_named("build7"@)
    &&& reg.has_block_named("build8"@)
    &&& reg.has_block_named("build9"@)
    &&& reg.has_block_named("build10"@)
    &&& reg.has_block_named("build11"@)
    &&& reg.has_block_named("build12"@)
    &&& reg.has_block_named("build13"@)
    &&& reg.has_block_named("build14"@)
    &&& reg.has_block_named("build15"@)
    &&& reg.has_block_named("build16"@)
}

/// The two-tile environment walls are resolvable.
pub open spec fn environment_walls_present(reg: BlockRegistry) -> bool {
    &&& reg.has_block_named("graphitic-wall-large"@)
    &&& reg.has_block_named("arkyic-wall-large"@)
    &&& reg.has_block_named("beryllic-stone-wall-large"@)
    &&& reg.has_block_named("carbon-wall-large"@)
    &&& reg.has_block_named("crystalline-stone-wall-large"@)
    &&& reg.has_block_named("dacite-wall-large"@)
    &&& reg.has_block_named("dark-metal-large"@)
    &&& reg.has_block_named("dirt-wall-large"@)
    &&& reg.has_block_named("dune-wall-large"@)
    &&& reg.has_block_named("ferric-stone-wall-large"@)
    &&& reg.has_block_named("ice-wall-large"@)
    &&& reg.has_block_named("red-ice-wall-large"@)
    &&& reg.has_block_named("red-stone-wall-large"@)
    &&& reg.has_block_named("regolith-wall-large"@)
    &&& reg.has_block_named("rhyolite-wall-large"@)
    &&& reg.has_block_named("salt-wall-large"@)
    &&& reg.has_block_named("sand-wall-large"@)
    &&& reg.has_block_named("shale-wall-large"@)
    &&& reg.has_block_named("shrubs-large"@)
    &&& reg.has_block_named("snow-wall-large"@)
    &&& reg.has_block_named("spore-wall-large"@)
    &&& reg.has_block_named("stone-wall-large"@)
    &&& reg.has_block_named("yellow-stone-wall-large"@)
}

/// The three-tile environment vents are resolvable.
pub open spec fn environment_vents_present(reg: BlockRegistry) -> bool {
    &&& reg.has_block_named("arkyic-vent"@)
    &&& reg.has_block_named("carbon-vent"@)
    &&& reg.has_block_named("crystalline-vent"@)
    &&& reg.has_block_named("red-stone-vent"@)
    &&& reg.has_block_named("rhyolite-vent"@)
    &&& reg.has_block_named("yellow-stone-vent"@)
}

/// Every block the tables below register is resolvable by name.
pub open spec fn all_known_blocks_present(reg: BlockRegistry) -> bool {
    &&& logic_blocks_present(reg)
    &&& distribution_blocks_present(reg)
    &&& storage_blocks_present(reg)
    &&& drill_blocks_present(reg)
    &&& campaign_blocks_present(reg)
    &&& unit_blocks_present(reg)
    &&& environment_floors_present(reg)
    &&& environment_terrain_present(reg)
    &&& environment_walls_present(reg)
    &&& environment_vents_present(reg)
}

/// Builds the registry of every known block, once at startup; it is
/// read-only afterwards, lookup in it stays unambiguous, and every block of
/// the canned tables is resolvable under exactly its name.
pub fn build_registry() -> (r: BlockRegistry)
    ensures
        r.names_unique(),
        all_known_blocks_present(r),
{
    let mut reg = BlockRegistry::new();
    register(&mut reg);
    reg
}

/// Registers every known block, table by table as the game groups them.
fn register(reg: &mut BlockRegistry)
    ensures
        old(reg).names_unique() ==> final(reg).names_unique(),
        all_known_blocks_present(*final(reg)),
{
    register_logic_blocks(reg);
    register_distribution_blocks(reg);
    register_storage_blocks(reg);
    register_drill_blocks(reg);
    register_campaign_blocks(reg);
    register_unit_blocks(reg);
    register_environment_floors(reg);
    register_environment_terrain(reg);
    register_environment_walls(reg);
    register_environment_vents(reg);
}

/// The logic blocks, as the original logic table registers them.
fn register_logic_blocks(reg: &mut BlockRegistry)
    ensures
        old(reg).names_unique() ==> final(reg).names_unique(),
        forall|n: Seq<char>| old(reg).has_block_named(n) ==> #[trigger] final(reg).has_block_named(n),
        logic_blocks_present(*final(reg)),
{
    put(reg, "message", BlockLogicEnum::Message(MessageLogic));
    put(reg, "switch", BlockLogicEnum::Switch(SwitchLogic));
    put(reg, "micro-processor", BlockLogicEnum::Processor(ProcessorLogic::new(1)));
    put(reg, "logic-processor", BlockLogicEnum::Processor(ProcessorLogic::new(2)));
    put(reg, "hyper-processor", BlockLogicEnum::Processor(ProcessorLogic::new(3)));
    put(reg, "memory-cell", simple(1, true, vec![]));
    put(reg, "memory-bank", simple(2, true, vec![]));
    put(reg, "logic-display", simple(3, true, vec![]));
    put(reg, "large-logic-display", simple(6, true, vec![]));
}

/// The stateless conveyor.
fn register_distribution_blocks(reg: &mut BlockRegistry)
    ensures
        old(reg).names_unique() ==> final(reg).names_unique(),
        forall|n: Seq<char>| old(reg).has_block_named(n) ==> #[trigger] final(reg).has_block_named(n),
        distribution_blocks_present(*final(reg)),
{
    put(reg, "conveyor", simple(1, false, vec![(ItemType::Copper, 1)]));
}

/// The storage blocks: cores, containers, vaults and the unloader.
fn register_storage_blocks(reg: &mut BlockRegistry)
    ensures
        old(reg).names_unique() ==> final(reg).names_unique(),
        forall|n: Seq<char>| old(reg).has_block_named(n) ==> #[trigger] final(reg).has_block_named(n),
        storage_blocks_present(*final(reg)),
{
    put(reg, "core-shard", simple(3, true, vec![(ItemType::Copper, 1000), (ItemType::Lead, 800)]));
    put(reg, "core-foundation", simple(4, true, vec![(ItemType::Copper, 3000), (ItemType::Lead, 3000), (ItemType::Silicon, 2000)]));
    put(reg, "core-nucleus", simple(5, true, vec![(ItemType::Copper, 8000), (ItemType::Lead, 8000), (ItemType::Thorium, 4000), (ItemType::Silicon, 5000)]));
    put(reg, "core-bastion", simple(4, true, vec![(ItemType::Graphite, 1000), (ItemType::Silicon, 1000), (ItemType::Beryllium, 800)]));
    put(reg, "core-citadel", simple(5, true, vec![(ItemType::Silicon, 4000), (ItemType::Beryllium, 4000), (ItemType::Tungsten, 3000), (ItemType::Oxide, 1000)]));
    put(reg, "core-acropolis", simple(6, true, vec![(ItemType::Beryllium, 6000), (ItemType::Silicon, 5000), (ItemType::Tungsten, 5000), (ItemType::Carbide, 3000), (ItemType::Oxide, 3000)]));
    put(reg, "container", simple(2, true, vec![(ItemType::Titanium, 100)]));
    put(reg, "vault", simple(3, true, vec![(ItemType::Titanium, 250), (ItemType::Thorium, 125)]));
    put(reg, "unloader", simple(1, true, vec![(ItemType::Titanium, 25), (ItemType::Silicon, 30)]));
    put(reg, "reinforced-container", simple(2, true, vec![(ItemType::Tungsten, 30), (ItemType::Graphite, 40)]));
    put(reg, "reinforced-vault", simple(3, true, vec![(ItemType::Tungsten, 125), (ItemType::Thorium, 70), (ItemType::Beryllium, 100)]));
}

/// The drills and extractors.
fn register_drill_blocks(reg: &mut BlockRegistry)
    ensures
        old(reg).names_unique() ==> final(reg).names_unique(),
        forall|n: Seq<char>| old(reg).has_block_named(n) ==> #[trigger] final(reg).has_block_named(n),
        drill_blocks_present(*final(reg)),
{
    put(reg, "mechanical-drill", simple(2, true, vec![(ItemType::Copper, 12)]));
    put(reg, "pneumatic-drill", simple(2, true, vec![(ItemType::Copper, 18), (ItemType::Graphite, 10)]));
    put(reg, "laser-drill", simple(3, true, vec![(ItemType::Copper, 35), (ItemType::Graphite, 30), (ItemType::Titanium, 20), (ItemType::Silicon, 30)]));
    put(reg, "blast-drill", simple(4, true, vec![(ItemType::Copper, 65), (ItemType::Titanium, 50), (ItemType::Thorium, 75), (ItemType::Silicon, 60)]));
    put(reg, "water-extractor", simple(2, true, vec![(ItemType::Copper, 30), (ItemType::Lead, 30), (ItemType::Metaglass, 30), (ItemType::Graphite, 30)]));
    put(reg, "oil-extractor", simple(3, true, vec![(ItemType::Copper, 150), (ItemType::Lead, 115), (ItemType::Graphite, 175), (ItemType::Thorium, 115), (ItemType::Silicon, 75)]));
    put(reg, "vent-condenser", simple(3, true, vec![(ItemType::Graphite, 20), (ItemType::Beryllium, 60)]));
    put(reg, "cliff-crusher", simple(2, false, vec![(ItemType::Beryllium, 100), (ItemType::Graphite, 40)]));
    put(reg, "plasma-bore", simple(2, false, vec![(ItemType::Beryllium, 40)]));
    put(reg, "large-plasma-bore", simple(3, false, vec![(ItemType::Silicon, 100), (ItemType::Oxide, 25), (ItemType::Beryllium, 100), (ItemType::Tungsten, 70)]));
    put(reg, "impact-drill", simple(4, true, vec![(ItemType::Silicon, 70), (ItemType::Beryllium, 90), (ItemType::Graphite, 60)]));
    put(reg, "eruption-drill", simple(5, true, vec![(ItemType::Silicon, 200), (ItemType::Oxide, 20), (ItemType::Tungsten, 200), (ItemType::Thorium, 120)]));
}

/// The campaign blocks.
fn register_campaign_blocks(reg: &mut BlockRegistry)
    ensures
        old(reg).names_unique() ==> final(reg).names_unique(),
        forall|n: Seq<char>| old(reg).has_block_named(n) ==> #[trigger] final(reg).has_block_named(n),
        campaign_blocks_present(*final(reg)),
{
    put(reg, "launch-pad", simple(3, true, vec![(ItemType::Copper, 350), (ItemType::Lead, 200), (ItemType::Titanium, 150), (ItemType::Silicon, 140)]));
    put(reg, "interplanetary-accelerator", simple(7, true, vec![(ItemType::Copper, 16000), (ItemType::Silicon, 11000), (ItemType::Thorium, 13000), (ItemType::Titanium, 12000), (ItemType::SurgeAlloy, 6000), (ItemType::PhaseFabric, 5000)]));
}

/// The unit-creation blocks: factories, fabricators, reconstructors and
/// repair towers.
fn register_unit_blocks(reg: &mut BlockRegistry)
    ensures
        old(reg).names_unique() ==> final(reg).names_unique(),
        forall|n: Seq<char>| old(reg).has_block_named(n) ==> #[trigger] final(reg).has_block_named(n),
        unit_blocks_present(*final(reg)),
{
    put(reg, "ground-factory", assembler(3, false, vec![(ItemType::Copper, 50), (ItemType::Lead, 120), (ItemType::Silicon, 80)], vec![UnitType::Dagger, UnitType::Crawler, UnitType::Nova]));
    put(reg, "air-factory", assembler(3, false, vec![(ItemType::Copper, 60), (ItemType::Lead, 70)], vec![UnitType::Flare, UnitType::Mono]));
    put(reg, "naval-factory", assembler(3, false, vec![(ItemType::Copper, 150), (ItemType::Lead, 130), (ItemType::Metaglass, 120)], vec![UnitType::Risso, UnitType::Retusa]));
    put(reg, "tank-fabricator", assembler(3, true, vec![(ItemType::Silicon, 200), (ItemType::Beryllium, 150)], vec![UnitType::Stell]));
    put(reg, "ship-fabricator", assembler(3, true, vec![(ItemType::Silicon, 250), (ItemType::Beryllium, 200)], vec![UnitType::Elude]));
    put(reg, "mech-fabricator", assembler(3, true, vec![(ItemType::Silicon, 200), (ItemType::Graphite, 300), (ItemType::Tungsten, 60)], vec![UnitType::Merui]));
    put(reg, "additive-reconstructor", simple(3, false, vec![(ItemType::Copper, 200), (ItemType::Lead, 120), (ItemType::Silicon, 90)]));
    put(reg, "multiplicative-reconstructor", simple(5, false, vec![(ItemType::Lead, 650), (ItemType::Titanium, 350), (ItemType::Thorium, 650), (ItemType::Silicon, 450)]));
    put(reg, "exponential-reconstructor", simple(7, false, vec![(ItemType::Lead, 2000), (ItemType::Titanium, 2000), (ItemType::Thorium, 750), (ItemType::Silicon, 1000), (ItemType::Plastanium, 450), (ItemType::PhaseFabric, 600)]));
    put(reg, "tetrative-reconstructor", simple(9, false, vec![(ItemType::Lead, 4000), (ItemType::Thorium, 1000), (ItemType::Silicon, 3000), (ItemType::Plastanium, 600), (ItemType::PhaseFabric, 600), (ItemType::SurgeAlloy, 800)]));
    put(reg, "repair-point", simple(1, true, vec![(ItemType::Copper, 30), (ItemType::Lead, 30), (ItemType::Silicon, 20)]));
    put(reg, "repair-turret", simple(2, true, vec![(ItemType::Thorium, 80), (ItemType::Silicon, 90), (ItemType::Plastanium, 60)]));
    put(reg, "tank-refabricator", simple(3, true, vec![(ItemType::Beryllium, 200), (ItemType::Tungsten, 80), (ItemType::Silicon, 100)]));
    put(reg, "mech-refabricator", simple(3, true, vec![(ItemType::Beryllium, 250), (ItemType::Tungsten, 120), (ItemType::Silicon, 150)]));
    put(reg, "ship-refabricator", simple(3, true, vec![(ItemType::Beryllium, 200), (ItemType::Tungsten, 100), (ItemType::Silicon, 150), (ItemType::Oxide, 40)]));
    put(reg, "prime-refabricator", simple(5, true, vec![(ItemType::Thorium, 250), (ItemType::Oxide, 200), (ItemType::Tungsten, 200), (ItemType::Silicon, 400)]));
    put(reg, "tank-assembler", simple(5, true, vec![(ItemType::Thorium, 500), (ItemType::Oxide, 150), (ItemType::Carbide, 80), (ItemType::Silicon, 500)]));
    put(reg, "ship-assembler", simple(5, true, vec![(ItemType::Carbide, 100), (ItemType::Oxide, 200), (ItemType::Tungsten, 500), (ItemType::Silicon, 800), (ItemType::Thorium, 400)]));
    put(reg, "mech-assembler", simple(5, true, vec![(ItemType::Carbide, 200), (ItemType::Thorium, 600), (ItemType::Oxide, 200), (ItemType::Tungsten, 500), (ItemType::Silicon, 900)]));
    put(reg, "basic-assembler-module", simple(5, true, vec![(ItemType::Carbide, 300), (ItemType::Thorium, 500), (ItemType::Oxide, 200), (ItemType::PhaseFabric, 400)]));
    put(reg, "unit-repair-tower", simple(2, true, vec![(ItemType::Graphite, 90), (ItemType::Silicon, 90), (ItemType::Tungsten, 80)]));
}

/// The first half of the single-tile environment blocks, darksand through
/// ferric-craters. All environment tiles are stateless and cost nothing.
#[verifier::rlimit(60)]
fn register_environment_floors(reg: &mut BlockRegistry)
    ensures
        old(reg).names_unique() ==> final(reg).names_unique(),
        forall|n: Seq<char>| old(reg).has_block_named(n) ==> #[trigger] final(reg).has_block_named(n),
        environment_floors_present(*final(reg)),
{
    put(reg, "darksand", simple(1, true, vec![]));
    put(reg, "sand-floor", simple(1, true, vec![]));
    put(reg, "yellow-stone", simple(1, true, vec![]));
    put(reg, "arkyic-stone", simple(1, true, vec![]));
    put(reg, "carbon-stone", simple(1, true, vec![]));
    put(reg, "ore-beryllium", simple(1, true, vec![]));
    put(reg, "ore-copper", simple(1, true, vec![]));
    put(reg, "ore-lead", simple(1, true, vec![]));
    put(reg, "ore-coal", simple(1, true, vec![]));
    put(reg, "ore-scrap", simple(1, true, vec![]));
    put(reg, "ore-thorium", simple(1, true, vec![]));
    put(reg, "ore-titanium", simple(1, true, vec![]));
    put(reg, "ore-tungsten", simple(1, true, vec![]));
    put(reg, "ore-crystal-thorium", simple(1, true, vec![]));
    put(reg, "ore-wall-beryllium", simple(1, true, vec![]));
    put(reg, "ore-wall-thorium", simple(1, true, vec![]));
    put(reg, "ore-wall-tungsten", simple(1, true, vec![]));
    put(reg, "graphitic-wall", simple(1, true, vec![]));
    put(reg, "dacite", simple(1, true, vec![]));
    put(reg, "dirt", simple(1, true, vec![]));
    put(reg, "arkycite-floor", simple(1, true, vec![]));
    put(reg, "basalt", simple(1, true, vec![]));
    put(reg, "ice", simple(1, true, vec![]));
    put(reg, "molten-slag", simple(1, true, vec![]));
    put(reg, "moss", simple(1, true, vec![]));
    put(reg, "mud", simple(1, true, vec![]));
    put(reg, "magmarock", simple(1, true, vec![]));
    put(reg, "grass", simple(1, true, vec![]));
    put(reg, "ice-snow", simple(1, true, vec![]));
    put(reg, "hotrock", simple(1, true, vec![]));
    put(reg, "char", simple(1, true, vec![]));
    put(reg, "snow", simple(1, true, vec![]));
    put(reg, "salt", simple(1, true, vec![]));
    put(reg, "shale", simple(1, true, vec![]));
    put(reg, "metal-floor", simple(1, true, vec![]));
    put(reg, "metal-floor-2", simple(1, true, vec![]));
    put(reg, "metal-floor-3", simple(1, true, vec![]));
    put(reg, "metal-floor-4", simple(1, true, vec![]));
    put(reg, "metal-floor-5", simple(1, true, vec![]));
    put(reg, "dark-panel-1", simple(1, true, vec![]));
    put(reg, "dark-panel-2", simple(1, true, vec![]));
    put(reg, "dark-panel-3", simple(1, true, vec![]));
    put(reg, "dark-panel-4", simple(1, true, vec![]));
    put(reg, "dark-panel-5", simple(1, true, vec![]));
    put(reg, "dark-panel-6", simple(1, true, vec![]));
    put(reg, "darksand-tainted-water", simple(1, true, vec![]));
    put(reg, "darksand-water", simple(1, true, vec![]));
    put(reg, "deep-tainted-water", simple(1, true, vec![]));
    put(reg, "deep-water", simple(1, true, vec![]));
    put(reg, "sand-water", simple(1, true, vec![]));
    put(reg, "shallow-water", simple(1, true, vec![]));
    put(reg, "space", simple(1, true, vec![]));
    put(reg, "stone", simple(1, true, vec![]));
    put(reg, "build1", simple(1, true, vec![]));
    put(reg, "boulder", simple(1, true, vec![]));
    put(reg, "arkyic-wall", simple(1, true, vec![]));
    put(reg, "beryllic-stone-wall", simple(1, true, vec![]));
    put(reg, "beryllic-stone", simple(1, true, vec![]));
    put(reg, "bluemat", simple(1, true, vec![]));
    put(reg, "carbon-wall", simple(1, true, vec![]));
    put(reg, "cliff", simple(1, true, vec![]));
    put(reg, "core-zone", simple(1, true, vec![]));
    put(reg, "crater-stone", simple(1, true, vec![]));
    put(reg, "crystal-floor", simple(1, true, vec![]));
    put(reg, "crystalline-stone-wall", simple(1, true, vec![]));
    put(reg, "crystalline-stone", simple(1, true, vec![]));
    put(reg, "dacite-wall", simple(1, true, vec![]));
    put(reg, "dark-metal", simple(1, true, vec![]));
    put(reg, "metal-floor-damaged", simple(1, true, vec![]));
    put(reg, "dense-red-stone", simple(1, true, vec![]));
    put(reg, "dirt-wall", simple(1, true, vec![]));
    put(reg, "dune-wall", simple(1, true, vec![]));
    put(reg, "ferric-craters", simple(1, true, vec![]));
}

/// The second half of the single-tile environment blocks, ferric-stone-wall
/// through build16.
#[verifier::rlimit(60)]
fn register_environment_terrain(reg: &mut BlockRegistry)
    ensures
        old(reg).names_unique() ==> final(reg).names_unique(),
        forall|n: Seq<char>| old(reg).has_block_named(n) ==> #[trigger] final(reg).has_block_named(n),
        environment_terrain_present(*final(reg)),
{
    put(reg, "ferric-stone-wall", simple(1, true, vec![]));
    put(reg, "ferric-stone", simple(1, true, vec![]));
    put(reg, "ice-wall", simple(1, true, vec![]));
    put(reg, "pebbles", simple(1, true, vec![]));
    put(reg, "pine", simple(1, true, vec![]));
    put(reg, "pooled-cryofluid", simple(1, true, vec![]));
    put(reg, "red-diamond-wall", simple(1, true, vec![]));
    put(reg, "red-ice-wall", simple(1, true, vec![]));
    put(reg, "red-ice", simple(1, true, vec![]));
    put(reg, "red-stone-wall", simple(1, true, vec![]));
    put(reg, "red-stone", simple(1, true, vec![]));
    put(reg, "redmat", simple(1, true, vec![]));
    put(reg, "regolith-wall", simple(1, true, vec![]));
    put(reg, "regolith", simple(1, true, vec![]));
    put(reg, "rhyolite-crater", simple(1, true, vec![]));
    put(reg, "rhyolite-wall", simple(1, true, vec![]));
    put(reg, "rhyolite", simple(1, true, vec![]));
    put(reg, "rough-rhyolite", simple(1, true, vec![]));
    put(reg, "salt-wall", simple(1, true, vec![]));
    put(reg, "sand-wall", simple(1, true, vec![]));
    put(reg, "shale-wall", simple(1, true, vec![]));
    put(reg, "shrubs", simple(1, true, vec![]));
    put(reg, "snow-pine", simple(1, true, vec![]));
    put(reg, "snow-wall", simple(1, true, vec![]));
    put(reg, "spawn", simple(1, true, vec![]));
    put(reg, "spore-moss", simple(1, true, vec![]));
    put(reg, "spore-pine", simple(1, true, vec![]));
    put(reg, "spore-wall", simple(1, true, vec![]));
    put(reg, "stone-wall", simple(1, true, vec![]));
    put(reg, "tainted-water", simple(1, true, vec![]));
    put(reg, "tar", simple(1, true, vec![]));
    put(reg, "yellow-stone-plates", simple(1, true, vec![]));
    put(reg, "yellow-stone-wall", simple(1, true, vec![]));
    put(reg, "yellow-stone-boulder", simple(1, true, vec![]));
    put(reg, "snow-boulder", simple(1, true, vec![]));
    put(reg, "shale-boulder", simple(1, true, vec![]));
    put(reg, "arkyic-boulder", simple(1, true, vec![]));
    put(reg, "basalt-boulder", simple(1, true, vec![]));
    put(reg, "beryllic-boulder", simple(1, true, vec![]));
    put(reg, "carbon-boulder", simple(1, true, vec![]));
    put(reg, "crystalline-boulder", simple(1, true, vec![]));
    put(reg, "dacite-boulder", simple(1, true, vec![]));
    put(reg, "ferric-boulder", simple(1, true, vec![]));
    put(reg, "red-ice-boulder", simple(1, true, vec![]));
    put(reg, "red-stone-boulder", simple(1, true, vec![]));
    put(reg, "rhyolite-boulder", simple(1, true, vec![]));
    put(reg, "sand-boulder", simple(1, true, vec![]));
    put(reg, "pur-bush", simple(1, true, vec![]));
    put(reg, "tendrils", simple(1, true, vec![]));
    put(reg, "white-tree-dead", simple(1, true, vec![]));
    put(reg, "yellowcoral", simple(1, true, vec![]));
    put(reg, "white-tree", simple(1, true, vec![]));
    put(reg, "redweed", simple(1, true, vec![]));
    put(reg, "spore-cluster", simple(1, true, vec![]));
    put(reg, "crystal-blocks", simple(1, true, vec![]));
    put(reg, "crystal-cluster", simple(1, true, vec![]));
    put(reg, "vibrant-crystal-cluster", simple(1, true, vec![]));
    put(reg, "crystal-orbs", simple(1, true, vec![]));
    put(reg, "build2", simple(1, true, vec![]));
    put(reg, "build3", simple(1, true, vec![]));
    put(reg, "build4", simple(1, true, vec![]));
    put(reg, "build5", simple(1, true, vec![]));
    put(reg, "build6", simple(1, true, vec![]));
    put(reg, "build7", simple(1, true, vec![]));
    put(reg, "build8", simple(1, true, vec![]));
    put(reg, "build9", simple(1, true, vec![]));
    put(reg, "build10", simple(1, true, vec![]));
    put(reg, "build11", simple(1, true, vec![]));
    put(reg, "build12", simple(1, true, vec![]));
    put(reg, "build13", simple(1, true, vec![]));
    put(reg, "build14", simple(1, true, vec![]));
    put(reg, "build15", simple(1, true, vec![]));
    put(reg, "build16", simple(1, true, vec![]));
}

/// The two-tile environment walls.
fn register_environment_walls(reg: &mut BlockRegistry)
    ensures
        old(reg).names_unique() ==> final(reg).names_unique(),
        forall|n: Seq<char>| old(reg).has_block_named(n) ==> #[trigger] final(reg).has_block_named(n),
        environment_walls_present(*final(reg)),
{
    put(reg, "graphitic-wall-large", simple(2, true, vec![]));
    put(reg, "arkyic-wall-large", simple(2, true, vec![]));
    put(reg, "beryllic-stone-wall-large", simple(2, true, vec![]));
    put(reg, "carbon-wall-large", simple(2, true, vec![]));
    put(reg, "crystalline-stone-wall-large", simple(2, true, vec![]));
    put(reg, "dacite-wall-large", simple(2, true, vec![]));
    put(reg, "dark-metal-large", simple(2, true, vec![]));
    put(reg, "dirt-wall-large", simple(2, true, vec![]));
    put(reg, "dune-wall-large", simple(2, true, vec![]));
    put(reg, "ferric-stone-wall-large", simple(2, true, vec![]));
    put(reg, "ice-wall-large", simple(2, true, vec![]));
    put(reg, "red-ice-wall-large", simple(2, true, vec![]));
    put(reg, "red-stone-wall-large", simple(2, true, vec![]));
    put(reg, "regolith-wall-large", simple(2, true, vec![]));
    put(reg, "rhyolite-wall-large", simple(2, true, vec![]));
    put(reg, "salt-wall-large", simple(2, true, vec![]));
    put(reg, "sand-wall-large", simple(2, true, vec![]));
    put(reg, "shale-wall-large", simple(2, true, vec![]));
    put(reg, "shrubs-large", simple(2, true, vec![]));
    put(reg, "snow-wall-large", simple(2, true, vec![]));
    put(reg, "spore-wall-large", simple(2, true, vec![]));
    put(reg, "stone-wall-large", simple(2, true, vec![]));
    put(reg, "yellow-stone-wall-large", simple(2, true, vec![]));
}

/// The three-tile environment vents.
fn register_environment_vents(reg: &mut BlockRegistry)
    ensures
        old(reg).names_unique() ==> final(reg).names_unique(),
        forall|n: Seq<char>| old(reg).has_block_named(n) ==> #[trigger] final(reg).has_block_named(n),
        environment_vents_present(*final(reg)),
{
    put(reg, "arkyic-vent", simple(3, true, vec![]));
    put(reg, "carbon-vent", simple(3, true, vec![]));
    put(reg, "crystalline-vent", simple(3, true, vec![]));
    put(reg, "red-stone-vent", simple(3, true, vec![]));
    put(reg, "rhyolite-vent", simple(3, true, vec![]));
    put(reg, "yellow-stone-vent", simple(3, true, vec![]));
}

/// Reads a drill's legacy entity payload: its progress and warmup, two
/// 32-bit values this library does not model, are skipped whole.
pub fn read_drill(buff: &mut DataRead) -> (r: Result<(), ReadError>)
    ensures
        final(buff).bytes() == old(buff).bytes(),
        ({
            let pos = old(buff).position();
            let b = old(buff).bytes();
            match r {
                Ok(()) => pos + 8 <= b.len() && final(buff).position() == pos + 8,
                Err(e) => e == ReadError::Underflow && pos + 8 > b.len() && final(buff).position()
                    == pos,
            }
        }),
{
    buff.skip(8)
}

/// Reads a repair turret's legacy entity payload: its rotation, one 32-bit
/// value this library does not model, is skipped whole.
pub fn read_repair_turret(buff: &mut DataRead) -> (r: Result<(), ReadError>)
    ensures
        final(buff).bytes() == old(buff).bytes(),
        ({
            let pos = old(buff).position();
            let b = old(buff).bytes();
            match r {
                Ok(()) => pos + 4 <= b.len() && final(buff).position() == pos + 4,
                Err(e) => e == ReadError::Underflow && pos + 4 > b.len() && final(buff).position()
                    == pos,
            }
        }),
{
    buff.skip(4)
}

/// A stateless kind with the given footprint, symmetry and bill.
fn simple(size: u8, symmetric: bool, build_cost: Vec<(ItemType, u32)>) -> (r: BlockLogicEnum)
    requires
        size != 0,
    ensures
        r matches BlockLogicEnum::Simple(_),
{
    BlockLogicEnum::Simple(SimpleBlock::new(size, symmetric, build_cost))
}

/// A unit factory with the given footprint, symmetry, bill and unit list.
fn assembler(
    size: u8,
    symmetric: bool,
    build_cost: Vec<(ItemType, u32)>,
    valid: Vec<UnitType>,
) -> (r: BlockLogicEnum)
    requires
        size != 0,
        valid@.len() >= 1,
        valid@.len() <= i32::MAX,
    ensures
        r matches BlockLogicEnum::Assembler(_),
{
    BlockLogicEnum::Assembler(AssemblerBlock::new(size, symmetric, build_cost, valid))
}

} // verus!

