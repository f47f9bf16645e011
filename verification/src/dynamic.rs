//! The dynamic typed-value model: a closed tagged union of the configuration
//! values that can be persisted on a placed block.
use vstd::prelude::*;

verus! {

/// The type discriminant of a [`DynData`] value, carried in mismatch
/// diagnostics.
#[derive(Clone, Copy, Debug, PartialEq, Eq, Structural)]
pub enum DynType {
    Empty,
    Int,
    Boolean,
    String,
    ByteArray,
}

/// A dynamically typed persisted configuration value: exactly one variant is
/// active at a time. Conversion into block-specific state always goes through
/// an explicit, type-checked decode step, never implicit coercion.
#[derive(Debug)]
pub enum DynData {
    /// No configuration.
    Empty,
    /// A signed 32-bit index; several kinds use -1 for "none selected".
    Int(i32),
    /// A single flag.
    Boolean(bool),
    /// Optional text: "absent" and "present but empty" are distinct on the
    /// wire even where a block kind treats them alike.
    String(Option<String>),
    /// An opaque byte payload, such as a compressed processor state.
    ByteArray(Vec<u8>),
}

impl DynData {
    /// The discriminant of this value.
    pub open spec fn spec_get_type(&self) -> DynType {
        match self {
            DynData::Empty => DynType::Empty,
            DynData::Int(_) => DynType::Int,
            DynData::Boolean(_) => DynType::Boolean,
            DynData::String(_) => DynType::String,
            DynData::ByteArray(_) => DynType::ByteArray,
        }
    }

    /// Reports which variant is active, for mismatch diagnostics.
    #[verifier::when_used_as_spec(spec_get_type)]
    pub fn get_type(&self) -> (t: DynType)
        ensures
            t == self.spec_get_type(),
    {
        match self {
            DynData::Empty => DynType::Empty,
            DynData::Int(_) => DynType::Int,
            DynData::Boolean(_) => DynType::Boolean,
            DynData::String(_) => DynType::String,
            DynData::ByteArray(_) => DynType::ByteArray,
        }
    }
}

} // verus!
