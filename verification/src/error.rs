use vstd::prelude::*;

verus! {

/// The failures this layer itself can produce.  Transport failures belong to
/// the bus glue around the library and are not represented here.
#[derive(Clone, Copy, Debug, PartialEq, Eq, Structural)]
pub enum Error {
    /// The introspection document could not be parsed; no capability set can
    /// be derived from it and no device model is constructed.
    IntrospectionParse,
    /// A raw response violated the expected shape (wrong array length,
    /// unparseable embedded payload).
    Decode,
}

} // verus!
