use vstd::prelude::*;
use vstd::string::*;

verus! {

/// The complete failure vocabulary of the registry. Each variant carries the
/// offending id, or, for `IncompatiblePrimitiveError`, the rejected field
/// name together with the kind word of the targeted source.
#[derive(Debug, PartialEq)]
pub enum AxialError {
    /// An insert targeted an id that is already present.
    KeyDuplicateError(String),
    /// A lookup, view or modification targeted an id that is not present.
    KeyMissingError(String),
    /// An insert used an id drawn from the reserved-word set.
    ReservedWordError(String),
    /// A modification named a field that the targeted source's kind lacks.
    IncompatiblePrimitiveError(String, String),
}

impl AxialError {
    /// The human-readable description of the error.
    pub open spec fn spec_message(&self) -> Seq<char> {
        match self {
            AxialError::KeyDuplicateError(a) => "Supplied already in objects: "@ + a@ + "."@,
            AxialError::KeyMissingError(a) => "Could not find object ID: "@ + a@ + "."@,
            AxialError::ReservedWordError(a) => "Supplied ID is a reserved keyword: "@ + a@
                + "."@,
            AxialError::IncompatiblePrimitiveError(modification, primitive) => "Can not perform modification "@
                + modification@ + " on primitive "@ + primitive@ + "."@,
        }
    }

    /// Renders the error as text.
    pub fn message(&self) -> (r: String)
        ensures
            r@ == self.spec_message(),
    {
        match self {
            AxialError::KeyDuplicateError(a) => String::from_str(
                "Supplied already in objects: ",
            ).concat(a.as_str()).concat("."),
            AxialError::KeyMissingError(a) => String::from_str("Could not find object ID: ").concat(
                a.as_str(),
            ).concat("."),
            AxialError::ReservedWordError(a) => String::from_str(
                "Supplied ID is a reserved keyword: ",
            ).concat(a.as_str()).concat("."),
            AxialError::IncompatiblePrimitiveError(modification, primitive) => String::from_str(
                "Can not perform modification ",
            ).concat(modification.as_str()).concat(" on primitive ").concat(
                primitive.as_str(),
            ).concat("."),
        }
    }
}

} // verus!
