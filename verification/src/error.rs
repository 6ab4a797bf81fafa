//! Why a derivation refuses a declaration.
use vstd::prelude::*;
use vstd::string::StringExecFns;

verus! {

/// A refusal. Nothing is derived from a declaration that is refused.
#[derive(Clone, Copy, Debug, PartialEq, Eq, Structural)]
pub enum DeriveError {
    /// The declaration is not a struct with named fields. The diagnostic
    /// belongs at the type's name.
    Shape,
    /// A field carries a directive that is not recognized, or carries one in a
    /// form that is not supported. The diagnostic belongs at that field.
    Attribute {
        /// The index of the first such field.
        field: usize,
    },
}

/// The text of the diagnostic for a declaration of the wrong shape.
pub open spec fn shape_message() -> Seq<char> {
    "Only structures with named fields are supported."@
}

/// The text of the diagnostic for an unacceptable directive.
pub open spec fn attribute_message() -> Seq<char> {
    "unrecognized attribute."@
}

impl DeriveError {
    /// The text of the diagnostic.
    pub open spec fn message_spec(self) -> Seq<char> {
        match self {
            DeriveError::Shape => shape_message(),
            DeriveError::Attribute { .. } => attribute_message(),
        }
    }

    /// The text of the diagnostic.
    pub fn message(&self) -> (text: String)
        ensures
            text@ == self.message_spec(),
    {
        match self {
            DeriveError::Shape => String::from_str(
                "Only structures with named fields are supported.",
            ),
            DeriveError::Attribute { .. } => String::from_str("unrecognized attribute."),
        }
    }
}

} // verus!
