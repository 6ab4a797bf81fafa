//! The output model: what a derivation emits.
use vstd::prelude::*;
use crate::model::{GenericParam, GenericParamView};

verus! {

/// How a companion holds the fields of its source.
#[derive(Clone, Copy, Debug, PartialEq, Eq, Structural)]
pub enum Access {
    /// By value: a field of type `T` is a `T`.
    Owned,
    /// By shared reference: a field of type `T` is a `&'l T`.
    Shared,
    /// By unique reference: a field of type `T` is a `&'l mut T`.
    Unique,
}

/// A generated method.
#[derive(Clone, Copy, Debug, PartialEq, Eq, Structural)]
pub enum Method {
    /// `into_destruct(self) -> Companion`: moves every field into the companion.
    IntoDestruct,
    /// `reconstruct(self, f) -> Self`: opens, lets `f` edit the companion, freezes.
    Reconstruct,
    /// `try_reconstruct(self, f) -> Result<Self, E>`: as `reconstruct`, unless
    /// `f` fails; then its error is returned and the companion is dropped.
    TryReconstruct,
    /// `freeze(self) -> Source`, on the companion: moves every field back.
    Freeze,
    /// `as_destruct(&self) -> Companion`: borrows every field.
    AsDestruct,
    /// `substitute(&mut self, f)`: lets `f` edit the fields through a mutable view.
    Substitute,
    /// `try_substitute(&mut self, f) -> Result<(), E>`: as `substitute`, and
    /// returns what `f` returns.
    TrySubstitute,
}

/// One field of a companion.
#[derive(Clone, Debug)]
pub struct CompanionField {
    /// Whether the field is visible outside the module that declares the companion.
    pub public: bool,
    pub name: String,
    /// The type of the source's field, as source text. The companion's field
    /// has this type, or is a reference to it, as the companion's access says.
    pub ty: String,
}

/// The mathematical value of a [`CompanionField`].
pub struct CompanionFieldView {
    pub public: bool,
    pub name: Seq<char>,
    pub ty: Seq<char>,
}

impl View for CompanionField {
    type V = CompanionFieldView;

    open spec fn view(&self) -> CompanionFieldView {
        CompanionFieldView { public: self.public, name: self.name@, ty: self.ty@ }
    }
}

/// One clause of a struct literal: `field: self.from`, `field: &self.from` or
/// `field: &mut self.from`, as the companion's access says.
#[derive(Clone, Debug)]
pub struct Bind {
    /// The field of the value that is built.
    pub field: String,
    /// The field of `self` that it is taken from.
    pub from: String,
}

/// The mathematical value of a [`Bind`].
pub struct BindView {
    pub field: Seq<char>,
    pub from: Seq<char>,
}

impl View for Bind {
    type V = BindView;

    open spec fn view(&self) -> BindView {
        BindView { field: self.field@, from: self.from@ }
    }
}

/// A companion type's declaration.
#[derive(Clone, Debug)]
pub struct Companion {
    pub name: String,
    pub access: Access,
    /// The lifetime of the companion's references. It comes first in the
    /// companion's parameter list, before `generics`.
    pub lifetime: Option<String>,
    /// The source's generic parameters.
    pub generics: Vec<GenericParam>,
    /// The source's `where` clause.
    pub where_clause: String,
    pub fields: Vec<CompanionField>,
}

/// The mathematical value of a [`Companion`].
pub struct CompanionView {
    pub name: Seq<char>,
    pub access: Access,
    pub lifetime: Option<Seq<char>>,
    pub generics: Seq<GenericParamView>,
    pub where_clause: Seq<char>,
    pub fields: Seq<CompanionFieldView>,
}

/// The mathematical value of an optional string.
pub open spec fn option_view(s: Option<String>) -> Option<Seq<char>> {
    match s {
        Some(s) => Some(s@),
        None => None,
    }
}

impl View for Companion {
    type V = CompanionView;

    open spec fn view(&self) -> CompanionView {
        CompanionView {
            name: self.name@,
            access: self.access,
            lifetime: option_view(self.lifetime),
            generics: self.generics@.map_values(|g: GenericParam| g@),
            where_clause: self.where_clause@,
            fields: self.fields@.map_values(|f: CompanionField| f@),
        }
    }
}

/// All that one derivation emits for one declaration: the companion's
/// declaration, a block of methods for the source and, where the companion
/// has methods, a block for the companion.
#[derive(Clone, Debug)]
pub struct Expansion {
    /// The source type's name.
    pub source: String,
    pub companion: Companion,
    /// The methods added to the source, in the order in which they are emitted.
    pub source_methods: Vec<Method>,
    /// The methods added to the companion.
    pub companion_methods: Vec<Method>,
    /// The type parameter that stands for the error of the closure in the
    /// fallible methods.
    pub error_type: String,
    /// The clauses that build the companion from the source, one per field.
    pub forward: Vec<Bind>,
    /// The clauses that build the source from the companion, one per field;
    /// none where the companion cannot be turned back.
    pub backward: Vec<Bind>,
}

/// The mathematical value of an [`Expansion`].
pub struct ExpansionView {
    pub source: Seq<char>,
    pub companion: CompanionView,
    pub source_methods: Seq<Method>,
    pub companion_methods: Seq<Method>,
    pub error_type: Seq<char>,
    pub forward: Seq<BindView>,
    pub backward: Seq<BindView>,
}

impl View for Expansion {
    type V = ExpansionView;

    open spec fn view(&self) -> ExpansionView {
        ExpansionView {
            source: self.source@,
            companion: self.companion@,
            source_methods: self.source_methods@,
            companion_methods: self.companion_methods@,
            error_type: self.error_type@,
            forward: self.forward@.map_values(|b: Bind| b@),
            backward: self.backward@.map_values(|b: Bind| b@),
        }
    }
}

} // verus!
