//! The `Destructure` derivation: an owning companion in which every field
//! that is not marked `skip` is public, and the way back.
use vstd::prelude::*;
use crate::directive::{directives_valid, first_invalid, lemma_first_invalid};
use crate::emit::{binds, companion_fields, copy_generics, is_record, make_binds, make_companion_fields};
use crate::error::DeriveError;
use crate::model::{Field, TypeDecl, TypeDeclView};
use crate::names::{error_type, fresh_name, make_fresh_name, destruct_name, make_destruct_name};
use crate::output::{Access, Companion, CompanionView, Expansion, ExpansionView, Method};

verus! {

/// Why `Destructure` refuses a declaration, if it does: what is not a record
/// is of the wrong shape; a record is refused for the first field whose
/// directives are not acceptable.
pub open spec fn destructure_refusal(decl: TypeDeclView) -> Option<DeriveError> {
    if !is_record(decl) {
        Some(DeriveError::Shape)
    } else if first_invalid(decl.fields()) < decl.fields().len() {
        Some(DeriveError::Attribute { field: first_invalid(decl.fields()) as usize })
    } else {
        None
    }
}

/// What `Destructure` emits for a record that it accepts.
pub open spec fn destructure_expansion(decl: TypeDeclView) -> ExpansionView {
    ExpansionView {
        source: decl.name,
        companion: CompanionView {
            name: destruct_name(decl.name),
            access: Access::Owned,
            lifetime: None,
            generics: decl.generics,
            where_clause: decl.where_clause,
            fields: companion_fields(decl.fields(), true),
        },
        source_methods: seq![Method::IntoDestruct, Method::Reconstruct, Method::TryReconstruct],
        companion_methods: seq![Method::Freeze],
        error_type: fresh_name(error_type(), decl.generics),
        forward: binds(decl.fields()),
        backward: binds(decl.fields()),
    }
}

/// The index of the first field whose directives are not acceptable, if any.
pub fn find_invalid(fields: &Vec<Field>) -> (found: Option<usize>)
    ensures
        match found {
            Some(i) => i < fields.len() && i == first_invalid(fields@.map_values(|f: Field| f@)),
            None => first_invalid(fields@.map_values(|f: Field| f@)) == fields.len(),
        },
{
    let ghost fs = fields@.map_values(|f: Field| f@);
    proof {
        lemma_first_invalid(fs);
    }
    let mut i: usize = 0;
    while i < fields.len()
        invariant
            i <= fields.len(),
            fs == fields@.map_values(|f: Field| f@),
            forall|j: int| 0 <= j < i ==> directives_valid((#[trigger] fs[j]).directives),
            0 <= first_invalid(fs) <= fs.len(),
            forall|j: int|
                0 <= j < first_invalid(fs) ==> directives_valid((#[trigger] fs[j]).directives),
            first_invalid(fs) < fs.len() ==> !directives_valid(fs[first_invalid(fs)].directives),
        decreases fields.len() - i,
    {
        if !fields[i].directives_valid() {
            assert(!directives_valid(fs[i as int].directives));
            return Some(i);
        }
        i += 1;
    }
    None
}

/// Derives the owning companion `Destruct{N}` of a record `N`.
///
/// The companion has the source's generic parameters and `where` clause, and
/// its fields are the source's, in order and with their types; a field is
/// public unless it is marked `skip`. The source gets `into_destruct`,
/// `reconstruct` and `try_reconstruct`, the companion gets `freeze`.
pub fn derive_destructure(decl: &TypeDecl) -> (out: Result<Expansion, DeriveError>)
    ensures
        match out {
            Ok(expansion) => destructure_refusal(decl@) is None && expansion@
                == destructure_expansion(decl@),
            Err(error) => destructure_refusal(decl@) == Some(error),
        },
{
    let fields = match decl.named_fields() {
        Some(fields) => fields,
        None => {
            return Err(DeriveError::Shape);
        },
    };
    if let Some(field) = find_invalid(fields) {
        return Err(DeriveError::Attribute { field });
    }
    let companion = Companion {
        name: make_destruct_name(&decl.name),
        access: Access::Owned,
        lifetime: None,
        generics: copy_generics(&decl.generics),
        where_clause: decl.where_clause.clone(),
        fields: make_companion_fields(fields, true),
    };
    let mut source_methods: Vec<Method> = Vec::new();
    source_methods.push(Method::IntoDestruct);
    source_methods.push(Method::Reconstruct);
    source_methods.push(Method::TryReconstruct);
    let mut companion_methods: Vec<Method> = Vec::new();
    companion_methods.push(Method::Freeze);
    let expansion = Expansion {
        source: decl.name.clone(),
        companion,
        source_methods,
        companion_methods,
        error_type: make_fresh_name("E", &decl.generics),
        forward: make_binds(fields),
        backward: make_binds(fields),
    };
    assert(expansion@.source_methods =~= destructure_expansion(decl@).source_methods);
    assert(expansion@.companion_methods =~= destructure_expansion(decl@).companion_methods);
    Ok(expansion)
}

} // verus!
