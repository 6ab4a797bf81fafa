//! The `DestructureRef` derivation: a companion that borrows every field.
use vstd::prelude::*;
use crate::emit::{binds, make_own_lifetime, own_lifetime, companion_fields, copy_generics, is_record, make_binds, make_companion_fields};
use crate::error::DeriveError;
use crate::model::{TypeDecl, TypeDeclView};
use crate::names::{error_type, destruct_ref_name, fresh_name, make_destruct_ref_name, make_fresh_name, origin_lifetime};
use crate::output::{Access, Companion, CompanionView, Expansion, ExpansionView, Method};

verus! {

/// Why `DestructureRef` refuses a declaration, if it does. Directives are
/// not read, so a record is never refused.
pub open spec fn destructure_ref_refusal(decl: TypeDeclView) -> Option<DeriveError> {
    if !is_record(decl) {
        Some(DeriveError::Shape)
    } else {
        None
    }
}

/// What `DestructureRef` emits for a record.
pub open spec fn destructure_ref_expansion(decl: TypeDeclView) -> ExpansionView {
    ExpansionView {
        source: decl.name,
        companion: CompanionView {
            name: destruct_ref_name(decl.name),
            access: Access::Shared,
            lifetime: own_lifetime(origin_lifetime(), decl),
            generics: decl.generics,
            where_clause: decl.where_clause,
            fields: companion_fields(decl.fields(), false),
        },
        source_methods: seq![Method::AsDestruct],
        companion_methods: Seq::empty(),
        error_type: fresh_name(error_type(), decl.generics),
        forward: binds(decl.fields()),
        backward: Seq::empty(),
    }
}

/// Derives the borrowing companion `Destruct{N}Ref` of a record `N`.
///
/// The companion's fields are the source's, in order; each is public and is
/// a shared reference to the source's type. Where the source has a field, the
/// companion has one lifetime of its own for these references, which differs
/// from every generic parameter of the source and comes first; then come the
/// source's generic parameters. Where the source has no field, the companion
/// has the source's parameters and no lifetime of its own. The source gets
/// `as_destruct`.
pub fn derive_destructure_ref(decl: &TypeDecl) -> (out: Result<Expansion, DeriveError>)
    ensures
        match out {
            Ok(expansion) => destructure_ref_refusal(decl@) is None && expansion@
                == destructure_ref_expansion(decl@),
            Err(error) => destructure_ref_refusal(decl@) == Some(error),
        },
{
    let fields = match decl.named_fields() {
        Some(fields) => fields,
        None => {
            return Err(DeriveError::Shape);
        },
    };
    let companion = Companion {
        name: make_destruct_ref_name(&decl.name),
        access: Access::Shared,
        lifetime: make_own_lifetime("'__origin_destruct_lifetime", fields, &decl.generics),
        generics: copy_generics(&decl.generics),
        where_clause: decl.where_clause.clone(),
        fields: make_companion_fields(fields, false),
    };
    let mut source_methods: Vec<Method> = Vec::new();
    source_methods.push(Method::AsDestruct);
    let expansion = Expansion {
        source: decl.name.clone(),
        companion,
        source_methods,
        companion_methods: Vec::new(),
        error_type: make_fresh_name("E", &decl.generics),
        forward: make_binds(fields),
        backward: Vec::new(),
    };
    assert(expansion@.source_methods =~= destructure_ref_expansion(decl@).source_methods);
    assert(expansion@.companion_methods =~= destructure_ref_expansion(decl@).companion_methods);
    assert(expansion@.backward =~= destructure_ref_expansion(decl@).backward);
    Ok(expansion)
}

} // verus!
