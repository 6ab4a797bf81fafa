//! The `Mutation` derivation: a short-lived view through which every field
//! can be assigned.
use vstd::prelude::*;
use crate::emit::{binds, make_own_lifetime, own_lifetime, companion_fields, copy_generics, is_record, make_binds, make_companion_fields};
use crate::error::DeriveError;
use crate::model::{TypeDecl, TypeDeclView};
use crate::names::{error_type, fresh_name, make_fresh_name, make_mutation_name, mutation_lifetime, mutation_name};
use crate::output::{Access, Companion, CompanionView, Expansion, ExpansionView, Method};

verus! {

/// Why `Mutation` refuses a declaration, if it does. Directives are not
/// read, so a record is never refused.
pub open spec fn mutation_refusal(decl: TypeDeclView) -> Option<DeriveError> {
    if !is_record(decl) {
        Some(DeriveError::Shape)
    } else {
        None
    }
}

/// What `Mutation` emits for a record.
pub open spec fn mutation_expansion(decl: TypeDeclView) -> ExpansionView {
    ExpansionView {
        source: decl.name,
        companion: CompanionView {
            name: mutation_name(decl.name),
            access: Access::Unique,
            lifetime: own_lifetime(mutation_lifetime(), decl),
            generics: decl.generics,
            where_clause: decl.where_clause,
            fields: companion_fields(decl.fields(), false),
        },
        source_methods: seq![Method::Substitute, Method::TrySubstitute],
        companion_methods: Seq::empty(),
        error_type: fresh_name(error_type(), decl.generics),
        forward: binds(decl.fields()),
        backward: Seq::empty(),
    }
}

/// Derives the mutable view `{N}Mut` of a record `N`.
///
/// The view's fields are the source's, in order; each is public and is a
/// unique reference to the source's type. Where the source has a field, the
/// view has one lifetime of its own for these references, which differs from
/// every generic parameter of the source and comes first; then come the
/// source's generic parameters. Where the source has no field, the view has
/// the source's parameters and no lifetime of its own. The source gets
/// `substitute` and `try_substitute`.
pub fn derive_mutation(decl: &TypeDecl) -> (out: Result<Expansion, DeriveError>)
    ensures
        match out {
            Ok(expansion) => mutation_refusal(decl@) is None && expansion@ == mutation_expansion(
                decl@,
            ),
            Err(error) => mutation_refusal(decl@) == Some(error),
        },
{
    let fields = match decl.named_fields() {
        Some(fields) => fields,
        None => {
            return Err(DeriveError::Shape);
        },
    };
    let companion = Companion {
        name: make_mutation_name(&decl.name),
        access: Access::Unique,
        lifetime: make_own_lifetime("'mutation", fields, &decl.generics),
        generics: copy_generics(&decl.generics),
        where_clause: decl.where_clause.clone(),
        fields: make_companion_fields(fields, false),
    };
    let mut source_methods: Vec<Method> = Vec::new();
    source_methods.push(Method::Substitute);
    source_methods.push(Method::TrySubstitute);
    let expansion = Expansion {
        source: decl.name.clone(),
        companion,
        source_methods,
        companion_methods: Vec::new(),
        error_type: make_fresh_name("E", &decl.generics),
        forward: make_binds(fields),
        backward: Vec::new(),
    };
    assert(expansion@.source_methods =~= mutation_expansion(decl@).source_methods);
    assert(expansion@.companion_methods =~= mutation_expansion(decl@).companion_methods);
    assert(expansion@.backward =~= mutation_expansion(decl@).backward);
    Ok(expansion)
}

} // verus!
