//! Laws: what holds of every declaration that a derivation accepts, and of
//! every value of such a record.
use vstd::prelude::*;
use crate::destructure::{destructure_expansion, destructure_refusal};
use crate::destructure_ref::{destructure_ref_expansion, destructure_ref_refusal};
use crate::directive::is_skipped;
use crate::emit::is_record;
use crate::meaning::{frozen, is_field, is_value_of, lemma_built_is_copy, lemma_written_back, opened, reconstructed, substituted, try_reconstructed, try_substituted, viewed};
use crate::model::TypeDeclView;
use crate::mutation::{mutation_expansion, mutation_refusal};
use crate::names::{candidate, destruct_name, destruct_ref_name, is_taken, lemma_fresh_from, mutation_lifetime, mutation_name, origin_lifetime};
use crate::output::{Access, ExpansionView};
use crate::render::{declared_params, field_type, own, param_texts, reference, ParamForm};

verus! {

/// Round-trip identity: for every record that `Destructure` accepts and every
/// value of it, `into_destruct` followed by `freeze` gives the value back,
/// and so does `reconstruct` with a closure that changes nothing.
pub proof fn law_round_trip<V>(decl: TypeDeclView, this: Map<Seq<char>, V>)
    requires
        destructure_refusal(decl) is None,
        is_value_of(this, decl),
    ensures
        frozen(destructure_expansion(decl), opened(destructure_expansion(decl), this)) == this,
        reconstructed(destructure_expansion(decl), this, |c: Map<Seq<char>, V>| c) == this,
{
    lemma_built_is_copy(decl.fields(), decl, this);
}

/// Field correspondence: the companion that `into_destruct` returns holds in
/// each field what the source held there; and where one field of the
/// companion is assigned before `freeze`, the result holds the assigned value
/// in that field and the source's values in the others.
pub proof fn law_field_correspondence<V>(
    decl: TypeDeclView,
    this: Map<Seq<char>, V>,
    i: int,
    assigned: V,
)
    requires
        destructure_refusal(decl) is None,
        is_value_of(this, decl),
        0 <= i < decl.fields().len(),
    ensures
        opened(destructure_expansion(decl), this)[decl.fields()[i].name]
            == this[decl.fields()[i].name],
        frozen(
            destructure_expansion(decl),
            opened(destructure_expansion(decl), this).insert(decl.fields()[i].name, assigned),
        ) == this.insert(decl.fields()[i].name, assigned),
        reconstructed(
            destructure_expansion(decl),
            this,
            |c: Map<Seq<char>, V>| c.insert(decl.fields()[i].name, assigned),
        ) == this.insert(decl.fields()[i].name, assigned),
{
    lemma_built_is_copy(decl.fields(), decl, this);
    let edited = this.insert(decl.fields()[i].name, assigned);
    assert(is_value_of(edited, decl)) by {
        assert(is_field(decl.fields(), decl.fields()[i].name));
        assert forall|name: Seq<char>| edited.dom().contains(name) <==> is_field(
            decl.fields(),
            name,
        ) by {
            assert(this.dom().contains(name) <==> is_field(decl.fields(), name));
        }
    }
    lemma_built_is_copy(decl.fields(), decl, edited);
}

/// View transparency: for every record and every value of it, each field of
/// the companion that `as_destruct` returns refers to what the source holds
/// in that field.
pub proof fn law_view_transparency<V>(decl: TypeDeclView, this: Map<Seq<char>, V>)
    requires
        destructure_ref_refusal(decl) is None,
        is_value_of(this, decl),
    ensures
        viewed(destructure_ref_expansion(decl), this) == this,
{
    lemma_built_is_copy(decl.fields(), decl, this);
}

/// Substitute totality: the view lends the fields one by one in source order,
/// a clause for each; and what the closure leaves behind the references is
/// what the source holds after `substitute`.
pub proof fn law_substitute_totality<V>(
    decl: TypeDeclView,
    this: Map<Seq<char>, V>,
    edit: spec_fn(Map<Seq<char>, V>) -> Map<Seq<char>, V>,
)
    requires
        mutation_refusal(decl) is None,
        is_value_of(this, decl),
        is_value_of(edit(this), decl),
    ensures
        mutation_expansion(decl).forward.len() == decl.fields().len(),
        forall|i: int|
            0 <= i < decl.fields().len() ==> (#[trigger] mutation_expansion(decl).forward[i]).field
                == decl.fields()[i].name && mutation_expansion(decl).forward[i].from
                == decl.fields()[i].name,
        substituted(mutation_expansion(decl), this, edit) == edit(this),
{
    lemma_built_is_copy(decl.fields(), decl, this);
    lemma_written_back(decl, edit(this), this);
}

/// Failure preservation, owning: where the closure fails, `try_reconstruct`
/// returns the closure's error and no record; where it succeeds,
/// `try_reconstruct` returns what `reconstruct` returns.
pub proof fn law_failure_preservation<V, E>(
    decl: TypeDeclView,
    this: Map<Seq<char>, V>,
    edit: spec_fn(Map<Seq<char>, V>) -> (Map<Seq<char>, V>, Result<(), E>),
)
    requires
        destructure_refusal(decl) is None,
        is_value_of(this, decl),
        is_value_of(edit(this).0, decl),
    ensures
        edit(this).1 matches Err(error) ==> try_reconstructed(
            destructure_expansion(decl),
            this,
            edit,
        ) == Err::<Map<Seq<char>, V>, E>(error),
        edit(this).1 is Ok ==> try_reconstructed(destructure_expansion(decl), this, edit) == Ok::<
            Map<Seq<char>, V>,
            E,
        >(edit(this).0),
{
    lemma_built_is_copy(decl.fields(), decl, this);
    lemma_built_is_copy(decl.fields(), decl, edit(this).0);
}

/// Failure preservation, in place: `try_substitute` returns what the closure
/// returns, its error where it fails, and leaves in the source what the
/// closure had assigned by then.
pub proof fn law_failure_in_place<V, E>(
    decl: TypeDeclView,
    this: Map<Seq<char>, V>,
    edit: spec_fn(Map<Seq<char>, V>) -> (Map<Seq<char>, V>, Result<(), E>),
)
    requires
        mutation_refusal(decl) is None,
        is_value_of(this, decl),
        is_value_of(edit(this).0, decl),
    ensures
        try_substituted(mutation_expansion(decl), this, edit) == edit(this),
{
    lemma_built_is_copy(decl.fields(), decl, this);
    lemma_written_back(decl, edit(this).0, this);
}

/// Skip semantics: a field marked `skip` is a field of the owning companion,
/// with the source's name and type, and is not public there; every other
/// field is public; and `into_destruct` moves a skipped field's value like
/// any other.
pub proof fn law_skip<V>(decl: TypeDeclView, this: Map<Seq<char>, V>, i: int)
    requires
        destructure_refusal(decl) is None,
        is_value_of(this, decl),
        0 <= i < decl.fields().len(),
    ensures
        destructure_expansion(decl).companion.fields.len() == decl.fields().len(),
        destructure_expansion(decl).companion.fields[i].name == decl.fields()[i].name,
        destructure_expansion(decl).companion.fields[i].ty == decl.fields()[i].ty,
        destructure_expansion(decl).companion.fields[i].public == !is_skipped(decl.fields()[i]),
        opened(destructure_expansion(decl), this)[decl.fields()[i].name]
            == this[decl.fields()[i].name],
{
    lemma_built_is_copy(decl.fields(), decl, this);
}

/// Whether a companion keeps the source's fields: as many, in the same
/// order, each with the source's name and type.
pub open spec fn keeps_fields(e: ExpansionView, decl: TypeDeclView) -> bool {
    &&& e.companion.fields.len() == decl.fields().len()
    &&& forall|i: int|
        0 <= i < decl.fields().len() ==> (#[trigger] e.companion.fields[i]).name
            == decl.fields()[i].name && e.companion.fields[i].ty == decl.fields()[i].ty
}

/// Field order: for every record, each of the three companions has the
/// source's fields, in the source's order and with the source's types. In the
/// borrowing companion and in the mutable view every field is public,
/// whatever its directives.
pub proof fn law_field_order(decl: TypeDeclView)
    requires
        is_record(decl),
    ensures
        keeps_fields(destructure_expansion(decl), decl),
        keeps_fields(destructure_ref_expansion(decl), decl),
        keeps_fields(mutation_expansion(decl), decl),
        forall|i: int|
            0 <= i < decl.fields().len() ==> (#[trigger] destructure_ref_expansion(
                decl,
            ).companion.fields[i]).public,
        forall|i: int|
            0 <= i < decl.fields().len() ==> (#[trigger] mutation_expansion(
                decl,
            ).companion.fields[i]).public,
{
}

/// Whether `lifetime` is what a borrowing companion of `decl` has for a
/// lifetime of its own, when it prefers `base`. Where the record has no
/// field, that is none. Where it has one, that is a lifetime which no
/// parameter of the source is called: `base` with some number of underscores
/// appended, none where `base` itself is free.
pub open spec fn is_own_lifetime(
    lifetime: Option<Seq<char>>,
    base: Seq<char>,
    decl: TypeDeclView,
) -> bool {
    if decl.fields().len() == 0 {
        lifetime is None
    } else {
        &&& lifetime matches Some(l)
        &&& !is_taken(decl.generics, l)
        &&& exists|k: nat| l == #[trigger] candidate(base, k)
        &&& !is_taken(decl.generics, base) ==> l == base
    }
}

/// Generics preservation: for every record, each companion has the source's
/// generic parameters, in the source's order, and the source's `where`
/// clause. The owning companion has no other parameter. The borrowing
/// companion and the mutable view of a record with fields have one more, a
/// lifetime, which comes first in the declaration and which no parameter of
/// the source is called; those of a record without fields have none.
pub proof fn law_generics_preserved(decl: TypeDeclView)
    requires
        is_record(decl),
    ensures
        destructure_expansion(decl).companion.generics == decl.generics,
        destructure_expansion(decl).companion.where_clause == decl.where_clause,
        destructure_expansion(decl).companion.lifetime is None,
        destructure_expansion(decl).companion.name == destruct_name(decl.name),
        destructure_ref_expansion(decl).companion.generics == decl.generics,
        destructure_ref_expansion(decl).companion.where_clause == decl.where_clause,
        destructure_ref_expansion(decl).companion.name == destruct_ref_name(decl.name),
        is_own_lifetime(destructure_ref_expansion(decl).companion.lifetime, origin_lifetime(), decl),
        mutation_expansion(decl).companion.generics == decl.generics,
        mutation_expansion(decl).companion.where_clause == decl.where_clause,
        mutation_expansion(decl).companion.name == mutation_name(decl.name),
        is_own_lifetime(mutation_expansion(decl).companion.lifetime, mutation_lifetime(), decl),
        forall|e: ExpansionView|
            e == destructure_expansion(decl) || e == destructure_ref_expansion(decl) || e
                == mutation_expansion(decl) ==> #[trigger] declared_params(e.companion) == own(
                e.companion.lifetime,
            ) + param_texts(decl.generics, ParamForm::Defined),
{
    lemma_fresh_from(origin_lifetime(), decl.generics, 0);
    lemma_fresh_from(mutation_lifetime(), decl.generics, 0);
    assert(candidate(origin_lifetime(), 0) =~= origin_lifetime());
    assert(candidate(mutation_lifetime(), 0) =~= mutation_lifetime());
}

/// Whether every lifetime that a companion declares for itself is used: the
/// companion has a field, and the type of each of its fields is a reference
/// of that lifetime to the type of the source's field.
pub open spec fn uses_own_lifetime(e: ExpansionView, decl: TypeDeclView) -> bool {
    e.companion.lifetime matches Some(l) ==> {
        &&& e.companion.fields.len() > 0
        &&& e.companion.fields.len() == decl.fields().len()
        &&& forall|i: int|
            0 <= i < e.companion.fields.len() ==> field_type(
                #[trigger] e.companion.fields[i],
                reference(e.companion.access, e.companion.lifetime),
            ) == (if e.companion.access == Access::Unique {
                "&"@ + l + " mut "@
            } else {
                "&"@ + l + " "@
            }) + decl.fields()[i].ty
    }
}

/// No lifetime without a use: for every record, a companion that declares a
/// lifetime of its own has a field, and each of its fields is a reference of
/// that lifetime. The owning companion declares none.
pub proof fn law_own_lifetime_is_used(decl: TypeDeclView)
    requires
        is_record(decl),
    ensures
        uses_own_lifetime(destructure_expansion(decl), decl),
        uses_own_lifetime(destructure_ref_expansion(decl), decl),
        uses_own_lifetime(mutation_expansion(decl), decl),
        decl.fields().len() == 0 ==> destructure_ref_expansion(decl).companion.lifetime is None
            && mutation_expansion(decl).companion.lifetime is None,
        decl.fields().len() > 0 ==> destructure_ref_expansion(decl).companion.lifetime is Some
            && mutation_expansion(decl).companion.lifetime is Some,
{
}

} // verus!
