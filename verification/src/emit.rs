//! What the three derivations share: the refusal of what is not a record, and
//! the per-field clauses, which keep the order of the source's fields.
use vstd::prelude::*;
use crate::directive::is_skipped;
use crate::names::{fresh_name, make_fresh_name};
use crate::model::{Body, Field, FieldView, GenericParam, TypeDecl, TypeDeclView};
use crate::output::{Bind, BindView, CompanionField, CompanionFieldView};

verus! {

/// Whether a declaration is a record: a struct with named fields.
pub open spec fn is_record(decl: TypeDeclView) -> bool {
    decl.body is Named
}

/// The declaration clause of one field. Where the companion honors `skip`, a
/// field marked so is not public; every other field is. Name and type are the
/// source's.
pub open spec fn companion_field(f: FieldView, honor_skip: bool) -> CompanionFieldView {
    CompanionFieldView { public: !(honor_skip && is_skipped(f)), name: f.name, ty: f.ty }
}

/// The declaration clauses of a companion: one per field, in source order.
pub open spec fn companion_fields(fields: Seq<FieldView>, honor_skip: bool) -> Seq<
    CompanionFieldView,
> {
    Seq::new(fields.len(), |i: int| companion_field(fields[i], honor_skip))
}

/// The move clause of one field: the field of that name is taken from the
/// field of that name.
pub open spec fn bind(f: FieldView) -> BindView {
    BindView { field: f.name, from: f.name }
}

/// The move clauses between a source and its companion: one per field, in
/// source order.
pub open spec fn binds(fields: Seq<FieldView>) -> Seq<BindView> {
    Seq::new(fields.len(), |i: int| bind(fields[i]))
}

/// The lifetime of a borrowing companion's own. A companion of a record
/// with fields gets the name that [`fresh_name`] makes of `base`, and each of
/// its fields is a reference of that lifetime. A companion of a record
/// without fields has no reference, so it gets no lifetime: one that no field
/// used would not be accepted in a declaration.
pub open spec fn own_lifetime(base: Seq<char>, decl: TypeDeclView) -> Option<Seq<char>> {
    if decl.fields().len() == 0 {
        None
    } else {
        Some(fresh_name(base, decl.generics))
    }
}

/// Makes the lifetime [`own_lifetime`] for a record with these fields and
/// generic parameters.
pub fn make_own_lifetime(base: &str, fields: &Vec<Field>, generics: &Vec<GenericParam>) -> (out:
    Option<String>)
    ensures
        out is Some <==> fields.len() > 0,
        out matches Some(l) ==> l@ == fresh_name(
            base@,
            generics@.map_values(|g: GenericParam| g@),
        ),
{
    if fields.len() == 0 {
        None
    } else {
        Some(make_fresh_name(base, generics))
    }
}

impl TypeDecl {
    /// The fields of a record, or `None` for any other declaration.
    pub fn named_fields(&self) -> (fields: Option<&Vec<Field>>)
        ensures
            fields is Some <==> is_record(self@),
            fields matches Some(fs) ==> fs@.map_values(|f: Field| f@) == self@.fields(),
    {
        match &self.body {
            Body::Named(fields) => Some(fields),
            _ => None,
        }
    }
}

/// A copy of a list of generic parameters.
pub fn copy_generics(generics: &Vec<GenericParam>) -> (out: Vec<GenericParam>)
    ensures
        out@.map_values(|g: GenericParam| g@) == generics@.map_values(|g: GenericParam| g@),
{
    let mut out: Vec<GenericParam> = Vec::new();
    let mut i: usize = 0;
    while i < generics.len()
        invariant
            i <= generics.len(),
            out@.len() == i,
            forall|j: int| 0 <= j < i ==> (#[trigger] out@[j])@ == generics@[j]@,
        decreases generics.len() - i,
    {
        let g = &generics[i];
        out.push(
            GenericParam {
                kind: g.kind,
                name: g.name.clone(),
                bounds: g.bounds.clone(),
                default: g.default.clone(),
            },
        );
        i += 1;
    }
    assert(out@.map_values(|g: GenericParam| g@) =~= generics@.map_values(|g: GenericParam| g@));
    out
}

/// The declaration clauses of a companion of a record with these fields.
pub fn make_companion_fields(fields: &Vec<Field>, honor_skip: bool) -> (out: Vec<CompanionField>)
    ensures
        out@.map_values(|f: CompanionField| f@) == companion_fields(
            fields@.map_values(|f: Field| f@),
            honor_skip,
        ),
{
    let ghost fs = fields@.map_values(|f: Field| f@);
    let mut out: Vec<CompanionField> = Vec::new();
    let mut i: usize = 0;
    while i < fields.len()
        invariant
            i <= fields.len(),
            fs == fields@.map_values(|f: Field| f@),
            out@.len() == i,
            forall|j: int| 0 <= j < i ==> (#[trigger] out@[j])@ == companion_field(fs[j], honor_skip),
        decreases fields.len() - i,
    {
        let f = &fields[i];
        let public = !(honor_skip && f.is_skipped());
        out.push(CompanionField { public, name: f.name.clone(), ty: f.ty.clone() });
        i += 1;
    }
    assert(out@.map_values(|f: CompanionField| f@) =~= companion_fields(fs, honor_skip));
    out
}

/// The move clauses between a record with these fields and a companion.
pub fn make_binds(fields: &Vec<Field>) -> (out: Vec<Bind>)
    ensures
        out@.map_values(|b: Bind| b@) == binds(fields@.map_values(|f: Field| f@)),
{
    let ghost fs = fields@.map_values(|f: Field| f@);
    let mut out: Vec<Bind> = Vec::new();
    let mut i: usize = 0;
    while i < fields.len()
        invariant
            i <= fields.len(),
            fs == fields@.map_values(|f: Field| f@),
            out@.len() == i,
            forall|j: int| 0 <= j < i ==> (#[trigger] out@[j])@ == bind(fs[j]),
        decreases fields.len() - i,
    {
        let f = &fields[i];
        out.push(Bind { field: f.name.clone(), from: f.name.clone() });
        i += 1;
    }
    assert(out@.map_values(|b: Bind| b@) =~= binds(fs));
    out
}

} // verus!
