//! What the emitted methods do to a record's value.
//!
//! A record's value is what each of its fields holds: a map from the fields'
//! names. A closure that edits a companion is given by what it leaves in the
//! companion's fields and, where it may fail, by what it returns.
use vstd::prelude::*;
use crate::emit::{bind, binds};
use crate::model::{FieldView, TypeDeclView};
use crate::output::{BindView, ExpansionView};

verus! {

/// Whether `name` is the name of one of the fields.
pub open spec fn is_field(fields: Seq<FieldView>, name: Seq<char>) -> bool {
    exists|i: int| 0 <= i < fields.len() && (#[trigger] fields[i]).name == name
}

/// Whether `value` is a value of the record `decl`: it holds something for
/// each field and for nothing else.
pub open spec fn is_value_of<V>(value: Map<Seq<char>, V>, decl: TypeDeclView) -> bool {
    forall|name: Seq<char>| value.dom().contains(name) <==> is_field(decl.fields(), name)
}

/// Whether a struct literal with these clauses sets the field `name`.
pub open spec fn sets(clauses: Seq<BindView>, name: Seq<char>) -> bool {
    exists|i: int| 0 <= i < clauses.len() && (#[trigger] clauses[i]).field == name
}

/// Whether a struct literal with these clauses reads the field `name` of `self`.
pub open spec fn reads(clauses: Seq<BindView>, name: Seq<char>) -> bool {
    exists|i: int| 0 <= i < clauses.len() && (#[trigger] clauses[i]).from == name
}

/// A clause that sets the field `name`.
pub open spec fn setter(clauses: Seq<BindView>, name: Seq<char>) -> BindView {
    clauses[choose|i: int| 0 <= i < clauses.len() && (#[trigger] clauses[i]).field == name]
}

/// A clause that reads the field `name` of `self`.
pub open spec fn reader(clauses: Seq<BindView>, name: Seq<char>) -> BindView {
    clauses[choose|i: int| 0 <= i < clauses.len() && (#[trigger] clauses[i]).from == name]
}

/// The value that a struct literal with these clauses builds from `this`:
/// each field that a clause sets holds what the field that the clause reads
/// holds in `this`.
pub open spec fn built<V>(clauses: Seq<BindView>, this: Map<Seq<char>, V>) -> Map<Seq<char>, V> {
    Map::new(
        |name: Seq<char>| sets(clauses, name),
        |name: Seq<char>| this[setter(clauses, name).from],
    )
}

/// The value of `self` once a view that these clauses built is given up, when
/// the view's references point at `edited`: each field that a clause lent
/// holds what the reference points at; each other field is as it was.
pub open spec fn written_back<V>(
    clauses: Seq<BindView>,
    edited: Map<Seq<char>, V>,
    this: Map<Seq<char>, V>,
) -> Map<Seq<char>, V> {
    Map::new(
        |name: Seq<char>| this.dom().contains(name),
        |name: Seq<char>|
            if reads(clauses, name) {
                edited[reader(clauses, name).field]
            } else {
                this[name]
            },
    )
}

/// What `into_destruct` returns for `this`.
pub open spec fn opened<V>(e: ExpansionView, this: Map<Seq<char>, V>) -> Map<Seq<char>, V> {
    built(e.forward, this)
}

/// What `freeze` returns for the companion `this`.
pub open spec fn frozen<V>(e: ExpansionView, this: Map<Seq<char>, V>) -> Map<Seq<char>, V> {
    built(e.backward, this)
}

/// What `reconstruct` returns for `this`, when the closure leaves
/// `edit(companion)` in the companion: the source is opened, edited, frozen.
pub open spec fn reconstructed<V>(
    e: ExpansionView,
    this: Map<Seq<char>, V>,
    edit: spec_fn(Map<Seq<char>, V>) -> Map<Seq<char>, V>,
) -> Map<Seq<char>, V> {
    frozen(e, edit(opened(e, this)))
}

/// What `try_reconstruct` returns for `this`, when the closure leaves the
/// first part of `edit(companion)` in the companion and returns the second:
/// the frozen companion where the closure succeeds, else the closure's error.
pub open spec fn try_reconstructed<V, E>(
    e: ExpansionView,
    this: Map<Seq<char>, V>,
    edit: spec_fn(Map<Seq<char>, V>) -> (Map<Seq<char>, V>, Result<(), E>),
) -> Result<Map<Seq<char>, V>, E> {
    match edit(opened(e, this)).1 {
        Ok(_) => Ok(frozen(e, edit(opened(e, this)).0)),
        Err(error) => Err(error),
    }
}

/// What `as_destruct` returns for `this`, each reference taken for what it
/// points at.
pub open spec fn viewed<V>(e: ExpansionView, this: Map<Seq<char>, V>) -> Map<Seq<char>, V> {
    built(e.forward, this)
}

/// The value of `this` after `substitute`, when the closure leaves the view's
/// references pointing at `edit(view)`.
pub open spec fn substituted<V>(
    e: ExpansionView,
    this: Map<Seq<char>, V>,
    edit: spec_fn(Map<Seq<char>, V>) -> Map<Seq<char>, V>,
) -> Map<Seq<char>, V> {
    written_back(e.forward, edit(built(e.forward, this)), this)
}

/// The value of `this` after `try_substitute` and what the method returns,
/// when the closure leaves the view's references pointing at the first part
/// of `edit(view)` and returns the second.
pub open spec fn try_substituted<V, E>(
    e: ExpansionView,
    this: Map<Seq<char>, V>,
    edit: spec_fn(Map<Seq<char>, V>) -> (Map<Seq<char>, V>, Result<(), E>),
) -> (Map<Seq<char>, V>, Result<(), E>) {
    (
        written_back(e.forward, edit(built(e.forward, this)).0, this),
        edit(built(e.forward, this)).1,
    )
}

/// A struct literal with one clause per field, each from the field of the
/// same name, builds what it is given.
pub proof fn lemma_built_is_copy<V>(fields: Seq<FieldView>, decl: TypeDeclView, this: Map<Seq<char>, V>)
    requires
        fields == decl.fields(),
        is_value_of(this, decl),
    ensures
        built(binds(fields), this) == this,
{
    let clauses = binds(fields);
    assert forall|name: Seq<char>| sets(clauses, name) <==> is_field(fields, name) by {
        if sets(clauses, name) {
            let i = choose|i: int| 0 <= i < clauses.len() && (#[trigger] clauses[i]).field == name;
            assert(fields[i].name == name);
        }
        if is_field(fields, name) {
            let i = choose|i: int| 0 <= i < fields.len() && (#[trigger] fields[i]).name == name;
            assert(clauses[i].field == name);
        }
    }
    assert forall|name: Seq<char>| sets(clauses, name) implies setter(clauses, name).from
        == name by {
        let i = choose|i: int| 0 <= i < clauses.len() && (#[trigger] clauses[i]).field == name;
        assert(clauses[i] == bind(fields[i]));
    }
    assert(built(clauses, this) =~= this);
}

/// Where the view has one clause per field, giving the view up leaves in the
/// source what the references point at.
pub proof fn lemma_written_back<V>(
    decl: TypeDeclView,
    edited: Map<Seq<char>, V>,
    this: Map<Seq<char>, V>,
)
    requires
        is_value_of(this, decl),
        is_value_of(edited, decl),
    ensures
        written_back(binds(decl.fields()), edited, this) == edited,
{
    let fields = decl.fields();
    let clauses = binds(fields);
    assert forall|name: Seq<char>| this.dom().contains(name) implies reads(clauses, name)
        && reader(clauses, name).field == name by {
        assert(is_field(fields, name));
        let i = choose|i: int| 0 <= i < fields.len() && (#[trigger] fields[i]).name == name;
        assert(clauses[i].from == name);
        let j = choose|j: int| 0 <= j < clauses.len() && (#[trigger] clauses[j]).from == name;
        assert(clauses[j] == bind(fields[j]));
    }
    assert forall|name: Seq<char>| this.dom().contains(name) <==> edited.dom().contains(name) by {
        assert(this.dom().contains(name) <==> is_field(fields, name));
        assert(edited.dom().contains(name) <==> is_field(fields, name));
    }
    assert(written_back(clauses, edited, this) =~= edited);
}

} // verus!
