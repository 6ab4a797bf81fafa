//! Per-field directives: which are recognized, and what they say of a field.
use vstd::prelude::*;
use vstd::string::StringExecFns;
use crate::model::{Directive, DirectiveView, Field, FieldView};

verus! {

/// The name of the attribute whose items are the directives of a field.
pub open spec fn group_name() -> Seq<char> {
    "destructure"@
}

/// Whether an attribute called `path` holds directives. No other attribute
/// of a field is read.
pub fn is_group(path: &str) -> (b: bool)
    ensures
        b == (path@ == group_name()),
{
    String::from_str(path) == String::from_str("destructure")
}

/// The name of the one recognized directive.
pub open spec fn skip_name() -> Seq<char> {
    "skip"@
}

/// Whether a directive is the bare flag `skip`.
pub open spec fn is_skip(d: DirectiveView) -> bool {
    d.bare && d.name == skip_name()
}

/// Whether a field's directives are acceptable: each is the bare flag `skip`,
/// and the flag is given at most once.
pub open spec fn directives_valid(ds: Seq<DirectiveView>) -> bool {
    &&& ds.len() <= 1
    &&& forall|i: int| 0 <= i < ds.len() ==> is_skip(#[trigger] ds[i])
}

/// Whether a field is marked `skip`: one of its directives is the bare flag.
pub open spec fn is_skipped(f: FieldView) -> bool {
    exists|i: int| 0 <= i < f.directives.len() && is_skip(#[trigger] f.directives[i])
}

/// The index of the first field whose directives are not acceptable, or the
/// number of fields if there is none.
pub open spec fn first_invalid(fields: Seq<FieldView>) -> int
    decreases fields.len(),
{
    if fields.len() == 0 {
        0
    } else if !directives_valid(fields[0].directives) {
        0
    } else {
        1 + first_invalid(fields.subrange(1, fields.len() as int))
    }
}

/// `first_invalid` is the least index of a field with unacceptable directives.
pub proof fn lemma_first_invalid(fields: Seq<FieldView>)
    ensures
        0 <= first_invalid(fields) <= fields.len(),
        forall|i: int|
            0 <= i < first_invalid(fields) ==> directives_valid((#[trigger] fields[i]).directives),
        first_invalid(fields) < fields.len() ==> !directives_valid(
            fields[first_invalid(fields)].directives,
        ),
    decreases fields.len(),
{
    if fields.len() > 0 && directives_valid(fields[0].directives) {
        let rest = fields.subrange(1, fields.len() as int);
        lemma_first_invalid(rest);
        assert forall|i: int| 0 <= i < first_invalid(fields) implies directives_valid(
            (#[trigger] fields[i]).directives,
        ) by {
            if i > 0 {
                assert(fields[i] == rest[i - 1]);
            }
        }
        assert(first_invalid(fields) < fields.len() ==> fields[first_invalid(fields)]
            == rest[first_invalid(rest)]);
    }
}

impl Directive {
    /// Whether this directive is the bare flag `skip`.
    pub fn is_skip(&self) -> (b: bool)
        ensures
            b == is_skip(self@),
    {
        let skip = String::from_str("skip");
        self.bare && self.name == skip
    }
}

impl Field {
    /// Whether the field's directives are acceptable.
    pub fn directives_valid(&self) -> (b: bool)
        ensures
            b == directives_valid(self@.directives),
    {
        let n = self.directives.len();
        if n == 0 {
            true
        } else if n == 1 {
            let ok = self.directives[0].is_skip();
            assert(self@.directives[0] == self.directives@[0]@);
            ok
        } else {
            false
        }
    }

    /// Whether the field is marked `skip`.
    pub fn is_skipped(&self) -> (b: bool)
        ensures
            b == is_skipped(self@),
    {
        let mut i: usize = 0;
        while i < self.directives.len()
            invariant
                i <= self.directives.len(),
                forall|j: int| 0 <= j < i ==> !is_skip(#[trigger] self@.directives[j]),
            decreases self.directives.len() - i,
        {
            let found = self.directives[i].is_skip();
            assert(self@.directives[i as int] == self.directives@[i as int]@);
            if found {
                return true;
            }
            i += 1;
        }
        false
    }
}

} // verus!
