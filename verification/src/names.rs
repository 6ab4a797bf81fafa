//! Names that the derivations make up: the companions' names, the lifetime
//! that binds a borrowing companion to its source, and the type parameter
//! that stands for a closure's error.
use vstd::prelude::*;
use vstd::string::StringExecFns;
use crate::model::{GenericParam, GenericParamView};

verus! {

/// The name of the owning companion of `name`.
pub open spec fn destruct_name(name: Seq<char>) -> Seq<char> {
    "Destruct"@ + name
}

/// The name of the borrowing companion of `name`.
pub open spec fn destruct_ref_name(name: Seq<char>) -> Seq<char> {
    "Destruct"@ + name + "Ref"@
}

/// The name of the mutable view of `name`.
pub open spec fn mutation_name(name: Seq<char>) -> Seq<char> {
    name + "Mut"@
}

/// The lifetime that the borrowing companion prefers for its references.
pub open spec fn origin_lifetime() -> Seq<char> {
    "'__origin_destruct_lifetime"@
}

/// The lifetime that the mutable view prefers for its references.
pub open spec fn mutation_lifetime() -> Seq<char> {
    "'mutation"@
}

/// The type parameter that a fallible method prefers for the error of its closure.
pub open spec fn error_type() -> Seq<char> {
    "E"@
}

/// `n` underscores.
pub open spec fn underscores(n: nat) -> Seq<char> {
    Seq::new(n, |i: int| '_')
}

/// The `k`-th candidate for a name that starts as `base`.
pub open spec fn candidate(base: Seq<char>, k: nat) -> Seq<char> {
    base + underscores(k)
}

/// Whether some generic parameter is called `name`.
pub open spec fn is_taken(generics: Seq<GenericParamView>, name: Seq<char>) -> bool {
    exists|i: int| 0 <= i < generics.len() && (#[trigger] generics[i]).name == name
}

/// The length of the longest name among the generic parameters.
pub open spec fn longest_name(generics: Seq<GenericParamView>) -> nat
    decreases generics.len(),
{
    if generics.len() == 0 {
        0
    } else {
        let rest = longest_name(generics.drop_last());
        let last = generics.last().name.len();
        if last > rest {
            last
        } else {
            rest
        }
    }
}

/// No parameter's name is longer than the longest.
pub proof fn lemma_longest_name(generics: Seq<GenericParamView>, i: int)
    requires
        0 <= i < generics.len(),
    ensures
        generics[i].name.len() <= longest_name(generics),
    decreases generics.len(),
{
    if i < generics.len() - 1 {
        lemma_longest_name(generics.drop_last(), i);
    }
}

/// A name that is taken is no longer than the longest name.
pub proof fn lemma_taken_is_short(generics: Seq<GenericParamView>, name: Seq<char>)
    requires
        is_taken(generics, name),
    ensures
        name.len() <= longest_name(generics),
{
    let i = choose|i: int| 0 <= i < generics.len() && (#[trigger] generics[i]).name == name;
    lemma_longest_name(generics, i);
}

/// The first candidate from the `k`-th on that no generic parameter is called.
pub open spec fn fresh_from(base: Seq<char>, generics: Seq<GenericParamView>, k: nat) -> Seq<char>
    decreases longest_name(generics) + 1 - candidate(base, k).len(),
{
    if is_taken(generics, candidate(base, k)) {
        proof {
            lemma_taken_is_short(generics, candidate(base, k));
        }
        fresh_from(base, generics, k + 1)
    } else {
        candidate(base, k)
    }
}

/// The name that a derivation picks for a generic parameter of its own, beside
/// these parameters of the source: `base` itself unless a parameter is called
/// so, else `base` with as few underscores appended as make it differ from
/// every parameter.
pub open spec fn fresh_name(base: Seq<char>, generics: Seq<GenericParamView>) -> Seq<char> {
    fresh_from(base, generics, 0)
}

/// What `fresh_from` yields is a candidate, is not taken, and is the first such.
pub proof fn lemma_fresh_from(base: Seq<char>, generics: Seq<GenericParamView>, k: nat)
    ensures
        !is_taken(generics, fresh_from(base, generics, k)),
        exists|n: nat|
            k <= n && fresh_from(base, generics, k) == #[trigger] candidate(base, n) && forall|j: nat|
                k <= j < n ==> is_taken(generics, #[trigger] candidate(base, j)),
    decreases longest_name(generics) + 1 - candidate(base, k).len(),
{
    if is_taken(generics, candidate(base, k)) {
        lemma_taken_is_short(generics, candidate(base, k));
        lemma_fresh_from(base, generics, k + 1);
        let n = choose|n: nat|
            k + 1 <= n && fresh_from(base, generics, k + 1) == #[trigger] candidate(base, n)
                && forall|j: nat|
                k + 1 <= j < n ==> is_taken(generics, #[trigger] candidate(base, j));
        assert(k <= n && fresh_from(base, generics, k) == candidate(base, n));
        assert forall|j: nat| k <= j < n implies is_taken(
            generics,
            #[trigger] candidate(base, j),
        ) by {}
    } else {
        assert(fresh_from(base, generics, k) == candidate(base, k));
    }
}

/// Whether a parameter among `generics` is called `name`.
pub fn has_name(generics: &Vec<GenericParam>, name: &String) -> (b: bool)
    ensures
        b == is_taken(generics@.map_values(|g: GenericParam| g@), name@),
{
    let ghost gs = generics@.map_values(|g: GenericParam| g@);
    let mut i: usize = 0;
    while i < generics.len()
        invariant
            i <= generics.len(),
            gs == generics@.map_values(|g: GenericParam| g@),
            forall|j: int| 0 <= j < i ==> (#[trigger] gs[j]).name != name@,
        decreases generics.len() - i,
    {
        if generics[i].name == *name {
            assert(gs[i as int].name == name@);
            return true;
        }
        i += 1;
    }
    false
}

/// Makes the name [`fresh_name`] of `base` beside these generic parameters.
pub fn make_fresh_name(base: &str, generics: &Vec<GenericParam>) -> (name: String)
    ensures
        name@ == fresh_name(base@, generics@.map_values(|g: GenericParam| g@)),
{
    let ghost gs = generics@.map_values(|g: GenericParam| g@);
    let mut name = String::from_str(base);
    let ghost mut k: nat = 0;
    assert(name@ == candidate(base@, 0));
    while has_name(generics, &name)
        invariant
            gs == generics@.map_values(|g: GenericParam| g@),
            name@ == candidate(base@, k),
            fresh_from(base@, gs, 0) == fresh_from(base@, gs, k),
        decreases longest_name(gs) + 1 - candidate(base@, k).len(),
    {
        proof {
            lemma_taken_is_short(gs, candidate(base@, k));
            reveal_strlit("_");
            assert(candidate(base@, k) + "_"@ == candidate(base@, k + 1));
            k = k + 1;
        }
        name.append("_");
    }
    name
}

/// The name of the owning companion of `name`.
pub fn make_destruct_name(name: &String) -> (out: String)
    ensures
        out@ == destruct_name(name@),
{
    String::from_str("Destruct").concat(name.as_str())
}

/// The name of the borrowing companion of `name`.
pub fn make_destruct_ref_name(name: &String) -> (out: String)
    ensures
        out@ == destruct_ref_name(name@),
{
    String::from_str("Destruct").concat(name.as_str()).concat("Ref")
}

/// The name of the mutable view of `name`.
pub fn make_mutation_name(name: &String) -> (out: String)
    ensures
        out@ == mutation_name(name@),
{
    name.clone().concat("Mut")
}

} // verus!
