//! A worked expansion with a skipped field: the owning companion keeps the
//! field, with its value, but does not let other modules assign it.
use vstd::prelude::*;
use vstd::string::StringExecFns;

verus! {

/// A record whose last field is marked `skip`.
#[derive(Debug)]
pub struct Domain {
    pub a: String,
    pub b: String,
    pub c: String,
    d: String,
}

/// The mathematical value of a [`Domain`] and of its companions.
pub struct DomainView {
    pub a: Seq<char>,
    pub b: Seq<char>,
    pub c: Seq<char>,
    pub d: Seq<char>,
}

impl View for Domain {
    type V = DomainView;

    closed spec fn view(&self) -> DomainView {
        DomainView { a: self.a@, b: self.b@, c: self.c@, d: self.d@ }
    }
}

/// The owning companion of [`Domain`]. The skipped field `d` is not public.
#[derive(Debug)]
pub struct DestructDomain {
    pub a: String,
    pub b: String,
    pub c: String,
    d: String,
}

impl View for DestructDomain {
    type V = DomainView;

    closed spec fn view(&self) -> DomainView {
        DomainView { a: self.a@, b: self.b@, c: self.c@, d: self.d@ }
    }
}

/// The borrowing companion of [`Domain`]. It does not know of `skip`: every
/// field is public.
#[derive(Debug)]
pub struct DestructDomainRef<'origin> {
    pub a: &'origin String,
    pub b: &'origin String,
    pub c: &'origin String,
    pub d: &'origin String,
}

impl<'origin> View for DestructDomainRef<'origin> {
    type V = DomainView;

    open spec fn view(&self) -> DomainView {
        DomainView { a: self.a@, b: self.b@, c: self.c@, d: self.d@ }
    }
}

impl Default for Domain {
    fn default() -> (domain: Domain)
        ensures
            domain@ == (DomainView { a: "a"@, b: "b"@, c: "c"@, d: "d"@ }),
    {
        Domain {
            a: String::from_str("a"),
            b: String::from_str("b"),
            c: String::from_str("c"),
            d: String::from_str("d"),
        }
    }
}

impl Domain {
    /// Convert the field value to a fully disclosed Destruct structure.
    pub fn into_destruct(self) -> (des: DestructDomain)
        ensures
            des@ == self@,
    {
        DestructDomain { a: self.a, b: self.b, c: self.c, d: self.d }
    }

    /// Makes the field value to a fully disclosed Destruct structure with access by reference.
    pub fn as_destruct<'origin>(&'origin self) -> (des: DestructDomainRef<'origin>)
        ensures
            des@ == self@,
    {
        DestructDomainRef { a: &self.a, b: &self.b, c: &self.c, d: &self.d }
    }
}

impl DestructDomain {
    /// Restore the Destruct structure to the structure it came from.
    pub fn freeze(self) -> (domain: Domain)
        ensures
            domain@ == self@,
    {
        Domain { a: self.a, b: self.b, c: self.c, d: self.d }
    }
}

/// Replaces `a` by way of the owning companion. The other fields, the
/// skipped one among them, come back as they were.
pub fn replace_a(domain: Domain, a: String) -> (out: Domain)
    ensures
        out@ == (DomainView { a: a@, ..domain@ }),
{
    let mut destruct = domain.into_destruct();
    destruct.a = a;
    destruct.freeze()
}

} // verus!
