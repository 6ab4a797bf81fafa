//! The source text of an expansion.
use vstd::prelude::*;
use vstd::string::StringExecFns;
use crate::model::{GenericParam, GenericParamView, ParamKind};
use crate::output::{Access, Bind, BindView, Companion, CompanionField, CompanionFieldView, CompanionView, Expansion, ExpansionView, Method, option_view};
use crate::text::{join, joined, views};

verus! {

/// A generic parameter where it is declared: its name, and its bounds if it
/// has any; a constant parameter with `const` and its type.
pub open spec fn param_decl(g: GenericParamView) -> Seq<char> {
    match g.kind {
        ParamKind::Const => "const "@ + g.name + ": "@ + g.bounds,
        _ => if g.bounds.len() == 0 {
            g.name
        } else {
            g.name + ": "@ + g.bounds
        },
    }
}

/// A generic parameter where a type declares it: as [`param_decl`] has it,
/// and with its default if it has one.
pub open spec fn param_def(g: GenericParamView) -> Seq<char> {
    if g.default.len() == 0 {
        param_decl(g)
    } else {
        param_decl(g) + " = "@ + g.default
    }
}

/// How a generic parameter is written.
#[derive(Clone, Copy, Debug, PartialEq, Eq, Structural)]
pub enum ParamForm {
    /// As a generic argument: the name.
    Name,
    /// As a block of methods declares it: name and bounds.
    Bounded,
    /// As a type declares it: name, bounds and default.
    Defined,
}

/// A generic parameter in the form `form`.
pub open spec fn param_text(g: GenericParamView, form: ParamForm) -> Seq<char> {
    match form {
        ParamForm::Name => g.name,
        ParamForm::Bounded => param_decl(g),
        ParamForm::Defined => param_def(g),
    }
}

/// The generic parameters, each in the form `form`.
pub open spec fn param_texts(generics: Seq<GenericParamView>, form: ParamForm) -> Seq<Seq<char>> {
    Seq::new(generics.len(), |i: int| param_text(generics[i], form))
}

/// A lifetime of the companion's own, as a list of one or none.
pub open spec fn own(lifetime: Option<Seq<char>>) -> Seq<Seq<char>> {
    match lifetime {
        Some(l) => seq![l],
        None => Seq::empty(),
    }
}

/// A lifetime of the companion's own as text; nothing if it has none.
pub open spec fn or_empty(lifetime: Option<Seq<char>>) -> Seq<char> {
    match lifetime {
        Some(l) => l,
        None => Seq::empty(),
    }
}

/// A list between angle brackets; nothing if the list is empty.
pub open spec fn angle(parts: Seq<Seq<char>>) -> Seq<char> {
    if parts.len() == 0 {
        Seq::empty()
    } else {
        "<"@ + joined(parts, ", "@) + ">"@
    }
}

/// A `where` clause; nothing if there are no predicates.
pub open spec fn where_text(predicates: Seq<char>) -> Seq<char> {
    if predicates.len() == 0 {
        Seq::empty()
    } else {
        " where "@ + predicates
    }
}

/// What stands before a field's type in the companion.
pub open spec fn reference(access: Access, lifetime: Option<Seq<char>>) -> Seq<char> {
    match access {
        Access::Owned => Seq::empty(),
        Access::Shared => "&"@ + or_empty(lifetime) + " "@,
        Access::Unique => "&"@ + or_empty(lifetime) + " mut "@,
    }
}

/// What stands before `self.field` where the companion is built.
pub open spec fn borrow(access: Access) -> Seq<char> {
    match access {
        Access::Owned => Seq::empty(),
        Access::Shared => "&"@,
        Access::Unique => "&mut "@,
    }
}

/// The word that makes a field public, or nothing.
pub open spec fn visibility(public: bool) -> Seq<char> {
    if public {
        "pub "@
    } else {
        Seq::empty()
    }
}

/// The type of a companion's field: the source's type after `prefix`, which
/// makes it a reference where the companion borrows.
pub open spec fn field_type(f: CompanionFieldView, prefix: Seq<char>) -> Seq<char> {
    prefix + f.ty
}

/// One line of the companion's declaration.
pub open spec fn field_decl(f: CompanionFieldView, prefix: Seq<char>) -> Seq<char> {
    "    "@ + visibility(f.public) + f.name + ": "@ + field_type(f, prefix) + ",\n"@
}

/// The lines of the companion's fields.
pub open spec fn field_decls(fields: Seq<CompanionFieldView>, prefix: Seq<char>) -> Seq<
    Seq<char>,
> {
    Seq::new(fields.len(), |i: int| field_decl(fields[i], prefix))
}

/// One clause of a struct literal.
pub open spec fn bind_text(b: BindView, prefix: Seq<char>) -> Seq<char> {
    b.field + ": "@ + prefix + "self."@ + b.from
}

/// The clauses of a struct literal.
pub open spec fn bind_texts(binds: Seq<BindView>, prefix: Seq<char>) -> Seq<Seq<char>> {
    Seq::new(binds.len(), |i: int| bind_text(binds[i], prefix))
}

/// A struct literal that builds a `name` from the fields of `self`.
pub open spec fn literal(name: Seq<char>, binds: Seq<BindView>, prefix: Seq<char>) -> Seq<char> {
    name + " { "@ + joined(bind_texts(binds, prefix), ", "@) + " }"@
}

/// The parameters that a companion's declaration lists: its own lifetime
/// where it has one, then the source's generic parameters.
pub open spec fn declared_params(c: CompanionView) -> Seq<Seq<char>> {
    own(c.lifetime) + param_texts(c.generics, ParamForm::Defined)
}

/// The companion's declaration.
pub open spec fn struct_text(c: CompanionView) -> Seq<char> {
    "/// Do not have an explicit implementation for this structure.\npub struct "@ + c.name
        + angle(declared_params(c)) + where_text(c.where_clause) + " {\n"@
        + joined(field_decls(c.fields, reference(c.access, c.lifetime)), ""@) + "}\n"@
}

/// The source type with its generic arguments.
pub open spec fn source_type(e: ExpansionView) -> Seq<char> {
    e.source + angle(param_texts(e.companion.generics, ParamForm::Name))
}

/// The companion type with its generic arguments, the first of which is
/// `lifetime` where the companion has a lifetime of its own.
pub open spec fn companion_type(e: ExpansionView, lifetime: Option<Seq<char>>) -> Seq<char> {
    e.companion.name + angle(own(lifetime) + param_texts(e.companion.generics, ParamForm::Name))
}

/// The lifetime `'_` in place of a lifetime of the companion's own.
pub open spec fn inferred(lifetime: Option<Seq<char>>) -> Option<Seq<char>> {
    match lifetime {
        Some(_) => Some("'_"@),
        None => None,
    }
}

/// The companion type as a closure's parameter sees it: with its own
/// lifetime, where it has one, left to inference.
pub open spec fn viewed_type(e: ExpansionView) -> Seq<char> {
    companion_type(
        e,
        inferred(e.companion.lifetime),
    )
}

/// The text of `into_destruct`.
pub open spec fn into_destruct_text(e: ExpansionView) -> Seq<char> {
    "    /// Convert the field value to a fully disclosed Destruct structure.\n    ///\n    /// If you wish to revert the Destruct structure back to the structure it came from, see `freeze()`.\n    pub fn into_destruct(self) -> "@
        + companion_type(e, e.companion.lifetime) + " {\n        "@ + literal(
        e.companion.name,
        e.forward,
        borrow(e.companion.access),
    ) + "\n    }\n"@
}

/// The text of `reconstruct`.
pub open spec fn reconstruct_text(e: ExpansionView) -> Seq<char> {
    "    /// It provides a mechanism for replacing the contents by `into_destruct()`\n    /// and changing the actual value by `freeze()` using a limited closure.\n    ///\n    /// If you wish to use Result, see `try_reconstruct()`.\n    pub fn reconstruct(self, f: impl FnOnce(&mut "@
        + viewed_type(e)
        + ")) -> Self {\n        let mut dest = self.into_destruct();\n        f(&mut dest);\n        dest.freeze()\n    }\n"@
}

/// The text of `try_reconstruct`.
pub open spec fn try_reconstruct_text(e: ExpansionView) -> Seq<char> {
    "    /// As `reconstruct()`, with a closure that may fail: its error is returned as it is.\n    pub fn try_reconstruct<"@
        + e.error_type + ">(self, f: impl FnOnce(&mut "@ + viewed_type(e) + ") -> Result<(), "@
        + e.error_type + ">) -> Result<Self, "@ + e.error_type
        + "> {\n        let mut dest = self.into_destruct();\n        f(&mut dest)?;\n        Ok(dest.freeze())\n    }\n"@
}

/// The text of `freeze`.
pub open spec fn freeze_text(e: ExpansionView) -> Seq<char> {
    "    /// Restore the Destruct structure to the structure it came from.\n    pub fn freeze(self) -> "@
        + source_type(e) + " {\n        "@ + literal(e.source, e.backward, Seq::empty())
        + "\n    }\n"@
}

/// The text of `as_destruct`.
pub open spec fn as_destruct_text(e: ExpansionView) -> Seq<char> {
    "    /// Makes the field value to a fully disclosed Destruct structure with access by reference.\n    pub fn as_destruct"@
        + angle(own(e.companion.lifetime)) + "(&"@ + or_empty(e.companion.lifetime)
        + " self) -> "@ + companion_type(e, e.companion.lifetime) + " {\n        "@ + literal(
        e.companion.name,
        e.forward,
        borrow(e.companion.access),
    ) + "\n    }\n"@
}

/// The text of `substitute`.
pub open spec fn substitute_text(e: ExpansionView) -> Seq<char> {
    "    /// Lends every field to a limited closure, which may assign to each.\n    pub fn substitute(&mut self, f: impl FnOnce(&mut "@
        + viewed_type(e) + ")) {\n        f(&mut "@ + literal(
        e.companion.name,
        e.forward,
        borrow(e.companion.access),
    ) + ")\n    }\n"@
}

/// The text of `try_substitute`.
pub open spec fn try_substitute_text(e: ExpansionView) -> Seq<char> {
    "    /// As `substitute()`, with a closure that may fail: its error is returned as it is.\n    pub fn try_substitute<"@
        + e.error_type + ">(&mut self, f: impl FnOnce(&mut "@ + viewed_type(e)
        + ") -> Result<(), "@ + e.error_type + ">) -> Result<(), "@ + e.error_type
        + "> {\n        f(&mut "@ + literal(e.companion.name, e.forward, borrow(e.companion.access))
        + ")\n    }\n"@
}

/// The text of one method.
pub open spec fn method_text(m: Method, e: ExpansionView) -> Seq<char> {
    match m {
        Method::IntoDestruct => into_destruct_text(e),
        Method::Reconstruct => reconstruct_text(e),
        Method::TryReconstruct => try_reconstruct_text(e),
        Method::Freeze => freeze_text(e),
        Method::AsDestruct => as_destruct_text(e),
        Method::Substitute => substitute_text(e),
        Method::TrySubstitute => try_substitute_text(e),
    }
}

/// The texts of some methods.
pub open spec fn method_texts(methods: Seq<Method>, e: ExpansionView) -> Seq<Seq<char>> {
    Seq::new(methods.len(), |i: int| method_text(methods[i], e))
}

/// A block of methods for the type `target`.
pub open spec fn impl_text(e: ExpansionView, target: Seq<char>, methods: Seq<Method>) -> Seq<
    char,
> {
    "impl"@ + angle(param_texts(e.companion.generics, ParamForm::Bounded)) + " "@ + target + where_text(
        e.companion.where_clause,
    ) + " {\n"@ + joined(method_texts(methods, e), "\n"@) + "}\n"@
}

/// The block of methods for the companion; nothing if it has none.
pub open spec fn companion_impl_text(e: ExpansionView) -> Seq<char> {
    if e.companion_methods.len() == 0 {
        Seq::empty()
    } else {
        "\n"@ + impl_text(e, companion_type(e, e.companion.lifetime), e.companion_methods)
    }
}

/// The source text of an expansion: the companion's declaration, the block
/// of methods for the source and, where the companion has methods, the block
/// for the companion.
pub open spec fn rendered(e: ExpansionView) -> Seq<char> {
    struct_text(e.companion) + "\n"@ + impl_text(e, source_type(e), e.source_methods)
        + companion_impl_text(e)
}

/// The generic parameters in the form `form`, after a lifetime of the
/// companion's own where there is one.
fn make_params(lifetime: &Option<String>, generics: &Vec<GenericParam>, form: ParamForm) -> (out:
    Vec<String>)
    ensures
        views(out@) == own(option_view(*lifetime)) + param_texts(
            generics@.map_values(|g: GenericParam| g@),
            form,
        ),
{
    let ghost gs = generics@.map_values(|g: GenericParam| g@);
    let ghost head = own(option_view(*lifetime));
    let mut out: Vec<String> = Vec::new();
    match lifetime {
        Some(l) => {
            out.push(l.clone());
        },
        None => {},
    }
    assert(views(out@) =~= head);
    let mut i: usize = 0;
    while i < generics.len()
        invariant
            i <= generics.len(),
            gs == generics@.map_values(|g: GenericParam| g@),
            views(out@) == head + param_texts(gs.take(i as int), form),
        decreases generics.len() - i,
    {
        let part = make_param(&generics[i], form);
        proof {
            assert(views(out@.push(part)) =~= views(out@).push(part@));
            assert((head + param_texts(gs.take(i as int), form)).push(part@) =~= head
                + param_texts(gs.take(i + 1), form));
        }
        out.push(part);
        i += 1;
    }
    assert(gs.take(generics.len() as int) == gs);
    out
}

/// One generic parameter in the form `form`.
fn make_param(g: &GenericParam, form: ParamForm) -> (out: String)
    ensures
        out@ == param_text(g@, form),
{
    match form {
        ParamForm::Name => g.name.clone(),
        ParamForm::Bounded => make_param_decl(g),
        ParamForm::Defined => if g.default.as_str().is_empty() {
            make_param_decl(g)
        } else {
            make_param_decl(g).concat(" = ").concat(g.default.as_str())
        },
    }
}

/// One generic parameter as a block of methods declares it.
fn make_param_decl(g: &GenericParam) -> (out: String)
    ensures
        out@ == param_decl(g@),
{
    match g.kind {
        ParamKind::Const => String::from_str("const ").concat(g.name.as_str()).concat(": ").concat(
            g.bounds.as_str(),
        ),
        _ => if g.bounds.as_str().is_empty() {
            g.name.clone()
        } else {
            g.name.clone().concat(": ").concat(g.bounds.as_str())
        },
    }
}

/// A list between angle brackets; nothing if the list is empty.
fn make_angle(parts: &Vec<String>) -> (out: String)
    ensures
        out@ == angle(views(parts@)),
{
    if parts.len() == 0 {
        String::new()
    } else {
        String::from_str("<").concat(join(parts, ", ").as_str()).concat(">")
    }
}

/// A `where` clause; nothing if there are no predicates.
fn make_where(predicates: &String) -> (out: String)
    ensures
        out@ == where_text(predicates@),
{
    if predicates.as_str().is_empty() {
        String::new()
    } else {
        String::from_str(" where ").concat(predicates.as_str())
    }
}

/// A lifetime of the companion's own as text; nothing if it has none.
fn make_or_empty(lifetime: &Option<String>) -> (out: String)
    ensures
        out@ == or_empty(option_view(*lifetime)),
{
    match lifetime {
        Some(l) => l.clone(),
        None => String::new(),
    }
}

/// The lifetime `'_` in place of a lifetime of the companion's own.
fn make_inferred(lifetime: &Option<String>) -> (out: Option<String>)
    ensures
        option_view(out) == inferred(option_view(*lifetime)),
{
    match lifetime {
        Some(_) => Some(String::from_str("'_")),
        None => None,
    }
}

/// What stands before a field's type in the companion.
fn make_reference(access: Access, lifetime: &Option<String>) -> (out: String)
    ensures
        out@ == reference(access, option_view(*lifetime)),
{
    match access {
        Access::Owned => String::new(),
        Access::Shared => String::from_str("&").concat(make_or_empty(lifetime).as_str()).concat(
            " ",
        ),
        Access::Unique => String::from_str("&").concat(make_or_empty(lifetime).as_str()).concat(
            " mut ",
        ),
    }
}

/// What stands before `self.field` where the companion is built.
fn make_borrow(access: Access) -> (out: String)
    ensures
        out@ == borrow(access),
{
    match access {
        Access::Owned => String::new(),
        Access::Shared => String::from_str("&"),
        Access::Unique => String::from_str("&mut "),
    }
}

/// The lines of the companion's fields.
fn make_field_decls(fields: &Vec<CompanionField>, prefix: &String) -> (out: Vec<String>)
    ensures
        views(out@) == field_decls(fields@.map_values(|f: CompanionField| f@), prefix@),
{
    let ghost fs = fields@.map_values(|f: CompanionField| f@);
    let mut out: Vec<String> = Vec::new();
    let mut i: usize = 0;
    while i < fields.len()
        invariant
            i <= fields.len(),
            fs == fields@.map_values(|f: CompanionField| f@),
            out@.len() == i,
            forall|j: int| 0 <= j < i ==> (#[trigger] out@[j])@ == field_decl(fs[j], prefix@),
        decreases fields.len() - i,
    {
        let f = &fields[i];
        let mut line = String::from_str("    ");
        if f.public {
            line.append("pub ");
        } else {
            assert(line@ + Seq::<char>::empty() =~= line@);
        }
        line.append(f.name.as_str());
        line.append(": ");
        line.append(prefix.clone().concat(f.ty.as_str()).as_str());
        line.append(",\n");
        out.push(line);
        i += 1;
    }
    assert(views(out@) =~= field_decls(fs, prefix@));
    out
}

/// A struct literal that builds a `name` from the fields of `self`.
fn make_literal(name: &String, binds: &Vec<Bind>, prefix: &String) -> (out: String)
    ensures
        out@ == literal(name@, binds@.map_values(|b: Bind| b@), prefix@),
{
    let ghost bs = binds@.map_values(|b: Bind| b@);
    let mut parts: Vec<String> = Vec::new();
    let mut i: usize = 0;
    while i < binds.len()
        invariant
            i <= binds.len(),
            bs == binds@.map_values(|b: Bind| b@),
            parts@.len() == i,
            forall|j: int| 0 <= j < i ==> (#[trigger] parts@[j])@ == bind_text(bs[j], prefix@),
        decreases binds.len() - i,
    {
        let b = &binds[i];
        parts.push(
            b.field.clone().concat(": ").concat(prefix.as_str()).concat("self.").concat(
                b.from.as_str(),
            ),
        );
        i += 1;
    }
    assert(views(parts@) =~= bind_texts(bs, prefix@));
    name.clone().concat(" { ").concat(join(&parts, ", ").as_str()).concat(" }")
}

impl Companion {
    /// The source text of the companion's declaration.
    pub fn render(&self) -> (out: String)
        ensures
            out@ == struct_text(self@),
    {
        let params = make_params(&self.lifetime, &self.generics, ParamForm::Defined);
        let prefix = make_reference(self.access, &self.lifetime);
        let lines = make_field_decls(&self.fields, &prefix);
        let mut out = String::from_str(
            "/// Do not have an explicit implementation for this structure.\npub struct ",
        );
        out.append(self.name.as_str());
        out.append(make_angle(&params).as_str());
        out.append(make_where(&self.where_clause).as_str());
        out.append(" {\n");
        out.append(join(&lines, "").as_str());
        out.append("}\n");
        out
    }
}

impl Expansion {
    /// The source type with its generic arguments.
    fn source_type(&self) -> (out: String)
        ensures
            out@ == source_type(self@),
    {
        let args = make_params(&None, &self.companion.generics, ParamForm::Name);
        assert(views(args@) =~= param_texts(self@.companion.generics, ParamForm::Name));
        self.source.clone().concat(make_angle(&args).as_str())
    }

    /// The companion type with its generic arguments, after `lifetime`.
    fn companion_type(&self, lifetime: &Option<String>) -> (out: String)
        ensures
            out@ == companion_type(self@, option_view(*lifetime)),
    {
        let args = make_params(lifetime, &self.companion.generics, ParamForm::Name);
        self.companion.name.clone().concat(make_angle(&args).as_str())
    }

    /// The companion type as a closure's parameter sees it.
    fn viewed_type(&self) -> (out: String)
        ensures
            out@ == viewed_type(self@),
    {
        self.companion_type(&make_inferred(&self.companion.lifetime))
    }

    /// The struct literal that builds the companion from `self`.
    fn forward_literal(&self) -> (out: String)
        ensures
            out@ == literal(self@.companion.name, self@.forward, borrow(self@.companion.access)),
    {
        make_literal(&self.companion.name, &self.forward, &make_borrow(self.companion.access))
    }

    /// The text of one method.
    fn method_text(&self, method: Method) -> (out: String)
        ensures
            out@ == method_text(method, self@),
    {
        match method {
            Method::IntoDestruct => {
                let mut out = String::from_str(
                    "    /// Convert the field value to a fully disclosed Destruct structure.\n    ///\n    /// If you wish to revert the Destruct structure back to the structure it came from, see `freeze()`.\n    pub fn into_destruct(self) -> ",
                );
                out.append(self.companion_type(&self.companion.lifetime).as_str());
                out.append(" {\n        ");
                out.append(self.forward_literal().as_str());
                out.append("\n    }\n");
                out
            },
            Method::Reconstruct => {
                let mut out = String::from_str(
                    "    /// It provides a mechanism for replacing the contents by `into_destruct()`\n    /// and changing the actual value by `freeze()` using a limited closure.\n    ///\n    /// If you wish to use Result, see `try_reconstruct()`.\n    pub fn reconstruct(self, f: impl FnOnce(&mut ",
                );
                out.append(self.viewed_type().as_str());
                out.append(
                    ")) -> Self {\n        let mut dest = self.into_destruct();\n        f(&mut dest);\n        dest.freeze()\n    }\n",
                );
                out
            },
            Method::TryReconstruct => {
                let mut out = String::from_str(
                    "    /// As `reconstruct()`, with a closure that may fail: its error is returned as it is.\n    pub fn try_reconstruct<",
                );
                out.append(self.error_type.as_str());
                out.append(">(self, f: impl FnOnce(&mut ");
                out.append(self.viewed_type().as_str());
                out.append(") -> Result<(), ");
                out.append(self.error_type.as_str());
                out.append(">) -> Result<Self, ");
                out.append(self.error_type.as_str());
                out.append(
                    "> {\n        let mut dest = self.into_destruct();\n        f(&mut dest)?;\n        Ok(dest.freeze())\n    }\n",
                );
                out
            },
            Method::Freeze => {
                let mut out = String::from_str(
                    "    /// Restore the Destruct structure to the structure it came from.\n    pub fn freeze(self) -> ",
                );
                out.append(self.source_type().as_str());
                out.append(" {\n        ");
                out.append(make_literal(&self.source, &self.backward, &String::new()).as_str());
                out.append("\n    }\n");
                out
            },
            Method::AsDestruct => {
                let binder = make_params(&self.companion.lifetime, &Vec::new(), ParamForm::Name);
                assert(views(binder@) =~= own(self@.companion.lifetime));
                let mut out = String::from_str(
                    "    /// Makes the field value to a fully disclosed Destruct structure with access by reference.\n    pub fn as_destruct",
                );
                out.append(make_angle(&binder).as_str());
                out.append("(&");
                out.append(make_or_empty(&self.companion.lifetime).as_str());
                out.append(" self) -> ");
                out.append(self.companion_type(&self.companion.lifetime).as_str());
                out.append(" {\n        ");
                out.append(self.forward_literal().as_str());
                out.append("\n    }\n");
                out
            },
            Method::Substitute => {
                let mut out = String::from_str(
                    "    /// Lends every field to a limited closure, which may assign to each.\n    pub fn substitute(&mut self, f: impl FnOnce(&mut ",
                );
                out.append(self.viewed_type().as_str());
                out.append(")) {\n        f(&mut ");
                out.append(self.forward_literal().as_str());
                out.append(")\n    }\n");
                out
            },
            Method::TrySubstitute => {
                let mut out = String::from_str(
                    "    /// As `substitute()`, with a closure that may fail: its error is returned as it is.\n    pub fn try_substitute<",
                );
                out.append(self.error_type.as_str());
                out.append(">(&mut self, f: impl FnOnce(&mut ");
                out.append(self.viewed_type().as_str());
                out.append(") -> Result<(), ");
                out.append(self.error_type.as_str());
                out.append(">) -> Result<(), ");
                out.append(self.error_type.as_str());
                out.append("> {\n        f(&mut ");
                out.append(self.forward_literal().as_str());
                out.append(")\n    }\n");
                out
            },
        }
    }

    /// A block of methods for the type `target`.
    fn impl_text(&self, target: &String, methods: &Vec<Method>) -> (out: String)
        ensures
            out@ == impl_text(self@, target@, methods@),
    {
        let mut texts: Vec<String> = Vec::new();
        let mut i: usize = 0;
        while i < methods.len()
            invariant
                i <= methods.len(),
                texts@.len() == i,
                forall|j: int|
                    0 <= j < i ==> (#[trigger] texts@[j])@ == method_text(methods@[j], self@),
            decreases methods.len() - i,
        {
            texts.push(self.method_text(methods[i]));
            i += 1;
        }
        assert(views(texts@) =~= method_texts(methods@, self@));
        let params = make_params(&None, &self.companion.generics, ParamForm::Bounded);
        assert(views(params@) =~= param_texts(self@.companion.generics, ParamForm::Bounded));
        let mut out = String::from_str("impl");
        out.append(make_angle(&params).as_str());
        out.append(" ");
        out.append(target.as_str());
        out.append(make_where(&self.companion.where_clause).as_str());
        out.append(" {\n");
        out.append(join(&texts, "\n").as_str());
        out.append("}\n");
        out
    }

    /// The source text of the expansion: the companion's declaration and the
    /// blocks of methods, as Rust items.
    pub fn render(&self) -> (out: String)
        ensures
            out@ == rendered(self@),
    {
        let mut out = self.companion.render();
        out.append("\n");
        out.append(self.impl_text(&self.source_type(), &self.source_methods).as_str());
        if self.companion_methods.len() > 0 {
            let block = self.impl_text(
                &self.companion_type(&self.companion.lifetime),
                &self.companion_methods,
            );
            out.append(String::from_str("\n").concat(block.as_str()).as_str());
        } else {
            assert(out@ + Seq::<char>::empty() =~= out@);
        }
        out
    }
}

} // verus!
