//! The input model: a type declaration as the derivations read it.
use vstd::prelude::*;
use vstd::string::StringExecFns;

verus! {

/// What a generic parameter stands for.
#[derive(Clone, Copy, Debug, PartialEq, Eq, Structural)]
pub enum ParamKind {
    /// A lifetime parameter, such as `'a`.
    Lifetime,
    /// A type parameter, such as `T`.
    Type,
    /// A constant parameter, such as `const N: usize`.
    Const,
}

/// One generic parameter of a declaration.
#[derive(Clone, Debug)]
pub struct GenericParam {
    pub kind: ParamKind,
    /// The parameter's name as it is written where it is used: `'a`, `T`, `N`.
    pub name: String,
    /// What follows the colon where the parameter is declared; empty if nothing does.
    pub bounds: String,
    /// What follows the equals sign where the parameter is declared; empty if
    /// the parameter has no default.
    pub default: String,
}

/// The mathematical value of a [`GenericParam`].
pub struct GenericParamView {
    pub kind: ParamKind,
    pub name: Seq<char>,
    pub bounds: Seq<char>,
    pub default: Seq<char>,
}

impl View for GenericParam {
    type V = GenericParamView;

    open spec fn view(&self) -> GenericParamView {
        GenericParamView {
            kind: self.kind,
            name: self.name@,
            bounds: self.bounds@,
            default: self.default@,
        }
    }
}

/// One item of a group of directives on a field: of an attribute that
/// [`is_group`](crate::directive::is_group) accepts.
#[derive(Clone, Debug)]
pub struct Directive {
    /// The item's name, such as `skip`.
    pub name: String,
    /// Whether the item is a bare flag. An item with a value or with a list of
    /// its own, and an item that is no name at all, is not.
    pub bare: bool,
}

/// The mathematical value of a [`Directive`].
pub struct DirectiveView {
    pub name: Seq<char>,
    pub bare: bool,
}

impl View for Directive {
    type V = DirectiveView;

    open spec fn view(&self) -> DirectiveView {
        DirectiveView { name: self.name@, bare: self.bare }
    }
}

/// One named field of a record.
#[derive(Clone, Debug)]
pub struct Field {
    pub name: String,
    /// The field's type, as source text.
    pub ty: String,
    /// The items of the field's groups of directives, in source order.
    pub directives: Vec<Directive>,
}

/// The mathematical value of a [`Field`].
pub struct FieldView {
    pub name: Seq<char>,
    pub ty: Seq<char>,
    pub directives: Seq<DirectiveView>,
}

impl View for Field {
    type V = FieldView;

    open spec fn view(&self) -> FieldView {
        FieldView {
            name: self.name@,
            ty: self.ty@,
            directives: self.directives@.map_values(|d: Directive| d@),
        }
    }
}

/// The body of a type declaration.
#[derive(Clone, Debug)]
pub enum Body {
    /// A record: a struct with named fields, possibly none.
    Named(Vec<Field>),
    /// A struct with positional fields.
    Unnamed,
    /// A struct without a body.
    Unit,
    /// An enumeration.
    Enum,
    /// A union.
    Union,
}

/// The mathematical value of a [`Body`].
pub enum BodyView {
    Named(Seq<FieldView>),
    Unnamed,
    Unit,
    Enum,
    Union,
}

impl View for Body {
    type V = BodyView;

    open spec fn view(&self) -> BodyView {
        match self {
            Body::Named(fields) => BodyView::Named(fields@.map_values(|f: Field| f@)),
            Body::Unnamed => BodyView::Unnamed,
            Body::Unit => BodyView::Unit,
            Body::Enum => BodyView::Enum,
            Body::Union => BodyView::Union,
        }
    }
}

/// A type declaration.
#[derive(Clone, Debug)]
pub struct TypeDecl {
    pub name: String,
    /// The generic parameters, in source order.
    pub generics: Vec<GenericParam>,
    /// The predicates of the `where` clause, as source text; empty if there is none.
    pub where_clause: String,
    pub body: Body,
}

/// The mathematical value of a [`TypeDecl`].
pub struct TypeDeclView {
    pub name: Seq<char>,
    pub generics: Seq<GenericParamView>,
    pub where_clause: Seq<char>,
    pub body: BodyView,
}

impl View for TypeDecl {
    type V = TypeDeclView;

    open spec fn view(&self) -> TypeDeclView {
        TypeDeclView {
            name: self.name@,
            generics: self.generics@.map_values(|g: GenericParam| g@),
            where_clause: self.where_clause@,
            body: self.body@,
        }
    }
}

impl TypeDeclView {
    /// The fields of a record; of any other declaration, none.
    pub open spec fn fields(self) -> Seq<FieldView> {
        match self.body {
            BodyView::Named(fields) => fields,
            _ => Seq::empty(),
        }
    }
}

impl GenericParam {
    /// The lifetime parameter `name`, which is written with its apostrophe.
    pub fn lifetime(name: &str) -> (param: GenericParam)
        ensures
            param@ == (GenericParamView {
                kind: ParamKind::Lifetime,
                name: name@,
                bounds: Seq::empty(),
                default: Seq::empty(),
            }),
    {
        GenericParam {
            kind: ParamKind::Lifetime,
            name: String::from_str(name),
            bounds: String::new(),
            default: String::new(),
        }
    }

    /// The type parameter `name`.
    pub fn ty(name: &str) -> (param: GenericParam)
        ensures
            param@ == (GenericParamView {
                kind: ParamKind::Type,
                name: name@,
                bounds: Seq::empty(),
                default: Seq::empty(),
            }),
    {
        GenericParam {
            kind: ParamKind::Type,
            name: String::from_str(name),
            bounds: String::new(),
            default: String::new(),
        }
    }

    /// The constant parameter `name` of type `ty`.
    pub fn constant(name: &str, ty: &str) -> (param: GenericParam)
        ensures
            param@ == (GenericParamView {
                kind: ParamKind::Const,
                name: name@,
                bounds: ty@,
                default: Seq::empty(),
            }),
    {
        GenericParam {
            kind: ParamKind::Const,
            name: String::from_str(name),
            bounds: String::from_str(ty),
            default: String::new(),
        }
    }

    /// This parameter with `bounds` after its colon.
    pub fn bounded(self, bounds: &str) -> (param: GenericParam)
        ensures
            param@ == (GenericParamView { bounds: bounds@, ..self@ }),
    {
        GenericParam {
            kind: self.kind,
            name: self.name,
            bounds: String::from_str(bounds),
            default: self.default,
        }
    }

    /// This parameter with `default` after its equals sign.
    pub fn with_default(self, default: &str) -> (param: GenericParam)
        ensures
            param@ == (GenericParamView { default: default@, ..self@ }),
    {
        GenericParam {
            kind: self.kind,
            name: self.name,
            bounds: self.bounds,
            default: String::from_str(default),
        }
    }
}

impl Directive {
    /// The bare flag `name`.
    pub fn flag(name: &str) -> (directive: Directive)
        ensures
            directive@ == (DirectiveView { name: name@, bare: true }),
    {
        Directive { name: String::from_str(name), bare: true }
    }

    /// An item `name` that is more than a bare flag.
    pub fn with_arguments(name: &str) -> (directive: Directive)
        ensures
            directive@ == (DirectiveView { name: name@, bare: false }),
    {
        Directive { name: String::from_str(name), bare: false }
    }
}

impl Field {
    /// The field `name` of type `ty`, without directives.
    pub fn new(name: &str, ty: &str) -> (field: Field)
        ensures
            field@ == (FieldView { name: name@, ty: ty@, directives: Seq::empty() }),
    {
        let field = Field {
            name: String::from_str(name),
            ty: String::from_str(ty),
            directives: Vec::new(),
        };
        assert(field@.directives =~= Seq::empty());
        field
    }

    /// This field with one more directive, after those it has.
    pub fn with(self, directive: Directive) -> (field: Field)
        ensures
            field@ == (FieldView {
                directives: self@.directives.push(directive@),
                ..self@
            }),
    {
        let mut directives = self.directives;
        directives.push(directive);
        let field = Field { name: self.name, ty: self.ty, directives };
        assert(field@.directives =~= self@.directives.push(directive@));
        field
    }
}

impl TypeDecl {
    /// The record `name` with these fields, without generic parameters.
    pub fn record(name: &str, fields: Vec<Field>) -> (decl: TypeDecl)
        ensures
            decl@ == (TypeDeclView {
                name: name@,
                generics: Seq::empty(),
                where_clause: Seq::empty(),
                body: BodyView::Named(fields@.map_values(|f: Field| f@)),
            }),
    {
        let decl = TypeDecl {
            name: String::from_str(name),
            generics: Vec::new(),
            where_clause: String::new(),
            body: Body::Named(fields),
        };
        assert(decl@.generics =~= Seq::empty());
        decl
    }

    /// This declaration with one more generic parameter, after those it has.
    pub fn with_param(self, param: GenericParam) -> (decl: TypeDecl)
        ensures
            decl@ == (TypeDeclView { generics: self@.generics.push(param@), ..self@ }),
    {
        let mut generics = self.generics;
        generics.push(param);
        let decl = TypeDecl {
            name: self.name,
            generics,
            where_clause: self.where_clause,
            body: self.body,
        };
        assert(decl@.generics =~= self@.generics.push(param@));
        decl
    }

    /// This declaration with `predicates` as its `where` clause.
    pub fn with_where(self, predicates: &str) -> (decl: TypeDecl)
        ensures
            decl@ == (TypeDeclView { where_clause: predicates@, ..self@ }),
    {
        TypeDecl {
            name: self.name,
            generics: self.generics,
            where_clause: String::from_str(predicates),
            body: self.body,
        }
    }
}

} // verus!
