use destructure::destructure::derive_destructure;
use destructure::destructure_ref::derive_destructure_ref;
use destructure::directive::is_group;
use destructure::error::DeriveError;
use destructure::model::{Body, Directive, Field, GenericParam, ParamKind, TypeDecl};
use destructure::mutation::derive_mutation;
use destructure::output::{Access, Expansion, Method};

fn book() -> TypeDecl {
    TypeDecl::record(
        "Book",
        vec![
            Field::new("id", "String"),
            Field::new("name", "String"),
            Field::new("published_at", "String"),
            Field::new("author", "String"),
        ],
    )
}

fn of_body(body: Body) -> TypeDecl {
    TypeDecl { name: "Shape".to_string(), generics: Vec::new(), where_clause: String::new(), body }
}

fn field_names(expansion: &Expansion) -> Vec<String> {
    expansion.companion.fields.iter().map(|f| f.name.clone()).collect()
}

fn param_names(expansion: &Expansion) -> Vec<String> {
    expansion.companion.generics.iter().map(|g| g.name.clone()).collect()
}

#[test]
fn destructure_mirrors_the_fields_in_order() {
    let expansion = derive_destructure(&book()).unwrap();
    assert_eq!(expansion.source, "Book");
    assert_eq!(expansion.companion.name, "DestructBook");
    assert_eq!(expansion.companion.access, Access::Owned);
    assert_eq!(expansion.companion.lifetime, None);
    assert_eq!(field_names(&expansion), ["id", "name", "published_at", "author"]);
    for field in &expansion.companion.fields {
        assert!(field.public);
        assert_eq!(field.ty, "String");
    }
    assert_eq!(
        expansion.source_methods,
        [Method::IntoDestruct, Method::Reconstruct, Method::TryReconstruct]
    );
    assert_eq!(expansion.companion_methods, [Method::Freeze]);
}

#[test]
fn move_clauses_pair_each_field_with_itself() {
    let expansion = derive_destructure(&book()).unwrap();
    let forward: Vec<(String, String)> =
        expansion.forward.iter().map(|b| (b.field.clone(), b.from.clone())).collect();
    let backward: Vec<(String, String)> =
        expansion.backward.iter().map(|b| (b.field.clone(), b.from.clone())).collect();
    let expected: Vec<(String, String)> = ["id", "name", "published_at", "author"]
        .iter()
        .map(|n| (n.to_string(), n.to_string()))
        .collect();
    assert_eq!(forward, expected);
    assert_eq!(backward, expected);
}

#[test]
fn destructure_ref_borrows_every_field() {
    let expansion = derive_destructure_ref(&book()).unwrap();
    assert_eq!(expansion.companion.name, "DestructBookRef");
    assert_eq!(expansion.companion.access, Access::Shared);
    assert_eq!(expansion.companion.lifetime.as_deref(), Some("'__origin_destruct_lifetime"));
    assert_eq!(field_names(&expansion), ["id", "name", "published_at", "author"]);
    assert!(expansion.companion.fields.iter().all(|f| f.public && f.ty == "String"));
    assert_eq!(expansion.source_methods, [Method::AsDestruct]);
    assert!(expansion.companion_methods.is_empty());
    assert_eq!(expansion.forward.len(), 4);
    assert!(expansion.backward.is_empty());
}

#[test]
fn mutation_lends_every_field() {
    let expansion = derive_mutation(&book()).unwrap();
    assert_eq!(expansion.companion.name, "BookMut");
    assert_eq!(expansion.companion.access, Access::Unique);
    assert_eq!(expansion.companion.lifetime.as_deref(), Some("'mutation"));
    assert_eq!(field_names(&expansion), ["id", "name", "published_at", "author"]);
    assert!(expansion.companion.fields.iter().all(|f| f.public && f.ty == "String"));
    assert_eq!(expansion.source_methods, [Method::Substitute, Method::TrySubstitute]);
    assert!(expansion.companion_methods.is_empty());
    assert_eq!(expansion.forward.len(), 4);
    assert!(expansion.backward.is_empty());
}

#[test]
fn skip_changes_visibility_and_nothing_else() {
    let domain = TypeDecl::record(
        "Domain",
        vec![
            Field::new("a", "String"),
            Field::new("b", "String"),
            Field::new("c", "String"),
            Field::new("d", "Vec<u8>").with(Directive::flag("skip")),
        ],
    );
    let expansion = derive_destructure(&domain).unwrap();
    assert_eq!(field_names(&expansion), ["a", "b", "c", "d"]);
    let public: Vec<bool> = expansion.companion.fields.iter().map(|f| f.public).collect();
    assert_eq!(public, [true, true, true, false]);
    assert_eq!(expansion.companion.fields[3].ty, "Vec<u8>");
    assert_eq!(expansion.forward[3].field, "d");
    assert_eq!(expansion.forward[3].from, "d");
    assert_eq!(expansion.backward[3].field, "d");
    assert_eq!(expansion.backward[3].from, "d");
}

#[test]
fn a_single_skipped_field_still_gets_a_companion() {
    let only = TypeDecl::record("Only", vec![Field::new("x", "u8").with(Directive::flag("skip"))]);
    let expansion = derive_destructure(&only).unwrap();
    assert_eq!(expansion.companion.name, "DestructOnly");
    assert_eq!(expansion.companion.fields.len(), 1);
    assert!(!expansion.companion.fields[0].public);
}

#[test]
fn borrowing_derivations_do_not_read_directives() {
    let odd = TypeDecl::record(
        "Odd",
        vec![
            Field::new("a", "u8").with(Directive::flag("skip")),
            Field::new("b", "u8").with(Directive::flag("other")),
            Field::new("c", "u8").with(Directive::with_arguments("skip")),
        ],
    );
    for expansion in [derive_destructure_ref(&odd).unwrap(), derive_mutation(&odd).unwrap()] {
        assert_eq!(field_names(&expansion), ["a", "b", "c"]);
        assert!(expansion.companion.fields.iter().all(|f| f.public));
    }
}

#[test]
fn an_unknown_directive_is_refused_at_its_field() {
    let decl = TypeDecl::record(
        "Domain",
        vec![
            Field::new("a", "u8"),
            Field::new("b", "u8").with(Directive::flag("skip")),
            Field::new("c", "u8").with(Directive::flag("hide")),
            Field::new("d", "u8").with(Directive::flag("also_unknown")),
        ],
    );
    assert_eq!(derive_destructure(&decl).unwrap_err(), DeriveError::Attribute { field: 2 });
}

#[test]
fn a_flag_with_arguments_is_refused() {
    let decl = TypeDecl::record(
        "Domain",
        vec![Field::new("a", "u8").with(Directive::with_arguments("skip"))],
    );
    assert_eq!(derive_destructure(&decl).unwrap_err(), DeriveError::Attribute { field: 0 });
}

#[test]
fn a_flag_given_twice_is_refused() {
    let decl = TypeDecl::record(
        "Domain",
        vec![
            Field::new("a", "u8"),
            Field::new("b", "u8").with(Directive::flag("skip")).with(Directive::flag("skip")),
        ],
    );
    assert_eq!(derive_destructure(&decl).unwrap_err(), DeriveError::Attribute { field: 1 });
}

#[test]
fn what_is_not_a_record_is_refused_by_all_three() {
    for make in [|| Body::Unnamed, || Body::Unit, || Body::Enum, || Body::Union] {
        assert_eq!(derive_destructure(&of_body(make())).unwrap_err(), DeriveError::Shape);
        assert_eq!(derive_destructure_ref(&of_body(make())).unwrap_err(), DeriveError::Shape);
        assert_eq!(derive_mutation(&of_body(make())).unwrap_err(), DeriveError::Shape);
    }
}

#[test]
fn a_record_without_fields_is_accepted() {
    let empty = TypeDecl::record("Empty", Vec::new());
    for expansion in [
        derive_destructure(&empty).unwrap(),
        derive_destructure_ref(&empty).unwrap(),
        derive_mutation(&empty).unwrap(),
    ] {
        assert!(expansion.companion.fields.is_empty());
        assert!(expansion.forward.is_empty());
        assert!(expansion.backward.is_empty());
        assert_eq!(expansion.companion.lifetime, None);
    }
}

#[test]
fn a_lifetime_of_its_own_needs_a_field_to_use_it() {
    let empty = TypeDecl::record("Empty", Vec::new())
        .with_param(GenericParam::lifetime("'a"))
        .with_param(GenericParam::ty("T"));
    let one = TypeDecl::record("One", vec![Field::new("x", "&'a T")])
        .with_param(GenericParam::lifetime("'a"))
        .with_param(GenericParam::ty("T"));
    assert_eq!(derive_destructure_ref(&empty).unwrap().companion.lifetime, None);
    assert_eq!(derive_mutation(&empty).unwrap().companion.lifetime, None);
    assert_eq!(param_names(&derive_mutation(&empty).unwrap()), ["'a", "T"]);
    assert_eq!(
        derive_destructure_ref(&one).unwrap().companion.lifetime.as_deref(),
        Some("'__origin_destruct_lifetime")
    );
    assert_eq!(derive_mutation(&one).unwrap().companion.lifetime.as_deref(), Some("'mutation"));
    assert_eq!(derive_destructure(&one).unwrap().companion.lifetime, None);
}

#[test]
fn defaults_of_parameters_are_kept() {
    let decl = TypeDecl::record("Grid", vec![Field::new("cells", "[T; N]")])
        .with_param(GenericParam::ty("T").bounded("Copy").with_default("u8"))
        .with_param(GenericParam::constant("N", "usize").with_default("4"));
    for expansion in [
        derive_destructure(&decl).unwrap(),
        derive_destructure_ref(&decl).unwrap(),
        derive_mutation(&decl).unwrap(),
    ] {
        assert_eq!(expansion.companion.generics[0].bounds, "Copy");
        assert_eq!(expansion.companion.generics[0].default, "u8");
        assert_eq!(expansion.companion.generics[1].bounds, "usize");
        assert_eq!(expansion.companion.generics[1].default, "4");
    }
}

#[test]
fn messages_say_what_was_wrong() {
    assert_eq!(DeriveError::Shape.message(), "Only structures with named fields are supported.");
    assert_eq!(DeriveError::Attribute { field: 3 }.message(), "unrecognized attribute.");
}

#[test]
fn generic_parameters_are_kept_in_order() {
    let domain = TypeDecl::record("Domain", vec![Field::new("a", "A"), Field::new("b", "B")])
        .with_param(GenericParam::ty("A"))
        .with_param(GenericParam::ty("B"));
    let owned = derive_destructure(&domain).unwrap();
    assert_eq!(owned.companion.name, "DestructDomain");
    assert_eq!(owned.companion.lifetime, None);
    assert_eq!(param_names(&owned), ["A", "B"]);
    let view = derive_mutation(&domain).unwrap();
    assert_eq!(view.companion.name, "DomainMut");
    assert_eq!(view.companion.lifetime.as_deref(), Some("'mutation"));
    assert_eq!(param_names(&view), ["A", "B"]);
    let shared = derive_destructure_ref(&domain).unwrap();
    assert_eq!(shared.companion.name, "DestructDomainRef");
    assert_eq!(param_names(&shared), ["A", "B"]);
}

#[test]
fn bounds_and_where_clause_are_kept() {
    let decl = TypeDecl::record("Holder", vec![Field::new("items", "&'a [T; N]")])
        .with_param(GenericParam::lifetime("'a"))
        .with_param(GenericParam::ty("T").bounded("Clone + 'a"))
        .with_param(GenericParam::constant("N", "usize"))
        .with_where("T: Default");
    for expansion in [
        derive_destructure(&decl).unwrap(),
        derive_destructure_ref(&decl).unwrap(),
        derive_mutation(&decl).unwrap(),
    ] {
        let kinds: Vec<ParamKind> = expansion.companion.generics.iter().map(|g| g.kind).collect();
        assert_eq!(kinds, [ParamKind::Lifetime, ParamKind::Type, ParamKind::Const]);
        assert_eq!(param_names(&expansion), ["'a", "T", "N"]);
        assert_eq!(expansion.companion.generics[1].bounds, "Clone + 'a");
        assert_eq!(expansion.companion.generics[2].bounds, "usize");
        assert_eq!(expansion.companion.where_clause, "T: Default");
        assert_eq!(expansion.companion.fields[0].ty, "&'a [T; N]");
    }
}

#[test]
fn the_own_lifetime_avoids_the_source_lifetimes() {
    let one = TypeDecl::record("Slice", vec![Field::new("s", "&'mutation str")])
        .with_param(GenericParam::lifetime("'mutation"));
    assert_eq!(derive_mutation(&one).unwrap().companion.lifetime.as_deref(), Some("'mutation_"));
    assert_eq!(
        derive_destructure_ref(&one).unwrap().companion.lifetime.as_deref(),
        Some("'__origin_destruct_lifetime")
    );
    let two = TypeDecl::record("Slice", vec![Field::new("s", "&'mutation str")])
        .with_param(GenericParam::lifetime("'mutation_"))
        .with_param(GenericParam::lifetime("'__origin_destruct_lifetime"))
        .with_param(GenericParam::lifetime("'mutation"));
    assert_eq!(derive_mutation(&two).unwrap().companion.lifetime.as_deref(), Some("'mutation__"));
    assert_eq!(
        derive_destructure_ref(&two).unwrap().companion.lifetime.as_deref(),
        Some("'__origin_destruct_lifetime_")
    );
}

#[test]
fn the_error_parameter_avoids_the_source_parameters() {
    assert_eq!(derive_destructure(&book()).unwrap().error_type, "E");
    let either = TypeDecl::record("Either", vec![Field::new("e", "E"), Field::new("f", "E_")])
        .with_param(GenericParam::ty("E"))
        .with_param(GenericParam::ty("E_"));
    assert_eq!(derive_destructure(&either).unwrap().error_type, "E__");
    assert_eq!(derive_mutation(&either).unwrap().error_type, "E__");
}

#[test]
fn only_the_engines_attribute_holds_directives() {
    assert!(is_group("destructure"));
    assert!(!is_group("Destructure"));
    assert!(!is_group("destructure_ref"));
    assert!(!is_group("serde"));
    assert!(!is_group(""));
}

#[test]
fn directive_rules() {
    assert!(Directive::flag("skip").is_skip());
    assert!(!Directive::flag("skipped").is_skip());
    assert!(!Directive::flag("").is_skip());
    assert!(!Directive::with_arguments("skip").is_skip());
    let plain = Field::new("a", "u8");
    assert!(plain.directives_valid());
    assert!(!plain.is_skipped());
    let skipped = Field::new("a", "u8").with(Directive::flag("skip"));
    assert!(skipped.directives_valid());
    assert!(skipped.is_skipped());
    let twice = Field::new("a", "u8").with(Directive::flag("skip")).with(Directive::flag("skip"));
    assert!(!twice.directives_valid());
    let mixed = Field::new("a", "u8").with(Directive::flag("x")).with(Directive::flag("skip"));
    assert!(!mixed.directives_valid());
    assert!(mixed.is_skipped());
}
