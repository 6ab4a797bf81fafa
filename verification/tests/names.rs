use destructure::model::GenericParam;
use destructure::names::{
    has_name, make_destruct_name, make_destruct_ref_name, make_fresh_name, make_mutation_name,
};
use destructure::text::join;

#[test]
fn companion_names_are_concatenations() {
    let name = "Book".to_string();
    assert_eq!(make_destruct_name(&name), "DestructBook");
    assert_eq!(make_destruct_ref_name(&name), "DestructBookRef");
    assert_eq!(make_mutation_name(&name), "BookMut");
    let empty = String::new();
    assert_eq!(make_destruct_name(&empty), "Destruct");
    assert_eq!(make_destruct_ref_name(&empty), "DestructRef");
    assert_eq!(make_mutation_name(&empty), "Mut");
}

#[test]
fn fresh_name_is_the_first_free_candidate() {
    let none: Vec<GenericParam> = Vec::new();
    assert_eq!(make_fresh_name("'m", &none), "'m");
    let some = vec![
        GenericParam::lifetime("'m__"),
        GenericParam::lifetime("'m"),
        GenericParam::ty("T"),
        GenericParam::lifetime("'m_"),
    ];
    assert_eq!(make_fresh_name("'m", &some), "'m___");
    assert_eq!(make_fresh_name("T", &some), "T_");
    assert_eq!(make_fresh_name("U", &some), "U");
    let gap = vec![GenericParam::lifetime("'m"), GenericParam::lifetime("'m__")];
    assert_eq!(make_fresh_name("'m", &gap), "'m_");
}

#[test]
fn taken_means_equal_to_some_parameter_name() {
    let params = vec![GenericParam::lifetime("'a"), GenericParam::ty("T")];
    assert!(has_name(&params, &"'a".to_string()));
    assert!(has_name(&params, &"T".to_string()));
    assert!(!has_name(&params, &"a".to_string()));
    assert!(!has_name(&params, &"'a_".to_string()));
    assert!(!has_name(&Vec::new(), &"T".to_string()));
}

#[test]
fn join_puts_the_separator_between_neighbours() {
    let none: Vec<String> = Vec::new();
    assert_eq!(join(&none, ", "), "");
    assert_eq!(join(&vec!["a".to_string()], ", "), "a");
    assert_eq!(join(&vec!["a".to_string(), "b".to_string(), "c".to_string()], ", "), "a, b, c");
    assert_eq!(join(&vec!["a".to_string(), String::new(), "c".to_string()], "-"), "a--c");
    assert_eq!(join(&vec!["a".to_string(), "b".to_string()], ""), "ab");
}
