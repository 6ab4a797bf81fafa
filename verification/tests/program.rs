use destructure::book::Book;
use destructure::destructure::derive_destructure;
use destructure::model::{Field, GenericParam, TypeDecl};
use destructure::mutation::derive_mutation;
use destructure::output::Expansion;

fn strings(names: [&str; 4]) -> Vec<Field> {
    names.iter().map(|n| Field::new(n, "String")).collect()
}

fn book_of_strings() -> TypeDecl {
    TypeDecl::record("Book", strings(["id", "name", "published_at", "author"]))
}

fn sample() -> Book {
    Book::new(
        "123456789-abc".to_string(),
        "name".to_string(),
        "2023/01/03".to_string(),
        "author".to_string(),
    )
}

fn passes(expansion: &Expansion, companion: &str, methods: &[&str]) {
    let file = syn::parse_file(&expansion.render()).unwrap();
    match &file.items[0] {
        syn::Item::Struct(s) => {
            assert_eq!(s.ident, companion);
            assert_eq!(s.fields.len(), expansion.companion.fields.len());
        }
        _ => panic!("expected the companion's declaration"),
    }
    let mut found: Vec<String> = Vec::new();
    for item in &file.items[1..] {
        match item {
            syn::Item::Impl(block) => {
                for member in &block.items {
                    match member {
                        syn::ImplItem::Fn(f) => found.push(f.sig.ident.to_string()),
                        _ => panic!("expected a method"),
                    }
                }
            }
            _ => panic!("expected a block of methods"),
        }
    }
    assert_eq!(found, methods);
}

const OWNED: [&str; 4] = ["into_destruct", "reconstruct", "try_reconstruct", "freeze"];
const LENT: [&str; 2] = ["substitute", "try_substitute"];

#[test]
fn tests() {
    // tests/01-parse.rs
    passes(&derive_destructure(&book_of_strings()).unwrap(), "DestructBook", &OWNED);

    // tests/02-generate.rs
    passes(&derive_destructure(&book_of_strings()).unwrap(), "DestructBook", &OWNED);
    let des = sample().into_destruct();
    assert_eq!(des.id, "123456789-abc");

    // tests/03-generics.rs
    let with_marker = TypeDecl::record(
        "Book",
        vec![
            Field::new("id", "crate::NumId<Book>"),
            Field::new("name", "String"),
            Field::new("published_at", "String"),
            Field::new("author", "String"),
        ],
    );
    let expansion = derive_destructure(&with_marker).unwrap();
    assert_eq!(expansion.companion.fields[0].ty, "crate::NumId<Book>");
    passes(&expansion, "DestructBook", &OWNED);

    // tests/04-freeze.rs
    passes(&derive_destructure(&book_of_strings()).unwrap(), "DestructBook", &OWNED);
    let book = sample().into_destruct().freeze();
    assert_eq!(book.as_destruct().name, "name");

    // tests/05-reconstructor.rs
    passes(&derive_destructure(&book_of_strings()).unwrap(), "DestructBook", &OWNED);
    let book = sample().reconstruct(|des| {
        des.author = "reirokusanami".to_string();
    });
    assert_eq!(book.as_destruct().author, "reirokusanami");

    // tests/06-try-reconstructor.rs
    let with_author = TypeDecl::record(
        "Book",
        vec![
            Field::new("id", "String"),
            Field::new("name", "String"),
            Field::new("published_at", "String"),
            Field::new("author", "Author"),
        ],
    );
    passes(&derive_destructure(&with_author).unwrap(), "DestructBook", &OWNED);
    let book = sample()
        .try_reconstruct(|des| -> anyhow::Result<()> {
            des.author = "reirokusanami".to_string();
            Ok(())
        })
        .unwrap();
    assert_eq!(book.as_destruct().author, "reirokusanami");

    // tests/07-mutation.rs
    passes(&derive_mutation(&book_of_strings()).unwrap(), "BookMut", &LENT);
    let mut book = sample();
    book.substitute(|book| {
        *book.name = "new name".to_string();
        *book.author = "reirokusanami".to_string();
        *book.published_at = "2023/01/04".to_string();
    });
    assert_eq!(book.as_destruct().name, "new name");

    // tests/08-try-mutation.rs
    passes(&derive_mutation(&book_of_strings()).unwrap(), "BookMut", &LENT);
    let mut book = sample();
    book.try_substitute(|book| -> anyhow::Result<()> {
        *book.name = "new name".to_string();
        Ok(())
    })
    .unwrap();
    assert_eq!(book.as_destruct().name, "new name");

    // tests/09-multiple-generics.rs
    let domain = TypeDecl::record("Domain", vec![Field::new("a", "A"), Field::new("b", "B")])
        .with_param(GenericParam::ty("A"))
        .with_param(GenericParam::ty("B"));
    passes(&derive_destructure(&domain).unwrap(), "DestructDomain", &OWNED);
    passes(&derive_mutation(&domain).unwrap(), "DomainMut", &LENT);
}
