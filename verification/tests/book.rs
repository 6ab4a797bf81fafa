use destructure::book::{destruct, mutation, reconstruct, Book, DestructBookRef};

fn sample() -> Book {
    Book::new(
        "123456789-abc".to_string(),
        "name".to_string(),
        "2023/01/03".to_string(),
        "author".to_string(),
    )
}

fn fields(book: &Book) -> [String; 4] {
    let DestructBookRef { id, name, published_at, author } = book.as_destruct();
    [id.clone(), name.clone(), published_at.clone(), author.clone()]
}

fn try_author(name: &str) -> anyhow::Result<String> {
    if name.is_empty() {
        Err(anyhow::Error::msg("`name` is must not empty."))
    } else {
        Ok(name.to_string())
    }
}

#[test]
fn open_then_freeze_changes_nothing() {
    let des = sample().into_destruct();
    assert_eq!(des.id, "123456789-abc");
    assert_eq!(des.name, "name");
    assert_eq!(des.published_at, "2023/01/03");
    assert_eq!(des.author, "author");
    let book = des.freeze();
    assert_eq!(fields(&book), ["123456789-abc", "name", "2023/01/03", "author"]);
}

#[test]
fn default_book_has_the_stock_fields() {
    assert_eq!(fields(&Book::default()), ["123456789-abc", "name", "2023/01/03", "author"]);
}

#[test]
fn reconstruct_without_edits_is_the_identity() {
    let book = sample().reconstruct(|_| {});
    assert_eq!(fields(&book), ["123456789-abc", "name", "2023/01/03", "author"]);
}

#[test]
fn an_assigned_field_is_frozen_and_the_others_stay() {
    let mut des = sample().into_destruct();
    des.name = "first".to_string();
    des.name = "last".to_string();
    assert_eq!(fields(&des.freeze()), ["123456789-abc", "last", "2023/01/03", "author"]);
}

#[test]
fn reconstruct_sets_the_author_only() {
    let book = sample().reconstruct(|des| {
        des.author = "reirokusanami".to_string();
    });
    assert_eq!(fields(&book), ["123456789-abc", "name", "2023/01/03", "reirokusanami"]);
}

#[test]
fn try_reconstruct_with_a_valid_author_succeeds() {
    let book = sample()
        .try_reconstruct(|des| -> anyhow::Result<()> {
            des.author = try_author("reirokusanami")?;
            Ok(())
        })
        .unwrap();
    assert_eq!(fields(&book), ["123456789-abc", "name", "2023/01/03", "reirokusanami"]);
}

#[test]
fn try_reconstruct_with_an_empty_author_returns_the_error() {
    let out = sample().try_reconstruct(|des| -> anyhow::Result<()> {
        des.name = "half done".to_string();
        des.author = try_author("")?;
        Ok(())
    });
    assert_eq!(out.unwrap_err().to_string(), "`name` is must not empty.");
}

#[test]
fn try_reconstruct_returns_the_very_error() {
    let out = sample().try_reconstruct(|_| Err::<(), u32>(7));
    assert_eq!(out.unwrap_err(), 7);
}

#[test]
fn the_view_reads_the_current_fields() {
    let mut book = sample();
    {
        let first = book.as_destruct();
        let second = book.as_destruct();
        assert_eq!(first.author, "author");
        assert_eq!(second.author, "author");
        assert_eq!(first.id, second.id);
    }
    book.substitute(|view| {
        *view.author = "someone".to_string();
    });
    assert_eq!(book.as_destruct().author, "someone");
}

#[test]
fn substitute_sets_three_fields_at_once() {
    let mut book = sample();
    book.substitute(|book| {
        *book.name = "new name".to_string();
        *book.author = "reirokusanami".to_string();
        *book.published_at = "2023/01/04".to_string();
    });
    assert_eq!(fields(&book), ["123456789-abc", "new name", "2023/01/04", "reirokusanami"]);
}

#[test]
fn substitute_in_a_loop_keeps_the_last_assignment() {
    let mut book = sample();
    for round in 0..3 {
        book.substitute(|book| {
            *book.name = format!("name {}", round);
        });
    }
    assert_eq!(fields(&book), ["123456789-abc", "name 2", "2023/01/03", "author"]);
}

#[test]
fn try_substitute_passes_success_on() {
    let mut book = sample();
    let out = book.try_substitute(|book| -> Result<(), std::io::Error> {
        *book.name = "new name".to_string();
        Ok(())
    });
    assert!(out.is_ok());
    assert_eq!(fields(&book), ["123456789-abc", "new name", "2023/01/03", "author"]);
}

#[test]
fn try_substitute_keeps_what_was_assigned_before_the_failure() {
    let mut book = sample();
    let out = book.try_substitute(|book| {
        *book.name = "assigned".to_string();
        if book.author.as_str() == "author" {
            return Err("refused");
        }
        *book.id = "never".to_string();
        Ok(())
    });
    assert_eq!(out, Err("refused"));
    assert_eq!(fields(&book), ["123456789-abc", "assigned", "2023/01/03", "author"]);
}

#[test]
fn three_ways_to_revise_agree() {
    let a = destruct(Book::default());
    let b = reconstruct(Book::default());
    let mut c = Book::default();
    mutation(&mut c);
    for book in [a, b, c] {
        assert_eq!(fields(&book), ["123456789-abc", "new name", "2023/01/04", "reirokusanami"]);
    }
}
