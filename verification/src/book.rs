//! A worked expansion: a record of four fields together with what the three
//! derivations emit for it, written out, and what the emitted methods do.
use vstd::prelude::*;
use vstd::string::StringExecFns;

verus! {

/// A book. Its fields are private: they are read and written through its
/// companions.
#[derive(Debug)]
pub struct Book {
    id: String,
    name: String,
    published_at: String,
    author: String,
}

/// The mathematical value of a [`Book`] and of its companions.
pub struct BookView {
    pub id: Seq<char>,
    pub name: Seq<char>,
    pub published_at: Seq<char>,
    pub author: Seq<char>,
}

impl View for Book {
    type V = BookView;

    closed spec fn view(&self) -> BookView {
        BookView {
            id: self.id@,
            name: self.name@,
            published_at: self.published_at@,
            author: self.author@,
        }
    }
}

/// The owning companion of [`Book`].
#[derive(Debug)]
pub struct DestructBook {
    pub id: String,
    pub name: String,
    pub published_at: String,
    pub author: String,
}

impl View for DestructBook {
    type V = BookView;

    open spec fn view(&self) -> BookView {
        BookView {
            id: self.id@,
            name: self.name@,
            published_at: self.published_at@,
            author: self.author@,
        }
    }
}

/// The borrowing companion of [`Book`].
#[derive(Debug)]
pub struct DestructBookRef<'origin> {
    pub id: &'origin String,
    pub name: &'origin String,
    pub published_at: &'origin String,
    pub author: &'origin String,
}

impl<'origin> View for DestructBookRef<'origin> {
    type V = BookView;

    open spec fn view(&self) -> BookView {
        BookView {
            id: self.id@,
            name: self.name@,
            published_at: self.published_at@,
            author: self.author@,
        }
    }
}

/// The mutable view of [`Book`].
pub struct BookMut<'mutation> {
    pub id: &'mutation mut String,
    pub name: &'mutation mut String,
    pub published_at: &'mutation mut String,
    pub author: &'mutation mut String,
}

impl<'mutation> BookMut<'mutation> {
    /// What the references point at now.
    pub open spec fn now(&self) -> BookView {
        BookView {
            id: (*self.id)@,
            name: (*self.name)@,
            published_at: (*self.published_at)@,
            author: (*self.author)@,
        }
    }
}

impl Default for Book {
    fn default() -> (book: Book)
        ensures
            book@ == (BookView {
                id: "123456789-abc"@,
                name: "name"@,
                published_at: "2023/01/03"@,
                author: "author"@,
            }),
    {
        Book {
            id: String::from_str("123456789-abc"),
            name: String::from_str("name"),
            author: String::from_str("author"),
            published_at: String::from_str("2023/01/03"),
        }
    }
}

impl Book {
    /// A book of these four fields.
    pub fn new(id: String, name: String, published_at: String, author: String) -> (book: Book)
        ensures
            book@ == (BookView {
                id: id@,
                name: name@,
                published_at: published_at@,
                author: author@,
            }),
    {
        Book { id, name, published_at, author }
    }

    /// Convert the field value to a fully disclosed Destruct structure.
    pub fn into_destruct(self) -> (des: DestructBook)
        ensures
            des@ == self@,
    {
        DestructBook {
            id: self.id,
            name: self.name,
            published_at: self.published_at,
            author: self.author,
        }
    }

    /// Opens the book, lets `f` edit the companion once, and freezes what `f` left.
    pub fn reconstruct<F: FnOnce(&mut DestructBook)>(self, f: F) -> (out: Book)
        requires
            forall|des: &mut DestructBook| (*des)@ == self@ ==> #[trigger] f.requires((des,)),
        ensures
            exists|des: &mut DestructBook|
                (*des)@ == self@ && #[trigger] f.ensures((des,), ()) && out@ == (*final(des))@,
    {
        let mut dest = self.into_destruct();
        f(&mut dest);
        dest.freeze()
    }

    /// As `reconstruct`, with an editor that may fail. Where it fails, the
    /// companion is dropped and the error is returned as it is.
    pub fn try_reconstruct<E, F: FnOnce(&mut DestructBook) -> Result<(), E>>(self, f: F) -> (out:
        Result<Book, E>)
        requires
            forall|des: &mut DestructBook| (*des)@ == self@ ==> #[trigger] f.requires((des,)),
        ensures
            exists|des: &mut DestructBook, done: Result<(), E>|
                (*des)@ == self@ && #[trigger] f.ensures((des,), done) && match done {
                    Ok(_) => out is Ok && out->Ok_0@ == (*final(des))@,
                    Err(error) => out == Err::<Book, E>(error),
                },
    {
        let mut dest = self.into_destruct();
        f(&mut dest)?;
        Ok(dest.freeze())
    }

    /// Makes the field value to a fully disclosed Destruct structure with access by reference.
    pub fn as_destruct<'origin>(&'origin self) -> (des: DestructBookRef<'origin>)
        ensures
            des@ == self@,
    {
        DestructBookRef {
            id: &self.id,
            name: &self.name,
            published_at: &self.published_at,
            author: &self.author,
        }
    }

    /// Lends every field to `f` once. What the references that `f` was given
    /// point at when `f` is done is the book from then on.
    pub fn substitute<F: FnOnce(&mut BookMut<'_>)>(&mut self, f: F)
        requires
            forall|view: &mut BookMut<'_>| (*view).now() == old(self)@ ==> #[trigger] f.requires(
                (view,),
            ),
        ensures
            exists|view: &mut BookMut<'_>|
                (*view).now() == old(self)@ && #[trigger] f.ensures((view,), ()) && has_resolved(
                    *final(view),
                ) && final(self)@ == (BookView {
                    id: (*final(view.id))@,
                    name: (*final(view.name))@,
                    published_at: (*final(view.published_at))@,
                    author: (*final(view.author))@,
                }),
    {
        f(
            &mut BookMut {
                id: &mut self.id,
                name: &mut self.name,
                published_at: &mut self.published_at,
                author: &mut self.author,
            },
        )
    }

    /// As `substitute`, with a closure that may fail. Its result is returned
    /// as it is; what it assigned before it failed stays assigned.
    pub fn try_substitute<E, F: FnOnce(&mut BookMut<'_>) -> Result<(), E>>(&mut self, f: F) -> (out:
        Result<(), E>)
        requires
            forall|view: &mut BookMut<'_>| (*view).now() == old(self)@ ==> #[trigger] f.requires(
                (view,),
            ),
        ensures
            exists|view: &mut BookMut<'_>|
                (*view).now() == old(self)@ && #[trigger] f.ensures((view,), out) && has_resolved(
                    *final(view),
                ) && final(self)@ == (BookView {
                    id: (*final(view.id))@,
                    name: (*final(view.name))@,
                    published_at: (*final(view.published_at))@,
                    author: (*final(view.author))@,
                }),
    {
        f(
            &mut BookMut {
                id: &mut self.id,
                name: &mut self.name,
                published_at: &mut self.published_at,
                author: &mut self.author,
            },
        )
    }
}

impl DestructBook {
    /// Restore the Destruct structure to the structure it came from.
    pub fn freeze(self) -> (book: Book)
        ensures
            book@ == self@,
    {
        Book {
            id: self.id,
            name: self.name,
            published_at: self.published_at,
            author: self.author,
        }
    }
}

/// The book with a new name, author and date of publication, and its old id.
pub open spec fn revised(book: BookView) -> BookView {
    BookView {
        id: book.id,
        name: "new name"@,
        published_at: "2023/01/04"@,
        author: "reirokusanami"@,
    }
}

/// Revises a book by opening it, assigning to the companion's fields, and
/// freezing the companion.
pub fn destruct(book: Book) -> (out: Book)
    ensures
        out@ == revised(book@),
{
    let mut des = book.into_destruct();
    des.name = String::from_str("new name");
    des.author = String::from_str("reirokusanami");
    des.published_at = String::from_str("2023/01/04");
    des.freeze()
}

/// Revises a book by `reconstruct`.
pub fn reconstruct(book: Book) -> (out: Book)
    ensures
        out@ == revised(book@),
{
    book.reconstruct(
        |des: &mut DestructBook|
            ensures
                (*final(des))@ == revised((*old(des))@)
            {
                des.name = String::from_str("new name");
                des.author = String::from_str("reirokusanami");
                des.published_at = String::from_str("2023/01/04");
            },
    )
}

/// Revises a book in place by `substitute`.
pub fn mutation(book: &mut Book)
    ensures
        final(book)@ == revised(old(book)@),
{
    book.substitute(
        |view: &mut BookMut<'_>|
            ensures
                (*final(view)).now() == revised((*old(view)).now()),
                *final(final(view).id) == *final(old(view).id),
                *final(final(view).name) == *final(old(view).name),
                *final(final(view).published_at) == *final(old(view).published_at),
                *final(final(view).author) == *final(old(view).author)
            {
                *view.name = String::from_str("new name");
                *view.author = String::from_str("reirokusanami");
                *view.published_at = String::from_str("2023/01/04");
            },
    )
}

} // verus!
