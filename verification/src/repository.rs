//! The in-memory repository and the book-creation workflow: presence
//! validation, duplicate detection and append, all performed on the store
//! under one exclusive borrow.

use vstd::prelude::*;
use crate::book::{Book, BookModel, CreateBook, CreateBookModel, Timestamp};
use crate::error::CreationError;
use crate::fresh::{fresh_uuid, now_local};

verus! {

/// A required field of the creation request is absent.
pub open spec fn missing_field(req: CreateBookModel) -> bool {
    req.title is None || req.author is None || req.pages is None
}

/// Some stored book already carries this title (case-sensitive exact match).
pub open spec fn title_taken(store: Seq<BookModel>, title: Seq<char>) -> bool {
    exists|i: int| 0 <= i < store.len() && store[i].title == title
}

/// Some stored book already carries this identifier.
pub open spec fn id_taken(store: Seq<BookModel>, id: u128) -> bool {
    exists|i: int| 0 <= i < store.len() && store[i].id == id
}

/// The record a successful creation appends: the request's fields, the given
/// identity, and both timestamps set to the same instant.
pub open spec fn book_of(req: CreateBookModel, id: u128, ts: Timestamp) -> BookModel
    recommends
        !missing_field(req),
{
    BookModel {
        id,
        title: req.title->0,
        author: req.author->0,
        pages: req.pages->0,
        created_at: ts,
        updated_at: ts,
    }
}

/// A creation attempt succeeds exactly when all fields are present, the title
/// is not yet stored, and the drawn identifier is not yet stored.
pub open spec fn creation_ok(store: Seq<BookModel>, req: CreateBookModel, id: u128) -> bool {
    &&& !missing_field(req)
    &&& !title_taken(store, req.title->0)
    &&& !id_taken(store, id)
}

/// How one creation attempt transforms the store: an append on success,
/// no change on any failure.
pub open spec fn store_after(
    store: Seq<BookModel>,
    req: CreateBookModel,
    id: u128,
    ts: Timestamp,
) -> Seq<BookModel> {
    if creation_ok(store, req, id) {
        store.push(book_of(req, id, ts))
    } else {
        store
    }
}

/// Well-formedness of the store: no two records share a title or an
/// identifier.
pub open spec fn store_wf(store: Seq<BookModel>) -> bool {
    forall|i: int, j: int|
        0 <= i < j < store.len() ==> store[i].title != store[j].title && store[i].id
            != store[j].id
}

/// The creation request is rejected for a missing field.
pub fn has_invalid_params_on_create(payload: CreateBook) -> (r: bool)
    ensures
        r == missing_field(payload@),
{
    payload.title.is_none() || payload.author.is_none() || payload.pages.is_none()
}

/// The exclusive custodian of the book collection: a growable, append-only,
/// insertion-ordered sequence of records. All access goes through a mutable
/// borrow, so the duplicate check and the append of one creation attempt are
/// atomic with respect to every other caller.
pub struct MemoryRepository {
    books: Vec<Book>,
}

impl View for MemoryRepository {
    type V = Seq<BookModel>;

    closed spec fn view(&self) -> Seq<BookModel> {
        self.books@.map_values(|b: Book| b@)
    }
}

impl MemoryRepository {
    /// A fresh, empty store.
    pub fn init() -> (r: Self)
        ensures
            r@ == Seq::<BookModel>::empty(),
            store_wf(r@),
    {
        let r = MemoryRepository { books: Vec::new() };
        proof {
            assert(r@ =~= Seq::<BookModel>::empty());
        }
        r
    }

    /// How many books are stored.
    pub fn len(&self) -> (n: usize)
        ensures
            n == self@.len(),
    {
        self.books.len()
    }

    /// The stored book at a position of the insertion order.
    pub fn book_at(&self, i: usize) -> (b: &Book)
        requires
            i < self@.len(),
        ensures
            b@ == self@[i as int],
    {
        &self.books[i]
    }

    /// The whole creation workflow for a given identity and instant:
    /// validate, scan for a duplicate title, scan for a duplicate identifier,
    /// construct and append — with the outcome pinned down exactly for every
    /// input. The identifier and the instant are taken as arguments so that
    /// the outcome is a function of the arguments alone.
    #[verifier::loop_isolation(false)]
    pub fn create_book_with_id(
        &mut self,
        payload: CreateBook,
        id: u128,
        now: Timestamp,
    ) -> (r: Result<Book, CreationError>)
        ensures
            final(self)@ == store_after(old(self)@, payload@, id, now),
            r is Ok <==> creation_ok(old(self)@, payload@, id),
            r matches Ok(book) ==> book@ == book_of(payload@, id, now) && final(self)@ == old(
                self,
            )@.push(book@),
            r is Err ==> final(self)@ == old(self)@,
            (r matches Err(e) && e == CreationError::ValidationError) <==> missing_field(payload@),
            (r matches Err(e) && e == CreationError::ConflictError) <==> (!missing_field(payload@)
                && title_taken(old(self)@, payload@.title->0)),
            (r matches Err(e) && e == CreationError::InternalError) <==> (!missing_field(payload@)
                && !title_taken(old(self)@, payload@.title->0) && id_taken(old(self)@, id)),
            store_wf(old(self)@) ==> store_wf(final(self)@),
    {
        let ghost req = payload@;
        let CreateBook { title, author, pages } = payload;
        if title.is_none() || author.is_none() || pages.is_none() {
            return Err(CreationError::ValidationError);
        }
        let title = title.unwrap();
        let author = author.unwrap();
        let pages = pages.unwrap();

        let mut i: usize = 0;
        while i < self.books.len()
            invariant
                i <= self.books.len(),
                *self == *old(self),
                title@ == req.title->0,
                forall|j: int| 0 <= j < i ==> self@[j].title != title@,
            decreases self.books.len() - i,
        {
            assert(self@[i as int] == self.books@[i as int]@);
            if self.books[i].title == title {
                assert(title_taken(old(self)@, req.title->0));
                return Err(CreationError::ConflictError);
            }
            i += 1;
        }
        assert(!title_taken(old(self)@, req.title->0));

        let mut k: usize = 0;
        while k < self.books.len()
            invariant
                k <= self.books.len(),
                *self == *old(self),
                forall|j: int| 0 <= j < k ==> self@[j].id != id,
            decreases self.books.len() - k,
        {
            assert(self@[k as int] == self.books@[k as int]@);
            if self.books[k].id == id {
                assert(id_taken(old(self)@, id));
                return Err(CreationError::InternalError);
            }
            k += 1;
        }
        assert(!id_taken(old(self)@, id));

        let book = Book { id, title, author, pages, created_at: now, updated_at: now };
        let stored = Book {
            id: book.id,
            title: book.title.clone(),
            author: book.author.clone(),
            pages: book.pages,
            created_at: book.created_at,
            updated_at: book.updated_at,
        };
        assert(stored@ == book_of(req, id, now));
        self.books.push(stored);
        proof {
            assert(self@ =~= old(self)@.push(book_of(req, id, now)));
            if store_wf(old(self)@) {
                crate::laws::lemma_step_preserves_wf(old(self)@, req, id, now);
            }
        }
        Ok(book)
    }

    /// The creation workflow as the service runs it: the identity is drawn
    /// fresh and both timestamps are set to the instant of the call. Whether
    /// the drawn identifier collides with a stored one is outside anyone's
    /// control, so on a valid, conflict-free request the outcome is either
    /// the created book or the internal failure — never silence. On an empty
    /// store nothing can collide, so there a valid request is owed success.
    pub fn create_book(&mut self, payload: CreateBook) -> (r: Result<Book, CreationError>)
        ensures
            (r matches Err(e) && e == CreationError::ValidationError) <==> missing_field(payload@),
            (r matches Err(e) && e == CreationError::ConflictError) <==> (!missing_field(payload@)
                && title_taken(old(self)@, payload@.title->0)),
            !missing_field(payload@) && !title_taken(old(self)@, payload@.title->0) ==> (r is Ok
                || (r matches Err(e) && e == CreationError::InternalError)),
            old(self)@.len() == 0 && !missing_field(payload@) ==> r is Ok,
            r is Err ==> final(self)@ == old(self)@,
            r matches Ok(book) ==> {
                &&& !missing_field(payload@)
                &&& book@.title == payload@.title->0
                &&& book@.author == payload@.author->0
                &&& book@.pages == payload@.pages->0
                &&& book@.created_at == book@.updated_at
                &&& !title_taken(old(self)@, book@.title)
                &&& !id_taken(old(self)@, book@.id)
                &&& final(self)@ == old(self)@.push(book@)
            },
            store_wf(old(self)@) ==> store_wf(final(self)@),
    {
        let id = fresh_uuid();
        let now = now_local();
        self.create_book_with_id(payload, id, now)
    }
}

} // verus!
