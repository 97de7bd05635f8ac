//! The book entity and the creation request, with their mathematical models.

use vstd::prelude::*;

verus! {

/// An instant together with its local offset from UTC, as plain values:
/// milliseconds since the Unix epoch and the offset in seconds.
#[derive(Clone, Copy, PartialEq, Eq, Structural, Debug)]
pub struct Timestamp {
    pub millis: i64,
    pub offset_seconds: i32,
}

/// The mathematical image of a stored book record.
pub struct BookModel {
    pub id: u128,
    pub title: Seq<char>,
    pub author: Seq<char>,
    pub pages: int,
    pub created_at: Timestamp,
    pub updated_at: Timestamp,
}

/// The sole stored entity: identity, caller-provided fields, and the two
/// timestamps set at the creation instant.
#[derive(Debug)]
pub struct Book {
    pub id: u128,
    pub title: String,
    pub author: String,
    pub pages: i64,
    pub created_at: Timestamp,
    pub updated_at: Timestamp,
}

impl View for Book {
    type V = BookModel;

    open spec fn view(&self) -> BookModel {
        BookModel {
            id: self.id,
            title: self.title@,
            author: self.author@,
            pages: self.pages as int,
            created_at: self.created_at,
            updated_at: self.updated_at,
        }
    }
}

/// The mathematical image of a creation request.
pub struct CreateBookModel {
    pub title: Option<Seq<char>>,
    pub author: Option<Seq<char>>,
    pub pages: Option<int>,
}

/// The transient creation request: each field may be absent.
pub struct CreateBook {
    pub title: Option<String>,
    pub author: Option<String>,
    pub pages: Option<i64>,
}

impl View for CreateBook {
    type V = CreateBookModel;

    open spec fn view(&self) -> CreateBookModel {
        CreateBookModel {
            title: match self.title {
                Some(t) => Some(t@),
                None => None,
            },
            author: match self.author {
                Some(a) => Some(a@),
                None => None,
            },
            pages: match self.pages {
                Some(p) => Some(p as int),
                None => None,
            },
        }
    }
}

} // verus!
