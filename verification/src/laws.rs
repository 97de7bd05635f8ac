//! The store-level laws of the creation workflow, stated over the
//! mathematical transition `store_after` and proved for every sequence of
//! attempts.

use vstd::prelude::*;
use crate::book::{BookModel, CreateBookModel, Timestamp};
use crate::repository::{
    book_of, creation_ok, id_taken, missing_field, store_after, store_wf, title_taken,
};

verus! {

/// One creation attempt: the request together with the identifier and the
/// instant drawn for it.
pub struct CreationInput {
    pub req: CreateBookModel,
    pub id: u128,
    pub ts: Timestamp,
}

/// The store after a sequence of creation attempts, each applied in turn.
pub open spec fn run(store: Seq<BookModel>, inputs: Seq<CreationInput>) -> Seq<BookModel>
    decreases inputs.len(),
{
    if inputs.len() == 0 {
        store
    } else {
        run(store_after(store, inputs[0].req, inputs[0].id, inputs[0].ts), inputs.skip(1))
    }
}

/// How many of a sequence of creation attempts succeed.
pub open spec fn success_count(store: Seq<BookModel>, inputs: Seq<CreationInput>) -> nat
    decreases inputs.len(),
{
    if inputs.len() == 0 {
        0
    } else {
        (if creation_ok(store, inputs[0].req, inputs[0].id) {
            1nat
        } else {
            0nat
        }) + success_count(
            store_after(store, inputs[0].req, inputs[0].id, inputs[0].ts),
            inputs.skip(1),
        )
    }
}

/// How many of a sequence of creation attempts succeed in creating a book
/// with the given title.
pub open spec fn success_count_for_title(
    store: Seq<BookModel>,
    inputs: Seq<CreationInput>,
    title: Seq<char>,
) -> nat
    decreases inputs.len(),
{
    if inputs.len() == 0 {
        0
    } else {
        (if inputs[0].req.title == Some(title) && creation_ok(store, inputs[0].req, inputs[0].id) {
            1nat
        } else {
            0nat
        }) + success_count_for_title(
            store_after(store, inputs[0].req, inputs[0].id, inputs[0].ts),
            inputs.skip(1),
            title,
        )
    }
}

/// Validation completeness: an attempt with any required field absent fails
/// and leaves the store unchanged.
pub proof fn lemma_validation_completeness(
    store: Seq<BookModel>,
    req: CreateBookModel,
    id: u128,
    ts: Timestamp,
)
    requires
        missing_field(req),
    ensures
        !creation_ok(store, req, id),
        store_after(store, req, id, ts) == store,
{
}

/// One creation attempt keeps the store well formed: no two records ever
/// share a title or an identifier.
pub proof fn lemma_step_preserves_wf(
    store: Seq<BookModel>,
    req: CreateBookModel,
    id: u128,
    ts: Timestamp,
)
    requires
        store_wf(store),
    ensures
        store_wf(store_after(store, req, id, ts)),
{
    if creation_ok(store, req, id) {
        let s2 = store.push(book_of(req, id, ts));
        assert forall|i: int, j: int| 0 <= i < j < s2.len() implies s2[i].title != s2[j].title
            && s2[i].id != s2[j].id by {
            if j == store.len() {
                assert(s2[i] == store[i]);
                assert(!title_taken(store, req.title->0));
                assert(!id_taken(store, id));
            }
        }
    }
}

/// The uniqueness invariant holds across every sequence of creation
/// attempts: a well-formed store stays well formed.
pub proof fn lemma_run_preserves_wf(store: Seq<BookModel>, inputs: Seq<CreationInput>)
    requires
        store_wf(store),
    ensures
        store_wf(run(store, inputs)),
    decreases inputs.len(),
{
    if inputs.len() > 0 {
        lemma_step_preserves_wf(store, inputs[0].req, inputs[0].id, inputs[0].ts);
        lemma_run_preserves_wf(
            store_after(store, inputs[0].req, inputs[0].id, inputs[0].ts),
            inputs.skip(1),
        );
    }
}

/// Identity uniqueness: starting from a well-formed store, after any sequence
/// of creation attempts no two stored books share an identifier.
pub proof fn lemma_identity_uniqueness(store: Seq<BookModel>, inputs: Seq<CreationInput>)
    requires
        store_wf(store),
    ensures
        forall|i: int, j: int|
            0 <= i < j < run(store, inputs).len() ==> run(store, inputs)[i].id != run(
                store,
                inputs,
            )[j].id,
{
    lemma_run_preserves_wf(store, inputs);
}

/// Append-only: after any sequence of creation attempts the store has grown
/// by exactly the number of successful ones; failed attempts add nothing.
pub proof fn lemma_append_only(store: Seq<BookModel>, inputs: Seq<CreationInput>)
    ensures
        run(store, inputs).len() == store.len() + success_count(store, inputs),
    decreases inputs.len(),
{
    if inputs.len() > 0 {
        lemma_append_only(
            store_after(store, inputs[0].req, inputs[0].id, inputs[0].ts),
            inputs.skip(1),
        );
    }
}

/// A title once stored stays stored: no attempt removes or changes a record.
pub proof fn lemma_title_stays_taken(
    store: Seq<BookModel>,
    inputs: Seq<CreationInput>,
    title: Seq<char>,
)
    requires
        title_taken(store, title),
    ensures
        title_taken(run(store, inputs), title),
    decreases inputs.len(),
{
    if inputs.len() > 0 {
        let s2 = store_after(store, inputs[0].req, inputs[0].id, inputs[0].ts);
        let w = choose|i: int| 0 <= i < store.len() && store[i].title == title;
        assert(s2[w].title == title);
        lemma_title_stays_taken(s2, inputs.skip(1), title);
    }
}

/// While a title is stored, no attempt with that title succeeds.
pub proof fn lemma_taken_title_never_recreated(
    store: Seq<BookModel>,
    inputs: Seq<CreationInput>,
    title: Seq<char>,
)
    requires
        title_taken(store, title),
    ensures
        success_count_for_title(store, inputs, title) == 0,
    decreases inputs.len(),
{
    if inputs.len() > 0 {
        let s2 = store_after(store, inputs[0].req, inputs[0].id, inputs[0].ts);
        let w = choose|i: int| 0 <= i < store.len() && store[i].title == title;
        assert(s2[w].title == title);
        lemma_taken_title_never_recreated(s2, inputs.skip(1), title);
    }
}

/// Uniqueness under races, the winning side: when the store does not yet
/// hold a title, the head of the sequence asks for it with all fields
/// present, and the identifier drawn for that attempt is fresh, then of all
/// the attempts that ask for this title exactly one succeeds — the head —
/// however many follow and however they are interleaved with the rest.
pub proof fn lemma_one_winner_when_first_id_fresh(
    store: Seq<BookModel>,
    inputs: Seq<CreationInput>,
    title: Seq<char>,
)
    requires
        inputs.len() > 0,
        inputs[0].req.title == Some(title),
        !missing_field(inputs[0].req),
        !title_taken(store, title),
        !id_taken(store, inputs[0].id),
    ensures
        success_count_for_title(store, inputs, title) == 1,
{
    assert(creation_ok(store, inputs[0].req, inputs[0].id));
    let s2 = store_after(store, inputs[0].req, inputs[0].id, inputs[0].ts);
    assert(s2[store.len() as int].title == title);
    assert(title_taken(s2, title));
    lemma_taken_title_never_recreated(s2, inputs.skip(1), title);
}

/// Uniqueness under races: of all the attempts that ask for one given title,
/// at most one succeeds, however they are interleaved with the rest.
pub proof fn lemma_at_most_one_winner_per_title(
    store: Seq<BookModel>,
    inputs: Seq<CreationInput>,
    title: Seq<char>,
)
    ensures
        success_count_for_title(store, inputs, title) <= 1,
    decreases inputs.len(),
{
    if inputs.len() > 0 {
        let s2 = store_after(store, inputs[0].req, inputs[0].id, inputs[0].ts);
        if inputs[0].req.title == Some(title) && creation_ok(store, inputs[0].req, inputs[0].id) {
            assert(s2 == store.push(book_of(inputs[0].req, inputs[0].id, inputs[0].ts)));
            assert(s2[store.len() as int].title == title);
            assert(title_taken(s2, title));
            lemma_taken_title_never_recreated(s2, inputs.skip(1), title);
        } else {
            lemma_at_most_one_winner_per_title(s2, inputs.skip(1), title);
        }
    }
}

} // verus!
