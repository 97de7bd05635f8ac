use memory_repository::{
    has_invalid_params_on_create, CreateBook, CreationError, MemoryRepository, Timestamp,
};

fn full_payload(title: &str, author: &str, pages: i64) -> CreateBook {
    CreateBook {
        title: Some(title.to_string()),
        author: Some(author.to_string()),
        pages: Some(pages),
    }
}

#[test]
fn create_returns_book_echoing_the_request() {
    let mut repo = MemoryRepository::init();
    let book = repo
        .create_book(full_payload("Dune", "Herbert", 412))
        .unwrap();
    assert_eq!(book.title, "Dune");
    assert_eq!(book.author, "Herbert");
    assert_eq!(book.pages, 412);
    assert_eq!(book.created_at, book.updated_at);
    assert_eq!(repo.len(), 1);
    let stored = repo.book_at(0);
    assert_eq!(stored.id, book.id);
    assert_eq!(stored.title, "Dune");
}

#[test]
fn duplicate_title_is_a_conflict() {
    let mut repo = MemoryRepository::init();
    repo.create_book(full_payload("Dune", "Herbert", 412)).unwrap();
    let second = repo.create_book(full_payload("Dune", "Herbert", 500));
    assert_eq!(second.unwrap_err(), CreationError::ConflictError);
    assert_eq!(repo.len(), 1);
}

#[test]
fn missing_fields_are_rejected_and_store_is_unchanged() {
    let mut repo = MemoryRepository::init();
    let payload = CreateBook {
        title: Some("Dune".to_string()),
        author: None,
        pages: None,
    };
    let r = repo.create_book(payload);
    assert_eq!(r.unwrap_err(), CreationError::ValidationError);
    assert_eq!(repo.len(), 0);
}

#[test]
fn every_combination_of_absent_fields_is_rejected() {
    let cases: Vec<(bool, bool, bool)> = vec![
        (false, false, false),
        (false, false, true),
        (false, true, false),
        (false, true, true),
        (true, false, false),
        (true, false, true),
        (true, true, false),
    ];
    for (has_title, has_author, has_pages) in cases {
        let mut repo = MemoryRepository::init();
        let payload = CreateBook {
            title: if has_title { Some("Dune".to_string()) } else { None },
            author: if has_author { Some("Herbert".to_string()) } else { None },
            pages: if has_pages { Some(412) } else { None },
        };
        assert!(has_invalid_params_on_create(CreateBook {
            title: payload.title.clone(),
            author: payload.author.clone(),
            pages: payload.pages,
        }));
        let r = repo.create_book(payload);
        assert_eq!(r.unwrap_err(), CreationError::ValidationError);
        assert_eq!(repo.len(), 0);
    }
}

#[test]
fn full_payload_has_valid_params() {
    assert!(!has_invalid_params_on_create(full_payload(
        "Dune", "Herbert", 412
    )));
}

#[test]
fn same_title_twice_gives_one_winner_and_one_conflict() {
    let mut repo = MemoryRepository::init();
    let first = repo.create_book(full_payload("Dune", "Herbert", 412));
    let second = repo.create_book(full_payload("Dune", "Asimov", 500));
    assert!(first.is_ok());
    assert_eq!(second.unwrap_err(), CreationError::ConflictError);
    assert_eq!(repo.len(), 1);
    let mut with_title: usize = 0;
    for i in 0..repo.len() {
        if repo.book_at(i).title == "Dune" {
            with_title += 1;
        }
    }
    assert_eq!(with_title, 1);
}

#[test]
fn store_grows_only_by_successful_creations() {
    let mut repo = MemoryRepository::init();
    assert!(repo.create_book(full_payload("Dune", "Herbert", 412)).is_ok());
    assert!(repo
        .create_book(CreateBook { title: None, author: None, pages: None })
        .is_err());
    assert!(repo.create_book(full_payload("Foundation", "Asimov", 255)).is_ok());
    assert!(repo.create_book(full_payload("Dune", "Someone", 1)).is_err());
    assert!(repo.create_book(full_payload("Hyperion", "Simmons", 482)).is_ok());
    assert_eq!(repo.len(), 3);
}

#[test]
fn created_books_have_distinct_ids() {
    let mut repo = MemoryRepository::init();
    let a = repo.create_book(full_payload("Dune", "Herbert", 412)).unwrap();
    let b = repo.create_book(full_payload("Foundation", "Asimov", 255)).unwrap();
    assert_ne!(a.id, b.id);
}

#[test]
fn timestamps_are_equal_and_within_the_request_window() {
    let before = chrono::Local::now().timestamp_millis();
    let mut repo = MemoryRepository::init();
    let book = repo
        .create_book(full_payload("Dune", "Herbert", 412))
        .unwrap();
    let after = chrono::Local::now().timestamp_millis();
    assert_eq!(book.created_at, book.updated_at);
    assert!(before <= book.created_at.millis);
    assert!(book.created_at.millis <= after);
}

#[test]
fn creation_with_given_id_pins_every_field() {
    let mut repo = MemoryRepository::init();
    let ts = Timestamp { millis: 1000, offset_seconds: 3600 };
    let book = repo
        .create_book_with_id(full_payload("Dune", "Herbert", 412), 5, ts)
        .unwrap();
    assert_eq!(book.id, 5);
    assert_eq!(book.title, "Dune");
    assert_eq!(book.author, "Herbert");
    assert_eq!(book.pages, 412);
    assert_eq!(book.created_at, ts);
    assert_eq!(book.updated_at, ts);
    assert_eq!(repo.len(), 1);
}

#[test]
fn a_colliding_id_is_an_internal_error() {
    let mut repo = MemoryRepository::init();
    let ts = Timestamp { millis: 1000, offset_seconds: 0 };
    repo.create_book_with_id(full_payload("Dune", "Herbert", 412), 5, ts)
        .unwrap();
    let r = repo.create_book_with_id(full_payload("Foundation", "Asimov", 255), 5, ts);
    assert_eq!(r.unwrap_err(), CreationError::InternalError);
    assert_eq!(repo.len(), 1);
}
