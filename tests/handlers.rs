use printshop::brand::{
    count_brands, create_brand, delete_brand, search_brand, show_brands, update_brand,
};
use printshop::naming::{check_name, NameError};
use printshop::printer::{create_printer, delete_printer};
use printshop::records::{Brand, Printer};
use printshop::status::Status;
use printshop::store::{Answer, Query, Step, StorageError};

const SAMPLE_ID: &str = "a1a2a3a4-b1b2-c1c2-d1d2-d3d4d5d6d7d8";
const SAMPLE_VALUE: u128 = 0xa1a2a3a4b1b2c1c2d1d2d3d4d5d6d7d8;

/// An in-memory brand store that answers statements as the relational one does.
struct FakeStore {
    brands: Vec<(u128, String)>,
}

impl FakeStore {
    fn new() -> Self {
        FakeStore { brands: Vec::new() }
    }

    fn run(&mut self, q: &Query) -> Answer {
        let found = |b: bool| if b { Answer::Row } else { Answer::NoRow };
        match q {
            Query::BrandByName { name } => found(self.brands.iter().any(|(_, n)| n == name)),
            Query::BrandById { id } => found(self.brands.iter().any(|(i, _)| i == id)),
            Query::OtherBrandByName { name, id } => {
                found(self.brands.iter().any(|(i, n)| n == name && i != id))
            }
            Query::InsertBrand { brand } => {
                if self.brands.iter().any(|(i, _)| *i == brand.id) {
                    Answer::Failed
                } else {
                    self.brands.push((brand.id, brand.name.clone()));
                    Answer::Done
                }
            }
            Query::RenameBrand { id, name } => {
                for b in self.brands.iter_mut() {
                    if b.0 == *id {
                        b.1 = name.clone();
                    }
                }
                Answer::Done
            }
            Query::DeleteBrand { id } => {
                self.brands.retain(|(i, _)| i != id);
                Answer::Done
            }
            Query::InsertPrinter { .. } | Query::DeletePrinter { .. } => Answer::Done,
        }
    }

    fn serve(&mut self, handler: impl Fn(&[Answer]) -> Step) -> Status {
        let mut answers: Vec<Answer> = Vec::new();
        loop {
            match handler(&answers) {
                Step::Reply(s) => return s,
                Step::Run(q) => {
                    let a = self.run(&q);
                    answers.push(a);
                }
            }
        }
    }

    fn get(&self, id: u128) -> (Status, Option<Brand>) {
        let row = self
            .brands
            .iter()
            .find(|(i, _)| *i == id)
            .map(|(i, n)| Brand { id: *i, name: n.clone() });
        search_brand(Ok(row))
    }

    fn create(&mut self, name: &str) -> (Status, u128) {
        let candidate = Brand::new(name);
        let id = candidate.id;
        (self.serve(|a| create_brand(&candidate, a)), id)
    }
}

fn reply(step: Step) -> Status {
    match step {
        Step::Reply(s) => s,
        Step::Run(q) => panic!("expected a reply, got {:?}", q),
    }
}

#[test]
fn status_codes() {
    assert_eq!(Status::Success.code(), 200);
    assert_eq!(Status::Created.code(), 201);
    assert_eq!(Status::BadRequest.code(), 400);
    assert_eq!(Status::NotFound.code(), 404);
    assert_eq!(Status::Conflict.code(), 409);
    assert_eq!(Status::InternalServerError.code(), 500);
}

#[test]
fn name_checks_in_order() {
    assert_eq!(check_name(""), Err(NameError::Empty));
    assert_eq!(check_name("A"), Err(NameError::TooShort));
    assert_eq!(check_name("Abc"), Err(NameError::TooShort));
    assert_eq!(check_name("Acme"), Ok(()));
    assert_eq!(check_name("abcdefghijklmnopqrst"), Ok(()));
    assert_eq!(check_name("abcdefghijklmnopqrstu"), Err(NameError::TooLong));
}

#[test]
fn name_length_counts_characters() {
    assert_eq!(check_name("Ébèn"), Ok(()));
    assert_eq!(check_name("ÄÖÜ"), Err(NameError::TooShort));
}

#[test]
fn count_brands_swallows_failure() {
    assert_eq!(count_brands(Ok(7)), 7);
    assert_eq!(count_brands(Ok(0)), 0);
    assert_eq!(count_brands(Err(StorageError)), 0);
}

#[test]
fn show_brands_swallows_failure() {
    let listed = show_brands(Ok(vec![Brand { id: 1, name: "Acme".to_string() }]));
    assert_eq!(listed.len(), 1);
    assert_eq!(listed[0].name, "Acme");
    assert!(show_brands(Err(StorageError)).is_empty());
}

#[test]
fn search_brand_statuses() {
    let (s, b) = search_brand(Ok(Some(Brand { id: 3, name: "Acme".to_string() })));
    assert_eq!(s, Status::Success);
    assert_eq!(b.unwrap().id, 3);
    let (s, b) = search_brand(Ok(None));
    assert_eq!(s, Status::NotFound);
    assert!(b.is_none());
    let (s, b) = search_brand(Err(StorageError));
    assert_eq!(s, Status::InternalServerError);
    assert!(b.is_none());
}

#[test]
fn create_brand_steps() {
    let c = Brand { id: 9, name: "Acme".to_string() };
    match create_brand(&c, &[]) {
        Step::Run(Query::BrandByName { name }) => assert_eq!(name, "Acme"),
        other => panic!("unexpected {:?}", other),
    }
    assert_eq!(reply(create_brand(&c, &[Answer::Row])), Status::Conflict);
    assert_eq!(reply(create_brand(&c, &[Answer::Failed])), Status::InternalServerError);
    match create_brand(&c, &[Answer::NoRow]) {
        Step::Run(Query::InsertBrand { brand }) => {
            assert_eq!(brand.id, 9);
            assert_eq!(brand.name, "Acme");
        }
        other => panic!("unexpected {:?}", other),
    }
    assert_eq!(reply(create_brand(&c, &[Answer::NoRow, Answer::Done])), Status::Created);
    assert_eq!(
        reply(create_brand(&c, &[Answer::NoRow, Answer::Failed])),
        Status::InternalServerError
    );
}

#[test]
fn create_brand_duplicate_before_validation() {
    let short = Brand { id: 9, name: "Ab".to_string() };
    assert_eq!(reply(create_brand(&short, &[Answer::Row])), Status::Conflict);
    assert_eq!(reply(create_brand(&short, &[Answer::NoRow])), Status::BadRequest);
    let empty = Brand { id: 9, name: String::new() };
    assert_eq!(reply(create_brand(&empty, &[Answer::NoRow])), Status::BadRequest);
}

#[test]
fn update_brand_steps() {
    match update_brand(5, "Acme2", &[]) {
        Step::Run(Query::BrandById { id }) => assert_eq!(id, 5),
        other => panic!("unexpected {:?}", other),
    }
    assert_eq!(reply(update_brand(5, "Acme2", &[Answer::NoRow])), Status::NotFound);
    assert_eq!(reply(update_brand(5, "Acme2", &[Answer::Failed])), Status::InternalServerError);
    assert_eq!(reply(update_brand(5, "", &[Answer::Row])), Status::BadRequest);
    assert_eq!(reply(update_brand(5, "Ab", &[Answer::Row])), Status::BadRequest);
    match update_brand(5, "Acme2", &[Answer::Row]) {
        Step::Run(Query::OtherBrandByName { name, id }) => {
            assert_eq!(name, "Acme2");
            assert_eq!(id, 5);
        }
        other => panic!("unexpected {:?}", other),
    }
    assert_eq!(reply(update_brand(5, "Acme2", &[Answer::Row, Answer::Row])), Status::BadRequest);
    assert_eq!(
        reply(update_brand(5, "Acme2", &[Answer::Row, Answer::Failed])),
        Status::InternalServerError
    );
    match update_brand(5, "Acme2", &[Answer::Row, Answer::NoRow]) {
        Step::Run(Query::RenameBrand { id, name }) => {
            assert_eq!(id, 5);
            assert_eq!(name, "Acme2");
        }
        other => panic!("unexpected {:?}", other),
    }
    let done = [Answer::Row, Answer::NoRow, Answer::Done];
    assert_eq!(reply(update_brand(5, "Acme2", &done)), Status::Success);
    let failed = [Answer::Row, Answer::NoRow, Answer::Failed];
    assert_eq!(reply(update_brand(5, "Acme2", &failed)), Status::InternalServerError);
}

#[test]
fn delete_brand_steps() {
    match delete_brand(5, &[]) {
        Step::Run(Query::BrandById { id }) => assert_eq!(id, 5),
        other => panic!("unexpected {:?}", other),
    }
    assert_eq!(reply(delete_brand(5, &[Answer::NoRow])), Status::NotFound);
    assert_eq!(reply(delete_brand(5, &[Answer::Failed])), Status::InternalServerError);
    match delete_brand(5, &[Answer::Row]) {
        Step::Run(Query::DeleteBrand { id }) => assert_eq!(id, 5),
        other => panic!("unexpected {:?}", other),
    }
    assert_eq!(reply(delete_brand(5, &[Answer::Row, Answer::Done])), Status::Success);
    assert_eq!(
        reply(delete_brand(5, &[Answer::Row, Answer::Failed])),
        Status::InternalServerError
    );
}

#[test]
fn printer_steps() {
    let p = Printer::new("Office", "X1", SAMPLE_ID, SAMPLE_ID, SAMPLE_ID).unwrap();
    match create_printer(&p, &[]) {
        Step::Run(Query::InsertPrinter { printer }) => {
            assert_eq!(printer.id, p.id);
            assert_eq!(printer.name, "Office");
            assert_eq!(printer.model, "X1");
        }
        other => panic!("unexpected {:?}", other),
    }
    assert_eq!(reply(create_printer(&p, &[Answer::Done])), Status::Created);
    assert_eq!(reply(create_printer(&p, &[Answer::Failed])), Status::InternalServerError);
    match delete_printer(8, &[]) {
        Step::Run(Query::DeletePrinter { id }) => assert_eq!(id, 8),
        other => panic!("unexpected {:?}", other),
    }
    assert_eq!(reply(delete_printer(8, &[Answer::Done])), Status::Success);
    assert_eq!(reply(delete_printer(8, &[Answer::Failed])), Status::InternalServerError);
}

#[test]
fn printer_reads_reference_ids() {
    let p = Printer::new("Office", "X1", SAMPLE_ID, "a1a2a3a4b1b2c1c2d1d2d3d4d5d6d7d8", SAMPLE_ID)
        .unwrap();
    assert_eq!(p.brand, SAMPLE_VALUE);
    assert_eq!(p.toner, SAMPLE_VALUE);
    assert_eq!(p.drum, SAMPLE_VALUE);
}

#[test]
fn printer_with_malformed_reference_is_refused() {
    assert!(Printer::new("Office", "X1", "not-an-id", SAMPLE_ID, SAMPLE_ID).is_none());
    assert!(Printer::new("Office", "X1", SAMPLE_ID, "", SAMPLE_ID).is_none());
    assert!(Printer::new("Office", "X1", SAMPLE_ID, SAMPLE_ID, "zzzzzzzz-b1b2-c1c2-d1d2-d3d4d5d6d7d8")
        .is_none());
}

#[test]
fn fresh_ids_are_version_four() {
    let a = Brand::new("Acme");
    let b = Brand::new("Acme");
    assert_eq!(a.name, "Acme");
    assert_ne!(a.id, b.id);
    let mask: u128 = 0xF000_C000_0000_0000_0000;
    assert_eq!(a.id & mask, 0x4000_8000_0000_0000_0000);
}

#[test]
fn create_valid_name_once_then_conflict() {
    let mut store = FakeStore::new();
    for name in ["Acme", "abcdefghijklmnopqrst", "Brother"] {
        assert_eq!(store.create(name).0, Status::Created);
        assert_eq!(store.create(name).0, Status::Conflict);
    }
    assert_eq!(store.brands.len(), 3);
}

#[test]
fn create_invalid_name_is_bad_request() {
    let mut store = FakeStore::new();
    for name in ["", "A", "Abc", "abcdefghijklmnopqrstu"] {
        assert_eq!(store.create(name).0, Status::BadRequest);
        assert_eq!(store.create(name).0, Status::BadRequest);
    }
    assert!(store.brands.is_empty());
}

#[test]
fn update_to_other_or_own_name() {
    let mut store = FakeStore::new();
    let (_, first) = store.create("Acme");
    let (_, second) = store.create("Brother");
    assert_eq!(store.serve(|a| update_brand(second, "Acme", a)), Status::BadRequest);
    assert_eq!(store.serve(|a| update_brand(first, "Acme", a)), Status::Success);
    assert_eq!(store.get(second).1.unwrap().name, "Brother");
}

#[test]
fn missing_id_is_not_found() {
    let mut store = FakeStore::new();
    store.create("Acme");
    assert_eq!(store.serve(|a| update_brand(42, "Other", a)), Status::NotFound);
    assert_eq!(store.serve(|a| delete_brand(42, a)), Status::NotFound);
}

#[test]
fn delete_then_get_is_not_found() {
    let mut store = FakeStore::new();
    let (_, id) = store.create("Acme");
    assert_eq!(store.get(id).0, Status::Success);
    assert_eq!(store.serve(|a| delete_brand(id, a)), Status::Success);
    assert_eq!(store.get(id).0, Status::NotFound);
    assert!(store.get(id).1.is_none());
}

#[test]
fn acme_walkthrough() {
    let mut store = FakeStore::new();
    let (s, id) = store.create("Acme");
    assert_eq!(s.code(), 201);
    assert_eq!(store.create("Acme").0.code(), 409);
    assert_eq!(store.create("Ab").0.code(), 400);
    assert_eq!(store.serve(|a| update_brand(id, "Acme2", a)).code(), 200);
    let (s, found) = store.get(id);
    assert_eq!(s.code(), 200);
    assert_eq!(found.unwrap().name, "Acme2");
}
