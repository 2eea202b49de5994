use students::store::{StoreError, Student, StudentStore, Students};

fn student(first: &str, last: &str, dept: &str, graduated: bool, age: i32) -> Student {
    Student {
        first_name: first.to_string(),
        last_name: last.to_string(),
        department: dept.to_string(),
        is_graduated: graduated,
        age,
    }
}

fn ada() -> Student {
    student("Ada", "Lovelace", "Math", true, 36)
}

fn alan() -> Student {
    student("Alan", "Turing", "CS", true, 41)
}

#[test]
fn first_identifier_is_one() {
    let mut s = StudentStore::new();
    let rec = Students::create(&mut s, ada());
    assert_eq!(rec.id, 1);
    assert_eq!(rec.first_name, "Ada");
    assert_eq!(rec.last_name, "Lovelace");
    assert_eq!(rec.department, "Math");
    assert!(rec.is_graduated);
    assert_eq!(rec.age, 36);
}

#[test]
fn example_scenario() {
    let mut s = StudentStore::new();
    let first = Students::create(&mut s, ada());
    assert_eq!(first.id, 1);
    assert_eq!(first.first_name, "Ada");
    let second = Students::create(&mut s, alan());
    assert_eq!(second.id, 2);
    let all = Students::find_all(&s);
    assert_eq!(all.len(), 2);
    assert!(all.iter().any(|r| r.id == 1 && r.first_name == "Ada"));
    assert!(all.iter().any(|r| r.id == 2 && r.first_name == "Alan"));
    let deleted = Students::delete(&mut s, 1).unwrap();
    assert_eq!(deleted.first_name, "Ada");
    assert_eq!(deleted.id, 1);
    assert_eq!(Students::find(&s, 1), Err(StoreError::NotFound));
}

#[test]
fn identifiers_strictly_increase_and_are_never_reused() {
    let mut s = StudentStore::new();
    let a = Students::create(&mut s, ada());
    let b = Students::create(&mut s, alan());
    let c = Students::create(&mut s, student("Grace", "Hopper", "CS", true, 50));
    assert_eq!((a.id, b.id, c.id), (1, 2, 3));
    assert!(a.id < b.id && b.id < c.id);
    Students::delete(&mut s, c.id).unwrap();
    let d = Students::create(&mut s, student("Edsger", "Dijkstra", "CS", false, 42));
    assert_eq!(d.id, 4);
}

#[test]
fn create_then_find_returns_equal_record() {
    let mut s = StudentStore::new();
    let created = Students::create(&mut s, alan());
    let found = Students::find(&s, created.id).unwrap();
    assert_eq!(found, created);
}

#[test]
fn delete_removes_the_record_everywhere() {
    let mut s = StudentStore::new();
    Students::create(&mut s, ada());
    let alan_rec = Students::create(&mut s, alan());
    let removed = Students::delete(&mut s, alan_rec.id).unwrap();
    assert_eq!(removed, alan_rec);
    assert_eq!(Students::find(&s, alan_rec.id), Err(StoreError::NotFound));
    let all = Students::find_all(&s);
    assert_eq!(all.len(), 1);
    assert!(all.iter().all(|r| r.id != alan_rec.id));
}

#[test]
fn update_overwrites_fields_and_keeps_id() {
    let mut s = StudentStore::new();
    let created = Students::create(&mut s, ada());
    let updated = Students::update(&mut s, created.id, student("Ada", "King", "CS", false, 37))
        .unwrap();
    assert_eq!(updated.id, created.id);
    let found = Students::find(&s, created.id).unwrap();
    assert_eq!(found, updated);
    assert_eq!(found.id, created.id);
    assert_eq!(found.last_name, "King");
    assert_eq!(found.department, "CS");
    assert!(!found.is_graduated);
    assert_eq!(found.age, 37);
}

#[test]
fn operations_on_absent_identifiers_fail_with_not_found() {
    let mut s = StudentStore::new();
    assert_eq!(Students::find(&s, 7), Err(StoreError::NotFound));
    assert_eq!(Students::update(&mut s, 7, ada()), Err(StoreError::NotFound));
    assert_eq!(Students::delete(&mut s, 7), Err(StoreError::NotFound));
    let created = Students::create(&mut s, ada());
    Students::delete(&mut s, created.id).unwrap();
    assert_eq!(Students::find(&s, created.id), Err(StoreError::NotFound));
    assert_eq!(
        Students::update(&mut s, created.id, alan()),
        Err(StoreError::NotFound)
    );
    assert_eq!(Students::delete(&mut s, created.id), Err(StoreError::NotFound));
}

#[test]
fn failed_operations_leave_the_store_unchanged() {
    let mut s = StudentStore::new();
    let created = Students::create(&mut s, ada());
    let before = Students::find_all(&s);
    assert!(Students::update(&mut s, 99, alan()).is_err());
    assert!(Students::delete(&mut s, 99).is_err());
    let after = Students::find_all(&s);
    assert_eq!(before, after);
    assert_eq!(Students::find(&s, created.id).unwrap(), created);
}

#[test]
fn many_creates_grow_the_store_by_exactly_that_many() {
    let mut s = StudentStore::new();
    let n: i32 = 25;
    let mut ids = Vec::new();
    for k in 0..n {
        let rec = Students::create(&mut s, student("First", "Last", "Dept", false, 20 + k));
        ids.push(rec.id);
    }
    assert_eq!(Students::find_all(&s).len(), n as usize);
    for p in 0..ids.len() {
        for q in (p + 1)..ids.len() {
            assert_ne!(ids[p], ids[q]);
        }
    }
    for w in ids.windows(2) {
        assert!(w[0] < w[1]);
    }
}

#[test]
fn find_all_on_an_empty_store_is_empty() {
    let s = StudentStore::new();
    assert!(Students::find_all(&s).is_empty());
}

#[test]
fn generator_counts_from_one() {
    let mut g = students::store::IdGen::new();
    assert_eq!(g.get_id(), 1);
    assert_eq!(g.get_id(), 2);
    g.add_to_id();
    assert_eq!(g.get_id(), 4);
}

#[test]
fn record_constructors_assemble_all_fields() {
    let rec = Students::new(
        9,
        "Annie".to_string(),
        "Easley".to_string(),
        "CS".to_string(),
        true,
        42,
    );
    assert_eq!(rec.id, 9);
    assert_eq!(rec.first_name, "Annie");
    assert_eq!(rec.last_name, "Easley");
    assert_eq!(rec.department, "CS");
    assert!(rec.is_graduated);
    assert_eq!(rec.age, 42);

    let mut g = students::store::IdGen::new();
    let built = Students::from(&mut g, student("Mary", "Jackson", "Engineering", true, 40));
    assert_eq!(built.id, 1);
    assert_eq!(built.first_name, "Mary");
    assert_eq!(g.last, 1);
}
