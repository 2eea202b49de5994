//! The executable store: student records, the identifier generator, and the
//! five operations — create, list, point lookup, in-place update, removal.
//!
//! Records live in a vector kept in strictly increasing identifier order;
//! well-formedness (`StudentStore::wf`) ties the executable state to the
//! model in `model`. Identifiers start at 1 and are never reused, even after
//! a deletion.

use vstd::prelude::*;

use crate::model::{
    contains_id, create_step, created_id, delete_step, index_of_id, make_record, record_of,
    store_wf, update_step, InputView, RecordView, StoreView,
};

verus! {

/// The payload a caller supplies to create or update a record: every field
/// except the identifier, which only the store assigns.
#[derive(Debug, PartialEq)]
pub struct Student {
    pub first_name: String,
    pub last_name: String,
    pub department: String,
    pub is_graduated: bool,
    pub age: i32,
}

/// A stored record: the supplied fields plus the unique identifier the store
/// assigned at creation; the identifier never changes afterwards.
#[derive(Debug, PartialEq)]
pub struct Students {
    pub id: i32,
    pub first_name: String,
    pub last_name: String,
    pub department: String,
    pub is_graduated: bool,
    pub age: i32,
}

/// The one domain error: the identifier names no live record.
#[derive(Clone, Copy, Debug, PartialEq, Eq, Structural)]
pub enum StoreError {
    NotFound,
}

/// Hands out identifiers 1, 2, 3, ... in order; `last` is the most recently
/// issued one, 0 before any has been issued.
pub struct IdGen {
    pub last: i32,
}

/// The store: the identifier generator and the live records, kept in
/// strictly increasing identifier order.
pub struct StudentStore {
    pub gen: IdGen,
    pub records: Vec<Students>,
}

impl View for Student {
    type V = InputView;

    open spec fn view(&self) -> InputView {
        InputView {
            first_name: self.first_name@,
            last_name: self.last_name@,
            department: self.department@,
            is_graduated: self.is_graduated,
            age: self.age as int,
        }
    }
}

impl View for Students {
    type V = RecordView;

    open spec fn view(&self) -> RecordView {
        RecordView {
            id: self.id as int,
            first_name: self.first_name@,
            last_name: self.last_name@,
            department: self.department@,
            is_graduated: self.is_graduated,
            age: self.age as int,
        }
    }
}

impl View for StudentStore {
    type V = StoreView;

    open spec fn view(&self) -> StoreView {
        StoreView {
            last_id: self.gen.last as int,
            records: self.records@.map_values(|r: Students| r@),
        }
    }
}

impl Clone for Student {
    fn clone(&self) -> (res: Self)
        ensures
            res == *self,
    {
        Student {
            first_name: self.first_name.clone(),
            last_name: self.last_name.clone(),
            department: self.department.clone(),
            is_graduated: self.is_graduated,
            age: self.age,
        }
    }
}

impl Clone for Students {
    fn clone(&self) -> (res: Self)
        ensures
            res == *self,
    {
        Students {
            id: self.id,
            first_name: self.first_name.clone(),
            last_name: self.last_name.clone(),
            department: self.department.clone(),
            is_graduated: self.is_graduated,
            age: self.age,
        }
    }
}

impl IdGen {
    /// A fresh generator; its first `get_id` returns 1.
    pub fn new() -> (g: IdGen)
        ensures
            g.last == 0,
    {
        IdGen { last: 0 }
    }

    /// Moves the counter up by one.
    pub fn add_to_id(&mut self)
        requires
            old(self).last < i32::MAX,
        ensures
            final(self).last == old(self).last + 1,
    {
        self.last = self.last + 1;
    }

    /// Moves the counter up by one and returns the fresh value: strictly
    /// larger than every value returned before.
    pub fn get_id(&mut self) -> (id: i32)
        requires
            old(self).last < i32::MAX,
        ensures
            id == old(self).last + 1,
            final(self).last == id,
    {
        self.add_to_id();
        self.last
    }
}

impl StudentStore {
    /// The executable state matches a well-formed model.
    pub open spec fn wf(&self) -> bool {
        store_wf(self@)
    }

    /// An empty store whose generator has issued nothing yet.
    pub fn new() -> (s: StudentStore)
        ensures
            s.wf(),
            s@.last_id == 0,
            s@.records.len() == 0,
    {
        StudentStore { gen: IdGen::new(), records: Vec::new() }
    }
}

impl Students {
    /// A record assembled from an identifier and the five payload fields.
    pub fn new(
        id: i32,
        first_name: String,
        last_name: String,
        department: String,
        is_graduated: bool,
        age: i32,
    ) -> (r: Students)
        ensures
            r@ == (RecordView {
                id: id as int,
                first_name: first_name@,
                last_name: last_name@,
                department: department@,
                is_graduated: is_graduated,
                age: age as int,
            }),
    {
        Students { id, first_name, last_name, department, is_graduated, age }
    }

    /// A record built from a payload under a fresh identifier drawn from the
    /// generator. The record is not stored; `create` does that.
    pub fn from(gen: &mut IdGen, student: Student) -> (r: Students)
        requires
            old(gen).last < i32::MAX,
        ensures
            final(gen).last == old(gen).last + 1,
            r@ == make_record(old(gen).last + 1, student@),
    {
        let id = gen.get_id();
        Students::new(
            id,
            student.first_name,
            student.last_name,
            student.department,
            student.is_graduated,
            student.age,
        )
    }

    /// Draws a fresh identifier, stores a record built from the payload under
    /// it, and returns a copy of the stored record. The identifier is
    /// strictly larger than every identifier the store ever issued before.
    pub fn create(store: &mut StudentStore, student: Student) -> (r: Students)
        requires
            old(store).wf(),
            old(store)@.last_id < i32::MAX,
        ensures
            final(store).wf(),
            final(store)@ == create_step(old(store)@, student@),
            r@ == make_record(created_id(old(store)@), student@),
    {
        let rec = Students::from(&mut store.gen, student);
        let stored = rec.clone();
        store.records.push(stored);
        proof {
            let f = |x: Students| x@;
            assert(store.records@.map_values(f) =~= old(store).records@.map_values(f).push(rec@));
            assert(store@ =~= create_step(old(store)@, student@));
            crate::model::lemma_create_step_wf(old(store)@, student@);
        }
        rec
    }

    /// The position of the record carrying `id`, if any; pinned to the
    /// model's `index_of_id` so the callers' contracts can speak of it.
    fn find_index(store: &StudentStore, id: i32) -> (r: Option<usize>)
        requires
            store.wf(),
        ensures
            match r {
                Some(i) => {
                    &&& i < store@.records.len()
                    &&& contains_id(store@.records, id as int)
                    &&& index_of_id(store@.records, id as int) == i
                },
                None => !contains_id(store@.records, id as int),
            },
    {
        let n = store.records.len();
        let mut i: usize = 0;
        while i < n
            invariant
                store.wf(),
                n == store.records.len(),
                i <= n,
                forall|j: int| 0 <= j < i ==> #[trigger] store@.records[j].id != id as int,
            decreases n - i,
        {
            if store.records[i].id == id {
                proof {
                    crate::model::lemma_index_of_id_is(store@, id as int, i as int);
                }
                return Some(i);
            }
            i += 1;
        }
        None
    }

    /// Returns a copy of the record carrying `id`, and `NotFound` exactly
    /// when no live record carries it.
    pub fn find(store: &StudentStore, id: i32) -> (r: Result<Students, StoreError>)
        requires
            store.wf(),
        ensures
            match r {
                Ok(rec) => {
                    &&& contains_id(store@.records, id as int)
                    &&& rec@ == record_of(store@.records, id as int)
                },
                Err(e) => {
                    &&& !contains_id(store@.records, id as int)
                    &&& e == StoreError::NotFound
                },
            },
    {
        match Self::find_index(store, id) {
            Some(i) => Ok(store.records[i].clone()),
            None => Err(StoreError::NotFound),
        }
    }

    /// Returns a copy of every live record, in increasing identifier order;
    /// an empty store yields an empty list.
    pub fn find_all(store: &StudentStore) -> (v: Vec<Students>)
        ensures
            v@.len() == store@.records.len(),
            forall|j: int| 0 <= j < v@.len() ==> #[trigger] v@[j]@ == store@.records[j],
    {
        let n = store.records.len();
        let mut students = Vec::<Students>::new();
        let mut i: usize = 0;
        while i < n
            invariant
                n == store.records.len(),
                i <= n,
                students@.len() == i,
                forall|j: int| 0 <= j < i ==> #[trigger] students@[j]@ == store@.records[j],
            decreases n - i,
        {
            students.push(store.records[i].clone());
            i += 1;
        }
        students
    }

    /// Overwrites every field but the identifier of the record carrying
    /// `id` with the payload's fields and returns a copy of the updated
    /// record; fails with `NotFound`, leaving the store unchanged, exactly
    /// when no live record carries `id`.
    pub fn update(store: &mut StudentStore, id: i32, student: Student) -> (r: Result<
        Students,
        StoreError,
    >)
        requires
            old(store).wf(),
        ensures
            final(store).wf(),
            match r {
                Ok(rec) => {
                    &&& contains_id(old(store)@.records, id as int)
                    &&& final(store)@ == update_step(old(store)@, id as int, student@)
                    &&& rec@ == make_record(id as int, student@)
                },
                Err(e) => {
                    &&& !contains_id(old(store)@.records, id as int)
                    &&& final(store)@ == old(store)@
                    &&& e == StoreError::NotFound
                },
            },
    {
        match Self::find_index(store, id) {
            Some(i) => {
                let rec = Students::new(
                    id,
                    student.first_name,
                    student.last_name,
                    student.department,
                    student.is_graduated,
                    student.age,
                );
                let stored = rec.clone();
                let _replaced = store.records.remove(i);
                store.records.insert(i, stored);
                proof {
                    assert(store.records@ =~= old(store).records@.update(i as int, rec));
                    assert(store@.records =~= old(store)@.records.update(i as int, rec@));
                    assert(store@ =~= update_step(old(store)@, id as int, student@));
                    crate::model::lemma_update_step_wf(old(store)@, id as int, student@);
                }
                Ok(rec)
            },
            None => Err(StoreError::NotFound),
        }
    }

    /// Removes the record carrying `id` and returns it as it was just before
    /// removal; fails with `NotFound`, leaving the store unchanged, exactly
    /// when no live record carries `id`.
    pub fn delete(store: &mut StudentStore, id: i32) -> (r: Result<Students, StoreError>)
        requires
            old(store).wf(),
        ensures
            final(store).wf(),
            match r {
                Ok(rec) => {
                    &&& contains_id(old(store)@.records, id as int)
                    &&& final(store)@ == delete_step(old(store)@, id as int)
                    &&& rec@ == record_of(old(store)@.records, id as int)
                },
                Err(e) => {
                    &&& !contains_id(old(store)@.records, id as int)
                    &&& final(store)@ == old(store)@
                    &&& e == StoreError::NotFound
                },
            },
    {
        match Self::find_index(store, id) {
            Some(i) => {
                let rec = store.records.remove(i);
                proof {
                    assert(store@.records =~= old(store)@.records.remove(i as int));
                    assert(store@ =~= delete_step(old(store)@, id as int));
                    crate::model::lemma_delete_step_wf(old(store)@, id as int);
                }
                Ok(rec)
            },
            None => Err(StoreError::NotFound),
        }
    }
}

} // verus!
