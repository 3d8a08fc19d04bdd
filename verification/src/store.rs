use crate::models::{text_of, views_of, User, UserView};
use vstd::prelude::*;
use vstd::string::StringExecFns;

verus! {

/// Some row carries this id.
pub open spec fn has_id(rows: Seq<UserView>, id: u128) -> bool {
    exists|i: int| 0 <= i < rows.len() && (#[trigger] rows[i]).id == id
}

/// Where the row with this id stands, if `has_id` holds.
pub open spec fn index_of(rows: Seq<UserView>, id: u128) -> int {
    choose|i: int| 0 <= i < rows.len() && (#[trigger] rows[i]).id == id
}

/// The row with this id, if there is one.
pub open spec fn row_of(rows: Seq<UserView>, id: u128) -> Option<UserView> {
    if has_id(rows, id) {
        Some(rows[index_of(rows, id)])
    } else {
        None
    }
}

/// No id occurs in two rows.
pub open spec fn distinct_ids(rows: Seq<UserView>) -> bool {
    forall|i: int, j: int|
        0 <= i < j < rows.len() ==> (#[trigger] rows[i]).id != (#[trigger] rows[j]).id
}

/// Every row has a name, that is a text with at least one character.
pub open spec fn names_present(rows: Seq<UserView>) -> bool {
    forall|i: int| 0 <= i < rows.len() ==> (#[trigger] rows[i]).name.len() > 0
}

/// A name is given and it is the empty text.
pub open spec fn blank(name: Option<Seq<char>>) -> bool {
    name is Some && name->Some_0.len() == 0
}

/// A row after an update: a given field replaces the stored one, an absent
/// field leaves it, and the id stays.
pub open spec fn coalesce(
    row: UserView,
    name: Option<Seq<char>>,
    email: Option<Seq<char>>,
) -> UserView {
    UserView {
        id: row.id,
        name: match name {
            Some(n) => n,
            None => row.name,
        },
        email: match email {
            Some(e) => e,
            None => row.email,
        },
    }
}

/// The rows after a new row was stored.
pub open spec fn inserted(rows: Seq<UserView>, row: UserView) -> Seq<UserView> {
    rows.push(row)
}

/// The rows after an update of the row with this id; unchanged without one.
pub open spec fn updated(
    rows: Seq<UserView>,
    id: u128,
    name: Option<Seq<char>>,
    email: Option<Seq<char>>,
) -> Seq<UserView> {
    if has_id(rows, id) {
        rows.update(index_of(rows, id), coalesce(rows[index_of(rows, id)], name, email))
    } else {
        rows
    }
}

/// The rows after the row with this id was removed; unchanged without one.
pub open spec fn deleted(rows: Seq<UserView>, id: u128) -> Seq<UserView> {
    if has_id(rows, id) {
        rows.remove(index_of(rows, id))
    } else {
        rows
    }
}

/// The view of an optional user.
pub open spec fn row_view(user: Option<User>) -> Option<UserView> {
    match user {
        Some(u) => Some(u@),
        None => None,
    }
}

/// With distinct ids, a row that carries the id is the row `index_of` names.
pub proof fn lemma_index_unique(rows: Seq<UserView>, id: u128, i: int)
    requires
        distinct_ids(rows),
        0 <= i < rows.len(),
        rows[i].id == id,
    ensures
        has_id(rows, id),
        index_of(rows, id) == i,
{
    let j = index_of(rows, id);
    assert(0 <= j < rows.len() && rows[j].id == id);
    if j < i {
        assert(rows[j].id != rows[i].id);
    } else if i < j {
        assert(rows[i].id != rows[j].id);
    }
}

/// The users relation held in memory: rows in the order they were stored,
/// keyed by id.
pub struct Table {
    rows: Vec<User>,
}

impl View for Table {
    type V = Seq<UserView>;

    closed spec fn view(&self) -> Seq<UserView> {
        views_of(self.rows@)
    }
}

impl Table {
    /// The constraints on the relation: no two rows share an id, and every
    /// row has a name.
    pub open spec fn wf(&self) -> bool {
        distinct_ids(self@) && names_present(self@)
    }

    /// An empty relation.
    pub fn new() -> (table: Table)
        ensures
            table.wf(),
            table@ == Seq::<UserView>::empty(),
    {
        let table = Table { rows: Vec::new() };
        assert(table@ =~= Seq::<UserView>::empty());
        table
    }

    fn position(&self, id: u128) -> (at: Option<usize>)
        requires
            self.wf(),
        ensures
            match at {
                Some(i) => i < self.rows.len() && has_id(self@, id) && index_of(self@, id) == i,
                None => !has_id(self@, id),
            },
    {
        let mut i: usize = 0;
        while i < self.rows.len()
            invariant
                self.wf(),
                i <= self.rows.len(),
                self@.len() == self.rows.len(),
                forall|k: int| 0 <= k < i ==> (#[trigger] self@[k]).id != id,
            decreases self.rows.len() - i,
        {
            if self.rows[i].id == id {
                proof {
                    lemma_index_unique(self@, id, i as int);
                }
                return Some(i);
            }
            i += 1;
        }
        None
    }

    /// Stores a new row under `id`. A row without a name, or a second row
    /// under an id that is already there, is refused, and the relation stays
    /// as it was.
    pub fn insert(&mut self, id: u128, name: String, email: String) -> (res: Result<User, String>)
        requires
            old(self).wf(),
        ensures
            final(self).wf(),
            name@.len() == 0 || has_id(old(self)@, id) ==> res is Err && final(self)@ == old(self)@,
            name@.len() > 0 && !has_id(old(self)@, id) ==> res is Ok && res->Ok_0@ == (UserView {
                id,
                name: name@,
                email: email@,
            }) && final(self)@ == inserted(old(self)@, res->Ok_0@),
    {
        if name.as_str().is_empty() {
            return Err(String::from_str("new row violates check constraint: empty name"));
        }
        match self.position(id) {
            Some(_) => Err(String::from_str("duplicate key value violates unique constraint")),
            None => {
                let user = User { id, name, email };
                let stored = user.clone();
                self.rows.push(user);
                assert(self@ =~= inserted(old(self)@, stored@));
                Ok(stored)
            },
        }
    }

    /// The row under `id`, if there is one.
    pub fn fetch(&self, id: u128) -> (found: Option<User>)
        requires
            self.wf(),
        ensures
            row_view(found) == row_of(self@, id),
            found is Some ==> found->Some_0@.name.len() > 0,
    {
        match self.position(id) {
            Some(i) => Some(self.rows[i].clone()),
            None => None,
        }
    }

    /// Every row, in the order they were stored.
    pub fn fetch_all(&self) -> (all: Vec<User>)
        ensures
            views_of(all@) == self@,
    {
        let mut all: Vec<User> = Vec::new();
        let mut i: usize = 0;
        while i < self.rows.len()
            invariant
                i <= self.rows.len(),
                all@.len() == i,
                forall|k: int| 0 <= k < i ==> (#[trigger] all@[k])@ == self.rows@[k]@,
            decreases self.rows.len() - i,
        {
            all.push(self.rows[i].clone());
            i += 1;
        }
        assert(views_of(all@) =~= self@);
        all
    }

    /// Replaces the given fields of the row under `id` and hands back the row
    /// as it then stands. Without such a row it hands back none, whatever the
    /// fields are. An empty name for a row that is there is refused. Unless a
    /// row was replaced, the relation stays as it was.
    pub fn update(
        &mut self,
        id: u128,
        name: Option<String>,
        email: Option<String>,
    ) -> (res: Result<Option<User>, String>)
        requires
            old(self).wf(),
        ensures
            final(self).wf(),
            !has_id(old(self)@, id) ==> res is Ok && res->Ok_0 is None && final(self)@ == old(self)@,
            has_id(old(self)@, id) && blank(text_of(name)) ==> res is Err && final(self)@ == old(self)@,
            has_id(old(self)@, id) && !blank(text_of(name)) ==> {
                &&& res is Ok
                &&& final(self)@ == updated(old(self)@, id, text_of(name), text_of(email))
                &&& row_view(res->Ok_0) == Some(
                    coalesce(
                        old(self)@[index_of(old(self)@, id)],
                        text_of(name),
                        text_of(email),
                    ),
                )
                &&& row_view(res->Ok_0) == row_of(final(self)@, id)
            },
    {
        match self.position(id) {
            Some(i) => {
                let refused = match &name {
                    Some(n) => n.as_str().is_empty(),
                    None => false,
                };
                if refused {
                    return Err(String::from_str("new row violates check constraint: empty name"));
                }
                let new_name = match name {
                    Some(n) => n,
                    None => self.rows[i].name.clone(),
                };
                let new_email = match email {
                    Some(e) => e,
                    None => self.rows[i].email.clone(),
                };
                let user = User { id, name: new_name, email: new_email };
                let stored = user.clone();
                self.rows.set(i, user);
                proof {
                    assert(self@ =~= updated(old(self)@, id, text_of(name), text_of(email)));
                    lemma_index_unique(self@, id, i as int);
                }
                Ok(Some(stored))
            },
            None => Ok(None),
        }
    }

    /// Removes the row under `id` and says how many rows went: one or none.
    pub fn delete(&mut self, id: u128) -> (gone: u64)
        requires
            old(self).wf(),
        ensures
            final(self).wf(),
            final(self)@ == deleted(old(self)@, id),
            gone == (if has_id(old(self)@, id) { 1u64 } else { 0u64 }),
            !has_id(final(self)@, id),
    {
        match self.position(id) {
            Some(i) => {
                self.rows.remove(i);
                proof {
                    assert(self@ =~= deleted(old(self)@, id));
                    lemma_deleted_is_gone(old(self)@, id);
                }
                1
            },
            None => 0,
        }
    }
}

/// After a delete no row carries the id, and the ids stay distinct.
pub proof fn lemma_deleted_is_gone(rows: Seq<UserView>, id: u128)
    requires
        distinct_ids(rows),
    ensures
        !has_id(deleted(rows, id), id),
        distinct_ids(deleted(rows, id)),
{
    if has_id(rows, id) {
        let at = index_of(rows, id);
        let rest = rows.remove(at);
        assert forall|k: int| 0 <= k < rest.len() implies (#[trigger] rest[k]).id != id by {
            if k < at {
                assert(rest[k] == rows[k]);
                assert(rows[k].id != rows[at].id);
            } else {
                assert(rest[k] == rows[k + 1]);
                assert(rows[at].id != rows[k + 1].id);
            }
        }
        assert forall|i: int, j: int| 0 <= i < j < rest.len() implies (#[trigger] rest[i]).id
            != (#[trigger] rest[j]).id by {
            let a = if i < at { i } else { i + 1 };
            let b = if j < at { j } else { j + 1 };
            assert(rest[i] == rows[a]);
            assert(rest[j] == rows[b]);
            assert(rows[a].id != rows[b].id);
        }
    }
}

} // verus!
