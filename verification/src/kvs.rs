//! The key-value store behind every piece of durable state.
//!
//! One relation: rows of `(id, module, key, sub_key, third_key, value)`, in
//! which `(module, key, sub_key, third_key)` is unique and `id` grows with
//! every insert. [`DbSet`] holds such a relation in memory and gives each
//! operation of the store its meaning; the functions at the end of the file
//! build the SQL text and the bound values that carry the same operation to
//! a database.

use vstd::prelude::*;
use vstd::string::*;
use crate::text::str_eq;

verus! {

/// Marker of the one relation.
#[derive(Debug, Clone, Copy, PartialEq, Eq, Structural)]
pub struct Kvs;

/// A row of the store.
#[derive(Debug)]
pub struct KvsForDb {
    pub id: i64,
    pub module: String,
    pub key: String,
    pub sub_key: String,
    pub third_key: String,
    pub value: String,
}

/// A row as a mathematical value.
pub struct KvsView {
    pub id: int,
    pub module: Seq<char>,
    pub key: Seq<char>,
    pub sub_key: Seq<char>,
    pub third_key: Seq<char>,
    pub value: Seq<char>,
}

impl View for KvsForDb {
    type V = KvsView;

    open spec fn view(&self) -> KvsView {
        KvsView {
            id: self.id as int,
            module: self.module@,
            key: self.key@,
            sub_key: self.sub_key@,
            third_key: self.third_key@,
            value: self.value@,
        }
    }
}

impl Clone for KvsForDb {
    fn clone(&self) -> (r: Self)
        ensures
            r@ == self@,
    {
        KvsForDb {
            id: self.id,
            module: self.module.clone(),
            key: self.key.clone(),
            sub_key: self.sub_key.clone(),
            third_key: self.third_key.clone(),
            value: self.value.clone(),
        }
    }
}

impl Default for KvsForDb {
    fn default() -> (r: Self)
        ensures
            r@ == (KvsView {
                id: 0,
                module: Seq::empty(),
                key: Seq::empty(),
                sub_key: Seq::empty(),
                third_key: Seq::empty(),
                value: Seq::empty(),
            }),
    {
        KvsForDb {
            id: 0,
            module: String::new(),
            key: String::new(),
            sub_key: String::new(),
            third_key: String::new(),
            value: String::new(),
        }
    }
}

impl KvsForDb {
    /// A row that is yet to be stored: `id` 0 and an empty `third_key`.
    pub fn new(module: &str, key: &str, sub_key: &str, value: &str) -> (r: KvsForDb)
        ensures
            r@ == (KvsView {
                id: 0,
                module: module@,
                key: key@,
                sub_key: sub_key@,
                third_key: Seq::empty(),
                value: value@,
            }),
    {
        KvsForDb {
            id: 0,
            module: module.to_owned(),
            key: key.to_owned(),
            sub_key: sub_key.to_owned(),
            third_key: String::new(),
            value: value.to_owned(),
        }
    }
}

/// Why a write was refused.
#[derive(Debug, Clone, Copy, PartialEq, Eq, Structural)]
pub enum KvsError {
    /// A row with the same `(module, key, sub_key, third_key)` is there already.
    UniqueViolation,
    /// No `id` is left to give out.
    Full,
}

/// Whether two rows have the same composite key.
pub open spec fn same_key(a: KvsView, b: KvsView) -> bool {
    &&& a.module == b.module
    &&& a.key == b.key
    &&& a.sub_key == b.sub_key
    &&& a.third_key == b.third_key
}

/// What a query asks of a row: the module, and each further key that is given.
pub struct Selector {
    pub module: Seq<char>,
    pub key: Option<Seq<char>>,
    pub sub_key: Option<Seq<char>>,
    pub third_key: Option<Seq<char>>,
}

/// The selector that a call's arguments stand for.
pub open spec fn selector(
    module: &str,
    key: Option<&str>,
    sub_key: Option<&str>,
    third_key: Option<&str>,
) -> Selector {
    Selector {
        module: module@,
        key: match key {
            Some(k) => Some(k@),
            None => None,
        },
        sub_key: match sub_key {
            Some(k) => Some(k@),
            None => None,
        },
        third_key: match third_key {
            Some(k) => Some(k@),
            None => None,
        },
    }
}

/// Whether a row answers a selector. A key that is left out matches every row.
pub open spec fn selects(sel: Selector, r: KvsView) -> bool {
    &&& r.module == sel.module
    &&& (sel.key matches Some(k) ==> r.key == k)
    &&& (sel.sub_key matches Some(k) ==> r.sub_key == k)
    &&& (sel.third_key matches Some(k) ==> r.third_key == k)
}

/// The rows that answer a selector, in the order of the relation.
pub open spec fn selected(rows: Seq<KvsView>, sel: Selector) -> Seq<KvsView> {
    rows.filter(|r: KvsView| selects(sel, r))
}

/// Whether row `i` is the first that answers the selector.
pub open spec fn is_first_selected(rows: Seq<KvsView>, sel: Selector, i: int) -> bool {
    &&& 0 <= i < rows.len()
    &&& selects(sel, rows[i])
    &&& forall|j: int| 0 <= j < i ==> !selects(sel, #[trigger] rows[j])
}

/// Whether some row has the composite key of `r`.
pub open spec fn has_key(rows: Seq<KvsView>, r: KvsView) -> bool {
    exists|i: int| 0 <= i < rows.len() && same_key(#[trigger] rows[i], r)
}

/// No two rows share a composite key.
pub open spec fn unique_keys(rows: Seq<KvsView>) -> bool {
    forall|i: int, j: int|
        0 <= i < j < rows.len() ==> !same_key(#[trigger] rows[i], #[trigger] rows[j])
}

/// Ids are positive, grow along the relation and stay below `next_id`.
pub open spec fn ids_grow(rows: Seq<KvsView>, next_id: int) -> bool {
    &&& 1 <= next_id
    &&& forall|i: int| 0 <= i < rows.len() ==> 1 <= (#[trigger] rows[i]).id < next_id
    &&& forall|i: int, j: int|
        0 <= i < j < rows.len() ==> (#[trigger] rows[i]).id < (#[trigger] rows[j]).id
}

/// `r` with another `id`.
pub open spec fn with_id(r: KvsView, id: int) -> KvsView {
    KvsView { id, ..r }
}

/// `r` with another `value`.
pub open spec fn with_value(r: KvsView, value: Seq<char>) -> KvsView {
    KvsView { value, ..r }
}

/// `r` with another `sub_key` and `value`.
pub open spec fn with_sub_key_value(r: KvsView, sub_key: Seq<char>, value: Seq<char>) -> KvsView {
    KvsView { sub_key, value, ..r }
}

/// The relation after `update_value`: the rows that answer the selector hold
/// the new value, nothing else changes.
pub open spec fn updated(rows: Seq<KvsView>, sel: Selector, value: Seq<char>) -> Seq<KvsView> {
    rows.map_values(
        |r: KvsView|
            if selects(sel, r) {
                with_value(r, value)
            } else {
                r
            },
    )
}

/// The relation after an upsert of `r`: the row with its key holds the value
/// of `r`, or, if there was none, `r` stands at the end under `next_id`.
pub open spec fn upserted(rows: Seq<KvsView>, next_id: int, r: KvsView) -> Seq<KvsView> {
    if has_key(rows, r) {
        rows.map_values(
            |x: KvsView|
                if same_key(x, r) {
                    with_value(x, r.value)
                } else {
                    x
                },
        )
    } else {
        rows.push(with_id(r, next_id))
    }
}

/// The `id` that the next insert gets after an upsert of `r`.
pub open spec fn upserted_next_id(rows: Seq<KvsView>, next_id: int, r: KvsView) -> int {
    if has_key(rows, r) {
        next_id
    } else {
        next_id + 1
    }
}

/// The views of a vector of rows.
pub open spec fn views(rows: Seq<KvsForDb>) -> Seq<KvsView> {
    rows.map_values(|r: KvsForDb| r@)
}

fn opt_eq(want: Option<&str>, have: &String) -> (r: bool)
    ensures
        r == (want matches Some(k) ==> have@ == k@),
{
    match want {
        Some(k) => str_eq(k, have.as_str()),
        None => true,
    }
}

/// Whether a row answers the selector that the arguments stand for.
pub fn row_selected(
    r: &KvsForDb,
    module: &str,
    key: Option<&str>,
    sub_key: Option<&str>,
    third_key: Option<&str>,
) -> (b: bool)
    ensures
        b == selects(selector(module, key, sub_key, third_key), r@),
{
    str_eq(module, r.module.as_str()) && opt_eq(key, &r.key) && opt_eq(sub_key, &r.sub_key)
        && opt_eq(third_key, &r.third_key)
}

/// Whether two rows have the same composite key.
pub fn rows_same_key(a: &KvsForDb, b: &KvsForDb) -> (r: bool)
    ensures
        r == same_key(a@, b@),
{
    a.module == b.module && a.key == b.key && a.sub_key == b.sub_key && a.third_key
        == b.third_key
}

/// The relation, held in memory.
pub struct DbSet {
    rows: Vec<KvsForDb>,
    next_id: i64,
}

impl View for DbSet {
    type V = Seq<KvsView>;

    closed spec fn view(&self) -> Seq<KvsView> {
        views(self.rows@)
    }
}

impl DbSet {
    /// The `id` that the next inserted row gets.
    pub closed spec fn next_id(&self) -> int {
        self.next_id as int
    }

    /// The invariant of the relation: composite keys are unique, ids grow.
    pub open spec fn wf(&self) -> bool {
        &&& unique_keys(self@)
        &&& ids_grow(self@, self.next_id())
        &&& self.next_id() <= i64::MAX
    }

    /// An empty relation.
    pub fn new() -> (db: DbSet)
        ensures
            db.wf(),
            db@ == Seq::<KvsView>::empty(),
            db.next_id() == 1,
    {
        let db = DbSet { rows: Vec::new(), next_id: 1 };
        assert(db@ =~= Seq::<KvsView>::empty());
        db
    }

    /// How many rows there are.
    pub fn len(&self) -> (n: usize)
        ensures
            n == self@.len(),
    {
        self.rows.len()
    }

    fn position_of_key(&self, kvs: &KvsForDb) -> (r: Option<usize>)
        ensures
            match r {
                Some(i) => i < self@.len() && same_key(self@[i as int], kvs@),
                None => !has_key(self@, kvs@),
            },
    {
        let mut i: usize = 0;
        while i < self.rows.len()
            invariant
                i <= self.rows.len(),
                forall|j: int| 0 <= j < i ==> !same_key(#[trigger] self@[j], kvs@),
            decreases self.rows.len() - i,
        {
            if rows_same_key(&self.rows[i], kvs) {
                return Some(i);
            }
            i += 1;
        }
        None
    }

    /// Adds `kvs` as a new row under the next `id`. A row with the same
    /// composite key makes this fail and leaves the relation as it was.
    pub fn insert(&mut self, kvs: &KvsForDb) -> (r: Result<(), KvsError>)
        requires
            old(self).wf(),
        ensures
            final(self).wf(),
            match r {
                Ok(_) => {
                    &&& !has_key(old(self)@, kvs@)
                    &&& final(self)@ == old(self)@.push(with_id(kvs@, old(self).next_id()))
                    &&& final(self).next_id() == old(self).next_id() + 1
                },
                Err(e) => {
                    &&& final(self)@ == old(self)@
                    &&& final(self).next_id() == old(self).next_id()
                    &&& e == (if has_key(old(self)@, kvs@) {
                        KvsError::UniqueViolation
                    } else {
                        KvsError::Full
                    })
                    &&& (has_key(old(self)@, kvs@) || old(self).next_id() == i64::MAX)
                },
            },
    {
        if self.position_of_key(kvs).is_some() {
            return Err(KvsError::UniqueViolation);
        }
        if self.next_id == i64::MAX {
            return Err(KvsError::Full);
        }
        let mut row = kvs.clone();
        row.id = self.next_id;
        self.rows.push(row);
        self.next_id = self.next_id + 1;
        proof {
            assert(self@ =~= old(self)@.push(with_id(kvs@, old(self).next_id())));
        }
        Ok(())
    }

    /// Writes `value` into every row that answers the selector; the keys and
    /// ids stay. Returns how many rows were written.
    pub fn update_value(
        &mut self,
        module: &str,
        key: &str,
        sub_key: Option<&str>,
        third_key: Option<&str>,
        value: &str,
    ) -> (n: usize)
        requires
            old(self).wf(),
        ensures
            final(self).wf(),
            final(self)@ == updated(
                old(self)@,
                selector(module, Some(key), sub_key, third_key),
                value@,
            ),
            final(self).next_id() == old(self).next_id(),
            n == selected(old(self)@, selector(module, Some(key), sub_key, third_key)).len(),
    {
        let ghost sel = selector(module, Some(key), sub_key, third_key);
        let ghost pred = |r: KvsView| selects(sel, r);
        let mut n: usize = 0;
        let mut i: usize = 0;
        while i < self.rows.len()
            invariant
                i <= self.rows.len(),
                self.rows.len() == old(self).rows.len(),
                self.next_id == old(self).next_id,
                sel == selector(module, Some(key), sub_key, third_key),
                pred == (|r: KvsView| selects(sel, r)),
                n == old(self)@.take(i as int).filter(pred).len(),
                n <= i,
                forall|j: int|
                    i <= j < self.rows.len() ==> (#[trigger] self.rows@[j])@ == old(self)@[j],
                forall|j: int|
                    0 <= j < i ==> (#[trigger] self.rows@[j])@ == updated(old(self)@, sel, value@)[j],
            decreases self.rows.len() - i,
        {
            proof {
                old(self)@.take(i as int).lemma_filter_push(old(self)@[i as int], pred);
                assert(old(self)@.take(i as int + 1) =~= old(self)@.take(i as int).push(
                    old(self)@[i as int],
                ));
            }
            if row_selected(&self.rows[i], module, Some(key), sub_key, third_key) {
                let mut row = self.rows[i].clone();
                row.value = value.to_owned();
                self.rows.set(i, row);
                n += 1;
            }
            i += 1;
        }
        proof {
            assert(old(self)@.take(i as int) =~= old(self)@);
            assert(self@ =~= updated(old(self)@, sel, value@));
        }
        n
    }

    /// Writes `sub_key` and `value` into the row of `(module, key)`. With no
    /// such row nothing happens. With more than one the write is refused,
    /// since it would give two rows the same composite key.
    pub fn update_sub_key(&mut self, module: &str, key: &str, sub_key: &str, value: &str) -> (r:
        Result<usize, KvsError>)
        requires
            old(self).wf(),
        ensures
            final(self).wf(),
            final(self).next_id() == old(self).next_id(),
            ({
                let sel = selector(module, Some(key), None, None);
                let hits = selected(old(self)@, sel);
                if hits.len() >= 2 {
                    r == Err::<usize, KvsError>(KvsError::UniqueViolation) && final(self)@ == old(
                        self,
                    )@
                } else {
                    r == Ok::<usize, KvsError>(hits.len() as usize) && final(self)@ == old(
                        self,
                    )@.map_values(
                        |x: KvsView|
                            if selects(sel, x) {
                                with_sub_key_value(x, sub_key@, value@)
                            } else {
                                x
                            },
                    )
                }
            }),
    {
        let ghost sel = selector(module, Some(key), None, None);
        let ghost pred = |r: KvsView| selects(sel, r);
        let mut found: Option<usize> = None;
        let mut i: usize = 0;
        proof {
            assert(self@.take(0) =~= Seq::<KvsView>::empty());
            reveal(Seq::filter);
            assert(self@.take(0).filter(pred).len() == 0);
        }
        while i < self.rows.len()
            invariant
                i <= self.rows.len(),
                *self == *old(self),
                self.wf(),
                sel == selector(module, Some(key), None, None),
                pred == (|r: KvsView| selects(sel, r)),
                match found {
                    Some(f) => f < i && selects(sel, self@[f as int]) && self@.take(i as int).filter(
                        pred,
                    ).len() == 1 && forall|j: int|
                        0 <= j < i && j != f ==> !selects(sel, #[trigger] self@[j]),
                    None => self@.take(i as int).filter(pred).len() == 0 && forall|j: int|
                        0 <= j < i ==> !selects(sel, #[trigger] self@[j]),
                },
            decreases self.rows.len() - i,
        {
            proof {
                self@.take(i as int).lemma_filter_push(self@[i as int], pred);
                assert(self@.take(i as int + 1) =~= self@.take(i as int).push(self@[i as int]));
            }
            if row_selected(&self.rows[i], module, Some(key), None, None) {
                if found.is_some() {
                    proof {
                        self@.lemma_filter_take_len(pred, i as int + 1);
                    }
                    return Err(KvsError::UniqueViolation);
                }
                found = Some(i);
            }
            i += 1;
        }
        proof {
            assert(self@.take(i as int) =~= self@);
        }
        match found {
            None => {
                proof {
                    assert(self@ =~= old(self)@.map_values(
                        |x: KvsView|
                            if selects(sel, x) {
                                with_sub_key_value(x, sub_key@, value@)
                            } else {
                                x
                            },
                    ));
                }
                Ok(0)
            },
            Some(f) => {
                let mut row = self.rows[f].clone();
                row.sub_key = sub_key.to_owned();
                row.value = value.to_owned();
                let ghost written = row@;
                self.rows.set(f, row);
                proof {
                    assert(self@ =~= old(self)@.map_values(
                        |x: KvsView|
                            if selects(sel, x) {
                                with_sub_key_value(x, sub_key@, value@)
                            } else {
                                x
                            },
                    ));
                    // every other row is of another module or key
                    assert forall|a: int, b: int| 0 <= a < b < self@.len() implies !same_key(
                        #[trigger] self@[a],
                        #[trigger] self@[b],
                    ) by {
                        if a == f {
                            assert(!selects(sel, old(self)@[b]));
                        } else if b == f {
                            assert(!selects(sel, old(self)@[a]));
                        } else {
                            assert(!same_key(old(self)@[a], old(self)@[b]));
                        }
                    }
                }
                Ok(1)
            },
        }
    }
}

impl DbSet {
    /// Stores `kvs`: where a row has its composite key, that row takes the
    /// value of `kvs`; else `kvs` is added as `insert` adds it.
    pub fn insert_or_update_value(&mut self, kvs: &KvsForDb) -> (r: Result<(), KvsError>)
        requires
            old(self).wf(),
        ensures
            final(self).wf(),
            match r {
                Ok(_) => {
                    &&& final(self)@ == upserted(old(self)@, old(self).next_id(), kvs@)
                    &&& final(self).next_id() == upserted_next_id(
                        old(self)@,
                        old(self).next_id(),
                        kvs@,
                    )
                },
                Err(e) => {
                    &&& e == KvsError::Full
                    &&& !has_key(old(self)@, kvs@)
                    &&& old(self).next_id() == i64::MAX
                    &&& final(self)@ == old(self)@
                    &&& final(self).next_id() == old(self).next_id()
                },
            },
    {
        match self.position_of_key(kvs) {
            Some(i) => {
                let mut row = self.rows[i].clone();
                row.value = kvs.value.clone();
                self.rows.set(i, row);
                proof {
                    assert(same_key(old(self)@[i as int], kvs@));
                    assert forall|j: int| 0 <= j < old(self)@.len() && j != i implies !same_key(
                        #[trigger] old(self)@[j],
                        kvs@,
                    ) by {
                        if j < i {
                            assert(!same_key(old(self)@[j], old(self)@[i as int]));
                        } else {
                            assert(!same_key(old(self)@[i as int], old(self)@[j]));
                        }
                    }
                    assert(self@ =~= upserted(old(self)@, old(self).next_id(), kvs@));
                }
                Ok(())
            },
            None => {
                match self.insert(kvs) {
                    Ok(_) => Ok(()),
                    Err(e) => Err(e),
                }
            },
        }
    }

    /// Removes the first row that answers the selector, if there is one, and
    /// returns how many rows were removed.
    pub fn delete(
        &mut self,
        module: &str,
        key: Option<&str>,
        sub_key: Option<&str>,
        third_key: Option<&str>,
    ) -> (n: usize)
        requires
            old(self).wf(),
        ensures
            final(self).wf(),
            final(self).next_id() == old(self).next_id(),
            n <= 1,
            n == 1 ==> exists|i: int|
                is_first_selected(old(self)@, selector(module, key, sub_key, third_key), i)
                    && final(self)@ == old(self)@.remove(i),
            n == 0 ==> final(self)@ == old(self)@ && forall|i: int|
                0 <= i < old(self)@.len() ==> !selects(
                    selector(module, key, sub_key, third_key),
                    #[trigger] old(self)@[i],
                ),
    {
        let ghost sel = selector(module, key, sub_key, third_key);
        let mut i: usize = 0;
        while i < self.rows.len()
            invariant
                i <= self.rows.len(),
                *self == *old(self),
                self.wf(),
                sel == selector(module, key, sub_key, third_key),
                forall|j: int| 0 <= j < i ==> !selects(sel, #[trigger] self@[j]),
            decreases self.rows.len() - i,
        {
            if row_selected(&self.rows[i], module, key, sub_key, third_key) {
                let _gone = self.rows.remove(i);
                proof {
                    assert(self@ =~= old(self)@.remove(i as int));
                    assert(is_first_selected(old(self)@, sel, i as int));
                }
                return 1;
            }
            i += 1;
        }
        0
    }

    /// The first row that answers the selector.
    pub fn select_one(
        &self,
        module: &str,
        key: Option<&str>,
        sub_key: Option<&str>,
        third_key: Option<&str>,
    ) -> (r: Option<KvsForDb>)
        ensures
            match r {
                Some(row) => exists|i: int|
                    is_first_selected(self@, selector(module, key, sub_key, third_key), i) && row@
                        == self@[i],
                None => forall|i: int|
                    0 <= i < self@.len() ==> !selects(
                        selector(module, key, sub_key, third_key),
                        #[trigger] self@[i],
                    ),
            },
    {
        let ghost sel = selector(module, key, sub_key, third_key);
        let mut i: usize = 0;
        while i < self.rows.len()
            invariant
                i <= self.rows.len(),
                sel == selector(module, key, sub_key, third_key),
                forall|j: int| 0 <= j < i ==> !selects(sel, #[trigger] self@[j]),
            decreases self.rows.len() - i,
        {
            if row_selected(&self.rows[i], module, key, sub_key, third_key) {
                let row = self.rows[i].clone();
                proof {
                    assert(is_first_selected(self@, sel, i as int));
                }
                return Some(row);
            }
            i += 1;
        }
        None
    }

    /// Every row that answers the selector, in the order of the relation.
    pub fn select(
        &self,
        module: &str,
        key: Option<&str>,
        sub_key: Option<&str>,
        third_key: Option<&str>,
    ) -> (r: Vec<KvsForDb>)
        ensures
            views(r@) == selected(self@, selector(module, key, sub_key, third_key)),
    {
        let ghost sel = selector(module, key, sub_key, third_key);
        let ghost pred = |r: KvsView| selects(sel, r);
        let mut out: Vec<KvsForDb> = Vec::new();
        let mut i: usize = 0;
        proof {
            assert(self@.take(0) =~= Seq::<KvsView>::empty());
            reveal(Seq::filter);
            assert(views(out@) =~= self@.take(0).filter(pred));
        }
        while i < self.rows.len()
            invariant
                i <= self.rows.len(),
                sel == selector(module, key, sub_key, third_key),
                pred == (|r: KvsView| selects(sel, r)),
                views(out@) == self@.take(i as int).filter(pred),
            decreases self.rows.len() - i,
        {
            proof {
                self@.take(i as int).lemma_filter_push(self@[i as int], pred);
                assert(self@.take(i as int + 1) =~= self@.take(i as int).push(self@[i as int]));
            }
            if row_selected(&self.rows[i], module, key, sub_key, third_key) {
                let ghost before = views(out@);
                out.push(self.rows[i].clone());
                proof {
                    assert(views(out@) =~= before.push(self@[i as int]));
                }
            }
            i += 1;
        }
        proof {
            assert(self@.take(i as int) =~= self@);
        }
        out
    }
}

/// A key is taken once a row has been inserted under it: a second insert of
/// the same row is refused.
pub proof fn lemma_inserted_key_is_taken(rows: Seq<KvsView>, next_id: int, r: KvsView)
    ensures
        has_key(rows.push(with_id(r, next_id)), r),
{
    let after = rows.push(with_id(r, next_id));
    assert(same_key(after[rows.len() as int], r));
}

/// An insert keeps the composite keys unique, whatever it answers: it adds a
/// row only under a key that no row has.
pub proof fn lemma_insert_keeps_keys_unique(rows: Seq<KvsView>, next_id: int, r: KvsView)
    requires
        unique_keys(rows),
        !has_key(rows, r),
    ensures
        unique_keys(rows.push(with_id(r, next_id))),
{
    let after = rows.push(with_id(r, next_id));
    assert forall|i: int, j: int| 0 <= i < j < after.len() implies !same_key(
        #[trigger] after[i],
        #[trigger] after[j],
    ) by {
        if j == rows.len() {
            assert(!same_key(rows[i], r));
        } else {
            assert(!same_key(rows[i], rows[j]));
        }
    }
}

/// Storing the same row twice with `insert_or_update_value` leaves what one
/// call leaves.
pub proof fn lemma_upsert_idempotent(rows: Seq<KvsView>, next_id: int, r: KvsView)
    ensures
        upserted(upserted(rows, next_id, r), upserted_next_id(rows, next_id, r), r) == upserted(
            rows,
            next_id,
            r,
        ),
        upserted_next_id(upserted(rows, next_id, r), upserted_next_id(rows, next_id, r), r)
            == upserted_next_id(rows, next_id, r),
{
    let once = upserted(rows, next_id, r);
    let id1 = upserted_next_id(rows, next_id, r);
    if has_key(rows, r) {
        let i = choose|i: int| 0 <= i < rows.len() && same_key(#[trigger] rows[i], r);
        assert(same_key(once[i], r));
        assert(has_key(once, r));
        assert(upserted(once, id1, r) =~= once);
    } else {
        lemma_inserted_key_is_taken(rows, next_id, r);
        assert(has_key(once, r));
        assert forall|j: int| 0 <= j < rows.len() implies !same_key(#[trigger] once[j], r) by {
            assert(!same_key(rows[j], r));
        }
        assert(upserted(once, id1, r) =~= once);
    }
}

} // verus!
