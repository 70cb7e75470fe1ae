use vstd::prelude::*;

verus! {

/// The abstract contents of a collection: each identifier mapped to the
/// characters of each of its fields, in order.
pub type Table = Map<Seq<char>, Seq<Seq<char>>>;

/// The view of a stored row: the characters of each of its fields, in order.
pub open spec fn fields_view(row: Seq<String>) -> Seq<Seq<char>> {
    row.map_values(|s: String| s@)
}

/// Every record of `t` has exactly `n` fields.
pub open spec fn has_arity(t: Table, n: nat) -> bool {
    forall|k: Seq<char>| #[trigger] t.contains_key(k) ==> t[k].len() == n
}

/// Copies a row field by field.
pub fn copy_fields(row: &Vec<String>) -> (r: Vec<String>)
    ensures
        fields_view(r@) == fields_view(row@),
{
    let mut r: Vec<String> = Vec::new();
    let mut i: usize = 0;
    while i < row.len()
        invariant
            i <= row.len(),
            r@.len() == i,
            forall|j: int| 0 <= j < i ==> (#[trigger] r@[j])@ == row@[j]@,
        decreases row.len() - i,
    {
        r.push(row[i].clone());
        i = i + 1;
    }
    assert(fields_view(r@) =~= fields_view(row@));
    r
}

/// One named collection of records, each an ordered sequence of string
/// fields, keyed by a string identifier. Identifiers are unique.
pub struct RecordStore {
    ids: Vec<String>,
    rows: Vec<Vec<String>>,
    contents: Ghost<Table>,
}

impl View for RecordStore {
    type V = Table;

    closed spec fn view(&self) -> Table {
        self.contents@
    }
}

impl RecordStore {
    /// Row `i` holds the record of identifier `i`, every identifier is
    /// held once, and the contents are exactly the held rows.
    pub closed spec fn wf(&self) -> bool {
        &&& self.ids@.len() == self.rows@.len()
        &&& forall|i: int|
            0 <= i < self.ids@.len() ==> {
                &&& self.contents@.contains_key(#[trigger] self.ids@[i]@)
                &&& self.contents@[self.ids@[i]@] == fields_view(self.rows@[i]@)
            }
        &&& forall|k: Seq<char>|
            #[trigger] self.contents@.contains_key(k) ==> exists|i: int|
                0 <= i < self.ids@.len() && (#[trigger] self.ids@[i])@ == k
        &&& forall|i: int, j: int|
            0 <= i < self.ids@.len() && 0 <= j < self.ids@.len() && (#[trigger] self.ids@[i])@
                == (#[trigger] self.ids@[j])@ ==> i == j
    }

    /// An empty collection.
    pub fn new() -> (r: Self)
        ensures
            r.wf(),
            r@ == Table::empty(),
    {
        RecordStore { ids: Vec::new(), rows: Vec::new(), contents: Ghost(Map::empty()) }
    }

    fn find(&self, id: &String) -> (r: Option<usize>)
        requires
            self.wf(),
        ensures
            match r {
                Some(i) => i < self.ids@.len() && self.ids@[i as int]@ == id@,
                None => !self@.contains_key(id@),
            },
    {
        let mut i: usize = 0;
        while i < self.ids.len()
            invariant
                self.wf(),
                i <= self.ids@.len(),
                forall|j: int| 0 <= j < i ==> (#[trigger] self.ids@[j])@ != id@,
            decreases self.ids@.len() - i,
        {
            if self.ids[i] == *id {
                return Some(i);
            }
            i = i + 1;
        }
        None
    }

    /// Whether a record with identifier `id` is held.
    pub fn contains_key(&self, id: &String) -> (r: bool)
        requires
            self.wf(),
        ensures
            r == self@.contains_key(id@),
    {
        self.find(id).is_some()
    }

    /// The fields of the record with identifier `id`, if one is held.
    pub fn get(&self, id: &String) -> (r: Option<&Vec<String>>)
        requires
            self.wf(),
        ensures
            match r {
                Some(row) => self@.contains_key(id@) && fields_view(row@) == self@[id@],
                None => !self@.contains_key(id@),
            },
    {
        match self.find(id) {
            Some(i) => Some(&self.rows[i]),
            None => None,
        }
    }

    /// Stores `fields` under `id`, replacing any record held there.
    pub fn set(&mut self, id: String, fields: Vec<String>)
        requires
            old(self).wf(),
        ensures
            final(self).wf(),
            final(self)@ == old(self)@.insert(id@, fields_view(fields@)),
    {
        let ghost key = id@;
        let ghost row = fields_view(fields@);
        match self.find(&id) {
            Some(i) => {
                self.rows.set(i, fields);
                self.contents = Ghost(self.contents@.insert(key, row));
                assert forall|k: Seq<char>| #[trigger] self.contents@.contains_key(k) implies exists|
                    j: int,
                | 0 <= j < self.ids@.len() && (#[trigger] self.ids@[j])@ == k by {
                    if k != key {
                        assert(old(self).contents@.contains_key(k));
                        let j = choose|j: int|
                            0 <= j < old(self).ids@.len() && (#[trigger] old(self).ids@[j])@ == k;
                        assert(self.ids@[j] == old(self).ids@[j]);
                    } else {
                        assert(self.ids@[i as int]@ == k);
                    }
                }
            },
            None => {
                let ghost n = self.ids@.len();
                self.ids.push(id);
                self.rows.push(fields);
                self.contents = Ghost(self.contents@.insert(key, row));
                assert(self.ids@[n as int]@ == key);
                assert forall|k: Seq<char>| #[trigger] self.contents@.contains_key(k) implies exists|
                    j: int,
                | 0 <= j < self.ids@.len() && (#[trigger] self.ids@[j])@ == k by {
                    if k != key {
                        assert(old(self).contents@.contains_key(k));
                        let j = choose|j: int|
                            0 <= j < old(self).ids@.len() && (#[trigger] old(self).ids@[j])@ == k;
                        assert(self.ids@[j] == old(self).ids@[j]);
                    } else {
                        assert(self.ids@[n as int]@ == k);
                    }
                }
            },
        }
    }

    /// Removes the record held under `id`, if any.
    pub fn remove(&mut self, id: &String)
        requires
            old(self).wf(),
        ensures
            final(self).wf(),
            final(self)@ == old(self)@.remove(id@),
    {
        match self.find(id) {
            Some(i) => {
                let ghost key = id@;
                self.ids.remove(i);
                self.rows.remove(i);
                self.contents = Ghost(self.contents@.remove(key));
                assert forall|j: int| 0 <= j < self.ids@.len() implies {
                    &&& self.contents@.contains_key(#[trigger] self.ids@[j]@)
                    &&& self.contents@[self.ids@[j]@] == fields_view(self.rows@[j]@)
                } by {
                    let oj = if j < i { j } else { j + 1 };
                    assert(self.ids@[j] == old(self).ids@[oj]);
                    assert(self.rows@[j] == old(self).rows@[oj]);
                    assert(old(self).ids@[oj]@ != key);
                }
                assert forall|k: Seq<char>| #[trigger] self.contents@.contains_key(k) implies exists|
                    j: int,
                | 0 <= j < self.ids@.len() && (#[trigger] self.ids@[j])@ == k by {
                    assert(old(self).contents@.contains_key(k));
                    let oj = choose|oj: int|
                        0 <= oj < old(self).ids@.len() && (#[trigger] old(self).ids@[oj])@ == k;
                    assert(oj != i);
                    if oj < i {
                        assert(self.ids@[oj] == old(self).ids@[oj]);
                    } else {
                        assert(self.ids@[oj - 1] == old(self).ids@[oj]);
                    }
                }
                assert forall|a: int, b: int|
                    0 <= a < self.ids@.len() && 0 <= b < self.ids@.len() && (#[trigger] self.ids@[a])@
                        == (#[trigger] self.ids@[b])@ implies a == b by {
                    let oa = if a < i { a } else { a + 1 };
                    let ob = if b < i { b } else { b + 1 };
                    assert(self.ids@[a] == old(self).ids@[oa]);
                    assert(self.ids@[b] == old(self).ids@[ob]);
                }
            },
            None => {
                assert(self@ =~= old(self)@.remove(id@));
            },
        }
    }

    /// Whether every record held has exactly `n` fields.
    pub fn all_have_arity(&self, n: usize) -> (r: bool)
        requires
            self.wf(),
        ensures
            r == has_arity(self@, n as nat),
    {
        let mut i: usize = 0;
        while i < self.rows.len()
            invariant
                self.wf(),
                i <= self.rows@.len(),
                forall|j: int| 0 <= j < i ==> (#[trigger] self.rows@[j])@.len() == n,
            decreases self.rows@.len() - i,
        {
            if self.rows[i].len() != n {
                assert(self@[self.ids@[i as int]@].len() != n);
                return false;
            }
            i = i + 1;
        }
        assert forall|k: Seq<char>| #[trigger] self@.contains_key(k) implies self@[k].len() == n by {
            let j = choose|j: int| 0 <= j < self.ids@.len() && (#[trigger] self.ids@[j])@ == k;
            assert(self.rows@[j]@.len() == n);
        }
        true
    }

    /// The identifiers held, each once.
    pub fn keys(&self) -> (r: &Vec<String>)
        requires
            self.wf(),
        ensures
            forall|i: int| 0 <= i < r@.len() ==> self@.contains_key(#[trigger] r@[i]@),
            forall|k: Seq<char>|
                #[trigger] self@.contains_key(k) ==> exists|i: int|
                    0 <= i < r@.len() && (#[trigger] r@[i])@ == k,
            forall|i: int, j: int|
                0 <= i < r@.len() && 0 <= j < r@.len() && (#[trigger] r@[i])@ == (#[trigger] r@[j])@
                    ==> i == j,
    {
        &self.ids
    }
}

} // verus!
