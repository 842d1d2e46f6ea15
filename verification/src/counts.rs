//! How many items each address has bought: a table from address to count.

use vstd::prelude::*;

verus! {

/// One row of the table.
#[derive(Debug, PartialEq, Eq)]
pub struct MintEntry {
    pub address: String,
    pub count: u32,
}

/// The table, one row for each address that has bought. An address without a
/// row has bought nothing.
#[derive(Debug, PartialEq, Eq)]
pub struct MintCounts {
    pub entries: Vec<MintEntry>,
}

/// Whether some row is for the address.
pub open spec fn has_row(rows: Seq<MintEntry>, address: Seq<char>) -> bool {
    exists|i: int| 0 <= i < rows.len() && (#[trigger] rows[i]).address@ == address
}

/// The place of a row for the address.
pub open spec fn row_of(rows: Seq<MintEntry>, address: Seq<char>) -> int {
    choose|i: int| 0 <= i < rows.len() && (#[trigger] rows[i]).address@ == address
}

/// The count a table holds for an address: zero where it has no row.
pub open spec fn count_of(table: Map<Seq<char>, u32>, address: Seq<char>) -> u32 {
    if table.contains_key(address) {
        table[address]
    } else {
        0
    }
}

impl View for MintCounts {
    type V = Map<Seq<char>, u32>;

    open spec fn view(&self) -> Map<Seq<char>, u32> {
        Map::new(
            |a: Seq<char>| has_row(self.entries@, a),
            |a: Seq<char>| self.entries@[row_of(self.entries@, a)].count,
        )
    }
}

impl MintCounts {
    /// No address has two rows.
    pub open spec fn wf(&self) -> bool {
        forall|i: int, j: int|
            0 <= i < j < self.entries@.len() ==> (#[trigger] self.entries@[i]).address@ != (
            #[trigger] self.entries@[j]).address@
    }

    /// Whether no count in the table is above a bound.
    pub open spec fn bounded_by(&self, bound: u32) -> bool {
        forall|i: int| 0 <= i < self.entries@.len() ==> (#[trigger] self.entries@[i]).count <= bound
    }

    /// In a well-formed table the row found for an address is the only one.
    pub proof fn lemma_row(&self, i: int)
        requires
            self.wf(),
            0 <= i < self.entries@.len(),
        ensures
            has_row(self.entries@, self.entries@[i].address@),
            row_of(self.entries@, self.entries@[i].address@) == i,
            self@.contains_key(self.entries@[i].address@),
            self@[self.entries@[i].address@] == self.entries@[i].count,
    {
        let a = self.entries@[i].address@;
        assert(has_row(self.entries@, a));
        let j = row_of(self.entries@, a);
        assert(0 <= j < self.entries@.len() && self.entries@[j].address@ == a);
        if j < i {
            assert(self.entries@[j].address@ != self.entries@[i].address@);
        } else if i < j {
            assert(self.entries@[i].address@ != self.entries@[j].address@);
        }
    }

    /// Every count of a bounded table is within the bound.
    pub proof fn lemma_bounded(&self, bound: u32, address: Seq<char>)
        requires
            self.bounded_by(bound),
        ensures
            count_of(self@, address) <= bound,
    {
        if self@.contains_key(address) {
            let j = row_of(self.entries@, address);
            assert(self.entries@[j].count <= bound);
        }
    }

    /// The empty table.
    pub fn new() -> (table: MintCounts)
        ensures
            table.wf(),
            table@ == Map::<Seq<char>, u32>::empty(),
            table.entries@.len() == 0,
    {
        let table = MintCounts { entries: Vec::new() };
        assert(table@ =~= Map::<Seq<char>, u32>::empty());
        table
    }

    /// The place of the row for an address, if it has one.
    pub fn find(&self, address: &String) -> (place: Option<usize>)
        requires
            self.wf(),
        ensures
            match place {
                Some(i) => i < self.entries@.len() && self.entries@[i as int].address@
                    == address@,
                None => !self@.contains_key(address@),
            },
    {
        let mut i: usize = 0;
        while i < self.entries.len()
            invariant
                i <= self.entries@.len(),
                forall|j: int| 0 <= j < i ==> (#[trigger] self.entries@[j]).address@ != address@,
            decreases self.entries@.len() - i,
        {
            if self.entries[i].address == *address {
                return Some(i);
            }
            i += 1;
        }
        None
    }

    /// How many items an address has bought.
    pub fn get(&self, address: &String) -> (count: u32)
        requires
            self.wf(),
        ensures
            count == count_of(self@, address@),
    {
        match self.find(address) {
            Some(i) => {
                proof {
                    self.lemma_row(i as int);
                }
                self.entries[i].count
            },
            None => 0,
        }
    }

    /// Records a count for an address, in place of the one it had.
    pub fn set(&mut self, address: &String, count: u32)
        requires
            old(self).wf(),
        ensures
            final(self).wf(),
            final(self)@ == old(self)@.insert(address@, count),
            forall|bound: u32|
                old(self).bounded_by(bound) && count <= bound ==> #[trigger] final(self).bounded_by(
                    bound,
                ),
    {
        let ghost before = *self;
        let found = self.find(address);
        match found {
            Some(i) => {
                self.entries.set(i, MintEntry { address: address.clone(), count });
            },
            None => {
                self.entries.push(MintEntry { address: address.clone(), count });
            },
        }
        proof {
            let rows = self.entries@;
            let old_rows = before.entries@;
            let place: int = match found {
                Some(i) => i as int,
                None => old_rows.len() as int,
            };
            assert(rows[place].address@ == address@ && rows[place].count == count);
            assert forall|k: int| 0 <= k < rows.len() && k != place implies #[trigger] rows[k]
                == old_rows[k] && rows[k].address@ != address@ by {
                if found is Some {
                    if k < place {
                        assert(old_rows[k].address@ != old_rows[place].address@);
                    } else {
                        assert(old_rows[place].address@ != old_rows[k].address@);
                    }
                } else {
                    assert(!has_row(old_rows, address@));
                }
            }
            assert(self.wf()) by {
                assert forall|i: int, j: int| 0 <= i < j < rows.len() implies (
                #[trigger] rows[i]).address@ != (#[trigger] rows[j]).address@ by {
                    if i != place && j != place {
                        assert(old_rows[i].address@ != old_rows[j].address@);
                    }
                }
            }
            let target = before@.insert(address@, count);
            assert forall|a: Seq<char>| self@.contains_key(a) == target.contains_key(a) by {
                if has_row(rows, a) {
                    let k = row_of(rows, a);
                    if k != place {
                        assert(old_rows[k].address@ == a);
                    }
                }
                if has_row(old_rows, a) {
                    let k = row_of(old_rows, a);
                    assert(k < rows.len());
                    if k != place {
                        assert(rows[k].address@ == a);
                    } else {
                        assert(rows[place].address@ == address@);
                    }
                }
                if a == address@ {
                    assert(rows[place].address@ == a);
                }
            }
            assert forall|a: Seq<char>| self@.contains_key(a) implies self@[a] == target[a] by {
                let k = row_of(rows, a);
                self.lemma_row(k);
                if k != place {
                    assert(old_rows[k].address@ == a);
                    before.lemma_row(k);
                }
            }
            assert(self@ =~= target);
            assert forall|bound: u32|
                before.bounded_by(bound) && count <= bound implies #[trigger] self.bounded_by(
                bound,
            ) by {
                assert forall|k: int| 0 <= k < rows.len() implies (#[trigger] rows[k]).count
                    <= bound by {
                    if k != place {
                        assert(old_rows[k].count <= bound);
                    }
                }
            }
        }
    }

    /// Forgets every row.
    pub fn clear(&mut self)
        ensures
            final(self).wf(),
            final(self)@ == Map::<Seq<char>, u32>::empty(),
            final(self).entries@.len() == 0,
    {
        self.entries = Vec::new();
        assert(self@ =~= Map::<Seq<char>, u32>::empty());
    }
}

} // verus!
