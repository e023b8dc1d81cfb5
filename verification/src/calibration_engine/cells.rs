//! A table of values by power level and frequency.

use vstd::prelude::*;

verus! {

#[derive(Clone, Copy, Debug, PartialEq, Eq, Structural)]
pub enum CellStatus {
    Default,
    Calibrated,
    Current,
    LimitHit,
    Uncalibrated,
    Skipped,
    Manual,
    PaFailure,
    NotSettled,
}

#[derive(Clone, Copy, Debug, PartialEq, Eq, Structural)]
pub struct Cell {
    pub level: u8,
    pub freq_idx: usize,
    pub status: CellStatus,
}

/// What is known of the cells, each found by its level and the place of its frequency.
#[derive(Debug)]
pub struct CellTable {
    cells: Vec<Cell>,
}

/// The status of the last cell at `key`.
pub open spec fn last_status(cells: Seq<Cell>, key: (u8, usize)) -> Option<CellStatus>
    decreases cells.len(),
{
    if cells.len() == 0 {
        None
    } else if (cells.last().level, cells.last().freq_idx) == key {
        Some(cells.last().status)
    } else {
        last_status(cells.drop_last(), key)
    }
}

impl View for CellTable {
    type V = Map<(u8, usize), CellStatus>;

    closed spec fn view(&self) -> Map<(u8, usize), CellStatus> {
        Map::new(
            |k: (u8, usize)| last_status(self.cells@, k) is Some,
            |k: (u8, usize)| last_status(self.cells@, k)->0,
        )
    }
}

proof fn lemma_last_status_none(cells: Seq<Cell>, key: (u8, usize))
    requires
        forall|i: int|
            0 <= i < cells.len() ==> ((#[trigger] cells[i]).level, cells[i].freq_idx) != key,
    ensures
        last_status(cells, key) is None,
    decreases cells.len(),
{
    if cells.len() > 0 {
        lemma_last_status_none(cells.drop_last(), key);
    }
}

/// Where only the cell at `at` has the key, it is the last one that has.
proof fn lemma_last_status_at(cells: Seq<Cell>, at: int)
    requires
        0 <= at < cells.len(),
        forall|i: int|
            at < i < cells.len() ==> ((#[trigger] cells[i]).level, cells[i].freq_idx) != (
                cells[at].level,
                cells[at].freq_idx,
            ),
    ensures
        last_status(cells, (cells[at].level, cells[at].freq_idx)) == Some(cells[at].status),
    decreases cells.len(),
{
    if at < cells.len() - 1 {
        lemma_last_status_at(cells.drop_last(), at);
    }
}

/// A change of the last cell with one key does not show at another.
proof fn lemma_last_status_other(cells: Seq<Cell>, at: int, status: CellStatus, key: (u8, usize))
    requires
        0 <= at < cells.len(),
        (cells[at].level, cells[at].freq_idx) != key,
    ensures
        last_status(cells.update(at, Cell { status, ..cells[at] }), key) == last_status(cells, key),
    decreases cells.len(),
{
    let changed = cells.update(at, Cell { status, ..cells[at] });
    if at < cells.len() - 1 {
        assert(changed.drop_last() =~= cells.drop_last().update(at, Cell { status, ..cells[at] }));
        lemma_last_status_other(cells.drop_last(), at, status, key);
    } else {
        assert(changed.drop_last() =~= cells.drop_last());
    }
}

impl CellTable {
    pub fn new() -> (r: Self)
        ensures
            r@ == Map::<(u8, usize), CellStatus>::empty(),
    {
        let r = CellTable { cells: Vec::new() };
        assert(r@ =~= Map::<(u8, usize), CellStatus>::empty());
        r
    }

    /// The place of the last cell with this key, or the number of cells.
    fn find(&self, level: u8, freq_idx: usize) -> (r: usize)
        ensures
            r <= self.cells@.len(),
            r < self.cells@.len() ==> self.cells@[r as int].level == level
                && self.cells@[r as int].freq_idx == freq_idx && self@.contains_key((level, freq_idx))
                && self@[(level, freq_idx)] == self.cells@[r as int].status && forall|i: int|
                r < i < self.cells@.len() ==> ((#[trigger] self.cells@[i]).level,
                    self.cells@[i].freq_idx) != (level, freq_idx),
            r == self.cells@.len() ==> !self@.contains_key((level, freq_idx)),
    {
        let mut i: usize = self.cells.len();
        while i > 0
            invariant
                i <= self.cells@.len(),
                forall|k: int|
                    i <= k < self.cells@.len() ==> ((#[trigger] self.cells@[k]).level,
                        self.cells@[k].freq_idx) != (level, freq_idx),
            decreases i,
        {
            let c = self.cells[i - 1];
            if c.level == level && c.freq_idx == freq_idx {
                proof {
                    lemma_last_status_at(self.cells@, i - 1);
                }
                return i - 1;
            }
            i = i - 1;
        }
        proof {
            lemma_last_status_none(self.cells@, (level, freq_idx));
        }
        self.cells.len()
    }

    pub fn get(&self, level: u8, freq_idx: usize) -> (r: Option<CellStatus>)
        ensures
            r == (if self@.contains_key((level, freq_idx)) {
                Some(self@[(level, freq_idx)])
            } else {
                None
            }),
    {
        let i = self.find(level, freq_idx);
        if i < self.cells.len() {
            Some(self.cells[i].status)
        } else {
            None
        }
    }

    pub fn insert(&mut self, level: u8, freq_idx: usize, status: CellStatus)
        ensures
            final(self)@ == old(self)@.insert((level, freq_idx), status),
    {
        let ghost before = self.cells@;
        let ghost key = (level, freq_idx);
        let ghost map_before = self@;
        let i = self.find(level, freq_idx);
        if i < self.cells.len() {
            let cell = Cell { level, freq_idx, status };
            self.cells.set(i, cell);
            proof {
                let now = self.cells@;
                assert(now == before.update(i as int, Cell { status, ..before[i as int] }));
                lemma_last_status_at(now, i as int);
                assert forall|k: (u8, usize)| k != key implies last_status(now, k) == last_status(
                    before,
                    k,
                ) by {
                    lemma_last_status_other(before, i as int, status, k);
                }
                assert(self@ =~= map_before.insert(key, status));
            }
        } else {
            self.cells.push(Cell { level, freq_idx, status });
            proof {
                assert(self.cells@.drop_last() =~= before);
                assert(self@ =~= map_before.insert(key, status));
            }
        }
    }

    pub fn clear(&mut self)
        ensures
            final(self)@ == Map::<(u8, usize), CellStatus>::empty(),
    {
        self.cells.clear();
        assert(self@ =~= Map::<(u8, usize), CellStatus>::empty());
    }
}

} // verus!
