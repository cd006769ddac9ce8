use vstd::prelude::*;
use crate::field::Fe;

verus! {

/// Number of advice columns in a table.
pub const ADVICE_COLUMNS: usize = 3;

/// Number of rows of the instance column, the public inputs.
pub const PUBLIC_ROWS: usize = 3;

/// A column handle: an advice (witness) column or an instance (public) column.
#[derive(Clone, Copy, Debug, PartialEq, Eq, Structural)]
pub enum Column {
    Advice(usize),
    Instance(usize),
}

/// The constraint `s * (a^2 + b^2 - c) = 0`, with `s` the selector and
/// `a`, `b`, `c` advice columns read at the current row.
#[derive(Clone, Copy, Debug, PartialEq, Eq, Structural)]
pub struct Gate {
    pub selector: usize,
    pub a: usize,
    pub b: usize,
    pub c: usize,
}

/// The columns, selectors, equality-enabled columns and gates of a circuit.
#[derive(Clone, Debug)]
pub struct ConstraintSystem {
    pub num_advice: usize,
    pub num_instance: usize,
    pub num_selectors: usize,
    pub equality: Vec<Column>,
    pub gates: Vec<Gate>,
}

impl ConstraintSystem {
    /// Every gate reads the table's one selector and its advice columns.
    pub open spec fn wf(&self) -> bool {
        forall|g: int|
            0 <= g < self.gates@.len() ==> {
                let gate = #[trigger] self.gates@[g];
                gate.selector == 0 && gate.a < ADVICE_COLUMNS && gate.b < ADVICE_COLUMNS
                    && gate.c < ADVICE_COLUMNS
            }
    }

    /// An empty constraint system.
    pub fn new() -> (r: Self)
        ensures
            r.num_advice == 0,
            r.num_instance == 0,
            r.num_selectors == 0,
            r.equality@.len() == 0,
            r.gates@.len() == 0,
    {
        ConstraintSystem {
            num_advice: 0,
            num_instance: 0,
            num_selectors: 0,
            equality: Vec::new(),
            gates: Vec::new(),
        }
    }

    /// Allocates the next advice column and returns its index.
    pub fn advice_column(&mut self) -> (r: usize)
        requires
            old(self).num_advice < usize::MAX,
        ensures
            r == old(self).num_advice,
            *final(self) == (ConstraintSystem { num_advice: (r + 1) as usize, ..*old(self) }),
    {
        let r = self.num_advice;
        self.num_advice = r + 1;
        r
    }

    /// Allocates the next instance column and returns its index.
    pub fn instance_column(&mut self) -> (r: usize)
        requires
            old(self).num_instance < usize::MAX,
        ensures
            r == old(self).num_instance,
            *final(self) == (ConstraintSystem { num_instance: (r + 1) as usize, ..*old(self) }),
    {
        let r = self.num_instance;
        self.num_instance = r + 1;
        r
    }

    /// Allocates the next selector and returns its index.
    pub fn selector(&mut self) -> (r: usize)
        requires
            old(self).num_selectors < usize::MAX,
        ensures
            r == old(self).num_selectors,
            *final(self) == (ConstraintSystem { num_selectors: (r + 1) as usize, ..*old(self) }),
    {
        let r = self.num_selectors;
        self.num_selectors = r + 1;
        r
    }

    /// Lets the cells of `column` take part in copy constraints.
    pub fn enable_equality(&mut self, column: Column)
        ensures
            final(self).equality@ == old(self).equality@.push(column),
            final(self).gates@ == old(self).gates@,
            final(self).num_advice == old(self).num_advice,
            final(self).num_instance == old(self).num_instance,
            final(self).num_selectors == old(self).num_selectors,
    {
        self.equality.push(column);
    }

    /// Registers a gate.
    pub fn create_gate(&mut self, gate: Gate)
        ensures
            final(self).gates@ == old(self).gates@.push(gate),
            final(self).equality@ == old(self).equality@,
            final(self).num_advice == old(self).num_advice,
            final(self).num_instance == old(self).num_instance,
            final(self).num_selectors == old(self).num_selectors,
    {
        self.gates.push(gate);
    }
}

/// The location of an advice cell: its column and its row in the table.
#[derive(Clone, Copy, Debug, PartialEq, Eq, Structural)]
pub struct Loc {
    pub column: usize,
    pub row: usize,
}

/// One row of the table: the three advice cells and the selector flag.
#[derive(Clone, Copy, Debug, PartialEq, Eq)]
pub struct Row {
    pub cells: [Fe; 3],
    pub enabled: bool,
}

/// An assigned advice cell: where it stands and the value it holds.
#[derive(Clone, Copy, Debug, PartialEq, Eq)]
pub struct ACell {
    pub loc: Loc,
    pub value: Fe,
}

/// The filled table: its rows, the copy constraints between advice cells,
/// and the advice cells bound to rows of the instance column.
#[derive(Clone, Debug)]
pub struct Table {
    pub rows: Vec<Row>,
    pub copies: Vec<(Loc, Loc)>,
    pub exposed: Vec<(Loc, usize)>,
}

impl Table {
    /// The location names a cell of the table.
    pub open spec fn in_range(&self, l: Loc) -> bool {
        l.column < ADVICE_COLUMNS && l.row < self.rows@.len()
    }

    /// The value of the cell at `l`.
    pub open spec fn value_at(&self, l: Loc) -> nat {
        self.rows@[l.row as int].cells@[l.column as int].val()
    }

    /// The cell stands in the table with the value it carries.
    pub open spec fn holds(&self, cell: ACell) -> bool {
        self.in_range(cell.loc) && self.rows@[cell.loc.row as int].cells@[cell.loc.column as int]
            == cell.value
    }

    /// Every cell is a canonical field element, and every constraint names
    /// cells of the table and rows of the instance column.
    pub open spec fn wf(&self) -> bool {
        &&& forall|r: int, k: int|
            0 <= r < self.rows@.len() && 0 <= k < 3 ==> (#[trigger] self.rows@[r].cells@[k]).wf()
        &&& forall|i: int|
            0 <= i < self.copies@.len() ==> self.in_range((#[trigger] self.copies@[i]).0)
                && self.in_range(self.copies@[i].1)
        &&& forall|j: int|
            0 <= j < self.exposed@.len() ==> self.in_range((#[trigger] self.exposed@[j]).0)
                && self.exposed@[j].1 < PUBLIC_ROWS
    }

    /// An empty table.
    pub fn new() -> (r: Self)
        ensures
            r.rows@.len() == 0,
            r.copies@.len() == 0,
            r.exposed@.len() == 0,
            r.wf(),
    {
        Table { rows: Vec::new(), copies: Vec::new(), exposed: Vec::new() }
    }
}

} // verus!
