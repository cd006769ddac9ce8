use vstd::prelude::*;
use crate::chip::opt_wf;
use crate::circuit::{row_is, synth_copies, synth_exposed, synthesized, term, MyCircuit};
use crate::error::{Error, Failure};
use crate::field::{fadd, fsq, Fe};
use crate::table::{Column, ConstraintSystem, Gate, Table, PUBLIC_ROWS};

verus! {

/// Gate `g` holds on row `r`: the row's selector is off, or
/// `a^2 + b^2 = c` there.
pub open spec fn gate_ok(cs: ConstraintSystem, t: Table, g: int, r: int) -> bool {
    let gate = cs.gates@[g];
    let row = t.rows@[r];
    row.enabled ==> fadd(fsq(row.cells@[gate.a as int].val()), fsq(row.cells@[gate.b as int].val()))
        == row.cells@[gate.c as int].val()
}

/// The first row from `r` on where gate `g` fails.
pub open spec fn first_bad_row(cs: ConstraintSystem, t: Table, g: int, r: int) -> Option<int>
    decreases t.rows@.len() - r,
{
    if r < 0 || r >= t.rows@.len() {
        None
    } else if !gate_ok(cs, t, g, r) {
        Some(r)
    } else {
        first_bad_row(cs, t, g, r + 1)
    }
}

/// The first gate from `g` on that fails on some row, with its first such row.
pub open spec fn first_bad_gate(cs: ConstraintSystem, t: Table, g: int) -> Option<(int, int)>
    decreases cs.gates@.len() - g,
{
    if g < 0 || g >= cs.gates@.len() {
        None
    } else {
        match first_bad_row(cs, t, g, 0) {
            Some(r) => Some((g, r)),
            None => first_bad_gate(cs, t, g + 1),
        }
    }
}

/// Copy constraint `i` holds: both its columns have equality enabled and
/// its two cells hold the same value.
pub open spec fn copy_ok(cs: ConstraintSystem, t: Table, i: int) -> bool {
    let (x, y) = t.copies@[i];
    &&& cs.equality@.contains(Column::Advice(x.column))
    &&& cs.equality@.contains(Column::Advice(y.column))
    &&& t.value_at(x) == t.value_at(y)
}

/// The first copy constraint from `i` on that fails.
pub open spec fn first_bad_copy(cs: ConstraintSystem, t: Table, i: int) -> Option<int>
    decreases t.copies@.len() - i,
{
    if i < 0 || i >= t.copies@.len() {
        None
    } else if !copy_ok(cs, t, i) {
        Some(i)
    } else {
        first_bad_copy(cs, t, i + 1)
    }
}

/// Binding `j` holds: the public input at its instance row equals its cell.
pub open spec fn instance_ok(t: Table, public: Seq<Fe>, j: int) -> bool {
    let (l, row) = t.exposed@[j];
    row < public.len() && public[row as int].val() == t.value_at(l)
}

/// The first instance binding from `j` on that fails.
pub open spec fn first_bad_instance(t: Table, public: Seq<Fe>, j: int) -> Option<int>
    decreases t.exposed@.len() - j,
{
    if j < 0 || j >= t.exposed@.len() {
        None
    } else if !instance_ok(t, public, j) {
        Some(j)
    } else {
        first_bad_instance(t, public, j + 1)
    }
}

/// The verdict on a table: a length mismatch of the public inputs first;
/// then the first failing gate (by gate, then row), the first failing copy
/// constraint, the first failing instance binding; else success.
pub open spec fn check_result(cs: ConstraintSystem, t: Table, public: Seq<Fe>) -> Result<(), Error> {
    if public.len() != PUBLIC_ROWS {
        Err(Error::PublicInputLengthMismatch { expected: PUBLIC_ROWS, found: public.len() as usize })
    } else {
        match first_bad_gate(cs, t, 0) {
            Some((g, r)) => Err(Error::ConstraintUnsatisfied(Failure::Gate { gate: g as usize, row: r as usize })),
            None => match first_bad_copy(cs, t, 0) {
                Some(i) => Err(Error::ConstraintUnsatisfied(Failure::Copy { index: i as usize })),
                None => match first_bad_instance(t, public, 0) {
                    Some(j) => Err(Error::ConstraintUnsatisfied(Failure::Instance { row: t.exposed@[j].1 })),
                    None => Ok(()),
                },
            },
        }
    }
}

/// Every gate holds on every row, every copy constraint and every instance
/// binding holds, and there are as many public inputs as instance rows.
pub open spec fn satisfied(cs: ConstraintSystem, t: Table, public: Seq<Fe>) -> bool {
    &&& public.len() == PUBLIC_ROWS
    &&& forall|g: int, r: int|
        0 <= g < cs.gates@.len() && 0 <= r < t.rows@.len() ==> #[trigger] gate_ok(cs, t, g, r)
    &&& forall|i: int| 0 <= i < t.copies@.len() ==> #[trigger] copy_ok(cs, t, i)
    &&& forall|j: int| 0 <= j < t.exposed@.len() ==> #[trigger] instance_ok(t, public, j)
}

/// The number of rows in a table of size parameter `k`.
pub open spec fn capacity(k: nat) -> nat
    decreases k,
{
    if k == 0 {
        1
    } else {
        2 * capacity((k - 1) as nat)
    }
}

proof fn lemma_capacity_monotone(i: nat, k: nat)
    requires
        i <= k,
    ensures
        capacity(i) <= capacity(k),
    decreases k - i,
{
    if i < k {
        lemma_capacity_monotone(i, (k - 1) as nat);
    }
}

proof fn lemma_rows_none(cs: ConstraintSystem, t: Table, g: int, r: int)
    requires
        0 <= r <= t.rows@.len(),
    ensures
        first_bad_row(cs, t, g, r) is None <==> forall|r2: int|
            r <= r2 < t.rows@.len() ==> #[trigger] gate_ok(cs, t, g, r2),
    decreases t.rows@.len() - r,
{
    if r < t.rows@.len() {
        lemma_rows_none(cs, t, g, r + 1);
    }
}

proof fn lemma_gates_none(cs: ConstraintSystem, t: Table, g: int)
    requires
        0 <= g <= cs.gates@.len(),
    ensures
        first_bad_gate(cs, t, g) is None <==> forall|g2: int, r: int|
            g <= g2 < cs.gates@.len() && 0 <= r < t.rows@.len() ==> #[trigger] gate_ok(cs, t, g2, r),
    decreases cs.gates@.len() - g,
{
    if g < cs.gates@.len() {
        lemma_rows_none(cs, t, g, 0);
        lemma_gates_none(cs, t, g + 1);
    }
}

proof fn lemma_copies_none(cs: ConstraintSystem, t: Table, i: int)
    requires
        0 <= i <= t.copies@.len(),
    ensures
        first_bad_copy(cs, t, i) is None <==> forall|i2: int|
            i <= i2 < t.copies@.len() ==> #[trigger] copy_ok(cs, t, i2),
    decreases t.copies@.len() - i,
{
    if i < t.copies@.len() {
        lemma_copies_none(cs, t, i + 1);
    }
}

proof fn lemma_instances_none(t: Table, public: Seq<Fe>, j: int)
    requires
        0 <= j <= t.exposed@.len(),
    ensures
        first_bad_instance(t, public, j) is None <==> forall|j2: int|
            j <= j2 < t.exposed@.len() ==> #[trigger] instance_ok(t, public, j2),
    decreases t.exposed@.len() - j,
{
    if j < t.exposed@.len() {
        lemma_instances_none(t, public, j + 1);
    }
}

/// The check succeeds exactly on satisfied tables.
pub proof fn lemma_check_ok(cs: ConstraintSystem, t: Table, public: Seq<Fe>)
    ensures
        check_result(cs, t, public) is Ok <==> satisfied(cs, t, public),
{
    lemma_gates_none(cs, t, 0);
    lemma_copies_none(cs, t, 0);
    lemma_instances_none(t, public, 0);
}

/// Whether `n` rows fit in a table of `2^k` rows.
pub fn fits(n: usize, k: u32) -> (r: bool)
    ensures
        r == (n <= capacity(k as nat)),
{
    let mut cap: u128 = 1;
    let mut i: u32 = 0;
    while i < k && cap < n as u128
        invariant
            i <= k,
            cap == capacity(i as nat),
            cap <= 2 * (n as int) + 1,
        decreases k - i,
    {
        cap = cap * 2;
        i = i + 1;
    }
    proof {
        lemma_capacity_monotone(i as nat, k as nat);
    }
    n as u128 <= cap
}

/// Whether `column` has equality enabled.
fn equality_enabled(cs: &ConstraintSystem, column: Column) -> (r: bool)
    ensures
        r == cs.equality@.contains(column),
{
    let mut i: usize = 0;
    while i < cs.equality.len()
        invariant
            i <= cs.equality@.len(),
            forall|j: int| 0 <= j < i ==> cs.equality@[j] != column,
        decreases cs.equality@.len() - i,
    {
        if cs.equality[i] == column {
            return true;
        }
        i = i + 1;
    }
    false
}

/// Checks a filled table against the gates, the copy constraints and the
/// public inputs, reporting the first violation.
pub fn check(cs: &ConstraintSystem, t: &Table, public: &Vec<Fe>) -> (r: Result<(), Error>)
    requires
        cs.wf(),
        t.wf(),
        forall|i: int| 0 <= i < public@.len() ==> (#[trigger] public@[i]).wf(),
    ensures
        r == check_result(*cs, *t, public@),
        r is Ok <==> satisfied(*cs, *t, public@),
        public@.len() != PUBLIC_ROWS ==> r == Err::<(), Error>(
            Error::PublicInputLengthMismatch { expected: PUBLIC_ROWS, found: public@.len() as usize },
        ),
{
    proof {
        lemma_check_ok(*cs, *t, public@);
    }
    if public.len() != PUBLIC_ROWS {
        return Err(Error::PublicInputLengthMismatch { expected: PUBLIC_ROWS, found: public.len() });
    }
    let mut g: usize = 0;
    while g < cs.gates.len()
        invariant
            cs.wf(),
            t.wf(),
            g <= cs.gates@.len(),
            public@.len() == PUBLIC_ROWS,
            first_bad_gate(*cs, *t, 0) == first_bad_gate(*cs, *t, g as int),
        decreases cs.gates@.len() - g,
    {
        let gate = cs.gates[g];
        let mut r: usize = 0;
        while r < t.rows.len()
            invariant
                cs.wf(),
                t.wf(),
                g < cs.gates@.len(),
                gate == cs.gates@[g as int],
                public@.len() == PUBLIC_ROWS,
                first_bad_gate(*cs, *t, 0) == first_bad_gate(*cs, *t, g as int),
                r <= t.rows@.len(),
                first_bad_row(*cs, *t, g as int, 0) == first_bad_row(*cs, *t, g as int, r as int),
            decreases t.rows@.len() - r,
        {
            let row = &t.rows[r];
            if row.enabled {
                let lhs = row.cells[gate.a].square().add(&row.cells[gate.b].square());
                if !lhs.equals(&row.cells[gate.c]) {
                    proof {
                        assert(!gate_ok(*cs, *t, g as int, r as int));
                        assert(first_bad_row(*cs, *t, g as int, r as int) == Some(r as int));
                        assert(first_bad_gate(*cs, *t, g as int) == Some((g as int, r as int)));
                    }
                    return Err(Error::ConstraintUnsatisfied(Failure::Gate { gate: g, row: r }));
                }
            }
            r = r + 1;
        }
        g = g + 1;
    }
    let mut i: usize = 0;
    while i < t.copies.len()
        invariant
            t.wf(),
            first_bad_gate(*cs, *t, 0) is None,
            public@.len() == PUBLIC_ROWS,
            i <= t.copies@.len(),
            first_bad_copy(*cs, *t, 0) == first_bad_copy(*cs, *t, i as int),
        decreases t.copies@.len() - i,
    {
        let (x, y) = t.copies[i];
        let same = t.rows[x.row].cells[x.column].equals(&t.rows[y.row].cells[y.column]);
        if !equality_enabled(cs, Column::Advice(x.column)) || !equality_enabled(
            cs,
            Column::Advice(y.column),
        ) || !same {
            proof {
                assert(!copy_ok(*cs, *t, i as int));
                assert(first_bad_copy(*cs, *t, i as int) == Some(i as int));
            }
            return Err(Error::ConstraintUnsatisfied(Failure::Copy { index: i }));
        }
        i = i + 1;
    }
    let mut j: usize = 0;
    while j < t.exposed.len()
        invariant
            t.wf(),
            public@.len() == PUBLIC_ROWS,
            forall|i: int| 0 <= i < public@.len() ==> (#[trigger] public@[i]).wf(),
            first_bad_gate(*cs, *t, 0) is None,
            first_bad_copy(*cs, *t, 0) is None,
            j <= t.exposed@.len(),
            first_bad_instance(*t, public@, 0) == first_bad_instance(*t, public@, j as int),
        decreases t.exposed@.len() - j,
    {
        let (l, row) = t.exposed[j];
        if !public[row].equals(&t.rows[l.row].cells[l.column]) {
            return Err(Error::ConstraintUnsatisfied(Failure::Instance { row }));
        }
        j = j + 1;
    }
    Ok(())
}

/// The seed row `(x, y, x + y)` meets the sum-of-squares gate.
pub open spec fn seed_row_ok(x: nat, y: nat) -> bool {
    fadd(fsq(x), fsq(y)) == fadd(x, y)
}

/// The verdict of the check on the circuit's table for seeds `x` and `y`.
pub open spec fn circuit_outcome(x: nat, y: nat, public: Seq<Fe>) -> Result<(), Error> {
    if public.len() != PUBLIC_ROWS {
        Err(Error::PublicInputLengthMismatch { expected: PUBLIC_ROWS, found: public.len() as usize })
    } else if !seed_row_ok(x, y) {
        Err(Error::ConstraintUnsatisfied(Failure::Gate { gate: 0, row: 0 }))
    } else if public[0].val() != x {
        Err(Error::ConstraintUnsatisfied(Failure::Instance { row: 0 }))
    } else if public[1].val() != y {
        Err(Error::ConstraintUnsatisfied(Failure::Instance { row: 1 }))
    } else if public[2].val() != term(x, y, 4) {
        Err(Error::ConstraintUnsatisfied(Failure::Instance { row: 2 }))
    } else {
        Ok(())
    }
}

/// The constraint system that the circuit configures on an empty one.
pub open spec fn circuit_system(cs: ConstraintSystem) -> bool {
    &&& cs.gates@ == seq![Gate { selector: 0, a: 0, b: 1, c: 2 }]
    &&& cs.equality@ == seq![
        Column::Advice(0),
        Column::Advice(1),
        Column::Advice(2),
        Column::Instance(0),
    ]
}

/// A table with no rows and no constraints.
pub open spec fn empty_table(t: Table) -> bool {
    t.rows@.len() == 0 && t.copies@.len() == 0 && t.exposed@.len() == 0
}

/// Checking the circuit's table for seeds `x` and `y` gives
/// `circuit_outcome(x, y, public)`.
pub proof fn lemma_circuit_outcome(
    cs: ConstraintSystem,
    t0: Table,
    t: Table,
    x: nat,
    y: nat,
    public: Seq<Fe>,
)
    requires
        circuit_system(cs),
        empty_table(t0),
        synthesized(t0, t, x, y),
    ensures
        check_result(cs, t, public) == circuit_outcome(x, y, public),
{
    let t1 = term(x, y, 1);
    let t2 = term(x, y, 2);
    let t3 = term(x, y, 3);
    let t4 = term(x, y, 4);
    assert(row_is(t.rows@[0int + 0], term(x, y, 0), term(x, y, 1), term(x, y, 2)));
    assert(row_is(t.rows@[0int + 1], term(x, y, 1), term(x, y, 2), term(x, y, 3)));
    assert(row_is(t.rows@[0int + 2], term(x, y, 2), term(x, y, 3), term(x, y, 4)));
    assert(gate_ok(cs, t, 0, 0) == seed_row_ok(x, y));
    assert(gate_ok(cs, t, 0, 1));
    assert(gate_ok(cs, t, 0, 2));
    assert(first_bad_row(cs, t, 0, 3) is None);
    assert(first_bad_row(cs, t, 0, 2) is None);
    assert(first_bad_row(cs, t, 0, 1) is None);
    assert(first_bad_gate(cs, t, 1) is None);
    if seed_row_ok(x, y) {
        assert(first_bad_gate(cs, t, 0) is None);
    } else {
        assert(first_bad_gate(cs, t, 0) == Some((0int, 0int)));
    }
    assert(cs.equality@[0] == Column::Advice(0));
    assert(cs.equality@[1] == Column::Advice(1));
    assert(cs.equality@[2] == Column::Advice(2));
    assert(t.copies@ == synth_copies(0));
    assert(copy_ok(cs, t, 0));
    assert(copy_ok(cs, t, 1));
    assert(copy_ok(cs, t, 2));
    assert(copy_ok(cs, t, 3));
    assert(first_bad_copy(cs, t, 4) is None);
    assert(first_bad_copy(cs, t, 3) is None);
    assert(first_bad_copy(cs, t, 2) is None);
    assert(first_bad_copy(cs, t, 1) is None);
    assert(first_bad_copy(cs, t, 0) is None);
    if public.len() == PUBLIC_ROWS {
        assert(t.exposed@ == synth_exposed(0));
        assert(instance_ok(t, public, 0) == (public[0].val() == x));
        assert(instance_ok(t, public, 1) == (public[1].val() == y));
        assert(instance_ok(t, public, 2) == (public[2].val() == t4));
        assert(first_bad_instance(t, public, 3) is None);
        assert(first_bad_instance(t, public, 2) == if public[2].val() == t4 { None } else { Some(2int) });
        assert(first_bad_instance(t, public, 1) == if public[1].val() != y { Some(1int) } else { first_bad_instance(t, public, 2) });
        assert(first_bad_instance(t, public, 0) == if public[0].val() != x { Some(0int) } else { first_bad_instance(t, public, 1) });
    }
}

/// Lays out the circuit on an empty table and checks it: fails with
/// `ValueUnavailable` when a seed is unknown, with `NotEnoughRows` when the
/// table's rows exceed `2^k`, and otherwise gives the check's verdict.
pub fn run(k: u32, circuit: &MyCircuit, public: &Vec<Fe>) -> (r: Result<(), Error>)
    requires
        opt_wf(circuit.a),
        opt_wf(circuit.b),
        forall|i: int| 0 <= i < public@.len() ==> (#[trigger] public@[i]).wf(),
    ensures
        circuit.a is None || circuit.b is None ==> r == Err::<(), Error>(Error::ValueUnavailable),
        circuit.a is Some && circuit.b is Some ==> {
            let (x, y) = (circuit.a->Some_0.val(), circuit.b->Some_0.val());
            &&& 3 > capacity(k as nat) ==> r == Err::<(), Error>(Error::NotEnoughRows { needed: 3, k })
            &&& 3 <= capacity(k as nat) ==> r == circuit_outcome(x, y, public@)
        },
{
    let mut cs = ConstraintSystem::new();
    let config = MyCircuit::configure(&mut cs);
    let mut table = Table::new();
    let ghost t0 = table;
    match circuit.synthesize(config, &mut table) {
        Ok(()) => {},
        Err(e) => return Err(e),
    }
    if !fits(table.rows.len(), k) {
        return Err(Error::NotEnoughRows { needed: table.rows.len(), k });
    }
    proof {
        assert(cs.equality@ =~= seq![
            Column::Advice(0),
            Column::Advice(1),
            Column::Advice(2),
            Column::Instance(0),
        ]);
        assert(cs.gates@ =~= seq![Gate { selector: 0, a: 0, b: 1, c: 2 }]);
        assert(cs.wf());
        lemma_circuit_outcome(cs, t0, table, circuit.a->Some_0.val(), circuit.b->Some_0.val(), public@);
    }
    check(&cs, &table, public)
}

} // verus!
