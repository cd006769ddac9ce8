use vstd::prelude::*;
use crate::check::{
    check_result, circuit_system, empty_table, first_bad_gate, first_bad_row, gate_ok,
    seed_row_ok,
};
use crate::circuit::{row_is, synth_copies, synthesized, term};
use crate::error::{Error, Failure};
use crate::field::{fadd, fsq, Fe};
use crate::table::{ConstraintSystem, Loc, Table, PUBLIC_ROWS};

verus! {

/// The cells that a synthesis binds to the instance column hold the seeds
/// `a` and `b` and the fourth term, in that order, where the second term is
/// `a + b` and each later term is the sum of the squares of the two before.
pub proof fn lemma_public_cells(t0: Table, t: Table, a: nat, b: nat)
    requires
        synthesized(t0, t, a, b),
    ensures
        term(a, b, 2) == fadd(a, b),
        term(a, b, 3) == fadd(fsq(b), fsq(term(a, b, 2))),
        term(a, b, 4) == fadd(fsq(term(a, b, 2)), fsq(term(a, b, 3))),
        forall|k: int|
            0 <= k < 3 ==> {
                let (l, row) = #[trigger] t.exposed@[t0.exposed@.len() + k];
                row == k && t.value_at(l) == seq![a, b, term(a, b, 4)][k]
            },
{
    let n = t0.rows@.len() as int;
    let m = t0.exposed@.len() as int;
    assert(row_is(t.rows@[n + 0], term(a, b, 0), term(a, b, 1), term(a, b, 2)));
    assert(row_is(t.rows@[n + 2], term(a, b, 2), term(a, b, 3), term(a, b, 4)));
    assert(t.exposed@[m + 0] == (Loc { column: 0, row: n as usize }, 0usize));
    assert(t.exposed@[m + 1] == (Loc { column: 1, row: n as usize }, 1usize));
    assert(t.exposed@[m + 2] == (Loc { column: 2, row: (n + 2) as usize }, 2usize));
}

/// The seed row of a synthesis holds `a + b` in column c, and every later
/// row holds the sum of the squares of its columns a and b there.
pub proof fn lemma_rows_follow_recurrence(t0: Table, t: Table, a: nat, b: nat)
    requires
        synthesized(t0, t, a, b),
    ensures
        ({
            let n = t0.rows@.len() as usize;
            fadd(t.value_at(Loc { column: 0, row: n }), t.value_at(Loc { column: 1, row: n }))
                == t.value_at(Loc { column: 2, row: n })
        }),
        forall|r: usize|
            t0.rows@.len() + 1 <= r < t0.rows@.len() + 3 ==> fadd(
                fsq(t.value_at(Loc { column: 0, row: r })),
                fsq(t.value_at(Loc { column: 1, row: r })),
            ) == #[trigger] t.value_at(Loc { column: 2, row: r }),
{
    let n = t0.rows@.len() as int;
    assert(row_is(t.rows@[n + 0], term(a, b, 0), term(a, b, 1), term(a, b, 2)));
    assert(row_is(t.rows@[n + 1], term(a, b, 1), term(a, b, 2), term(a, b, 3)));
    assert(row_is(t.rows@[n + 2], term(a, b, 2), term(a, b, 3), term(a, b, 4)));
}

/// In a synthesis, each row after the seed row holds in column a the
/// previous row's column b and in column b the previous row's column c, and
/// every copy constraint that it added joins cells of equal value.
pub proof fn lemma_copies_link_rows(t0: Table, t: Table, a: nat, b: nat)
    requires
        synthesized(t0, t, a, b),
    ensures
        forall|r: usize|
            t0.rows@.len() + 1 <= r < t0.rows@.len() + 3 ==> {
                &&& #[trigger] t.value_at(Loc { column: 0, row: r }) == t.value_at(
                    Loc { column: 1, row: (r - 1) as usize },
                )
                &&& t.value_at(Loc { column: 1, row: r }) == t.value_at(
                    Loc { column: 2, row: (r - 1) as usize },
                )
            },
        forall|j: int|
            t0.copies@.len() <= j < t.copies@.len() ==> t.value_at((#[trigger] t.copies@[j]).0)
                == t.value_at(t.copies@[j].1),
{
    let n = t0.rows@.len() as int;
    let c = t0.copies@.len() as int;
    assert(row_is(t.rows@[n + 0], term(a, b, 0), term(a, b, 1), term(a, b, 2)));
    assert(row_is(t.rows@[n + 1], term(a, b, 1), term(a, b, 2), term(a, b, 3)));
    assert(row_is(t.rows@[n + 2], term(a, b, 2), term(a, b, 3), term(a, b, 4)));
    assert(t.copies@[c + 0] == synth_copies(n as usize)[0]);
    assert(t.copies@[c + 1] == synth_copies(n as usize)[1]);
    assert(t.copies@[c + 2] == synth_copies(n as usize)[2]);
    assert(t.copies@[c + 3] == synth_copies(n as usize)[3]);
}

/// Replacing column c of one row of the circuit's table by a value that
/// breaks that row's gate makes the check fail on that very row, when the
/// public inputs number three and every earlier row satisfies its gate.
pub proof fn lemma_tampered_row_rejected(
    cs: ConstraintSystem,
    t0: Table,
    t: Table,
    tampered: Table,
    a: nat,
    b: nat,
    i: int,
    public: Seq<Fe>,
)
    requires
        circuit_system(cs),
        empty_table(t0),
        synthesized(t0, t, a, b),
        0 <= i < 3,
        i == 0 || seed_row_ok(a, b),
        public.len() == PUBLIC_ROWS,
        tampered.rows@.len() == t.rows@.len(),
        forall|j: int| 0 <= j < 3 && j != i ==> #[trigger] tampered.rows@[j] == t.rows@[j],
        tampered.rows@[i].enabled == t.rows@[i].enabled,
        tampered.rows@[i].cells@[0] == t.rows@[i].cells@[0],
        tampered.rows@[i].cells@[1] == t.rows@[i].cells@[1],
        tampered.rows@[i].cells@[2].val() != fadd(
            fsq(t.rows@[i].cells@[0].val()),
            fsq(t.rows@[i].cells@[1].val()),
        ),
    ensures
        check_result(cs, tampered, public) == Err::<(), Error>(
            Error::ConstraintUnsatisfied(Failure::Gate { gate: 0, row: i as usize }),
        ),
{
    assert(row_is(t.rows@[0int + 0], term(a, b, 0), term(a, b, 1), term(a, b, 2)));
    assert(row_is(t.rows@[0int + 1], term(a, b, 1), term(a, b, 2), term(a, b, 3)));
    assert(row_is(t.rows@[0int + 2], term(a, b, 2), term(a, b, 3), term(a, b, 4)));
    assert(!gate_ok(cs, tampered, 0, i));
    assert(first_bad_row(cs, tampered, 0, i) == Some(i));
    if i >= 1 {
        assert(tampered.rows@[0] == t.rows@[0]);
        assert(gate_ok(cs, tampered, 0, 0));
    }
    if i == 2 {
        assert(tampered.rows@[1] == t.rows@[1]);
        assert(gate_ok(cs, tampered, 0, 1));
        assert(first_bad_row(cs, tampered, 0, 1) == Some(i));
    }
    assert(first_bad_row(cs, tampered, 0, 0) == Some(i));
    assert(first_bad_gate(cs, tampered, 0) == Some((0int, i)));
}

} // verus!
