use vstd::prelude::*;
use crate::chip::{opt_wf, FiboSquareChip, FiboSquareConfig};
use crate::error::Error;
use crate::field::{fadd, fsq, Fe};
use crate::table::{Column, ConstraintSystem, Gate, Loc, Row, Table};

verus! {

/// The sequence that the circuit lays out: `a`, `b`, `a + b`, and from then
/// on the sum of the squares of the two terms before.
pub open spec fn term(a: nat, b: nat, n: nat) -> nat
    decreases n,
{
    if n == 0 {
        a
    } else if n == 1 {
        b
    } else if n == 2 {
        fadd(a, b)
    } else {
        fadd(fsq(term(a, b, (n - 2) as nat)), fsq(term(a, b, (n - 1) as nat)))
    }
}

/// The row holds the values `x`, `y`, `z` with its selector on.
pub open spec fn row_is(row: Row, x: nat, y: nat, z: nat) -> bool {
    &&& row.enabled
    &&& row.cells@[0].val() == x
    &&& row.cells@[1].val() == y
    &&& row.cells@[2].val() == z
}

/// The copy constraints of a synthesis whose first row is `n`.
pub open spec fn synth_copies(n: usize) -> Seq<(Loc, Loc)> {
    seq![
        (Loc { column: 1, row: n }, Loc { column: 0, row: (n + 1) as usize }),
        (Loc { column: 2, row: n }, Loc { column: 1, row: (n + 1) as usize }),
        (Loc { column: 2, row: n }, Loc { column: 0, row: (n + 2) as usize }),
        (Loc { column: 2, row: (n + 1) as usize }, Loc { column: 1, row: (n + 2) as usize }),
    ]
}

/// The cells that a synthesis whose first row is `n` binds to the instance
/// column: the two seeds and the last term.
pub open spec fn synth_exposed(n: usize) -> Seq<(Loc, usize)> {
    seq![
        (Loc { column: 0, row: n }, 0usize),
        (Loc { column: 1, row: n }, 1usize),
        (Loc { column: 2, row: (n + 2) as usize }, 2usize),
    ]
}

/// `new_t` is `old_t` with the three rows of the sequence from seeds `a`
/// and `b` appended: `row n + i` holds terms `i`, `i + 1`, `i + 2`.
pub open spec fn synthesized(old_t: Table, new_t: Table, a: nat, b: nat) -> bool {
    let n = old_t.rows@.len();
    &&& new_t.rows@.len() == n + 3
    &&& new_t.rows@.len() < usize::MAX
    &&& new_t.rows@.subrange(0, n as int) == old_t.rows@
    &&& forall|i: int|
        0 <= i < 3 ==> row_is(
            #[trigger] new_t.rows@[n + i],
            term(a, b, i as nat),
            term(a, b, (i + 1) as nat),
            term(a, b, (i + 2) as nat),
        )
    &&& new_t.copies@ == old_t.copies@ + synth_copies(n as usize)
    &&& new_t.exposed@ == old_t.exposed@ + synth_exposed(n as usize)
    &&& new_t.wf()
}

/// The circuit for one pair of seeds; `None` stands for an unknown value.
pub struct MyCircuit {
    pub a: Option<Fe>,
    pub b: Option<Fe>,
}

impl MyCircuit {
    /// The same circuit with no witness values.
    pub fn without_witnesses(&self) -> (r: Self)
        ensures
            r.a is None,
            r.b is None,
    {
        MyCircuit { a: None, b: None }
    }

    /// Allocates three advice columns and configures the chip on them.
    pub fn configure(meta: &mut ConstraintSystem) -> (r: FiboSquareConfig)
        requires
            old(meta).num_advice < usize::MAX - 3,
            old(meta).num_selectors < usize::MAX,
            old(meta).num_instance < usize::MAX,
        ensures
            r.advice@ == seq![
                old(meta).num_advice,
                (old(meta).num_advice + 1) as usize,
                (old(meta).num_advice + 2) as usize,
            ],
            r.selector == old(meta).num_selectors,
            r.instance == old(meta).num_instance,
            final(meta).num_advice == old(meta).num_advice + 3,
            final(meta).num_selectors == old(meta).num_selectors + 1,
            final(meta).num_instance == old(meta).num_instance + 1,
            final(meta).equality@ == old(meta).equality@ + seq![
                Column::Advice(r.advice[0]),
                Column::Advice(r.advice[1]),
                Column::Advice(r.advice[2]),
                Column::Instance(r.instance),
            ],
            final(meta).gates@ == old(meta).gates@.push(
                Gate {
                    selector: r.selector,
                    a: r.advice[0],
                    b: r.advice[1],
                    c: r.advice[2],
                },
            ),
    {
        let col_a = meta.advice_column();
        let col_b = meta.advice_column();
        let col_c = meta.advice_column();
        let r = FiboSquareChip::configure(meta, [col_a, col_b, col_c]);
        proof {
            assert(r.advice@ =~= seq![col_a, col_b, col_c]);
        }
        r
    }

    /// Lays out the seed row, binds the two seeds to public rows 0 and 1,
    /// takes two steps of the recurrence, each on the last two cells, and
    /// binds the last cell to public row 2. Fails with `ValueUnavailable`,
    /// leaving the table as it was, when a seed is unknown.
    pub fn synthesize(&self, config: FiboSquareConfig, layouter: &mut Table) -> (r: Result<
        (),
        Error,
    >)
        requires
            config.wf(),
            opt_wf(self.a),
            opt_wf(self.b),
            old(layouter).wf(),
            old(layouter).rows@.len() + 3 < usize::MAX,
        ensures
            self.a is None || self.b is None ==> r == Err::<(), Error>(Error::ValueUnavailable)
                && *final(layouter) == *old(layouter),
            self.a is Some && self.b is Some ==> r is Ok && synthesized(
                *old(layouter),
                *final(layouter),
                self.a->Some_0.val(),
                self.b->Some_0.val(),
            ),
    {
        let chip = FiboSquareChip::construct(config);
        let ghost t0 = *layouter;
        let ghost n = layouter.rows@.len() as usize;
        let (prev_a, mut prev_b, mut prev_c) = match chip.assign_first_row(
            layouter,
            self.a,
            self.b,
        ) {
            Ok(cells) => cells,
            Err(e) => return Err(e),
        };
        let ghost (a, b) = (self.a->Some_0.val(), self.b->Some_0.val());
        let ghost t1 = *layouter;
        if let Err(e) = chip.expose_public(layouter, &prev_a, 0) {
            return Err(e);
        }
        if let Err(e) = chip.expose_public(layouter, &prev_b, 1) {
            return Err(e);
        }
        assert(layouter.rows@ == t1.rows@);

        let mut i: usize = 3;
        while i < 5
            invariant
                3 <= i <= 5,
                config.wf(),
                chip.config == config,
                layouter.wf(),
                layouter.rows@.len() == n + i - 2,
                layouter.rows@.subrange(0, n as int) == t0.rows@,
                forall|j: int|
                    0 <= j < i - 2 ==> row_is(
                        #[trigger] layouter.rows@[n + j],
                        term(a, b, j as nat),
                        term(a, b, (j + 1) as nat),
                        term(a, b, (j + 2) as nat),
                    ),
                layouter.holds(prev_b),
                layouter.holds(prev_c),
                prev_b.value.val() == term(a, b, (i - 2) as nat),
                prev_c.value.val() == term(a, b, (i - 1) as nat),
                prev_c.loc == (Loc { column: 2, row: (n + i - 3) as usize }),
                i == 3 ==> prev_b.loc == (Loc { column: 1, row: n }),
                i > 3 ==> prev_b.loc == (Loc { column: 2, row: (n + i - 4) as usize }),
                layouter.copies@ == t0.copies@ + synth_copies(n).take(2 * (i - 3)),
                layouter.exposed@ == t0.exposed@ + synth_exposed(n).take(2),
                n + 3 < usize::MAX,
            decreases 5 - i,
        {
            let ghost before = *layouter;
            let c_cell = match chip.assign_row(layouter, &prev_b, &prev_c) {
                Ok(c) => c,
                Err(e) => return Err(e),
            };
            proof {
                assert(layouter.rows@.subrange(0, n as int) =~= before.rows@.subrange(
                    0,
                    n as int,
                ));
                assert forall|j: int| 0 <= j < i - 1 implies row_is(
                    #[trigger] layouter.rows@[n + j],
                    term(a, b, j as nat),
                    term(a, b, (j + 1) as nat),
                    term(a, b, (j + 2) as nat),
                ) by {
                    if j < i - 2 {
                        assert(layouter.rows@[n + j] == before.rows@.subrange(
                            0,
                            before.rows@.len() as int,
                        )[n + j]);
                    }
                }
                assert(layouter.copies@ =~= t0.copies@ + synth_copies(n).take(2 * (i - 2)));
            }
            prev_b = prev_c;
            prev_c = c_cell;
            i = i + 1;
        }
        if let Err(e) = chip.expose_public(layouter, &prev_c, 2) {
            return Err(e);
        }
        proof {
            assert(layouter.copies@ =~= t0.copies@ + synth_copies(n));
            assert(layouter.exposed@ =~= t0.exposed@ + synth_exposed(n));
        }
        Ok(())
    }
}

} // verus!
