use vstd::prelude::*;
use crate::error::Error;
use crate::field::{fadd, fsq, Fe};
use crate::table::{ACell, Column, ConstraintSystem, Gate, Loc, Row, Table, PUBLIC_ROWS};

verus! {

/// The handles of the circuit's columns and selector.
#[derive(Clone, Copy, Debug, PartialEq, Eq)]
pub struct FiboSquareConfig {
    pub advice: [usize; 3],
    pub selector: usize,
    pub instance: usize,
}

impl FiboSquareConfig {
    /// The three advice columns are the table's columns, in order.
    pub open spec fn wf(&self) -> bool {
        self.advice@ == seq![0usize, 1usize, 2usize]
    }
}

/// A value that is either unknown or a canonical field element.
pub open spec fn opt_wf(v: Option<Fe>) -> bool {
    v matches Some(x) ==> x.wf()
}

/// The row that a region of one row appends: its three values, selector on.
pub open spec fn appended(old_t: Table, new_t: Table, x: Fe, y: Fe, z: Fe) -> bool {
    let n = old_t.rows@.len();
    &&& new_t.rows@.len() == n + 1
    &&& new_t.rows@.subrange(0, n as int) == old_t.rows@
    &&& new_t.rows@[n as int].cells@ == seq![x, y, z]
    &&& new_t.rows@[n as int].enabled
}

/// The chip that configures the sum-of-squares gate and fills its rows.
pub struct FiboSquareChip {
    pub config: FiboSquareConfig,
}

impl FiboSquareChip {
    pub fn construct(config: FiboSquareConfig) -> (r: Self)
        ensures
            r.config == config,
    {
        FiboSquareChip { config }
    }

    /// Allocates the selector and the instance column, enables equality on
    /// the three advice columns and the instance column, and registers the
    /// gate `s * (a^2 + b^2 - c)`.
    pub fn configure(meta: &mut ConstraintSystem, advice: [usize; 3]) -> (r: FiboSquareConfig)
        requires
            old(meta).num_selectors < usize::MAX,
            old(meta).num_instance < usize::MAX,
        ensures
            r.advice == advice,
            r.selector == old(meta).num_selectors,
            r.instance == old(meta).num_instance,
            final(meta).num_selectors == old(meta).num_selectors + 1,
            final(meta).num_instance == old(meta).num_instance + 1,
            final(meta).num_advice == old(meta).num_advice,
            final(meta).equality@ == old(meta).equality@ + seq![
                Column::Advice(advice[0]),
                Column::Advice(advice[1]),
                Column::Advice(advice[2]),
                Column::Instance(r.instance),
            ],
            final(meta).gates@ == old(meta).gates@.push(
                Gate { selector: r.selector, a: advice[0], b: advice[1], c: advice[2] },
            ),
    {
        let col_a = advice[0];
        let col_b = advice[1];
        let col_c = advice[2];
        let selector = meta.selector();
        let instance = meta.instance_column();

        meta.enable_equality(Column::Advice(col_a));
        meta.enable_equality(Column::Advice(col_b));
        meta.enable_equality(Column::Advice(col_c));
        meta.enable_equality(Column::Instance(instance));

        meta.create_gate(Gate { selector, a: col_a, b: col_b, c: col_c });

        FiboSquareConfig { advice: [col_a, col_b, col_c], selector, instance }
    }

    /// Opens a region of one row with the selector on, holding `a`, `b` and
    /// `a + b`. Fails with `ValueUnavailable`, leaving the table as it was,
    /// when `a` or `b` is unknown.
    ///
    /// The seed row adds where every later row squares, yet its selector is
    /// on: the check accepts it only for seeds with `a^2 + b^2 = a + b`.
    pub fn assign_first_row(&self, layouter: &mut Table, a: Option<Fe>, b: Option<Fe>) -> (r:
        Result<(ACell, ACell, ACell), Error>)
        requires
            self.config.wf(),
            opt_wf(a),
            opt_wf(b),
            old(layouter).wf(),
            old(layouter).rows@.len() < usize::MAX,
        ensures
            a is None || b is None ==> r == Err::<(ACell, ACell, ACell), Error>(
                Error::ValueUnavailable,
            ) && *final(layouter) == *old(layouter),
            a is Some && b is Some ==> {
                let (x, y) = (a->Some_0, b->Some_0);
                let n = old(layouter).rows@.len() as usize;
                &&& r matches Ok((ca, cb, cc))
                &&& ca == (ACell { loc: Loc { column: 0, row: n }, value: x })
                &&& cb == (ACell { loc: Loc { column: 1, row: n }, value: y })
                &&& cc.loc == (Loc { column: 2, row: n })
                &&& cc.value.val() == fadd(x.val(), y.val())
                &&& appended(*old(layouter), *final(layouter), x, y, cc.value)
                &&& final(layouter).copies@ == old(layouter).copies@
                &&& final(layouter).exposed@ == old(layouter).exposed@
                &&& final(layouter).wf()
            },
    {
        let x = match a {
            Some(x) => x,
            None => return Err(Error::ValueUnavailable),
        };
        let y = match b {
            Some(y) => y,
            None => return Err(Error::ValueUnavailable),
        };
        let z = x.add(&y);
        let n = layouter.rows.len();
        layouter.rows.push(Row { cells: [x, y, z], enabled: true });
        let ca = ACell { loc: Loc { column: 0, row: n }, value: x };
        let cb = ACell { loc: Loc { column: 1, row: n }, value: y };
        let cc = ACell { loc: Loc { column: 2, row: n }, value: z };
        proof {
            assert(layouter.rows@.subrange(0, n as int) =~= old(layouter).rows@);
            assert(layouter.rows@[n as int].cells@ =~= seq![x, y, z]);
        }
        Ok((ca, cb, cc))
    }

    /// Opens a region of one row with the selector on: copies `prev_b` into
    /// column a and `prev_c` into column b, constraining each copy to equal
    /// its source, and puts `prev_b^2 + prev_c^2` into column c. Returns the
    /// new c cell.
    pub fn assign_row(&self, layouter: &mut Table, prev_b: &ACell, prev_c: &ACell) -> (r: Result<
        ACell,
        Error,
    >)
        requires
            self.config.wf(),
            old(layouter).wf(),
            old(layouter).holds(*prev_b),
            old(layouter).holds(*prev_c),
            old(layouter).rows@.len() < usize::MAX,
        ensures
            ({
                let n = old(layouter).rows@.len() as usize;
                &&& r matches Ok(cc)
                &&& cc.loc == (Loc { column: 2, row: n })
                &&& cc.value.val() == fadd(fsq(prev_b.value.val()), fsq(prev_c.value.val()))
                &&& appended(*old(layouter), *final(layouter), prev_b.value, prev_c.value, cc.value)
                &&& final(layouter).copies@ == old(layouter).copies@.push(
                    (prev_b.loc, Loc { column: 0, row: n }),
                ).push((prev_c.loc, Loc { column: 1, row: n }))
                &&& final(layouter).exposed@ == old(layouter).exposed@
                &&& final(layouter).wf()
            }),
    {
        let n = layouter.rows.len();
        let x = prev_b.value;
        let y = prev_c.value;
        let z = x.square().add(&y.square());
        layouter.rows.push(Row { cells: [x, y, z], enabled: true });
        layouter.copies.push((prev_b.loc, Loc { column: 0, row: n }));
        layouter.copies.push((prev_c.loc, Loc { column: 1, row: n }));
        proof {
            assert(layouter.rows@.subrange(0, n as int) =~= old(layouter).rows@);
            assert(layouter.rows@[n as int].cells@ =~= seq![x, y, z]);
        }
        Ok(ACell { loc: Loc { column: 2, row: n }, value: z })
    }

    /// Binds `cell` to row `row` of the instance column. Fails with
    /// `InstanceRowOutOfRange`, leaving the table as it was, when the
    /// instance column has no such row.
    pub fn expose_public(&self, layouter: &mut Table, cell: &ACell, row: usize) -> (r: Result<
        (),
        Error,
    >)
        requires
            old(layouter).wf(),
            old(layouter).in_range(cell.loc),
        ensures
            row >= PUBLIC_ROWS ==> r == Err::<(), Error>(Error::InstanceRowOutOfRange { row })
                && *final(layouter) == *old(layouter),
            row < PUBLIC_ROWS ==> r is Ok && final(layouter).rows@ == old(layouter).rows@
                && final(layouter).copies@ == old(layouter).copies@ && final(layouter).exposed@
                == old(layouter).exposed@.push((cell.loc, row)),
            final(layouter).wf(),
    {
        if row >= PUBLIC_ROWS {
            return Err(Error::InstanceRowOutOfRange { row });
        }
        layouter.exposed.push((cell.loc, row));
        Ok(())
    }
}

} // verus!
