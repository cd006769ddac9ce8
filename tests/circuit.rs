use fibosquare::check::{check, fits, run};
use fibosquare::chip::FiboSquareChip;
use fibosquare::circuit::MyCircuit;
use fibosquare::error::{Error, Failure};
use fibosquare::field::Fe;
use fibosquare::table::{Column, ConstraintSystem, Loc, Table};

fn fe(v: u64) -> Fe {
    Fe::from_u64(v)
}

fn circuit(a: u64, b: u64) -> MyCircuit {
    MyCircuit { a: Some(fe(a)), b: Some(fe(b)) }
}

fn laid_out(a: u64, b: u64) -> (ConstraintSystem, Table) {
    let mut cs = ConstraintSystem::new();
    let config = MyCircuit::configure(&mut cs);
    let mut table = Table::new();
    circuit(a, b).synthesize(config, &mut table).unwrap();
    (cs, table)
}

fn public(values: &[u64]) -> Vec<Fe> {
    values.iter().map(|v| fe(*v)).collect()
}

#[test]
fn seeds_one_one_rows_and_public_cells() {
    let (_, table) = laid_out(1, 1);
    assert_eq!(table.rows.len(), 3);
    assert_eq!(table.rows[0].cells, [fe(1), fe(1), fe(2)]);
    assert_eq!(table.rows[1].cells, [fe(1), fe(2), fe(5)]);
    assert_eq!(table.rows[2].cells, [fe(2), fe(5), fe(29)]);
    assert!(table.rows.iter().all(|r| r.enabled));
    let exposed: Vec<(Loc, usize)> = table.exposed.clone();
    assert_eq!(exposed[0], (Loc { column: 0, row: 0 }, 0));
    assert_eq!(exposed[1], (Loc { column: 1, row: 0 }, 1));
    assert_eq!(exposed[2], (Loc { column: 2, row: 2 }, 2));
}

#[test]
fn seeds_one_one_check_passes() {
    assert_eq!(run(4, &circuit(1, 1), &public(&[1, 1, 29])), Ok(()));
}

#[test]
fn seeds_zero_one_check_passes() {
    let (_, table) = laid_out(0, 1);
    assert_eq!(table.rows[2].cells, [fe(1), fe(2), fe(5)]);
    assert_eq!(run(4, &circuit(0, 1), &public(&[0, 1, 5])), Ok(()));
}

#[test]
fn seeds_two_three_rows() {
    let (_, table) = laid_out(2, 3);
    assert_eq!(table.rows[0].cells, [fe(2), fe(3), fe(5)]);
    assert_eq!(table.rows[1].cells, [fe(3), fe(5), fe(34)]);
    assert_eq!(table.rows[2].cells, [fe(5), fe(34), fe(1181)]);
}

#[test]
fn seeds_two_three_seed_row_breaks_gate() {
    let seed_gate = Err(Error::ConstraintUnsatisfied(Failure::Gate { gate: 0, row: 0 }));
    assert_eq!(run(4, &circuit(2, 3), &public(&[2, 3, 1181])), seed_gate);
    assert_eq!(run(4, &circuit(2, 3), &public(&[2, 3, 37805])), seed_gate);
}

#[test]
fn later_rows_meet_gate_and_seed_row_adds() {
    let (_, table) = laid_out(4, 6);
    assert_eq!(table.rows[0].cells, [fe(4), fe(6), fe(10)]);
    assert_eq!(table.rows[1].cells, [fe(6), fe(10), fe(136)]);
    assert_eq!(table.rows[2].cells, [fe(10), fe(136), fe(18596)]);
}

#[test]
fn copies_link_consecutive_rows() {
    let (_, table) = laid_out(2, 3);
    for r in 1..3 {
        assert_eq!(table.rows[r].cells[0], table.rows[r - 1].cells[1]);
        assert_eq!(table.rows[r].cells[1], table.rows[r - 1].cells[2]);
    }
    assert_eq!(table.copies.len(), 4);
    for (x, y) in table.copies.iter() {
        assert_eq!(table.rows[x.row].cells[x.column], table.rows[y.row].cells[y.column]);
    }
}

#[test]
fn public_input_length_mismatch() {
    for values in [&[1u64, 1][..], &[1, 1, 29, 0][..], &[][..]] {
        assert_eq!(
            run(4, &circuit(1, 1), &public(values)),
            Err(Error::PublicInputLengthMismatch { expected: 3, found: values.len() })
        );
    }
}

#[test]
fn tampered_column_c_fails_on_its_row() {
    for row in 0..3 {
        let (cs, mut table) = laid_out(1, 1);
        table.rows[row].cells[2] = fe(30);
        assert_eq!(
            check(&cs, &table, &public(&[1, 1, 29])),
            Err(Error::ConstraintUnsatisfied(Failure::Gate { gate: 0, row }))
        );
    }
}

#[test]
fn wrong_public_output_fails_on_instance() {
    assert_eq!(
        run(4, &circuit(1, 1), &public(&[1, 1, 30])),
        Err(Error::ConstraintUnsatisfied(Failure::Instance { row: 2 }))
    );
    assert_eq!(
        run(4, &circuit(1, 1), &public(&[2, 1, 29])),
        Err(Error::ConstraintUnsatisfied(Failure::Instance { row: 0 }))
    );
}

#[test]
fn copy_on_column_without_equality_fails() {
    let (mut cs, table) = laid_out(1, 1);
    cs.equality.retain(|c| *c != Column::Advice(0));
    assert_eq!(
        check(&cs, &table, &public(&[1, 1, 29])),
        Err(Error::ConstraintUnsatisfied(Failure::Copy { index: 0 }))
    );
}

#[test]
fn missing_witness_is_unavailable() {
    let empty = circuit(1, 1).without_witnesses();
    assert!(empty.a.is_none() && empty.b.is_none());
    assert_eq!(run(4, &empty, &public(&[1, 1, 29])), Err(Error::ValueUnavailable));
    let half = MyCircuit { a: Some(fe(1)), b: None };
    let mut cs = ConstraintSystem::new();
    let config = MyCircuit::configure(&mut cs);
    let mut table = Table::new();
    assert_eq!(half.synthesize(config, &mut table), Err(Error::ValueUnavailable));
    assert_eq!(table.rows.len(), 0);
}

#[test]
fn table_size_parameter() {
    assert_eq!(
        run(1, &circuit(1, 1), &public(&[1, 1, 29])),
        Err(Error::NotEnoughRows { needed: 3, k: 1 })
    );
    assert_eq!(run(2, &circuit(1, 1), &public(&[1, 1, 29])), Ok(()));
    assert!(fits(16, 4));
    assert!(!fits(17, 4));
    assert!(fits(0, 0));
    assert!(fits(1, 0));
    assert!(!fits(2, 0));
    assert!(fits(usize::MAX, 64));
    assert!(!fits(usize::MAX, 63));
    assert!(fits(usize::MAX, u32::MAX));
}

#[test]
fn configure_registers_columns_gate_and_equality() {
    let mut cs = ConstraintSystem::new();
    let config = MyCircuit::configure(&mut cs);
    assert_eq!(config.advice, [0, 1, 2]);
    assert_eq!(config.selector, 0);
    assert_eq!(config.instance, 0);
    assert_eq!((cs.num_advice, cs.num_selectors, cs.num_instance), (3, 1, 1));
    assert_eq!(
        cs.equality,
        vec![Column::Advice(0), Column::Advice(1), Column::Advice(2), Column::Instance(0)]
    );
    assert_eq!(cs.gates.len(), 1);
    assert_eq!((cs.gates[0].a, cs.gates[0].b, cs.gates[0].c), (0, 1, 2));
}

#[test]
fn expose_public_out_of_range() {
    let mut cs = ConstraintSystem::new();
    let chip = FiboSquareChip::construct(MyCircuit::configure(&mut cs));
    let mut table = Table::new();
    let (a, _, _) = chip.assign_first_row(&mut table, Some(fe(1)), Some(fe(1))).unwrap();
    assert_eq!(
        chip.expose_public(&mut table, &a, 3),
        Err(Error::InstanceRowOutOfRange { row: 3 })
    );
    assert_eq!(table.exposed.len(), 0);
    assert_eq!(chip.expose_public(&mut table, &a, 2), Ok(()));
    assert_eq!(table.exposed, vec![(Loc { column: 0, row: 0 }, 2)]);
}

#[test]
fn field_elements_from_integers() {
    assert_eq!(fe(7), fe(7));
    assert_ne!(fe(7), fe(8));
    assert_ne!(fe(u64::MAX), fe(0));
}
