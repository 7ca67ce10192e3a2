use rand::Rng;
use rand::SeedableRng;
use vendek::scalar::Scalar;
use vendek::world::{
    cell_draw_order, phase_draw_order, range_of, GenStep, HoneycombCell, HoneycombWorld, Quantity,
    VendekPhase, WorldError, WorldGenerator, CELL_RECORD_BYTES, CELL_RECORD_WORDS,
    CHANNEL_HIGH_BITS, CHANNEL_LOW_BITS, PHASE_RECORD_BYTES, PHASE_RECORD_WORDS,
};

fn s(x: f32) -> Scalar {
    Scalar::from_bits(x.to_bits())
}

fn draw(generator: &mut WorldGenerator, quantity: Quantity) -> Scalar {
    let range = range_of(quantity);
    let low = f32::from_bits(range.low.bits);
    let high = f32::from_bits(range.high.bits);
    s(generator.rng.gen_range(low..high))
}

fn colour() -> [Scalar; 4] {
    [s(0.9), s(0.27), s(0.5), s(0.05)]
}

fn scatter() -> [Scalar; 4] {
    [s(0.1), s(0.5), s(0.999), s(1.0)]
}

fn membrane() -> [Scalar; 4] {
    [s(2.5), s(0.05), s(0.25), s(0.5)]
}

fn origin() -> [Scalar; 3] {
    [s(0.0); 3]
}

/// The colour of a hue at the given saturation and value.
fn hsv_to_rgb(h: f32, s: f32, v: f32) -> (f32, f32, f32) {
    let i = (h * 6.0).floor() as i32;
    let f = h * 6.0 - i as f32;
    let p = v * (1.0 - s);
    let q = v * (1.0 - f * s);
    let t = v * (1.0 - (1.0 - f) * s);
    match i % 6 {
        0 => (v, t, p),
        1 => (q, v, p),
        2 => (p, v, t),
        3 => (p, q, v),
        4 => (t, p, v),
        _ => (v, p, q),
    }
}

/// Runs a generator to its end, drawing every scalar from its stream in the
/// order the library gives.
fn run(seed: u64, cell_count: usize, phase_count: usize) -> Result<HoneycombWorld, WorldError> {
    let mut generator = HoneycombWorld::generate(seed, cell_count, phase_count)?;
    loop {
        match generator.next_step() {
            GenStep::Phase(index) => {
                let hue = index as f32 / generator.phase_count() as f32;
                let (r, g, b) = hsv_to_rgb(hue, 0.7, 0.9);
                let drawn = phase_draw_order().map(|quantity| draw(&mut generator, quantity));
                generator.add_drawn_phase([s(r), s(g), s(b)], drawn)?;
            }
            GenStep::Cell(_) => {
                let position = cell_draw_order().map(|quantity| draw(&mut generator, quantity));
                generator.add_cell(position)?;
            }
            GenStep::Done => return generator.finish(),
        }
    }
}

fn same_world(a: &HoneycombWorld, b: &HoneycombWorld) -> bool {
    a.phase_words() == b.phase_words() && a.cell_words() == b.cell_words()
}

#[test]
fn record_sizes_are_sixteen_and_four_words() {
    assert_eq!(PHASE_RECORD_WORDS, 16);
    assert_eq!(PHASE_RECORD_BYTES, 64);
    assert_eq!(CELL_RECORD_WORDS, 4);
    assert_eq!(CELL_RECORD_BYTES, 16);
}

#[test]
fn cells_without_phases_are_refused() {
    assert_eq!(HoneycombWorld::generate(42, 1, 0).err(), Some(WorldError::NoPhases));
    assert_eq!(HoneycombWorld::generate(42, 128, 0).err(), Some(WorldError::NoPhases));
}

#[test]
fn empty_worlds_are_legal() {
    let world = run(42, 0, 0).unwrap();
    assert!(world.phases.is_empty());
    assert!(world.cells.is_empty());
    let world = run(42, 0, 5).unwrap();
    assert_eq!(world.phases.len(), 5);
    assert!(world.cells.is_empty());
    assert!(world.phase_bytes().len() == 5 * 64);
    assert!(world.cell_bytes().is_empty());
}

#[test]
fn more_phases_than_an_index_can_name_are_refused() {
    if usize::BITS > 32 {
        let too_many = u32::MAX as usize + 1;
        assert_eq!(HoneycombWorld::generate(1, 0, too_many).err(), Some(WorldError::TooManyPhases));
        assert_eq!(HoneycombWorld::generate(1, 7, too_many).err(), Some(WorldError::TooManyPhases));
    }
    assert!(HoneycombWorld::generate(1, 0, u32::MAX as usize).is_ok());
}

#[test]
fn phases_are_asked_for_in_index_order_then_cells() {
    let mut generator = HoneycombWorld::generate(7, 2, 3).unwrap();
    assert_eq!(generator.phase_count(), 3);
    assert_eq!(generator.cell_count(), 2);
    for expected in 0..3u32 {
        assert_eq!(generator.next_step(), GenStep::Phase(expected));
        assert_eq!(generator.add_phase(colour(), scatter(), membrane()), Ok(()));
    }
    for expected in 0..2usize {
        assert_eq!(generator.next_step(), GenStep::Cell(expected));
        assert_eq!(generator.add_cell(origin()), Ok(()));
    }
    assert_eq!(generator.next_step(), GenStep::Done);
    let world = generator.finish().unwrap();
    assert_eq!(world.phases.len(), 3);
    assert_eq!(world.cells.len(), 2);
}

#[test]
fn steps_out_of_turn_are_refused_and_change_nothing() {
    let mut generator = HoneycombWorld::generate(7, 1, 1).unwrap();
    assert_eq!(generator.add_cell(origin()), Err(WorldError::OutOfTurn));
    assert_eq!(generator.place_cell(origin(), 0), Err(WorldError::OutOfTurn));
    assert_eq!(generator.next_step(), GenStep::Phase(0));
    assert_eq!(generator.add_phase(colour(), scatter(), membrane()), Ok(()));
    assert_eq!(generator.add_phase(colour(), scatter(), membrane()), Err(WorldError::OutOfTurn));
    assert_eq!(generator.next_step(), GenStep::Cell(0));
    assert_eq!(generator.add_cell(origin()), Ok(()));
    assert_eq!(generator.add_cell(origin()), Err(WorldError::OutOfTurn));
    assert_eq!(generator.add_phase(colour(), scatter(), membrane()), Err(WorldError::OutOfTurn));
    assert_eq!(generator.next_step(), GenStep::Done);
    let world = generator.finish().unwrap();
    assert_eq!(world.phases.len(), 1);
    assert_eq!(world.cells.len(), 1);
}

#[test]
fn an_unfinished_world_is_not_handed_out() {
    let generator = HoneycombWorld::generate(7, 1, 1).unwrap();
    assert_eq!(generator.finish().err(), Some(WorldError::OutOfTurn));
    let mut generator = HoneycombWorld::generate(7, 1, 1).unwrap();
    generator.add_phase(colour(), scatter(), membrane()).unwrap();
    assert_eq!(generator.finish().err(), Some(WorldError::OutOfTurn));
}

#[test]
fn a_cell_is_placed_with_an_existing_phase_only() {
    let mut generator = HoneycombWorld::generate(7, 2, 2).unwrap();
    generator.add_phase(colour(), scatter(), membrane()).unwrap();
    generator.add_phase(colour(), scatter(), membrane()).unwrap();
    assert_eq!(generator.place_cell(origin(), 2), Err(WorldError::UnknownPhase));
    assert_eq!(generator.place_cell(origin(), u32::MAX), Err(WorldError::UnknownPhase));
    assert_eq!(generator.next_step(), GenStep::Cell(0));
    assert_eq!(generator.place_cell([s(1.0), s(2.0), s(3.0)], 1), Ok(()));
    assert_eq!(generator.place_cell([s(4.0), s(5.0), s(6.0)], 0), Ok(()));
    let world = generator.finish().unwrap();
    assert_eq!(world.cells[0].phase_index, 1);
    assert_eq!(world.cells[1].phase_index, 0);
    assert_eq!(f32::from_bits(world.cells[1].position[2].bits), 6.0);
}

#[test]
fn drawn_phases_exist_even_when_there_is_only_one() {
    let world = run(3, 50, 1).unwrap();
    for cell in &world.cells {
        assert_eq!(cell.phase_index, 0);
    }
    let world = run(3, 500, 7).unwrap();
    let mut seen = [false; 7];
    for cell in &world.cells {
        assert!(cell.phase_index < 7);
        seen[cell.phase_index as usize] = true;
    }
    assert!(seen.iter().all(|s| *s), "500 draws reach every one of 7 phases");
}

#[test]
fn generated_worlds_keep_their_references_intact() {
    for (seed, cells, phases) in [(42u64, 128usize, 12usize), (0, 1, 1), (9, 300, 2)] {
        let world = run(seed, cells, phases).unwrap();
        assert_eq!(world.phases.len(), phases);
        assert_eq!(world.cells.len(), cells);
        for (i, phase) in world.phases.iter().enumerate() {
            assert_eq!(phase.phase_id as usize, i);
        }
        for cell in &world.cells {
            assert!((cell.phase_index as usize) < phases);
        }
    }
}

#[test]
fn the_same_seed_gives_the_same_world() {
    let a = run(42, 128, 12).unwrap();
    let b = run(42, 128, 12).unwrap();
    assert!(same_world(&a, &b));
    let c = run(43, 128, 12).unwrap();
    assert!(!same_world(&a, &c));
}

#[test]
fn the_stream_is_the_seeded_chacha_stream() {
    let mut reference = rand_chacha::ChaCha8Rng::seed_from_u64(42);
    let mut generator = HoneycombWorld::generate(42, 3, 4).unwrap();
    for _ in 0..4 {
        generator.add_phase(colour(), scatter(), membrane()).unwrap();
    }
    for _ in 0..3 {
        generator.add_cell(origin()).unwrap();
    }
    let world = generator.finish().unwrap();
    for cell in &world.cells {
        let expected: u32 = reference.gen_range(0..4);
        assert_eq!(cell.phase_index, expected);
    }
}

#[test]
fn phase_records_hold_three_blocks_the_identity_and_padding() {
    let phase = VendekPhase {
        color_density: [s(0.1), s(0.2), s(0.3), s(0.05)],
        scattering: [s(0.4), s(0.5), s(0.6), s(1.5)],
        membrane_params: [s(2.0), s(0.05), s(0.25), s(0.75)],
        phase_id: 9,
    };
    let mut words = vec![1u32];
    phase.write_words(&mut words);
    assert_eq!(words.len(), 17);
    let expected = [
        0.1f32, 0.2, 0.3, 0.05, 0.4, 0.5, 0.6, 1.5, 2.0, 0.05, 0.25, 0.75,
    ];
    assert_eq!(words[0], 1);
    for (k, x) in expected.iter().enumerate() {
        assert_eq!(f32::from_bits(words[1 + k]), *x);
    }
    assert_eq!(&words[13..], &[9, 0, 0, 0]);
}

#[test]
fn cell_records_hold_the_position_and_the_phase() {
    let cell = HoneycombCell { position: [s(-1.0), s(2.0), s(-3.0)], phase_index: 4 };
    let mut words = Vec::new();
    cell.write_words(&mut words);
    assert_eq!(words, vec![(-1.0f32).to_bits(), 2.0f32.to_bits(), (-3.0f32).to_bits(), 4]);
}

#[test]
fn storage_buffers_hold_one_record_per_element_in_order() {
    let world = run(5, 10, 3).unwrap();
    let phase_words = world.phase_words();
    let cell_words = world.cell_words();
    assert_eq!(phase_words.len(), 3 * 16);
    assert_eq!(cell_words.len(), 10 * 4);
    for (i, phase) in world.phases.iter().enumerate() {
        let mut record = Vec::new();
        phase.write_words(&mut record);
        assert_eq!(&phase_words[16 * i..16 * (i + 1)], &record[..]);
        assert_eq!(phase_words[16 * i + 12], i as u32);
    }
    for (j, cell) in world.cells.iter().enumerate() {
        assert_eq!(cell_words[4 * j], cell.position[0].bits);
        assert_eq!(cell_words[4 * j + 3], cell.phase_index);
    }
}

#[test]
fn storage_bytes_are_the_words_in_memory_order() {
    let world = run(5, 10, 3).unwrap();
    let bytes = world.phase_bytes();
    assert_eq!(bytes.len(), 3 * 64);
    let mut expected = Vec::new();
    for w in world.phase_words() {
        expected.extend_from_slice(&w.to_ne_bytes());
    }
    assert_eq!(bytes, expected);
    let bytes = world.cell_bytes();
    assert_eq!(bytes.len(), 10 * 16);
    let mut expected = Vec::new();
    for w in world.cell_words() {
        expected.extend_from_slice(&w.to_ne_bytes());
    }
    assert_eq!(bytes, expected);
}

#[test]
fn the_bounds_are_the_documented_ones() {
    let ends = |q: Quantity| {
        let r = range_of(q);
        (f32::from_bits(r.low.bits), f32::from_bits(r.high.bits))
    };
    assert_eq!(ends(Quantity::Density), (0.02, 0.08));
    assert_eq!(ends(Quantity::Scattering), (0.1, 1.0));
    assert_eq!(ends(Quantity::MeanFreePath), (0.5, 2.0));
    assert_eq!(ends(Quantity::Frequency), (0.5, 5.0));
    assert_eq!(ends(Quantity::Amplitude), (0.01, 0.1));
    assert_eq!(ends(Quantity::Damping), (0.1, 0.5));
    assert_eq!(ends(Quantity::Coupling), (0.1, 1.0));
    assert_eq!(ends(Quantity::Coordinate), (-10.0, 10.0));
}

#[test]
fn generated_scalars_lie_within_their_bounds() {
    let world = run(42, 128, 12).unwrap();
    let f = |x: Scalar| f32::from_bits(x.bits);
    for phase in &world.phases {
        assert!(phase.is_in_bounds());
        assert!((0.02..0.08).contains(&f(phase.color_density[3])));
        for k in 0..3 {
            assert!((0.9f32 * (1.0 - 0.7)..=0.9).contains(&f(phase.color_density[k])));
            assert!((0.1..1.0).contains(&f(phase.scattering[k])));
        }
        for block in [phase.color_density, phase.scattering, phase.membrane_params] {
            assert!(block.iter().all(|x| f(*x).is_finite()));
        }
        assert!((0.5..2.0).contains(&f(phase.scattering[3])));
        assert!((0.5..5.0).contains(&f(phase.membrane_params[0])));
        assert!((0.01..0.1).contains(&f(phase.membrane_params[1])));
        assert!((0.1..0.5).contains(&f(phase.membrane_params[2])));
        assert!((0.1..1.0).contains(&f(phase.membrane_params[3])));
    }
    for cell in &world.cells {
        assert!(cell.is_in_bounds());
        for k in 0..3 {
            assert!((-10.0..10.0).contains(&f(cell.position[k])));
        }
    }
}

#[test]
fn a_phase_out_of_bounds_is_refused_and_changes_nothing() {
    let mut generator = HoneycombWorld::generate(1, 0, 2).unwrap();
    let mut dense = colour();
    dense[3] = s(0.08);
    assert_eq!(generator.add_phase(dense, scatter(), membrane()), Err(WorldError::OutOfBounds));
    dense[3] = s(0.0199);
    assert_eq!(generator.add_phase(dense, scatter(), membrane()), Err(WorldError::OutOfBounds));
    let mut red = colour();
    red[0] = s(1.5);
    assert_eq!(generator.add_phase(red, scatter(), membrane()), Err(WorldError::OutOfBounds));
    red[0] = s(-0.5);
    assert_eq!(generator.add_phase(red, scatter(), membrane()), Err(WorldError::OutOfBounds));
    red[0] = s(f32::NAN);
    assert_eq!(generator.add_phase(red, scatter(), membrane()), Err(WorldError::OutOfBounds));
    let mut path = scatter();
    path[3] = s(2.0);
    assert_eq!(generator.add_phase(colour(), path, membrane()), Err(WorldError::OutOfBounds));
    let mut slow = membrane();
    slow[0] = s(0.4);
    assert_eq!(generator.add_phase(colour(), scatter(), slow), Err(WorldError::OutOfBounds));
    let mut undamped = membrane();
    undamped[2] = s(0.5);
    assert_eq!(generator.add_phase(colour(), scatter(), undamped), Err(WorldError::OutOfBounds));
    assert_eq!(generator.next_step(), GenStep::Phase(0));

    red[0] = s(0.0);
    assert_eq!(generator.add_phase(red, scatter(), membrane()), Err(WorldError::OutOfBounds));
    red[0] = s(1.0);
    assert_eq!(generator.add_phase(red, scatter(), membrane()), Err(WorldError::OutOfBounds));
    red[0] = s(0.269_999);
    assert_eq!(generator.add_phase(red, scatter(), membrane()), Err(WorldError::OutOfBounds));
    red[0] = s(0.900_001);
    assert_eq!(generator.add_phase(red, scatter(), membrane()), Err(WorldError::OutOfBounds));
    assert_eq!(generator.next_step(), GenStep::Phase(0));

    let mut edge = colour();
    edge[0] = Scalar::from_bits(CHANNEL_LOW_BITS);
    edge[1] = Scalar::from_bits(CHANNEL_HIGH_BITS);
    edge[3] = s(0.02);
    assert_eq!(generator.add_phase(edge, scatter(), membrane()), Ok(()));
    assert_eq!(generator.next_step(), GenStep::Phase(1));
}

#[test]
fn a_cell_out_of_bounds_is_refused_and_changes_nothing() {
    let mut generator = HoneycombWorld::generate(1, 2, 1).unwrap();
    generator.add_phase(colour(), scatter(), membrane()).unwrap();
    assert_eq!(generator.add_cell([s(10.0), s(0.0), s(0.0)]), Err(WorldError::OutOfBounds));
    assert_eq!(generator.add_cell([s(0.0), s(-10.5), s(0.0)]), Err(WorldError::OutOfBounds));
    assert_eq!(
        generator.add_cell([s(0.0), s(0.0), s(f32::INFINITY)]),
        Err(WorldError::OutOfBounds)
    );
    assert_eq!(generator.place_cell([s(0.0), s(0.0), s(11.0)], 0), Err(WorldError::OutOfBounds));
    assert_eq!(generator.place_cell([s(0.0), s(0.0), s(11.0)], 9), Err(WorldError::OutOfBounds));
    assert_eq!(generator.next_step(), GenStep::Cell(0));
    assert_eq!(generator.add_cell([s(-10.0), s(9.999), s(-0.0)]), Ok(()));
    assert_eq!(generator.next_step(), GenStep::Cell(1));
}

#[test]
fn a_refused_cell_leaves_the_stream_where_it_was() {
    let mut reference = rand_chacha::ChaCha8Rng::seed_from_u64(5);
    let mut generator = HoneycombWorld::generate(5, 1, 3).unwrap();
    for _ in 0..3 {
        generator.add_phase(colour(), scatter(), membrane()).unwrap();
    }
    assert_eq!(generator.add_cell([s(99.0), s(0.0), s(0.0)]), Err(WorldError::OutOfBounds));
    assert_eq!(generator.add_cell(origin()), Ok(()));
    let world = generator.finish().unwrap();
    let expected: u32 = reference.gen_range(0..3);
    assert_eq!(world.cells[0].phase_index, expected);
}

#[test]
fn the_channel_ends_are_those_of_saturation_and_value() {
    assert_eq!(f32::from_bits(CHANNEL_LOW_BITS), 0.9f32 * (1.0f32 - 0.7f32));
    assert_eq!(f32::from_bits(CHANNEL_HIGH_BITS), 0.9f32);
    let (r, g, b) = hsv_to_rgb(0.0, 0.7, 0.9);
    assert_eq!(r.to_bits(), CHANNEL_HIGH_BITS);
    assert_eq!(g.to_bits(), CHANNEL_LOW_BITS);
    assert_eq!(b.to_bits(), CHANNEL_LOW_BITS);
}

#[test]
fn every_hue_of_every_count_gives_channels_within_bounds() {
    for phase_count in 1..=200u32 {
        let mut generator = HoneycombWorld::generate(1, 0, phase_count as usize).unwrap();
        for index in 0..phase_count {
            let hue = index as f32 / phase_count as f32;
            let (r, g, b) = hsv_to_rgb(hue, 0.7, 0.9);
            let colour = [s(r), s(g), s(b), s(0.05)];
            assert_eq!(generator.add_phase(colour, scatter(), membrane()), Ok(()));
        }
        assert_eq!(generator.next_step(), GenStep::Done);
    }
}

#[test]
fn the_draws_of_a_phase_and_of_a_cell_come_in_a_fixed_order() {
    assert_eq!(
        phase_draw_order(),
        [
            Quantity::Density,
            Quantity::Scattering,
            Quantity::Scattering,
            Quantity::Scattering,
            Quantity::MeanFreePath,
            Quantity::Frequency,
            Quantity::Amplitude,
            Quantity::Damping,
            Quantity::Coupling,
        ]
    );
    assert_eq!(cell_draw_order(), [Quantity::Coordinate; 3]);
}

#[test]
fn drawn_scalars_go_to_their_places_in_the_phase() {
    let mut generator = HoneycombWorld::generate(1, 0, 1).unwrap();
    let drawn = [s(0.05), s(0.2), s(0.3), s(0.4), s(1.5), s(2.5), s(0.05), s(0.25), s(0.5)];
    assert_eq!(generator.add_drawn_phase([s(0.9), s(0.5), s(0.3)], drawn), Ok(()));
    let world = generator.finish().unwrap();
    let f = |x: Scalar| f32::from_bits(x.bits);
    let phase = &world.phases[0];
    assert_eq!(phase.color_density.map(f), [0.9, 0.5, 0.3, 0.05]);
    assert_eq!(phase.scattering.map(f), [0.2, 0.3, 0.4, 1.5]);
    assert_eq!(phase.membrane_params.map(f), [2.5, 0.05, 0.25, 0.5]);
    assert_eq!(phase.phase_id, 0);
}

#[test]
fn drawn_scalars_out_of_bounds_or_out_of_turn_are_refused() {
    let mut generator = HoneycombWorld::generate(1, 0, 1).unwrap();
    let good = [s(0.05), s(0.2), s(0.3), s(0.4), s(1.5), s(2.5), s(0.05), s(0.25), s(0.5)];
    let mut bad = good;
    bad[4] = s(0.4);
    assert_eq!(
        generator.add_drawn_phase([s(0.9), s(0.5), s(0.3)], bad),
        Err(WorldError::OutOfBounds)
    );
    assert_eq!(
        generator.add_drawn_phase([s(0.9), s(0.5), s(0.1)], good),
        Err(WorldError::OutOfBounds)
    );
    assert_eq!(generator.add_drawn_phase([s(0.9), s(0.5), s(0.3)], good), Ok(()));
    assert_eq!(
        generator.add_drawn_phase([s(0.9), s(0.5), s(0.3)], good),
        Err(WorldError::OutOfTurn)
    );
}

#[test]
fn the_world_of_seed_42_has_the_colours_of_its_hues() {
    let world = run(42, 128, 12).unwrap();
    let f = |x: Scalar| f32::from_bits(x.bits);
    for (i, phase) in world.phases.iter().enumerate() {
        let (r, g, b) = hsv_to_rgb(i as f32 / 12.0, 0.7, 0.9);
        assert_eq!([f(phase.color_density[0]), f(phase.color_density[1]), f(phase.color_density[2])], [r, g, b]);
    }
    assert_eq!(f(world.phases[0].color_density[0]), 0.9);
}
