use hedgewars_engine::world::World;

fn preview_cells(world: &World) -> Vec<u8> {
    world.preview().as_ref().expect("preview should be populated").cells.clone()
}

#[test]
fn preview_concrete_scenario() {
    // Empty seed: the fresh world's default stream.
    let mut world = World::new();
    world.generate_preview();

    let land = world.preview().as_ref().expect("preview should be populated");
    assert_eq!(land.width, 4096);
    assert_eq!(land.height, 2048);
    assert_eq!(land.cells.len(), 4096 * 2048);
    // Codes stay within the 8-bit range, and are exactly the configured
    // minimum or maximum code.
    for &code in land.cells.iter() {
        assert!(code == 0 || code == u8::MAX);
    }
    // A cell inside the left island pillar, whatever jitter was drawn.
    assert_eq!(land.get(300, 1000), u8::MAX);
    // A cell far from every island rectangle and fill point.
    assert_eq!(land.get(2000, 100), 0);

    // A second run overwrites the preview; the stream has advanced, so the
    // bitmap need not equal the first, but the same constraints hold.
    world.generate_preview();
    let land = world.preview().as_ref().expect("preview should be populated");
    assert_eq!(land.width, 4096);
    assert_eq!(land.height, 2048);
    for &code in land.cells.iter() {
        assert!(code == 0 || code == u8::MAX);
    }
    assert_eq!(land.get(300, 1000), u8::MAX);
    assert_eq!(land.get(2000, 100), 0);
}

#[test]
fn same_seed_gives_identical_previews() {
    let mut first = World::new();
    let mut second = World::new();
    first.set_seed(b"determinism seed");
    second.set_seed(b"determinism seed");
    first.generate_preview();
    second.generate_preview();
    assert_eq!(preview_cells(&first), preview_cells(&second));
}

#[test]
fn empty_seed_equals_fresh_world() {
    // Generating before ever seeding uses the defined empty-seed default:
    // two un-seeded worlds are identical, and identical to one explicitly
    // seeded with the empty buffer.
    let mut unseeded = World::new();
    let mut seeded_empty = World::new();
    seeded_empty.set_seed(&[]);
    assert_eq!(
        unseeded.random_numbers_gen.buffer,
        seeded_empty.random_numbers_gen.buffer
    );
    unseeded.generate_preview();
    seeded_empty.generate_preview();
    assert_eq!(preview_cells(&unseeded), preview_cells(&seeded_empty));
}

#[test]
fn reseeding_overrides_prior_seed() {
    // set_seed(S1) followed by set_seed(S2) behaves as a fresh world seeded
    // with S2 alone.
    let mut twice = World::new();
    twice.set_seed(b"first seed");
    twice.set_seed(b"second seed");
    let mut once = World::new();
    once.set_seed(b"second seed");
    assert_eq!(twice.random_numbers_gen.buffer, once.random_numbers_gen.buffer);
    assert_eq!(twice.random_numbers_gen.index, once.random_numbers_gen.index);
    twice.generate_preview();
    once.generate_preview();
    assert_eq!(preview_cells(&twice), preview_cells(&once));
}
