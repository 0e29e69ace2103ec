use hedgewars_engine::geometry::Point;
use hedgewars_engine::geometry::Rect;
use hedgewars_engine::geometry::Size;
use hedgewars_engine::landgen::OutlineTemplate;
use hedgewars_engine::physics::FP_ONE;
use hedgewars_engine::render::Theme;
use hedgewars_engine::world::World;

fn minimal_template() -> OutlineTemplate {
    OutlineTemplate {
        size: Size::new(64, 32),
        islands: vec![vec![Rect::from_size_coords(4, 4, 8, 8)]],
        fill_points: vec![Point::new(1, 0)],
    }
}

fn test_theme() -> Theme {
    Theme::new(0xAABB_CCDD, 0x1122_3344)
}

#[test]
fn fresh_world_step_and_render_are_safe() {
    // No seed, no init: step and render are well-defined no-ops.
    let mut world = World::new();
    world.step();
    world.render(0, 0, 100, 100);
    world.step();
    world.render(50, 50, 200, 100);
    assert!(world.preview().is_none());
    assert!(world.game_state.is_none());
}

#[test]
fn init_scenario_thousand_steps() {
    let mut world = World::new();
    let template = minimal_template();
    assert!(template.is_well_formed());
    world.render(0, 0, 100, 100);
    world.init(template, test_theme());

    let game = world.game_state.as_ref().expect("game state should be committed");
    assert_eq!(game.land.width, 64);
    assert_eq!(game.land.height, 32);
    assert_eq!(game.physics.size.width, 64);
    assert_eq!(game.physics.size.height, 32);
    assert_eq!(game.physics.elapsed.raw, 0);
    for &code in game.land.cells.iter() {
        assert!(code == 0 || code == u32::MAX);
    }

    for _ in 0..1000 {
        world.step();
    }
    let game = world.game_state.as_ref().expect("game state should be committed");
    assert_eq!(game.physics.elapsed.raw, 1000 * FP_ONE);
    world.render(0, 0, 100, 100);
}

#[test]
fn dispose_preview_is_idempotent() {
    let mut once = World::new();
    let mut twice = World::new();
    once.generate_preview();
    twice.generate_preview();
    once.dispose_preview();
    twice.dispose_preview();
    twice.dispose_preview();
    assert!(once.preview().is_none());
    assert!(twice.preview().is_none());
    // The rest of the state (in particular the stream) is identical.
    assert_eq!(once.random_numbers_gen.buffer, twice.random_numbers_gen.buffer);
    assert_eq!(once.random_numbers_gen.index, twice.random_numbers_gen.index);
    assert!(once.game_state.is_none() && twice.game_state.is_none());
}

#[test]
fn dispose_without_preview_is_safe() {
    let mut world = World::new();
    world.dispose_preview();
    world.dispose_preview();
    assert!(world.preview().is_none());
}

#[test]
fn preview_and_game_state_are_independent() {
    let mut world = World::new();
    world.set_seed(b"independence");
    world.init(minimal_template(), test_theme());
    let land_before = world.game_state.as_ref().unwrap().land.cells.clone();
    let physics_before = world.game_state.as_ref().unwrap().physics;

    // Preview generation never alters the committed game state.
    world.generate_preview();
    assert_eq!(world.game_state.as_ref().unwrap().land.cells, land_before);
    assert_eq!(world.game_state.as_ref().unwrap().physics, physics_before);

    // Initialization never alters the preview slot.
    let preview_before = world.preview().as_ref().unwrap().cells.clone();
    world.init(minimal_template(), test_theme());
    assert_eq!(world.preview().as_ref().unwrap().cells, preview_before);
}

#[test]
fn same_seed_same_trajectory() {
    let mut first = World::new();
    let mut second = World::new();
    first.set_seed(b"trajectory");
    second.set_seed(b"trajectory");
    first.init(minimal_template(), test_theme());
    second.init(minimal_template(), test_theme());
    assert_eq!(
        first.game_state.as_ref().unwrap().land.cells,
        second.game_state.as_ref().unwrap().land.cells
    );
    for _ in 0..10 {
        first.step();
        second.step();
        assert_eq!(
            first.game_state.as_ref().unwrap().physics,
            second.game_state.as_ref().unwrap().physics
        );
    }
}

#[test]
fn render_records_viewport_and_touches_nothing_else() {
    let mut world = World::new();
    world.render(1, 2, 3, 4);
    assert_eq!(
        world.renderer.last_viewport,
        Some(Rect { x: 1, y: 2, width: 3, height: 4 })
    );
    assert!(world.preview().is_none());
    assert!(world.game_state.is_none());
    world.render(5, 6, 7, 8);
    assert_eq!(
        world.renderer.last_viewport,
        Some(Rect { x: 5, y: 6, width: 7, height: 8 })
    );
}

#[test]
fn init_commits_texture_to_renderer() {
    let mut world = World::new();
    assert!(world.renderer.texture.is_none());
    world.init(minimal_template(), test_theme());
    let texture = world.renderer.texture.as_ref().expect("texture should be committed");
    assert_eq!(texture.width, 64);
    assert_eq!(texture.height, 32);
    assert_eq!(texture.pixels.len(), 64 * 32);
    let game = world.game_state.as_ref().unwrap();
    for (pixel, code) in texture.pixels.iter().zip(game.land.cells.iter()) {
        if *code == 0 {
            assert_eq!(*pixel, 0x1122_3344);
        } else {
            assert_eq!(*pixel, 0xAABB_CCDD);
        }
    }
}
