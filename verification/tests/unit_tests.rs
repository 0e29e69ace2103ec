use hedgewars_engine::geometry::Point;
use hedgewars_engine::geometry::Rect;
use hedgewars_engine::geometry::Size;
use hedgewars_engine::land::Land;
use hedgewars_engine::landgen::OutlineTemplate;
use hedgewars_engine::physics::FPNum;
use hedgewars_engine::physics::FP_ONE;
use hedgewars_engine::prng::LaggedFibonacciPrng;
use hedgewars_engine::render::MapGenerator;
use hedgewars_engine::render::Theme;

#[test]
fn rect_contains_cases() {
    let r = Rect::from_size_coords(10, 20, 5, 4);
    assert!(r.contains(10, 20));
    assert!(r.contains(14, 23));
    assert!(!r.contains(15, 20));
    assert!(!r.contains(10, 24));
    assert!(!r.contains(9, 20));
    assert!(!r.contains(10, 19));
}

#[test]
fn template_validity_checks() {
    let valid = OutlineTemplate {
        size: Size::new(64, 32),
        islands: vec![vec![Rect::from_size_coords(4, 4, 8, 8)]],
        fill_points: vec![Point::new(1, 0)],
    };
    assert!(valid.is_well_formed());

    let zero_width = OutlineTemplate {
        size: Size::new(0, 32),
        islands: vec![],
        fill_points: vec![],
    };
    assert!(!zero_width.is_well_formed());

    let oversized = OutlineTemplate {
        size: Size::new(0x8001, 32),
        islands: vec![],
        fill_points: vec![],
    };
    assert!(!oversized.is_well_formed());

    let huge_rect = OutlineTemplate {
        size: Size::new(64, 32),
        islands: vec![vec![Rect::from_size_coords(0x1000_0001, 4, 8, 8)]],
        fill_points: vec![],
    };
    assert!(!huge_rect.is_well_formed());
}

#[test]
fn prng_draws_stay_below_modulo() {
    let mut prng = LaggedFibonacciPrng::new(b"abc");
    for _ in 0..100 {
        assert!(prng.get_random(7) < 7);
        assert_eq!(prng.get_random(1), 0);
    }
}

#[test]
fn prng_same_seed_same_stream() {
    let mut first = LaggedFibonacciPrng::new(b"same seed bytes");
    let mut second = LaggedFibonacciPrng::new(b"same seed bytes");
    for _ in 0..50 {
        assert_eq!(first.get_random(1_000_000), second.get_random(1_000_000));
    }
}

#[test]
fn prng_seed_prefix_beyond_bound_is_ignored() {
    // Only the leading 54 bytes of the seed take part in the initial state.
    let long_a: Vec<u8> = (0u8..64).collect();
    let mut long_b: Vec<u8> = (0u8..64).collect();
    long_b[60] = 99;
    let mut first = LaggedFibonacciPrng::new(&long_a);
    let mut second = LaggedFibonacciPrng::new(&long_b);
    for _ in 0..20 {
        assert_eq!(first.get_random(1_000_000), second.get_random(1_000_000));
    }
}

#[test]
fn fixed_point_arithmetic() {
    assert_eq!(FPNum::zero().raw, 0);
    assert_eq!(FPNum::from_units(1).raw, FP_ONE);
    assert_eq!(FPNum::from_units(3).raw, 3 * FP_ONE);
    let a = FPNum { raw: 3 };
    let b = FPNum { raw: 4 };
    assert_eq!(a.wrapping_add(b).raw, 7);
    let max = FPNum { raw: u64::MAX };
    let five = FPNum { raw: 5 };
    assert_eq!(max.wrapping_add(five).raw, 4);
}

#[test]
fn texture_follows_theme_colors() {
    let land: Land<u32> = Land { width: 2, height: 1, cells: vec![0, 7] };
    let theme = Theme::new(0xAABB_CCDD, 0x1122_3344);
    let texture = MapGenerator::new().make_texture32(&land, &theme);
    assert_eq!(texture.width, 2);
    assert_eq!(texture.height, 1);
    assert_eq!(texture.pixels, vec![0x1122_3344, 0xAABB_CCDD]);
}

#[test]
fn land_get_reads_row_major() {
    let land: Land<u8> = Land { width: 3, height: 2, cells: vec![1, 2, 3, 4, 5, 6] };
    assert_eq!(land.get(0, 0), 1);
    assert_eq!(land.get(2, 0), 3);
    assert_eq!(land.get(0, 1), 4);
    assert_eq!(land.get(2, 1), 6);
}
