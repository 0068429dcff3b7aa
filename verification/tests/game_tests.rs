use liwin::game::{CellView, GameState};
use liwin::generation::{
    generate_map, scale_draw, supports_size, terrain_for, Stage, WorldBuilder, FOREST_BELOW, MOUNTAIN_BELOW,
    WATER_BELOW,
};
use liwin::world::{EntityType, FoodKind, Terrain};

/// A draw that selects index `k` among `n`.
fn pick(k: usize, n: usize) -> u64 {
    (((2 * k as u128 + 1) << 64) / (2 * n as u128)) as u64
}

fn plain_map(w: usize, h: usize) -> Vec<Vec<Terrain>> {
    generate_map(&vec![vec![u64::MAX; w]; h], w, h)
}

/// Places every entity of a `w` by `h` world on the cells `cells` gives,
/// in order, with look draws selecting index 0.
fn build(w: usize, h: usize, cells: &[(usize, usize)]) -> WorldBuilder {
    let mut b = WorldBuilder::new(w, h, plain_map(w, h));
    for &(x, y) in cells {
        assert!(b.offer(pick(x, w), pick(y, h), 0));
    }
    assert!(b.is_done());
    b
}

/// The 52 cells of a 20 by 20 world: the first object east of the centre,
/// the first food south of it, the first chest west of it, everything else
/// in the top rows.
fn cells_20() -> Vec<(usize, usize)> {
    let mut cells: Vec<(usize, usize)> = (0..52).map(|j| (j % 20, j / 20)).collect();
    cells[23] = (11, 10);
    cells[39] = (10, 11);
    cells[47] = (9, 10);
    cells
}

fn game_20() -> GameState {
    GameState::start(build(20, 20, &cells_20()), 1000)
}

#[test]
fn terrain_follows_the_draw_thresholds() {
    assert_eq!(terrain_for(0), Terrain::Water);
    assert_eq!(terrain_for(WATER_BELOW - 1), Terrain::Water);
    assert_eq!(terrain_for(WATER_BELOW), Terrain::Mountain);
    assert_eq!(terrain_for(MOUNTAIN_BELOW - 1), Terrain::Mountain);
    assert_eq!(terrain_for(MOUNTAIN_BELOW), Terrain::Forest);
    assert_eq!(terrain_for(FOREST_BELOW - 1), Terrain::Forest);
    assert_eq!(terrain_for(FOREST_BELOW), Terrain::Plain);
    assert_eq!(terrain_for(u64::MAX), Terrain::Plain);
}

#[test]
fn terrain_symbols_and_colors() {
    assert_eq!(Terrain::Water.symbol(), "≈");
    assert_eq!(Terrain::Mountain.symbol(), "^");
    assert_eq!(Terrain::Forest.symbol(), "↑");
    assert_eq!(Terrain::Plain.symbol(), ".");
    assert_eq!(Terrain::Water.color(), "#3366cc");
    assert_eq!(Terrain::Plain.color(), "#444466");
}

#[test]
fn food_properties() {
    assert_eq!(FoodKind::Apple.stamina(), 5);
    assert_eq!(FoodKind::Banana.stamina(), 8);
    assert_eq!(FoodKind::Bread.stamina(), 10);
    assert_eq!(FoodKind::Chicken.stamina(), 15);
    assert_eq!(FoodKind::Cake.stamina(), 20);
    assert_eq!(FoodKind::Apple.symbol(false), '🍎');
    assert_eq!(FoodKind::Apple.symbol(true), '🍏');
    assert_eq!(FoodKind::Banana.symbol(true), '🍌');
    assert_eq!(FoodKind::Cake.color(false), "#ffb3e6");
    assert_eq!(FoodKind::Cake.color(true), "#ffe6b3");
    assert_eq!(FoodKind::Chicken.name(), "鸡腿");
}

#[test]
fn draws_scale_to_indices() {
    assert_eq!(scale_draw(0, 5), 0);
    assert_eq!(scale_draw(u64::MAX, 5), 4);
    assert_eq!(scale_draw(u64::MAX / 2, 2), 0);
    assert_eq!(scale_draw(u64::MAX / 2 + 1, 2), 1);
    for k in 0..7 {
        assert_eq!(scale_draw(pick(k, 7), 7), k);
    }
    assert_eq!(scale_draw(12345, 1), 0);
}

#[test]
fn map_terrain_comes_from_the_draws() {
    let draws = vec![vec![0, WATER_BELOW, MOUNTAIN_BELOW], vec![FOREST_BELOW, 1, u64::MAX]];
    let map = generate_map(&draws, 3, 2);
    assert_eq!(map[0], vec![Terrain::Water, Terrain::Mountain, Terrain::Forest]);
    assert_eq!(map[1], vec![Terrain::Plain, Terrain::Water, Terrain::Plain]);
}

#[test]
fn small_world_skips_empty_kinds() {
    // 25 cells: no animals or plants, one object, two foods, one chest.
    let mut b = WorldBuilder::new(5, 5, plain_map(5, 5));
    assert_eq!(b.stage(), Stage::Objects);
    assert!(b.offer(pick(0, 5), pick(0, 5), 0));
    assert_eq!(b.stage(), Stage::Food);
    assert!(!b.offer(pick(0, 5), pick(0, 5), 0));
    assert_eq!(b.stage(), Stage::Food);
    assert!(b.offer(pick(1, 5), pick(0, 5), pick(4, 5)));
    assert!(b.offer(pick(2, 5), pick(0, 5), pick(1, 5)));
    assert_eq!(b.stage(), Stage::Chests);
    assert!(b.offer(pick(3, 5), pick(0, 5), 0));
    assert!(b.is_done());
    assert!(!b.offer(pick(4, 4), pick(4, 5), 0));
    let g = GameState::start(b, 0);
    let es = g.entities();
    assert_eq!(es.len(), 4);
    assert_eq!(es[0].entity_type, EntityType::Object { collected: false });
    assert_eq!(es[0].symbol, '!');
    assert_eq!(es[0].color, "#6699ff");
    assert_eq!(es[1].entity_type, EntityType::Food { eaten: false, kind: FoodKind::Cake });
    assert_eq!(es[1].symbol, '🍰');
    assert_eq!(es[2].entity_type, EntityType::Food { eaten: false, kind: FoodKind::Banana });
    assert_eq!(es[3].entity_type, EntityType::Chest { opened: false });
    assert_eq!(es[3].symbol, '□');
    assert_eq!((es[3].x, es[3].y), (3, 0));
    assert_eq!(g.object_count(), 1);
}

#[test]
fn large_world_counts_each_kind() {
    // 400 cells: 13 animals, 10 plants, 16 objects, 8 foods, 5 chests.
    let g = game_20();
    let es = g.entities();
    assert_eq!(es.len(), 52);
    assert!(es[..13].iter().all(|e| e.entity_type == EntityType::Animal && e.symbol == '$'));
    assert!(es[13..23].iter().all(|e| e.entity_type == EntityType::Plant && e.symbol == '*'));
    assert!(es[23..39].iter().all(|e| e.entity_type == EntityType::Object { collected: false }));
    assert!(es[39..47]
        .iter()
        .all(|e| e.entity_type == EntityType::Food { eaten: false, kind: FoodKind::Apple }));
    assert!(es[47..].iter().all(|e| e.entity_type == EntityType::Chest { opened: false }));
    assert_eq!(g.object_count(), 16);
}

#[test]
fn game_starts_in_the_middle_with_full_stamina() {
    let g = game_20();
    assert_eq!((g.player_x(), g.player_y()), (10, 10));
    assert_eq!((g.map_width(), g.map_height()), (20, 20));
    assert_eq!(g.stamina(), 20);
    assert_eq!(g.score(), 0);
    assert_eq!(g.items_collected(), 0);
    assert_eq!(g.start_time(), 1000);
    assert_eq!(g.message(), None);
}

#[test]
fn player_sees_within_its_vision_radius() {
    let g = game_20();
    assert!(g.is_discovered(10, 10));
    assert!(g.is_discovered(15, 10));
    assert!(g.is_discovered(5, 10));
    assert!(g.is_discovered(10, 15));
    assert!(g.is_discovered(14, 13));
    assert!(!g.is_discovered(15, 11));
    assert!(!g.is_discovered(16, 10));
    assert!(!g.is_discovered(14, 14));
    assert!(!g.is_discovered(0, 0));
    assert!(!g.is_discovered(20, 10));
}

#[test]
fn moving_onto_an_object_collects_it() {
    let mut g = game_20();
    g.move_player(1, 0);
    assert_eq!((g.player_x(), g.player_y()), (11, 10));
    assert_eq!(g.items_collected(), 1);
    assert_eq!(g.stamina(), 19);
    assert_eq!(g.entities()[23].entity_type, EntityType::Object { collected: true });
    assert_eq!(g.message(), None);
    assert!(g.is_discovered(11, 10));
    assert!(g.is_discovered(16, 10));
    // Stepping off and back again collects nothing more.
    g.move_player(-1, 0);
    g.move_player(1, 0);
    assert_eq!(g.items_collected(), 1);
    assert_eq!(g.stamina(), 17);
}

#[test]
fn eating_food_restores_stamina_and_tells_so() {
    let mut g = game_20();
    g.move_player(0, 1);
    assert_eq!((g.player_x(), g.player_y()), (10, 11));
    assert_eq!(g.stamina(), 20 + 5 - 1);
    assert_eq!(g.message(), Some("你吃了苹果，体力+5！".to_string()));
    assert_eq!(
        g.entities()[39].entity_type,
        EntityType::Food { eaten: true, kind: FoodKind::Apple }
    );
    g.clear_message();
    assert_eq!(g.message(), None);
    g.move_player(0, -1);
    g.move_player(0, 1);
    assert_eq!(g.stamina(), 22);
    assert_eq!(g.message(), None);
}

#[test]
fn opening_a_chest_scores() {
    let mut g = game_20();
    g.move_player(-1, 0);
    assert_eq!(g.score(), 10);
    assert_eq!(g.message(), Some("你打开了宝箱，获得10分！".to_string()));
    assert_eq!(g.entities()[47].entity_type, EntityType::Chest { opened: true });
    g.move_player(1, 0);
    g.move_player(-1, 0);
    assert_eq!(g.score(), 10);
}

#[test]
fn moves_off_the_map_are_ignored() {
    let mut g = game_20();
    for _ in 0..9 {
        g.move_player(0, -1);
    }
    assert_eq!((g.player_x(), g.player_y()), (10, 1));
    let stamina = g.stamina();
    g.move_player(0, -1);
    assert_eq!((g.player_x(), g.player_y()), (10, 0));
    g.move_player(0, -1);
    assert_eq!((g.player_x(), g.player_y()), (10, 0));
    assert_eq!(g.stamina(), stamina - 1);
    g.move_player(-11, 0);
    assert_eq!((g.player_x(), g.player_y()), (10, 0));
}

#[test]
fn an_exhausted_player_cannot_move() {
    let mut g = game_20();
    for _ in 0..10 {
        g.move_player(0, -1);
        g.move_player(0, 1);
    }
    assert_eq!(g.stamina(), 0);
    assert_eq!((g.player_x(), g.player_y()), (10, 10));
    g.move_player(1, 0);
    assert_eq!((g.player_x(), g.player_y()), (10, 10));
    assert_eq!(g.items_collected(), 0);
}

#[test]
fn cells_show_fog_player_things_and_ground() {
    let mut g = game_20();
    assert!(matches!(g.cell_view(0, 19), CellView::Fog));
    assert!(matches!(g.cell_view(10, 10), CellView::Player));
    match g.cell_view(11, 10) {
        CellView::Thing { symbol, color } => {
            assert_eq!(symbol, '!');
            assert_eq!(color, "#6699ff");
        }
        _ => panic!("object expected"),
    }
    match g.cell_view(10, 11) {
        CellView::Thing { symbol, color } => {
            assert_eq!(symbol, '🍎');
            assert_eq!(color, "#ff3333");
        }
        _ => panic!("food expected"),
    }
    match g.cell_view(9, 10) {
        CellView::Thing { symbol, color } => {
            assert_eq!(symbol, '□');
            assert_eq!(color, "#ffcc66");
        }
        _ => panic!("chest expected"),
    }
    assert!(matches!(g.cell_view(12, 12), CellView::Ground(Terrain::Plain)));
    // A collected object vanishes; an eaten food and an opened chest change look.
    g.move_player(1, 0);
    g.move_player(-1, 1);
    g.move_player(-1, -1);
    assert!(matches!(g.cell_view(11, 10), CellView::Ground(Terrain::Plain)));
    match g.cell_view(10, 11) {
        CellView::Thing { symbol, color } => {
            assert_eq!(symbol, '🍏');
            assert_eq!(color, "#99ff99");
        }
        _ => panic!("eaten food expected"),
    }
    match g.cell_view(10, 10) {
        CellView::Ground(_) => {}
        _ => panic!("empty start cell expected"),
    }
    assert!(matches!(g.cell_view(9, 10), CellView::Player));
    g.move_player(1, 0);
    match g.cell_view(9, 10) {
        CellView::Thing { symbol, color } => {
            assert_eq!(symbol, '▣');
            assert_eq!(color, "#cccc99");
        }
        _ => panic!("opened chest expected"),
    }
}

#[test]
fn discovery_only_grows() {
    let mut g = game_20();
    let before: Vec<(usize, usize)> = (0..20)
        .flat_map(|y| (0..20).map(move |x| (x, y)))
        .filter(|&(x, y)| g.is_discovered(x, y))
        .collect();
    g.move_player(1, 0);
    g.move_player(1, 0);
    g.move_player(0, 1);
    for (x, y) in before {
        assert!(g.is_discovered(x, y));
    }
}

#[test]
fn world_sizes_that_can_be_built() {
    assert!(supports_size(5, 5));
    assert!(supports_size(1, 1));
    assert!(!supports_size(0, 5));
    assert!(!supports_size(5, 0));
    assert!(!supports_size(usize::MAX, 2));
    assert!(supports_size(100_000, 100_000));
    assert!(!supports_size(200_000, 100_000));
}

#[test]
fn smallest_worlds_that_fit() {
    // Three cells hold exactly the two foods and the chest.
    let mut b = WorldBuilder::new(3, 1, plain_map(3, 1));
    assert_eq!(b.stage(), Stage::Food);
    assert!(b.offer(pick(0, 3), 0, 0));
    assert!(b.offer(pick(1, 3), 0, 0));
    assert!(!b.offer(pick(1, 3), 0, 0));
    assert!(b.offer(pick(2, 3), 0, 0));
    assert!(b.is_done());
    let g = GameState::start(b, 0);
    assert_eq!(g.entities().len(), 3);
    assert_eq!((g.player_x(), g.player_y()), (1, 0));
}

#[test]
fn an_exhausted_player_ignores_any_move() {
    let mut g = game_20();
    for _ in 0..10 {
        g.move_player(0, -1);
        g.move_player(0, 1);
    }
    assert_eq!(g.stamina(), 0);
    g.move_player(isize::MAX, isize::MIN);
    g.move_player(isize::MIN, isize::MAX);
    assert_eq!((g.player_x(), g.player_y()), (10, 10));
    assert_eq!(g.stamina(), 0);
}

#[test]
fn moves_keep_every_entity_in_place() {
    let mut g = game_20();
    let before: Vec<(usize, usize, char, &str)> =
        g.entities().iter().map(|e| (e.x, e.y, e.symbol, e.color)).collect();
    g.move_player(1, 0);
    g.move_player(-1, 1);
    g.move_player(-1, -1);
    let after: Vec<(usize, usize, char, &str)> =
        g.entities().iter().map(|e| (e.x, e.y, e.symbol, e.color)).collect();
    assert_eq!(before, after);
    assert_eq!(g.score() % 10, 0);
    assert_eq!((g.map_width(), g.map_height(), g.start_time()), (20, 20, 1000));
}
