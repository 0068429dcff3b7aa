//! Properties of the game that span its operations.
use vstd::prelude::*;
use crate::game::{
    after_move, cell_shows, first_shown, message_after, on_map, sees, view_wf, visit_all, visited,
    vision, CellView, GameView,
};
use crate::generation::{
    builder_view_wf, chest_target, distinct_cells, food_target, fresh_of, slot_stage, stage_start,
    scaled, terrain_of, BuilderView, Stage,
};
use crate::tally::{
    chest_weight, collected_weight, food_weight, opened_weight, pending_food_weight, total,
};
use crate::world::{Entity, EntityType, Terrain};
use crate::controls::{command_of, KeyCommand};

verus! {

/// A total over the visited entities compares with the total over the
/// entities as each visited weight compares with the weight before.
proof fn lemma_visit_total(es: Seq<Entity>, x: int, y: int, w: spec_fn(Entity) -> nat)
    requires
        forall|e: Entity| #[trigger] w(visited(e, x, y)) >= w(e),
    ensures
        total(visit_all(es, x, y), w) >= total(es, w),
    decreases es.len(),
{
    if es.len() > 0 {
        assert(visit_all(es, x, y).drop_last() =~= visit_all(es.drop_last(), x, y));
        lemma_visit_total(es.drop_last(), x, y, w);
    }
}

/// Moving never hides a cell that was seen: the discovered area only grows.
pub proof fn law_discovery_only_grows(v: GameView, dx: int, dy: int)
    ensures
        v.discovered.subset_of(after_move(v, dx, dy).discovered),
{
}

/// After a move that happened, the player's new cell is discovered.
pub proof fn law_player_sees_its_cell(v: GameView, dx: int, dy: int)
    requires
        v.stamina > 0,
        on_map(v.player_x + dx, v.player_y + dy, v.map_width, v.map_height),
    ensures
        after_move(v, dx, dy).discovered.contains((v.player_x + dx, v.player_y + dy)),
{
    assert(sees(v.player_x + dx, v.player_y + dy, v.player_x + dx, v.player_y + dy));
}

/// A player without stamina cannot move: the game stays as it is.
pub proof fn law_exhausted_player_stays(v: GameView, dx: int, dy: int)
    requires
        v.stamina == 0,
    ensures
        after_move(v, dx, dy) == v,
{
}

/// A move off the map is ignored: the game stays as it is.
pub proof fn law_move_off_map_is_ignored(v: GameView, dx: int, dy: int)
    requires
        !on_map(v.player_x + dx, v.player_y + dy, v.map_width, v.map_height),
    ensures
        after_move(v, dx, dy) == v,
{
}

/// A move that happens costs exactly one stamina; food eaten on the way
/// gives back what it held, and nothing else changes the stamina.
pub proof fn law_move_costs_one_stamina(v: GameView, dx: int, dy: int)
    requires
        v.stamina > 0,
        on_map(v.player_x + dx, v.player_y + dy, v.map_width, v.map_height),
    ensures
        after_move(v, dx, dy).stamina + total(after_move(v, dx, dy).entities, pending_food_weight())
            == v.stamina + total(v.entities, pending_food_weight()) - 1,
{
}

/// Nothing picked up is ever put back: over a move the count of collected
/// objects and the score never fall, and no chest or object appears or
/// vanishes.
pub proof fn law_pickups_are_kept(v: GameView, dx: int, dy: int)
    requires
        view_wf(v),
    ensures
        after_move(v, dx, dy).items_collected >= v.items_collected,
        after_move(v, dx, dy).score >= v.score,
        total(after_move(v, dx, dy).entities, chest_weight()) == total(v.entities, chest_weight()),
        (after_move(v, dx, dy).score - v.score) % 10 == 0,
{
    let x = v.player_x + dx;
    let y = v.player_y + dy;
    lemma_visit_total(v.entities, x, y, collected_weight());
    lemma_visit_total(v.entities, x, y, opened_weight());
    lemma_visit_total(v.entities, x, y, chest_weight());
    assert forall|e: Entity| #[trigger] chest_weight()(visited(e, x, y)) <= chest_weight()(e) by {}
    lemma_visit_total_le(v.entities, x, y, chest_weight());
    let a = total(after_move(v, dx, dy).entities, opened_weight()) as int;
    let b = total(v.entities, opened_weight()) as int;
    if v.stamina > 0 && on_map(x, y, v.map_width, v.map_height) {
        assert((10 * a - 10 * b) % 10 == 0) by (nonlinear_arith);
    }
}

/// A total over the visited entities is at most the total before when no
/// visited weight grows.
proof fn lemma_visit_total_le(es: Seq<Entity>, x: int, y: int, w: spec_fn(Entity) -> nat)
    requires
        forall|e: Entity| #[trigger] w(visited(e, x, y)) <= w(e),
    ensures
        total(visit_all(es, x, y), w) <= total(es, w),
    decreases es.len(),
{
    if es.len() > 0 {
        assert(visit_all(es, x, y).drop_last() =~= visit_all(es.drop_last(), x, y));
        lemma_visit_total_le(es.drop_last(), x, y, w);
    }
}

/// Picking up twice on the same cell is picking up once: the second time
/// finds nothing left and leaves the message as it was.
pub proof fn law_pickup_is_idempotent(es: Seq<Entity>, x: int, y: int, m: Option<Seq<char>>)
    ensures
        visit_all(visit_all(es, x, y), x, y) == visit_all(es, x, y),
        message_after(visit_all(es, x, y), x, y, m) == m,
    decreases es.len(),
{
    assert(visit_all(visit_all(es, x, y), x, y) =~= visit_all(es, x, y));
    if es.len() > 0 {
        assert(visit_all(es, x, y).drop_last() =~= visit_all(es.drop_last(), x, y));
        law_pickup_is_idempotent(es.drop_last(), x, y, m);
    }
}

/// A finished world holds, in order, its animals, plants, objects, foods
/// and chests, exactly as many of each as the map size calls for, each on a
/// cell of its own on the map, drawn with its kind's symbols and colour, and
/// nothing of them picked up yet.
pub proof fn law_finished_world(v: BuilderView)
    requires
        builder_view_wf(v),
        v.stage == Stage::Done,
    ensures
        v.entities.len() == stage_start(Stage::Done, v.map_width * v.map_height),
        distinct_cells(v.entities),
        forall|i: int|
            0 <= i < v.entities.len() ==> on_map(
                (#[trigger] v.entities[i]).x as int,
                v.entities[i].y as int,
                v.map_width,
                v.map_height,
            ) && fresh_of(v.entities[i], slot_stage(i, v.map_width * v.map_height)),
        total(v.entities, food_weight()) == food_target(v.map_width * v.map_height),
        total(v.entities, chest_weight()) == chest_target(v.map_width * v.map_height),
        total(v.entities, collected_weight()) == 0,
        total(v.entities, opened_weight()) == 0,
{
}


/// A map of at least three cells has room for every entity its size calls
/// for, so that offering every free cell in turn finishes the world.
pub proof fn law_world_fits_map(cells: int)
    requires
        cells >= 3,
    ensures
        stage_start(Stage::Done, cells) <= cells,
{
    assert(cells / 30 + cells / 40 + cells / 24 + cells / 50 + cells / 80 <= cells / 2) by (nonlinear_arith)
        requires
            cells >= 3,
    ;
    if cells < 50 {
        assert(cells / 50 == 0 && cells / 24 <= 2 && cells / 30 <= 1 && cells / 40 <= 1 && cells / 80 == 0);
    }
}

/// Whether `after` is `before` with at most its pick-up state advanced: the
/// same kind, cell and look, and nothing collected, eaten or opened is put back.
pub open spec fn only_picked_up(before: Entity, after: Entity) -> bool {
    &&& after.x == before.x
    &&& after.y == before.y
    &&& after.symbol == before.symbol
    &&& after.color == before.color
    &&& match (before.entity_type, after.entity_type) {
        (EntityType::Animal, EntityType::Animal) => true,
        (EntityType::Plant, EntityType::Plant) => true,
        (EntityType::Object { collected: c0 }, EntityType::Object { collected: c1 }) => c0 ==> c1,
        (EntityType::Food { eaten: e0, kind: k0 }, EntityType::Food { eaten: e1, kind: k1 }) => k0
            == k1 && (e0 ==> e1),
        (EntityType::Chest { opened: o0 }, EntityType::Chest { opened: o1 }) => o0 ==> o1,
        _ => false,
    }
}

/// A move leaves the world itself alone: the map, its size and the start
/// time stay, and every entity keeps its kind, cell and look, changing at
/// most by being picked up.
pub proof fn law_move_keeps_world(v: GameView, dx: int, dy: int)
    ensures
        after_move(v, dx, dy).map == v.map,
        after_move(v, dx, dy).map_width == v.map_width,
        after_move(v, dx, dy).map_height == v.map_height,
        after_move(v, dx, dy).start_time == v.start_time,
        after_move(v, dx, dy).entities.len() == v.entities.len(),
        forall|i: int|
            0 <= i < v.entities.len() ==> only_picked_up(
                #[trigger] v.entities[i],
                after_move(v, dx, dy).entities[i],
            ),
{
}

/// 1 for an object on `(x, y)` that has not been collected yet.
pub open spec fn uncollected_object_at(x: int, y: int) -> spec_fn(Entity) -> nat {
    |e: Entity|
        if e.x == x && e.y == y && e.entity_type == (EntityType::Object { collected: false }) {
            1nat
        } else {
            0nat
        }
}

/// Picking up on `(x, y)` touches only the entities on that cell: every
/// other entity stays exactly as it was; on the cell an object becomes
/// collected, a food eaten (of the same kind) and a chest opened, animals and
/// plants stay, and no entity moves or changes its look.
pub proof fn law_pickup_touches_only_its_cell(es: Seq<Entity>, x: int, y: int)
    ensures
        visit_all(es, x, y).len() == es.len(),
        forall|i: int|
            0 <= i < es.len() && !(es[i].x == x && es[i].y == y) ==> #[trigger] visit_all(es, x, y)[i]
                == es[i],
        forall|i: int|
            0 <= i < es.len() && es[i].x == x && es[i].y == y ==> {
                let a = #[trigger] visit_all(es, x, y)[i];
                &&& a.x == es[i].x
                &&& a.y == es[i].y
                &&& a.symbol == es[i].symbol
                &&& a.color == es[i].color
                &&& match es[i].entity_type {
                    EntityType::Animal => a.entity_type == EntityType::Animal,
                    EntityType::Plant => a.entity_type == EntityType::Plant,
                    EntityType::Object { .. } => a.entity_type == (EntityType::Object {
                        collected: true,
                    }),
                    EntityType::Food { kind, .. } => a.entity_type == (EntityType::Food {
                        eaten: true,
                        kind,
                    }),
                    EntityType::Chest { .. } => a.entity_type == (EntityType::Chest { opened: true }),
                }
            },
{
}

/// 1 for a chest on `(x, y)` that has not been opened yet.
pub open spec fn unopened_chest_at(x: int, y: int) -> spec_fn(Entity) -> nat {
    |e: Entity|
        if e.x == x && e.y == y && e.entity_type == (EntityType::Chest { opened: false }) {
            1nat
        } else {
            0nat
        }
}

/// The stamina a food on `(x, y)` that has not been eaten yet restores.
pub open spec fn uneaten_food_at(x: int, y: int) -> spec_fn(Entity) -> nat {
    |e: Entity|
        match e.entity_type {
            EntityType::Food { eaten: false, kind } => if e.x == x && e.y == y {
                kind.stamina_of() as nat
            } else {
                0nat
            },
            _ => 0nat,
        }
}

/// Picking up on `(x, y)` adds to the collected objects exactly the objects
/// on that cell that were not collected yet, to the opened chests exactly
/// the chests there not opened yet, and takes from the stamina still to be
/// eaten exactly that of the foods there not eaten yet.
pub proof fn law_pickup_counts_its_cell(es: Seq<Entity>, x: int, y: int)
    ensures
        total(visit_all(es, x, y), collected_weight()) == total(es, collected_weight()) + total(
            es,
            uncollected_object_at(x, y),
        ),
        total(visit_all(es, x, y), opened_weight()) == total(es, opened_weight()) + total(
            es,
            unopened_chest_at(x, y),
        ),
        total(visit_all(es, x, y), pending_food_weight()) + total(es, uneaten_food_at(x, y))
            == total(es, pending_food_weight()),
    decreases es.len(),
{
    if es.len() > 0 {
        assert(visit_all(es, x, y).drop_last() =~= visit_all(es.drop_last(), x, y));
        law_pickup_counts_its_cell(es.drop_last(), x, y);
    }
}

/// A move that happens (the player has stamina left and the target cell is
/// on the map) takes the player exactly by `(dx, dy)`; any other move leaves
/// the game as it was.
pub proof fn law_move_goes_by_its_step(v: GameView, dx: int, dy: int)
    ensures
        (v.stamina != 0 && 0 <= v.player_x + dx < v.map_width && 0 <= v.player_y + dy
            < v.map_height) ==> after_move(v, dx, dy).player_x == v.player_x + dx && after_move(
            v,
            dx,
            dy,
        ).player_y == v.player_y + dy,
        !(v.stamina != 0 && 0 <= v.player_x + dx < v.map_width && 0 <= v.player_y + dy
            < v.map_height) ==> after_move(v, dx, dy) == v,
{
}

/// A player at `(px, py)` on a `width` by `height` map sees exactly the cells
/// of the map within distance 5 of it, in every direction alike.
pub proof fn law_vision_is_radius_five(px: int, py: int, width: int, height: int, x: int, y: int)
    ensures
        vision(px, py, width, height).contains((x, y)) <==> (0 <= x < width && 0 <= y < height && (x
            - px) * (x - px) + (y - py) * (y - py) <= 25),
{
}

/// What a seen cell shows follows what stands on it: fog exactly when it
/// was not seen, the player exactly where the player stands; elsewhere an
/// animal, a plant, a food, a chest or an object not collected yet is drawn
/// (the first such entity of the list, with its look), and the bare ground
/// only when nothing but collected objects lies there.
pub proof fn law_cell_shows_what_stands_there(v: GameView, x: int, y: int, c: CellView)
    requires
        cell_shows(v, x, y, c),
    ensures
        (c is Fog) <==> !v.discovered.contains((x, y)),
        (c is Player) <==> (v.discovered.contains((x, y)) && v.player_x == x && v.player_y == y),
        (v.discovered.contains((x, y)) && !(v.player_x == x && v.player_y == y) && exists|i: int|
            0 <= i < v.entities.len() && (#[trigger] v.entities[i]).x == x && v.entities[i].y == y
                && v.entities[i].entity_type != (EntityType::Object { collected: true })) ==> c is Thing,
        c is Ground ==> forall|i: int|
            0 <= i < v.entities.len() && (#[trigger] v.entities[i]).x == x && v.entities[i].y == y
                ==> v.entities[i].entity_type == (EntityType::Object { collected: true }),
        match c {
            CellView::Ground(t) => t == v.map[y][x],
            CellView::Thing { symbol, color } => exists|i: int|
                {
                    &&& 0 <= i < v.entities.len()
                    &&& (#[trigger] v.entities[i]).x == x
                    &&& v.entities[i].y == y
                    &&& v.entities[i].entity_type != (EntityType::Object { collected: true })
                    &&& forall|j: int|
                        0 <= j < i && (#[trigger] v.entities[j]).x == x && v.entities[j].y == y
                            ==> v.entities[j].entity_type == (EntityType::Object { collected: true })
                    &&& symbol == match v.entities[i].entity_type {
                        EntityType::Food { eaten, kind } => kind.symbol_of(eaten),
                        EntityType::Chest { opened } => if opened { '▣' } else { '□' },
                        _ => v.entities[i].symbol,
                    }
                    &&& color@ == match v.entities[i].entity_type {
                        EntityType::Food { eaten, kind } => kind.color_text(eaten),
                        EntityType::Chest { opened } => if opened { "#cccc99"@ } else { "#ffcc66"@ },
                        _ => v.entities[i].color@,
                    }
                },
            _ => true,
        },
{
    match c {
        CellView::Thing { symbol, color } => {
            let i = choose|i: int|
                #[trigger] first_shown(v.entities, i, x, y) && symbol == crate::game::look_symbol(
                    v.entities[i],
                ) && color@ == crate::game::look_color(v.entities[i]);
            assert(v.entities[i].x == x);
            assert forall|j: int|
                0 <= j < i && (#[trigger] v.entities[j]).x == x && v.entities[j].y == y implies v.entities[j].entity_type
                == (EntityType::Object { collected: true }) by {
                assert(!crate::game::shown_at(v.entities[j], x, y));
            }
        },
        CellView::Ground(t) => {
            assert forall|i: int|
                0 <= i < v.entities.len() && (#[trigger] v.entities[i]).x == x && v.entities[i].y == y implies v.entities[i].entity_type
                == (EntityType::Object { collected: true }) by {
                assert(!crate::game::shown_at(v.entities[i], x, y));
            }
        },
        _ => {},
    }
}

/// A draw, read as a fraction of the unit interval, falls on water below
/// 0.05, on mountains from there below 0.1, on forest from there below 0.2,
/// and on plain from 0.2 up.
pub proof fn law_terrain_thresholds(d: u64)
    ensures
        (terrain_of(d) == Terrain::Water) <==> d < 0x0CCC_CCCC_CCCC_CD00,
        (terrain_of(d) == Terrain::Mountain) <==> (0x0CCC_CCCC_CCCC_CD00 <= d && d
            < 0x1999_9999_9999_9A00),
        (terrain_of(d) == Terrain::Forest) <==> (0x1999_9999_9999_9A00 <= d && d
            < 0x3333_3333_3333_3400),
        (terrain_of(d) == Terrain::Plain) <==> d >= 0x3333_3333_3333_3400,
{
}

/// A draw selects the index in `0..n` whose stretch of the unit interval
/// holds the draw's fraction: `i / n <= draw / 2^64 < (i + 1) / n`.
pub proof fn law_scaled_draw_is_its_fraction(d: u64, n: int)
    requires
        n >= 1,
    ensures
        0 <= scaled(d, n) < n,
        scaled(d, n) * 0x1_0000_0000_0000_0000 <= d * n,
        d * n < (scaled(d, n) + 1) * 0x1_0000_0000_0000_0000,
{
    let q = (d * n) / 0x1_0000_0000_0000_0000int;
    assert(0 <= d * n < 0x1_0000_0000_0000_0000int * n) by (nonlinear_arith)
        requires
            0 <= d < 0x1_0000_0000_0000_0000int,
            n >= 1,
    ;
    assert(q * 0x1_0000_0000_0000_0000int <= d * n < (q + 1) * 0x1_0000_0000_0000_0000int);
    assert(0 <= q < n) by (nonlinear_arith)
        requires
            q * 0x1_0000_0000_0000_0000int <= d * n,
            d * n < 0x1_0000_0000_0000_0000int * n,
            0 <= d * n,
            d * n < (q + 1) * 0x1_0000_0000_0000_0000int,
    ;
}

/// A finished world on a map of `c` cells holds `c / 30` animals, then
/// `c / 40` plants, then `c / 24` objects not collected yet, then
/// `max(c / 50, 2)` foods not eaten yet, then `max(c / 80, 1)` chests not
/// opened yet, and nothing else; animals are drawn red, plants green,
/// objects blue and chests as a closed golden box.
pub proof fn law_finished_world_counts(v: BuilderView)
    requires
        builder_view_wf(v),
        v.stage == Stage::Done,
    ensures
        ({
            let c = v.map_width * v.map_height;
            let a = c / 30;
            let p = a + c / 40;
            let o = p + c / 24;
            let f = o + if c / 50 > 2 { c / 50 } else { 2 };
            let k = f + if c / 80 > 1 { c / 80 } else { 1 };
            &&& v.entities.len() == k
            &&& forall|i: int|
                0 <= i < a ==> (#[trigger] v.entities[i]).entity_type == EntityType::Animal
                    && v.entities[i].color@ == "#ff6666"@
            &&& forall|i: int|
                a <= i < p ==> (#[trigger] v.entities[i]).entity_type == EntityType::Plant
                    && v.entities[i].color@ == "#66cc66"@
            &&& forall|i: int|
                p <= i < o ==> (#[trigger] v.entities[i]).entity_type == (EntityType::Object {
                    collected: false,
                }) && v.entities[i].color@ == "#6699ff"@
            &&& forall|i: int|
                o <= i < f ==> ((#[trigger] v.entities[i]).entity_type is Food
                    && !v.entities[i].entity_type->eaten)
            &&& forall|i: int|
                f <= i < k ==> (#[trigger] v.entities[i]).entity_type == (EntityType::Chest {
                    opened: false,
                }) && v.entities[i].symbol == '□' && v.entities[i].color@ == "#ffcc66"@
            &&& total(v.entities, chest_weight()) == if c / 80 > 1 { c / 80 } else { 1 }
        }),
{
    let c = v.map_width * v.map_height;
    assert(c >= 1) by (nonlinear_arith)
        requires
            c == v.map_width * v.map_height,
            v.map_width >= 1,
            v.map_height >= 1,
    ;
    assert(c / 30 + c / 40 + c / 24 <= c) by (nonlinear_arith)
        requires
            c >= 1,
    ;
    assert(crate::generation::animal_target(c) == c / 30);
    assert(crate::generation::plant_target(c) == c / 40);
    assert(crate::generation::object_target(c) == c / 24);
    assert forall|i: int| 0 <= i < v.entities.len() implies fresh_of(
        #[trigger] v.entities[i],
        slot_stage(i, c),
    ) by {}
}

/// Every move a key asks for is one cell up, down, left or right.
pub proof fn law_key_moves_are_single_steps(key: Seq<char>)
    ensures
        match command_of(key) {
            KeyCommand::Move { dx, dy } => (dx == 0 && (dy == 1 || dy == -1)) || (dy == 0 && (dx == 1
                || dx == -1)),
            _ => true,
        },
{
}
} // verus!
