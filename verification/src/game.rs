//! The state of a game in progress: where the player is, what it has seen,
//! and what it has picked up on the way.
use vstd::prelude::*;
use crate::tally::{
    chest_weight, collected_weight, lemma_total_le_len, lemma_total_mono, lemma_total_update,
    lemma_weight_le_total, object_weight, opened_weight, pending_food_weight, total,
};
use crate::text::{decimal, push_decimal};
use crate::generation::{Stage, WorldBuilder};
use crate::world::{
    Entity, EntityType, FoodKind, Terrain, CHEST_SCORE, PLAYER_VISION, START_STAMINA,
};
use crate::laws::{
    law_pickup_counts_its_cell, law_pickup_touches_only_its_cell, uncollected_object_at,
    uneaten_food_at, unopened_chest_at,
};

verus! {

/// Whether a player standing at `(px, py)` sees the cell `(x, y)`: the cell
/// lies within the vision radius, measured as a Euclidean distance.
pub open spec fn sees(px: int, py: int, x: int, y: int) -> bool {
    (x - px) * (x - px) + (y - py) * (y - py) <= PLAYER_VISION * PLAYER_VISION
}

/// Whether `(x, y)` is a cell of a `width` by `height` map.
pub open spec fn on_map(x: int, y: int, width: int, height: int) -> bool {
    0 <= x < width && 0 <= y < height
}

/// The cells of a `width` by `height` map that a player at `(px, py)` sees.
pub open spec fn vision(px: int, py: int, width: int, height: int) -> Set<(int, int)> {
    Set::new(|c: (int, int)| on_map(c.0, c.1, width, height) && sees(px, py, c.0, c.1))
}

/// A seen cell lies within the vision radius along each axis.
pub proof fn lemma_sees_within_radius(px: int, py: int, x: int, y: int)
    requires
        sees(px, py, x, y),
    ensures
        -5 <= x - px <= 5,
        -5 <= y - py <= 5,
{
    let a = x - px;
    let b = y - py;
    assert(a * a >= 0 && b * b >= 0) by (nonlinear_arith);
    assert(a * a <= 25 ==> -5 <= a <= 5) by (nonlinear_arith);
    assert(b * b <= 25 ==> -5 <= b <= 5) by (nonlinear_arith);
}

/// Whether `g` is a grid of `height` rows of `width` flags.
pub open spec fn grid_shape(g: Seq<Vec<bool>>, width: int, height: int) -> bool {
    &&& g.len() == height
    &&& forall|y: int| 0 <= y < height ==> #[trigger] g[y]@.len() == width
}

/// The cells flagged in a grid.
pub open spec fn flagged(g: Seq<Vec<bool>>, width: int, height: int) -> Set<(int, int)> {
    Set::new(|c: (int, int)| on_map(c.0, c.1, width, height) && g[c.1]@[c.0])
}

/// Flags every cell of the grid that a player at `(px, py)` sees.
pub fn reveal_around(grid: &mut Vec<Vec<bool>>, px: usize, py: usize, width: usize, height: usize)
    requires
        grid_shape(old(grid)@, width as int, height as int),
        px < width <= isize::MAX - 4,
        py < height <= isize::MAX - 4,
    ensures
        grid_shape(final(grid)@, width as int, height as int),
        forall|x: int, y: int|
            on_map(x, y, width as int, height as int) ==> (#[trigger] final(grid)@[y]@[x] == (
            old(grid)@[y]@[x] || sees(px as int, py as int, x, y))),
        forall|x: int, y: int|
            0 <= x < width && 0 <= y < height ==> (#[trigger] final(grid)@[y]@[x] == (
            old(grid)@[y]@[x] || (x - px) * (x - px) + (y - py) * (y - py) <= 25)),
{
    let r: isize = PLAYER_VISION as isize;
    let cx = px as isize;
    let cy = py as isize;
    let w = width as isize;
    let h = height as isize;
    let ghost g0 = grid@;
    let mut dy: isize = -r;
    proof {
        assert forall|x2: int, y2: int|
            on_map(x2, y2, width as int, height as int) implies (#[trigger] grid@[y2]@[x2] == (
            g0[y2]@[x2] || (sees(px as int, py as int, x2, y2) && y2 - py < dy))) by {
            if sees(px as int, py as int, x2, y2) {
                lemma_sees_within_radius(px as int, py as int, x2, y2);
            }
        }
    }
    while dy <= r
        invariant
            r == 5,
            cx == px,
            cy == py,
            w == width,
            h == height,
            px < width <= isize::MAX - 4,
            py < height <= isize::MAX - 4,
            -5 <= dy <= 6,
            grid_shape(grid@, width as int, height as int),
            g0.len() == height,
            forall|x: int, y: int|
                on_map(x, y, width as int, height as int) ==> (#[trigger] grid@[y]@[x] == (g0[y]@[x]
                    || (sees(px as int, py as int, x, y) && y - py < dy))),
        decreases 6 - dy,
    {
        let mut dx: isize = -r;
        proof {
            assert forall|x2: int, y2: int|
                on_map(x2, y2, width as int, height as int) implies (#[trigger] grid@[y2]@[x2] == (
                g0[y2]@[x2] || (sees(px as int, py as int, x2, y2) && (y2 - py < dy || (y2 - py
                == dy && x2 - px < dx))))) by {
                if sees(px as int, py as int, x2, y2) {
                    lemma_sees_within_radius(px as int, py as int, x2, y2);
                }
            }
        }
        while dx <= r
            invariant
                r == 5,
                cx == px,
                cy == py,
                w == width,
                h == height,
                px < width <= isize::MAX - 4,
                py < height <= isize::MAX - 4,
                -5 <= dy <= 5,
                -5 <= dx <= 6,
                grid_shape(grid@, width as int, height as int),
                g0.len() == height,
                forall|x: int, y: int|
                    on_map(x, y, width as int, height as int) ==> (#[trigger] grid@[y]@[x] == (
                    g0[y]@[x] || (sees(px as int, py as int, x, y) && (y - py < dy || (y - py == dy
                        && x - px < dx))))),
            decreases 6 - dx,
        {
            let x = cx + dx;
            let y = cy + dy;
            if x >= 0 && x < w && y >= 0 && y < h {
                assert(0 <= dx * dx <= 25 && 0 <= dy * dy <= 25) by (nonlinear_arith)
                    requires
                        -5 <= dx <= 5,
                        -5 <= dy <= 5,
                ;
                if dx * dx + dy * dy <= r * r {
                    let xu = x as usize;
                    let yu = y as usize;
                    let ghost before = grid@;
                    grid[yu].set(xu, true);
                    assert forall|x2: int, y2: int|
                        on_map(x2, y2, width as int, height as int) implies (#[trigger] grid@[y2]@[x2]
                        == (g0[y2]@[x2] || (sees(px as int, py as int, x2, y2) && (y2 - py < dy || (
                        y2 - py == dy && x2 - px < dx + 1))))) by {
                        if y2 == yu && x2 == xu {
                        } else {
                            assert(grid@[y2]@[x2] == before[y2]@[x2]);
                        }
                    }
                }
            }
            proof {
                assert forall|x2: int, y2: int|
                    on_map(x2, y2, width as int, height as int) implies (#[trigger] grid@[y2]@[x2]
                    == (g0[y2]@[x2] || (sees(px as int, py as int, x2, y2) && (y2 - py < dy || (y2
                    - py == dy && x2 - px < dx + 1))))) by {
                    if y2 - py == dy && x2 - px == dx && sees(px as int, py as int, x2, y2) {
                        assert(x2 == x && y2 == y);
                    }
                }
            }
            dx = dx + 1;
        }
        proof {
            assert forall|x2: int, y2: int|
                on_map(x2, y2, width as int, height as int) implies (#[trigger] grid@[y2]@[x2] == (
                g0[y2]@[x2] || (sees(px as int, py as int, x2, y2) && y2 - py < dy + 1))) by {
                if sees(px as int, py as int, x2, y2) {
                    lemma_sees_within_radius(px as int, py as int, x2, y2);
                }
            }
        }
        dy = dy + 1;
    }
    proof {
        assert forall|x2: int, y2: int|
            on_map(x2, y2, width as int, height as int) implies (#[trigger] grid@[y2]@[x2] == (
            g0[y2]@[x2] || sees(px as int, py as int, x2, y2))) by {
            if sees(px as int, py as int, x2, y2) {
                lemma_sees_within_radius(px as int, py as int, x2, y2);
            }
        }
    }
}

} // verus!

verus! {

/// The entity `e` after the player stepped on `(px, py)`: an object there is
/// collected, a food there is eaten and a chest there is opened.
pub open spec fn visited(e: Entity, px: int, py: int) -> Entity {
    if e.x == px && e.y == py {
        match e.entity_type {
            EntityType::Object { collected: false } => Entity {
                entity_type: EntityType::Object { collected: true },
                ..e
            },
            EntityType::Food { eaten: false, kind } => Entity {
                entity_type: EntityType::Food { eaten: true, kind },
                ..e
            },
            EntityType::Chest { opened: false } => Entity {
                entity_type: EntityType::Chest { opened: true },
                ..e
            },
            _ => e,
        }
    } else {
        e
    }
}

/// Every entity of `es` after the player stepped on `(px, py)`.
pub open spec fn visit_all(es: Seq<Entity>, px: int, py: int) -> Seq<Entity> {
    Seq::new(es.len(), |i: int| visited(es[i], px, py))
}

/// The message shown after eating `kind`.
pub open spec fn food_message(kind: FoodKind) -> Seq<char> {
    "你吃了"@ + kind.name_text() + "，体力+"@ + decimal(kind.stamina_of() as nat) + "！"@
}

/// The message shown after opening a chest.
pub open spec fn chest_message() -> Seq<char> {
    "你打开了宝箱，获得10分！"@
}

/// The message after the player stepped on `(px, py)` and met `e`, given the message `m` before.
pub open spec fn message_step(e: Entity, px: int, py: int, m: Option<Seq<char>>) -> Option<
    Seq<char>,
> {
    if e.x == px && e.y == py {
        match e.entity_type {
            EntityType::Food { eaten: false, kind } => Some(food_message(kind)),
            EntityType::Chest { opened: false } => Some(chest_message()),
            _ => m,
        }
    } else {
        m
    }
}

/// The message after the player stepped on `(px, py)` and met the entities of
/// `es` in order: that of the last food eaten or chest opened, else `m`.
pub open spec fn message_after(es: Seq<Entity>, px: int, py: int, m: Option<Seq<char>>) -> Option<
    Seq<char>,
>
    decreases es.len(),
{
    if es.len() == 0 {
        m
    } else {
        message_step(es.last(), px, py, message_after(es.drop_last(), px, py, m))
    }
}

/// What a game state holds, as mathematical values.
#[verifier::ext_equal]
pub struct GameView {
    pub player_x: int,
    pub player_y: int,
    pub map_width: int,
    pub map_height: int,
    /// The terrain, row by row.
    pub map: Seq<Seq<Terrain>>,
    /// The cells the player has seen so far.
    pub discovered: Set<(int, int)>,
    pub entities: Seq<Entity>,
    pub items_collected: int,
    pub start_time: int,
    pub stamina: int,
    pub score: int,
    pub message: Option<Seq<char>>,
}

/// A game in progress.
pub struct GameState {
    player_x: usize,
    player_y: usize,
    discovered: Vec<Vec<bool>>,
    entities: Vec<Entity>,
    items_collected: usize,
    start_time: u64,
    map: Vec<Vec<Terrain>>,
    map_width: usize,
    map_height: usize,
    stamina: u32,
    score: u32,
    message: Option<String>,
}

/// The text of an optional message.
pub open spec fn message_text(m: Option<String>) -> Option<Seq<char>> {
    match m {
        Some(s) => Some(s@),
        None => None,
    }
}

impl View for GameState {
    type V = GameView;

    closed spec fn view(&self) -> GameView {
        GameView {
            player_x: self.player_x as int,
            player_y: self.player_y as int,
            map_width: self.map_width as int,
            map_height: self.map_height as int,
            map: Seq::new(self.map@.len(), |y: int| self.map@[y]@),
            discovered: flagged(self.discovered@, self.map_width as int, self.map_height as int),
            entities: self.entities@,
            items_collected: self.items_collected as int,
            start_time: self.start_time as int,
            stamina: self.stamina as int,
            score: self.score as int,
            message: message_text(self.message),
        }
    }
}

/// Whether a game view is consistent: the player and every entity lie on
/// the map, every seen cell lies on the map, the counters agree with the
/// entities, and no later pick-up can overflow them.
pub open spec fn view_wf(v: GameView) -> bool {
    &&& 1 <= v.map_width <= isize::MAX - 4
    &&& 1 <= v.map_height <= isize::MAX - 4
    &&& v.map.len() == v.map_height
    &&& forall|y: int| 0 <= y < v.map_height ==> #[trigger] v.map[y].len() == v.map_width
    &&& on_map(v.player_x, v.player_y, v.map_width, v.map_height)
    &&& forall|c: (int, int)| #[trigger] v.discovered.contains(c) ==> on_map(c.0, c.1, v.map_width, v.map_height)
    &&& forall|i: int| 0 <= i < v.entities.len() ==> on_map(#[trigger] v.entities[i].x as int, v.entities[i].y as int, v.map_width, v.map_height)
    &&& v.items_collected == total(v.entities, collected_weight())
    &&& v.score == CHEST_SCORE * total(v.entities, opened_weight())
    &&& v.stamina + total(v.entities, pending_food_weight()) <= u32::MAX
    &&& CHEST_SCORE * total(v.entities, chest_weight()) <= u32::MAX
}

impl GameState {
    /// A consistent state has a consistent view: the player, the entities
    /// and the seen cells lie on the map, and the counters agree with the
    /// entities.
    pub proof fn lemma_wf_view(&self)
        requires
            self.wf(),
        ensures
            view_wf(self@),
    {
    }

    /// Whether the state is consistent; every state this library builds is.
    pub closed spec fn wf(&self) -> bool {
        &&& view_wf(self@)
        &&& self.map@.len() == self.map_height
        &&& forall|y: int| 0 <= y < self.map_height ==> #[trigger] self.map@[y]@.len() == self.map_width
        &&& grid_shape(self.discovered@, self.map_width as int, self.map_height as int)
    }

    /// Marks as discovered every cell the player sees from where it stands.
    pub fn update_discovered_area(&mut self)
        requires
            old(self).wf(),
        ensures
            final(self).wf(),
            final(self)@ == (GameView {
                discovered: old(self)@.discovered.union(
                    vision(old(self)@.player_x, old(self)@.player_y, old(self)@.map_width, old(self)@.map_height),
                ),
                ..old(self)@
            }),
            forall|x: int, y: int|
                #[trigger] final(self)@.discovered.contains((x, y)) == (
                    old(self)@.discovered.contains((x, y))
                    || (0 <= x < old(self)@.map_width && 0 <= y < old(self)@.map_height
                        && (x - old(self)@.player_x) * (x - old(self)@.player_x)
                        + (y - old(self)@.player_y) * (y - old(self)@.player_y) <= 25)),
    {
        reveal_around(&mut self.discovered, self.player_x, self.player_y, self.map_width, self.map_height);
        assert(self@.discovered =~= old(self)@.discovered.union(
            vision(old(self)@.player_x, old(self)@.player_y, old(self)@.map_width, old(self)@.map_height),
        ));
        assert(self@.map =~= old(self)@.map);
    }
}


/// The text of the message shown after eating `kind`.
fn food_message_text(kind: FoodKind) -> (s: String)
    ensures
        s@ == food_message(kind),
{
    let mut s = "你吃了".to_owned();
    s.append(kind.name());
    s.append("，体力+");
    push_decimal(&mut s, kind.stamina() as u64);
    s.append("！");
    s
}

/// The text of the message shown after opening a chest.
fn chest_message_text() -> (s: String)
    ensures
        s@ == chest_message(),
{
    "你打开了宝箱，获得10分！".to_owned()
}

/// Weights that are each zero or one.
proof fn lemma_unit_weights()
    ensures
        forall|e: Entity| #[trigger] collected_weight()(e) <= 1,
        forall|e: Entity| #[trigger] opened_weight()(e) <= chest_weight()(e),
{
}

impl GameState {
    /// Picks up what lies on the player's cell: an object there is
    /// collected and counted, a food there is eaten and restores stamina, a
    /// chest there is opened and scores; the message tells of the last food
    /// eaten or chest opened. Things already picked up stay as they are.
    pub fn check_for_items(&mut self)
        requires
            old(self).wf(),
        ensures
            final(self).wf(),
            final(self)@ == (GameView {
                entities: visit_all(old(self)@.entities, old(self)@.player_x, old(self)@.player_y),
                items_collected: total(
                    visit_all(old(self)@.entities, old(self)@.player_x, old(self)@.player_y),
                    collected_weight(),
                ) as int,
                stamina: old(self)@.stamina + total(old(self)@.entities, pending_food_weight())
                    - total(
                    visit_all(old(self)@.entities, old(self)@.player_x, old(self)@.player_y),
                    pending_food_weight(),
                ),
                score: CHEST_SCORE * total(
                    visit_all(old(self)@.entities, old(self)@.player_x, old(self)@.player_y),
                    opened_weight(),
                ),
                message: message_after(
                    old(self)@.entities,
                    old(self)@.player_x,
                    old(self)@.player_y,
                    old(self)@.message,
                ),
                ..old(self)@
            }),
            final(self)@.stamina >= old(self)@.stamina,
            final(self)@.entities.len() == old(self)@.entities.len(),
            forall|i: int|
                0 <= i < old(self)@.entities.len() && !(old(self)@.entities[i].x == old(self)@.player_x
                    && old(self)@.entities[i].y == old(self)@.player_y)
                    ==> #[trigger] final(self)@.entities[i] == old(self)@.entities[i],
            final(self)@.items_collected == old(self)@.items_collected + total(
                old(self)@.entities,
                uncollected_object_at(old(self)@.player_x, old(self)@.player_y),
            ),
            final(self)@.score == old(self)@.score + 10 * total(
                old(self)@.entities,
                unopened_chest_at(old(self)@.player_x, old(self)@.player_y),
            ),
            final(self)@.stamina == old(self)@.stamina + total(
                old(self)@.entities,
                uneaten_food_at(old(self)@.player_x, old(self)@.player_y),
            ),
    {
        let px = self.player_x;
        let py = self.player_y;
        let mut es: Vec<Entity> = Vec::new();
        std::mem::swap(&mut es, &mut self.entities);
        let mut message: Option<String> = None;
        std::mem::swap(&mut message, &mut self.message);
        let mut items = self.items_collected;
        let mut stamina = self.stamina;
        let mut score = self.score;
        let ghost old_es = es@;
        let ghost old_msg = message_text(message);
        let n = es.len();
        proof {
            lemma_unit_weights();
        }
        let mut i: usize = 0;
        while i < n
            invariant
                0 <= i <= n,
                n == es@.len(),
                n == old_es.len(),
                forall|j: int| 0 <= j < i ==> #[trigger] es@[j] == visited(old_es[j], px as int, py as int),
                forall|j: int| i <= j < n ==> #[trigger] es@[j] == old_es[j],
                items == total(es@, collected_weight()),
                score == CHEST_SCORE * total(es@, opened_weight()),
                stamina + total(es@, pending_food_weight()) == old(self).stamina + total(old_es, pending_food_weight()),
                total(es@, chest_weight()) == total(old_es, chest_weight()),
                CHEST_SCORE * total(old_es, chest_weight()) <= u32::MAX,
                old(self).stamina + total(old_es, pending_food_weight()) <= u32::MAX,
                stamina >= old(self).stamina,
                message_text(message) == message_after(old_es.take(i as int), px as int, py as int, old_msg),
                forall|e: Entity| #[trigger] collected_weight()(e) <= 1,
                forall|e: Entity| #[trigger] opened_weight()(e) <= chest_weight()(e),
            decreases n - i,
        {
            let e = es[i];
            let ghost cur = es@;
            let ghost e2 = visited(e, px as int, py as int);
            assert(old_es.take(i + 1).drop_last() =~= old_es.take(i as int));
            let here = e.x == px && e.y == py;
            match e.entity_type {
                EntityType::Object { collected } => {
                    if !collected && here {
                        es.set(i, Entity { entity_type: EntityType::Object { collected: true }, ..e });
                        proof {
                            lemma_total_update(cur, i as int, e2, collected_weight());
                            lemma_total_update(cur, i as int, e2, opened_weight());
                            lemma_total_update(cur, i as int, e2, pending_food_weight());
                            lemma_total_update(cur, i as int, e2, chest_weight());
                            lemma_total_le_len(es@, collected_weight());
                        }
                        items = items + 1;
                    }
                },
                EntityType::Food { eaten, kind } => {
                    if !eaten && here {
                        es.set(i, Entity { entity_type: EntityType::Food { eaten: true, kind }, ..e });
                        proof {
                            lemma_total_update(cur, i as int, e2, collected_weight());
                            lemma_total_update(cur, i as int, e2, opened_weight());
                            lemma_total_update(cur, i as int, e2, pending_food_weight());
                            lemma_total_update(cur, i as int, e2, chest_weight());
                            lemma_weight_le_total(cur, i as int, pending_food_weight());
                        }
                        stamina = stamina + kind.stamina();
                        message = Some(food_message_text(kind));
                    }
                },
                EntityType::Chest { opened } => {
                    if !opened && here {
                        es.set(i, Entity { entity_type: EntityType::Chest { opened: true }, ..e });
                        proof {
                            lemma_total_update(cur, i as int, e2, collected_weight());
                            lemma_total_update(cur, i as int, e2, opened_weight());
                            lemma_total_update(cur, i as int, e2, pending_food_weight());
                            lemma_total_update(cur, i as int, e2, chest_weight());
                            lemma_total_mono(es@, opened_weight(), chest_weight());
                        }
                        score = score + CHEST_SCORE;
                        message = Some(chest_message_text());
                    }
                },
                _ => {},
            }
            proof {
                assert(es@ =~= cur.update(i as int, e2));
            }
            i = i + 1;
        }
        proof {
            assert(old_es.take(n as int) =~= old_es);
            assert(es@ =~= visit_all(old_es, px as int, py as int));
        }
        proof {
            law_pickup_touches_only_its_cell(old_es, px as int, py as int);
            law_pickup_counts_its_cell(old_es, px as int, py as int);
        }
        self.entities = es;
        self.message = message;
        self.items_collected = items;
        self.stamina = stamina;
        self.score = score;
        assert(self@.map =~= old(self)@.map);
        assert(self@.discovered =~= old(self)@.discovered);
    }
}

/// The game after the player stepped onto the cell `(x, y)`: it stands
/// there, sees around it, picks up what lies there and spends one stamina.
pub open spec fn step_onto(v: GameView, x: int, y: int) -> GameView {
    let es = visit_all(v.entities, x, y);
    GameView {
        player_x: x,
        player_y: y,
        discovered: v.discovered.union(vision(x, y, v.map_width, v.map_height)),
        entities: es,
        items_collected: total(es, collected_weight()) as int,
        stamina: v.stamina + total(v.entities, pending_food_weight()) - total(es, pending_food_weight()) - 1,
        score: CHEST_SCORE * total(es, opened_weight()),
        message: message_after(v.entities, x, y, v.message),
        ..v
    }
}

/// The game after an attempt to move the player by `(dx, dy)`: nothing
/// changes when the player has no stamina left or the target cell lies off
/// the map; otherwise the player steps onto the target cell.
pub open spec fn after_move(v: GameView, dx: int, dy: int) -> GameView {
    let x = v.player_x + dx;
    let y = v.player_y + dy;
    if v.stamina == 0 || !on_map(x, y, v.map_width, v.map_height) {
        v
    } else {
        step_onto(v, x, y)
    }
}

impl GameState {
    /// Moves the player by `(dx, dy)`. Nothing happens when the player has
    /// no stamina left or the target cell lies off the map; otherwise the
    /// player steps onto the target cell (see `step_onto`).
    pub fn move_player(&mut self, dx: isize, dy: isize)
        requires
            old(self).wf(),
            old(self)@.stamina > 0 ==> isize::MIN <= old(self)@.player_x + dx <= isize::MAX,
            old(self)@.stamina > 0 ==> isize::MIN <= old(self)@.player_y + dy <= isize::MAX,
        ensures
            final(self).wf(),
            final(self)@ == after_move(old(self)@, dx as int, dy as int),
    {
        if self.stamina == 0 {
            return;
        }
        let new_x = self.player_x as isize + dx;
        let new_y = self.player_y as isize + dy;
        if new_x >= 0 && new_x < self.map_width as isize && new_y >= 0 && new_y
            < self.map_height as isize {
            self.player_x = new_x as usize;
            self.player_y = new_y as usize;
            self.update_discovered_area();
            self.check_for_items();
            if self.stamina > 0 {
                self.stamina = self.stamina - 1;
            }
            assert(self@ =~= step_onto(old(self)@, new_x as int, new_y as int));
        }
    }
}

impl GameState {
    /// Starts a game on a finished world: the player stands in the middle
    /// of the map with full stamina and sees around it; nothing is picked
    /// up yet and no message is shown.
    pub fn start(world: WorldBuilder, start_time: u64) -> (g: GameState)
        requires
            world.wf(),
            world@.stage == Stage::Done,
        ensures
            g.wf(),
            g@ == (GameView {
                player_x: world@.map_width / 2,
                player_y: world@.map_height / 2,
                map_width: world@.map_width,
                map_height: world@.map_height,
                map: world@.map,
                discovered: vision(
                    world@.map_width / 2,
                    world@.map_height / 2,
                    world@.map_width,
                    world@.map_height,
                ),
                entities: world@.entities,
                items_collected: 0,
                start_time: start_time as int,
                stamina: START_STAMINA as int,
                score: 0,
                message: None,
            }),
    {
        let ghost wv = world@;
        let (map_width, map_height, map, entities) = world.into_parts();
        let mut discovered: Vec<Vec<bool>> = Vec::new();
        let mut y: usize = 0;
        while y < map_height
            invariant
                y <= map_height,
                grid_shape(discovered@, map_width as int, y as int),
                forall|x: int, y2: int| 0 <= x < map_width && 0 <= y2 < y ==> !#[trigger] discovered@[y2]@[x],
            decreases map_height - y,
        {
            let mut row: Vec<bool> = Vec::new();
            let mut x: usize = 0;
            while x < map_width
                invariant
                    x <= map_width,
                    row@.len() == x,
                    forall|x2: int| 0 <= x2 < x ==> !#[trigger] row@[x2],
                decreases map_width - x,
            {
                row.push(false);
                x = x + 1;
            }
            discovered.push(row);
            y = y + 1;
        }
        let mut g = GameState {
            player_x: map_width / 2,
            player_y: map_height / 2,
            discovered,
            entities,
            items_collected: 0,
            start_time,
            map,
            map_width,
            map_height,
            stamina: START_STAMINA,
            score: 0,
            message: None,
        };
        assert(g@.discovered =~= Set::empty());
        assert(g@.map =~= wv.map);
        g.update_discovered_area();
        assert(g@.discovered =~= vision(
            wv.map_width / 2,
            wv.map_height / 2,
            wv.map_width,
            wv.map_height,
        ));
        g
    }
}

/// What a map cell shows.
#[derive(Clone, Copy, Debug)]
pub enum CellView {
    /// The cell has not been seen yet.
    Fog,
    /// The player stands on the cell.
    Player,
    /// An entity is drawn on the cell.
    Thing { symbol: char, color: &'static str },
    /// Only the ground is drawn.
    Ground(Terrain),
}

/// Whether an entity is drawn at all: collected objects vanish, everything else stays.
pub open spec fn shown(e: Entity) -> bool {
    match e.entity_type {
        EntityType::Object { collected } => !collected,
        _ => true,
    }
}

/// Whether `e` is drawn on the cell `(x, y)`.
pub open spec fn shown_at(e: Entity, x: int, y: int) -> bool {
    e.x == x && e.y == y && shown(e)
}

/// The symbol an entity is drawn with: food and chests show whether they
/// were eaten or opened.
pub open spec fn look_symbol(e: Entity) -> char {
    match e.entity_type {
        EntityType::Food { eaten, kind } => kind.symbol_of(eaten),
        EntityType::Chest { opened } => if opened { '▣' } else { '□' },
        _ => e.symbol,
    }
}

/// The colour an entity is drawn with.
pub open spec fn look_color(e: Entity) -> Seq<char> {
    match e.entity_type {
        EntityType::Food { eaten, kind } => kind.color_text(eaten),
        EntityType::Chest { opened } => if opened { "#cccc99"@ } else { "#ffcc66"@ },
        _ => e.color@,
    }
}

/// Whether `i` is the first index of an entity of `es` drawn on `(x, y)`.
pub open spec fn first_shown(es: Seq<Entity>, i: int, x: int, y: int) -> bool {
    &&& 0 <= i < es.len()
    &&& shown_at(es[i], x, y)
    &&& forall|j: int| 0 <= j < i ==> !shown_at(#[trigger] es[j], x, y)
}

/// What the cell `(x, y)` of a game shows: fog until seen, then the player,
/// else the first entity drawn there, else the ground.
pub open spec fn cell_shows(v: GameView, x: int, y: int, c: CellView) -> bool {
    let seen = v.discovered.contains((x, y));
    let player_here = v.player_x == x && v.player_y == y;
    match c {
        CellView::Fog => !seen,
        CellView::Player => seen && player_here,
        CellView::Thing { symbol, color } => seen && !player_here && exists|i: int|
            #[trigger] first_shown(v.entities, i, x, y) && symbol == look_symbol(v.entities[i])
                && color@ == look_color(v.entities[i]),
        CellView::Ground(t) => seen && !player_here && (forall|i: int|
            0 <= i < v.entities.len() ==> !shown_at(#[trigger] v.entities[i], x, y)) && t == v.map[y][x],
    }
}

impl GameState {
    /// What the cell `(x, y)` shows.
    pub fn cell_view(&self, x: usize, y: usize) -> (c: CellView)
        requires
            self.wf(),
            on_map(x as int, y as int, self@.map_width, self@.map_height),
        ensures
            cell_shows(self@, x as int, y as int, c),
            (self@.discovered.contains((x as int, y as int)) && !(self@.player_x == x
                && self@.player_y == y) && exists|i: int|
                0 <= i < self@.entities.len() && (#[trigger] self@.entities[i]).x == x
                    && self@.entities[i].y == y && self@.entities[i].entity_type != (
                EntityType::Object { collected: true })) ==> c is Thing,
            c is Ground ==> forall|i: int|
                0 <= i < self@.entities.len() && (#[trigger] self@.entities[i]).x == x
                    && self@.entities[i].y == y ==> self@.entities[i].entity_type == (
                EntityType::Object { collected: true }),
    {
        if !self.discovered[y][x] {
            return CellView::Fog;
        }
        if self.player_x == x && self.player_y == y {
            return CellView::Player;
        }
        assert(self@.discovered.contains((x as int, y as int)));
        let n = self.entities.len();
        let mut i: usize = 0;
        while i < n
            invariant
                self.wf(),
                on_map(x as int, y as int, self@.map_width, self@.map_height),
                self@.discovered.contains((x as int, y as int)),
                !(self.player_x == x && self.player_y == y),
                n == self.entities@.len(),
                i <= n,
                forall|j: int| 0 <= j < i ==> !shown_at(#[trigger] self.entities@[j], x as int, y as int),
            decreases n - i,
        {
            let e = self.entities[i];
            let visible = match e.entity_type {
                EntityType::Object { collected } => !collected,
                _ => true,
            };
            if e.x == x && e.y == y && visible {
                let c = match e.entity_type {
                    EntityType::Food { eaten, kind } => CellView::Thing {
                        symbol: kind.symbol(eaten),
                        color: kind.color(eaten),
                    },
                    EntityType::Chest { opened } => if opened {
                        CellView::Thing { symbol: '▣', color: "#cccc99" }
                    } else {
                        CellView::Thing { symbol: '□', color: "#ffcc66" }
                    },
                    _ => CellView::Thing { symbol: e.symbol, color: e.color },
                };
                assert(first_shown(self@.entities, i as int, x as int, y as int));
                assert(self@.entities[i as int] == e);
                return c;
            }
            i = i + 1;
        }
        CellView::Ground(self.map[y][x])
    }

    /// How many objects the world holds, collected or not.
    pub fn object_count(&self) -> (n: usize)
        requires
            self.wf(),
        ensures
            n == total(self@.entities, object_weight()),
    {
        let mut n: usize = 0;
        let mut i: usize = 0;
        let len = self.entities.len();
        while i < len
            invariant
                len == self.entities@.len(),
                i <= len,
                n == total(self.entities@.take(i as int), object_weight()),
                n <= i,
            decreases len - i,
        {
            assert(self.entities@.take(i + 1).drop_last() =~= self.entities@.take(i as int));
            match self.entities[i].entity_type {
                EntityType::Object { .. } => {
                    n = n + 1;
                },
                _ => {},
            }
            i = i + 1;
        }
        assert(self.entities@.take(len as int) =~= self.entities@);
        n
    }

    /// Hides the message.
    pub fn clear_message(&mut self)
        requires
            old(self).wf(),
        ensures
            final(self).wf(),
            final(self)@ == (GameView { message: None, ..old(self)@ }),
    {
        self.message = None;
        assert(self@.map =~= old(self)@.map);
        assert(self@.discovered =~= old(self)@.discovered);
    }

    pub fn player_x(&self) -> (x: usize)
        ensures
            x == self@.player_x,
    {
        self.player_x
    }

    pub fn player_y(&self) -> (y: usize)
        ensures
            y == self@.player_y,
    {
        self.player_y
    }

    pub fn map_width(&self) -> (w: usize)
        ensures
            w == self@.map_width,
    {
        self.map_width
    }

    pub fn map_height(&self) -> (h: usize)
        ensures
            h == self@.map_height,
    {
        self.map_height
    }

    pub fn items_collected(&self) -> (n: usize)
        ensures
            n == self@.items_collected,
    {
        self.items_collected
    }

    pub fn stamina(&self) -> (s: u32)
        ensures
            s == self@.stamina,
    {
        self.stamina
    }

    pub fn score(&self) -> (s: u32)
        ensures
            s == self@.score,
    {
        self.score
    }

    pub fn start_time(&self) -> (t: u64)
        ensures
            t == self@.start_time,
    {
        self.start_time
    }

    /// The message shown, if any.
    pub fn message(&self) -> (m: Option<String>)
        ensures
            message_text(m) == self@.message,
    {
        match &self.message {
            Some(s) => Some(s.clone()),
            None => None,
        }
    }

    /// Whether the player has seen the cell `(x, y)`.
    pub fn is_discovered(&self, x: usize, y: usize) -> (b: bool)
        requires
            self.wf(),
        ensures
            b == self@.discovered.contains((x as int, y as int)),
    {
        if x < self.map_width && y < self.map_height {
            self.discovered[y][x]
        } else {
            false
        }
    }

    /// The entities of the world.
    pub fn entities(&self) -> (es: &Vec<Entity>)
        ensures
            es@ == self@.entities,
    {
        &self.entities
    }
}
} // verus!
