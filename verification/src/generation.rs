//! Building a new world from random draws.
//!
//! A draw is a `u64` read as the fraction `draw / 2^64` of the unit
//! interval; the caller supplies them, so that the rules below hold for every
//! outcome of the random source.
use vstd::prelude::*;
use crate::world::{
    animal_symbols, object_symbols, plant_symbols, Entity, EntityType, FoodKind, Terrain,
    CHEST_SCORE, FOOD_STAMINA_MAX, START_STAMINA,
};
use crate::tally::{
    chest_weight, collected_weight, food_weight, lemma_total_push, lemma_total_zero,
    opened_weight, pending_food_weight, total,
};

verus! {

/// The number of distinct draws: draws are fractions of this.
pub open spec fn draw_range() -> int {
    0x1_0000_0000_0000_0000
}

/// Draws below this fall on water: 0.05, as the nearest binary64 number, of the range.
pub const WATER_BELOW: u64 = 0x0CCC_CCCC_CCCC_CD00;

/// Draws below this and not on water fall on mountains: 0.1, as the nearest
/// binary64 number, of the range.
pub const MOUNTAIN_BELOW: u64 = 0x1999_9999_9999_9A00;

/// Draws below this and not on water or mountains fall on forest: 0.2, as
/// the nearest binary64 number, of the range.
pub const FOREST_BELOW: u64 = 0x3333_3333_3333_3400;

/// The terrain a draw yields.
pub open spec fn terrain_of(draw: u64) -> Terrain {
    if draw < WATER_BELOW {
        Terrain::Water
    } else if draw < MOUNTAIN_BELOW {
        Terrain::Mountain
    } else if draw < FOREST_BELOW {
        Terrain::Forest
    } else {
        Terrain::Plain
    }
}

/// The index in `0..n` a draw selects: the draw's fraction of `n`, rounded
/// down, and never past the last index.
pub open spec fn scaled(draw: u64, n: int) -> int {
    let q = (draw as int * n) / draw_range();
    if q < n - 1 { q } else { n - 1 }
}

/// The terrain a draw yields.
pub fn terrain_for(draw: u64) -> (t: Terrain)
    ensures
        t == terrain_of(draw),
        (t == Terrain::Water) <==> draw < 0x0CCC_CCCC_CCCC_CD00,
        (t == Terrain::Mountain) <==> (0x0CCC_CCCC_CCCC_CD00 <= draw && draw < 0x1999_9999_9999_9A00),
        (t == Terrain::Forest) <==> (0x1999_9999_9999_9A00 <= draw && draw < 0x3333_3333_3333_3400),
        (t == Terrain::Plain) <==> draw >= 0x3333_3333_3333_3400,
{
    if draw < WATER_BELOW {
        Terrain::Water
    } else if draw < MOUNTAIN_BELOW {
        Terrain::Mountain
    } else if draw < FOREST_BELOW {
        Terrain::Forest
    } else {
        Terrain::Plain
    }
}

proof fn lemma_scaled_below(draw: u64, n: int)
    requires
        n >= 1,
    ensures
        0 <= (draw as int * n) / draw_range() < n,
        draw as int * n < draw_range() * n,
{
    assert(0 <= draw as int * n < draw_range() * n) by (nonlinear_arith)
        requires
            0 <= draw < draw_range(),
            n >= 1,
    ;
    assert(0 <= (draw as int * n) / draw_range() < n) by (nonlinear_arith)
        requires
            0 <= draw as int * n < draw_range() * n,
            draw_range() > 0,
    ;
}

/// The index in `0..n` a draw selects.
pub fn scale_draw(draw: u64, n: usize) -> (i: usize)
    requires
        n >= 1,
    ensures
        i == scaled(draw, n as int),
        i < n,
{
    proof {
        lemma_scaled_below(draw, n as int);
    }
    let q = (draw as u128 * n as u128) / 0x1_0000_0000_0000_0000u128;
    let q = q as usize;
    if q < n - 1 {
        q
    } else {
        n - 1
    }
}

/// Whether `g` is a grid of `height` rows of `width` items.
pub open spec fn is_grid<T>(g: Seq<Vec<T>>, width: int, height: int) -> bool {
    &&& g.len() == height
    &&& forall|y: int| 0 <= y < height ==> #[trigger] g[y]@.len() == width
}

/// The map whose cells have the terrains that the draws yield, row by row.
pub fn generate_map(draws: &Vec<Vec<u64>>, width: usize, height: usize) -> (map: Vec<Vec<Terrain>>)
    requires
        is_grid(draws@, width as int, height as int),
    ensures
        is_grid(map@, width as int, height as int),
        forall|x: int, y: int|
            0 <= x < width && 0 <= y < height ==> #[trigger] map@[y]@[x] == terrain_of(draws@[y]@[x]),
{
    let mut map: Vec<Vec<Terrain>> = Vec::new();
    let mut y: usize = 0;
    while y < height
        invariant
            y <= height,
            is_grid(draws@, width as int, height as int),
            is_grid(map@, width as int, y as int),
            forall|x: int, y2: int|
                0 <= x < width && 0 <= y2 < y ==> #[trigger] map@[y2]@[x] == terrain_of(draws@[y2]@[x]),
        decreases height - y,
    {
        let mut row: Vec<Terrain> = Vec::new();
        let mut x: usize = 0;
        while x < width
            invariant
                x <= width,
                y < height,
                is_grid(draws@, width as int, height as int),
                row@.len() == x,
                forall|x2: int| 0 <= x2 < x ==> #[trigger] row@[x2] == terrain_of(draws@[y as int]@[x2]),
            decreases width - x,
        {
            row.push(terrain_for(draws[y][x]));
            x = x + 1;
        }
        map.push(row);
        y = y + 1;
    }
    map
}

fn animal_symbol(i: usize) -> (c: char)
    requires
        i < animal_symbols().len(),
    ensures
        c == animal_symbols()[i as int],
{
    match i {
        0 => '$',
        1 => '&',
        2 => '#',
        3 => '%',
        4 => '*',
        5 => '¥',
        6 => '§',
        _ => '?',
    }
}

fn plant_symbol(i: usize) -> (c: char)
    requires
        i < plant_symbols().len(),
    ensures
        c == plant_symbols()[i as int],
{
    match i {
        0 => '*',
        1 => '#',
        2 => '%',
        3 => '&',
        4 => '+',
        5 => '-',
        6 => '=',
        7 => '√',
        8 => '∞',
        _ => '≈',
    }
}

fn object_symbol(i: usize) -> (c: char)
    requires
        i < object_symbols().len(),
    ensures
        c == object_symbols()[i as int],
{
    match i {
        0 => '!',
        1 => '?',
        2 => '~',
        3 => '#',
        4 => '$',
        5 => '%',
        6 => '&',
        7 => '*',
        8 => '+',
        9 => '-',
        10 => '=',
        11 => '<',
        12 => '>',
        13 => '|',
        14 => '^',
        15 => '°',
        16 => '○',
        17 => '《',
        18 => '》',
        19 => '“',
        20 => '”',
        _ => '￥',
    }
}

fn food_kind(i: usize) -> (k: FoodKind)
    requires
        i < 5,
    ensures
        k == FoodKind::nth(i as int),
{
    match i {
        0 => FoodKind::Apple,
        1 => FoodKind::Banana,
        2 => FoodKind::Bread,
        3 => FoodKind::Chicken,
        _ => FoodKind::Cake,
    }
}


/// How many animals a map of `cells` cells holds.
pub open spec fn animal_target(cells: int) -> int {
    let t = cells / 30;
    if t < cells { t } else { cells }
}

/// How many plants a map of `cells` cells holds.
pub open spec fn plant_target(cells: int) -> int {
    let t = cells / 40;
    let room = cells - animal_target(cells);
    if t < room { t } else { room }
}

/// How many objects a map of `cells` cells holds.
pub open spec fn object_target(cells: int) -> int {
    let t = cells / 24;
    let room = cells - animal_target(cells) - plant_target(cells);
    if t < room { t } else { room }
}

/// How many foods a map of `cells` cells holds.
pub open spec fn food_target(cells: int) -> int {
    let t = cells / 50;
    if t > 2 { t } else { 2 }
}

/// How many chests a map of `cells` cells holds.
pub open spec fn chest_target(cells: int) -> int {
    let t = cells / 80;
    if t > 1 { t } else { 1 }
}

/// Whether the stamina and score of a game on a map of `cells` cells can
/// never overflow: all the food plus the starting stamina, and all the chests'
/// score, fit in a `u32`.
pub open spec fn counters_fit(cells: int) -> bool {
    &&& START_STAMINA + FOOD_STAMINA_MAX * food_target(cells) <= u32::MAX
    &&& CHEST_SCORE * chest_target(cells) <= u32::MAX
}

/// The kinds of entity, in the order they are placed.
#[derive(Clone, Copy, PartialEq, Eq, Structural, Debug)]
pub enum Stage {
    Animals,
    Plants,
    Objects,
    Food,
    Chests,
    Done,
}

/// How many entities of the kind of `stage` a map of `cells` cells holds.
pub open spec fn stage_target(stage: Stage, cells: int) -> int {
    match stage {
        Stage::Animals => animal_target(cells),
        Stage::Plants => plant_target(cells),
        Stage::Objects => object_target(cells),
        Stage::Food => food_target(cells),
        Stage::Chests => chest_target(cells),
        Stage::Done => 0,
    }
}

/// The stage after `stage`.
pub open spec fn next_stage(stage: Stage) -> Stage {
    match stage {
        Stage::Animals => Stage::Plants,
        Stage::Plants => Stage::Objects,
        Stage::Objects => Stage::Food,
        Stage::Food => Stage::Chests,
        _ => Stage::Done,
    }
}

/// The position of a stage in the order of placement.
pub open spec fn stage_rank(stage: Stage) -> nat {
    match stage {
        Stage::Animals => 0,
        Stage::Plants => 1,
        Stage::Objects => 2,
        Stage::Food => 3,
        Stage::Chests => 4,
        Stage::Done => 5,
    }
}

/// The first stage from `stage` on that has anything to place, or `Done`.
pub open spec fn settle(stage: Stage, cells: int) -> Stage
    decreases 5 - stage_rank(stage),
{
    if stage != Stage::Done && stage_target(stage, cells) == 0 {
        settle(next_stage(stage), cells)
    } else {
        stage
    }
}

/// How many entities are placed before the first one of `stage`.
pub open spec fn stage_start(stage: Stage, cells: int) -> int {
    match stage {
        Stage::Animals => 0,
        Stage::Plants => animal_target(cells),
        Stage::Objects => animal_target(cells) + plant_target(cells),
        Stage::Food => animal_target(cells) + plant_target(cells) + object_target(cells),
        Stage::Chests => animal_target(cells) + plant_target(cells) + object_target(cells)
            + food_target(cells),
        Stage::Done => animal_target(cells) + plant_target(cells) + object_target(cells)
            + food_target(cells) + chest_target(cells),
    }
}

/// The stage the entity at index `i` of a finished world belongs to.
pub open spec fn slot_stage(i: int, cells: int) -> Stage {
    if i < stage_start(Stage::Plants, cells) {
        Stage::Animals
    } else if i < stage_start(Stage::Objects, cells) {
        Stage::Plants
    } else if i < stage_start(Stage::Food, cells) {
        Stage::Objects
    } else if i < stage_start(Stage::Chests, cells) {
        Stage::Food
    } else {
        Stage::Chests
    }
}

/// Whether `e` is the entity that a placement in `stage` puts on `(x, y)`
/// with `draw` as the draw of its look.
pub open spec fn placed_as(e: Entity, stage: Stage, x: int, y: int, draw: u64) -> bool {
    &&& e.x == x
    &&& e.y == y
    &&& match stage {
        Stage::Animals => {
            &&& e.entity_type == EntityType::Animal
            &&& e.symbol == animal_symbols()[scaled(draw, animal_symbols().len() as int)]
            &&& e.color@ == "#ff6666"@
        },
        Stage::Plants => {
            &&& e.entity_type == EntityType::Plant
            &&& e.symbol == plant_symbols()[scaled(draw, plant_symbols().len() as int)]
            &&& e.color@ == "#66cc66"@
        },
        Stage::Objects => {
            &&& e.entity_type == (EntityType::Object { collected: false })
            &&& e.symbol == object_symbols()[scaled(draw, object_symbols().len() as int)]
            &&& e.color@ == "#6699ff"@
        },
        Stage::Food => {
            let kind = FoodKind::nth(scaled(draw, 5));
            &&& e.entity_type == (EntityType::Food { eaten: false, kind })
            &&& e.symbol == kind.symbol_of(false)
            &&& e.color@ == kind.color_text(false)
        },
        Stage::Chests => {
            &&& e.entity_type == (EntityType::Chest { opened: false })
            &&& e.symbol == '□'
            &&& e.color@ == "#ffcc66"@
        },
        Stage::Done => false,
    }
}

/// Whether `e` is a fresh entity of the kind of `stage`, drawn as that kind
/// is placed: nothing of it has been picked up yet, its symbol is one of its
/// kind's symbols (for food, the uneaten symbol of its kind), and its colour
/// is its kind's colour.
pub open spec fn fresh_of(e: Entity, stage: Stage) -> bool {
    match stage {
        Stage::Animals => {
            &&& e.entity_type == EntityType::Animal
            &&& animal_symbols().contains(e.symbol)
            &&& e.color@ == "#ff6666"@
        },
        Stage::Plants => {
            &&& e.entity_type == EntityType::Plant
            &&& plant_symbols().contains(e.symbol)
            &&& e.color@ == "#66cc66"@
        },
        Stage::Objects => {
            &&& e.entity_type == (EntityType::Object { collected: false })
            &&& object_symbols().contains(e.symbol)
            &&& e.color@ == "#6699ff"@
        },
        Stage::Food => match e.entity_type {
            EntityType::Food { eaten: false, kind } => {
                &&& e.symbol == kind.symbol_of(false)
                &&& e.color@ == kind.color_text(false)
            },
            _ => false,
        },
        Stage::Chests => {
            &&& e.entity_type == (EntityType::Chest { opened: false })
            &&& e.symbol == '□'
            &&& e.color@ == "#ffcc66"@
        },
        Stage::Done => false,
    }
}

/// Whether some entity of `es` stands on `(x, y)`.
pub open spec fn occupied(es: Seq<Entity>, x: int, y: int) -> bool {
    exists|i: int| 0 <= i < es.len() && (#[trigger] es[i]).x == x && es[i].y == y
}

/// Whether no two entities of `es` stand on the same cell.
pub open spec fn distinct_cells(es: Seq<Entity>) -> bool {
    forall|i: int, j: int|
        0 <= i < j < es.len() ==> !((#[trigger] es[i]).x == (#[trigger] es[j]).x && es[i].y == es[j].y)
}

/// A world being built, as mathematical values.
#[verifier::ext_equal]
pub struct BuilderView {
    pub map_width: int,
    pub map_height: int,
    pub map: Seq<Seq<Terrain>>,
    pub entities: Seq<Entity>,
    /// The kind being placed now.
    pub stage: Stage,
    /// How many entities of that kind are placed already.
    pub placed: int,
}

/// A world being built: the terrain is laid, and the entities are placed
/// one kind after another, each on a free cell that the draws select.
pub struct WorldBuilder {
    map_width: usize,
    map_height: usize,
    map: Vec<Vec<Terrain>>,
    entities: Vec<Entity>,
    used: Vec<Vec<bool>>,
    stage: Stage,
    placed: usize,
    targets: [usize; 5],
}

impl View for WorldBuilder {
    type V = BuilderView;

    closed spec fn view(&self) -> BuilderView {
        BuilderView {
            map_width: self.map_width as int,
            map_height: self.map_height as int,
            map: Seq::new(self.map@.len(), |y: int| self.map@[y]@),
            entities: self.entities@,
            stage: self.stage,
            placed: self.placed as int,
        }
    }
}

/// Whether a builder view is consistent: every entity placed so far lies on
/// a cell of its own, is fresh, and is of the kind its index calls for; the
/// current stage still has something to place.
pub open spec fn builder_view_wf(v: BuilderView) -> bool {
    let cells = v.map_width * v.map_height;
    &&& 1 <= v.map_width <= isize::MAX - 4
    &&& 1 <= v.map_height <= isize::MAX - 4
    &&& cells <= usize::MAX
    &&& counters_fit(cells)
    &&& v.map.len() == v.map_height
    &&& forall|y: int| 0 <= y < v.map_height ==> #[trigger] v.map[y].len() == v.map_width
    &&& v.stage == settle(v.stage, cells)
    &&& 0 <= v.placed
    &&& (v.stage == Stage::Done ==> v.placed == 0)
    &&& (v.stage != Stage::Done ==> v.placed < stage_target(v.stage, cells))
    &&& v.entities.len() == stage_start(v.stage, cells) + v.placed
    &&& distinct_cells(v.entities)
    &&& total(v.entities, food_weight()) == placed_of(Stage::Food, v.stage, v.placed, cells)
    &&& total(v.entities, chest_weight()) == placed_of(Stage::Chests, v.stage, v.placed, cells)
    &&& total(v.entities, pending_food_weight()) <= FOOD_STAMINA_MAX * total(v.entities, food_weight())
    &&& total(v.entities, collected_weight()) == 0
    &&& total(v.entities, opened_weight()) == 0
    &&& forall|i: int|
        0 <= i < v.entities.len() ==> {
            &&& 0 <= (#[trigger] v.entities[i]).x < v.map_width
            &&& 0 <= v.entities[i].y < v.map_height
            &&& fresh_of(v.entities[i], slot_stage(i, cells))
        }
}

/// How many entities of the kind of `kind` are placed when building is at
/// `stage` with `placed` of that stage's kind placed.
pub open spec fn placed_of(kind: Stage, stage: Stage, placed: int, cells: int) -> int {
    if stage_rank(stage) > stage_rank(kind) {
        stage_target(kind, cells)
    } else if stage == kind {
        placed
    } else {
        0
    }
}

/// Skipping stages with nothing to place does not move the start.
proof fn lemma_settle_start(stage: Stage, cells: int)
    ensures
        stage_start(settle(stage, cells), cells) == stage_start(stage, cells),
        stage_rank(settle(stage, cells)) >= stage_rank(stage),
        settle(stage, cells) == Stage::Done || stage_target(settle(stage, cells), cells) != 0,
        settle(settle(stage, cells), cells) == settle(stage, cells),
        forall|k: Stage| stage_rank(stage) <= #[trigger] stage_rank(k) < stage_rank(settle(stage, cells))
            ==> stage_target(k, cells) == 0,
    decreases 5 - stage_rank(stage),
{
    if stage != Stage::Done && stage_target(stage, cells) == 0 {
        lemma_settle_start(next_stage(stage), cells);
    }
}

/// Weights of a fresh entity and of an entity placed as one.
proof fn lemma_placed_weights(e: Entity, stage: Stage, x: int, y: int, draw: u64)
    requires
        placed_as(e, stage, x, y, draw),
    ensures
        collected_weight()(e) == 0,
        opened_weight()(e) == 0,
        food_weight()(e) == (if stage == Stage::Food { 1nat } else { 0nat }),
        chest_weight()(e) == (if stage == Stage::Chests { 1nat } else { 0nat }),
        pending_food_weight()(e) <= FOOD_STAMINA_MAX * food_weight()(e),
        fresh_of(e, stage),
{
    lemma_scaled_below(draw, 8);
    lemma_scaled_below(draw, 10);
    lemma_scaled_below(draw, 22);
    match stage {
        Stage::Animals => {
            let i = scaled(draw, animal_symbols().len() as int);
            assert(animal_symbols()[i] == e.symbol);
        },
        Stage::Plants => {
            let i = scaled(draw, plant_symbols().len() as int);
            assert(plant_symbols()[i] == e.symbol);
        },
        Stage::Objects => {
            let i = scaled(draw, object_symbols().len() as int);
            assert(object_symbols()[i] == e.symbol);
        },
        _ => {},
    }
}

impl WorldBuilder {
    /// A consistent builder has a consistent view.
    pub proof fn lemma_wf_view(&self)
        requires
            self.wf(),
        ensures
            builder_view_wf(self@),
    {
    }

    /// Whether the builder is consistent; every builder this library makes is.
    pub closed spec fn wf(&self) -> bool {
        let cells = self.map_width * self.map_height;
        &&& builder_view_wf(self@)
        &&& is_grid(self.map@, self.map_width as int, self.map_height as int)
        &&& is_grid(self.used@, self.map_width as int, self.map_height as int)
        &&& forall|x: int, y: int|
            0 <= x < self.map_width && 0 <= y < self.map_height ==> #[trigger] self.used@[y]@[x]
                == occupied(self.entities@, x, y)
        &&& self.targets[0] == animal_target(cells)
        &&& self.targets[1] == plant_target(cells)
        &&& self.targets[2] == object_target(cells)
        &&& self.targets[3] == food_target(cells)
        &&& self.targets[4] == chest_target(cells)
    }

    /// Starts placing entities on `map`, a `map_width` by `map_height` grid of
    /// terrain whose size `supports_size` accepts.
    pub fn new(map_width: usize, map_height: usize, map: Vec<Vec<Terrain>>) -> (b: WorldBuilder)
        requires
            size_supported(map_width as int, map_height as int),
            is_grid(map@, map_width as int, map_height as int),
        ensures
            b.wf(),
            b@ == (BuilderView {
                map_width: map_width as int,
                map_height: map_height as int,
                map: Seq::new(map@.len(), |y: int| map@[y]@),
                entities: Seq::empty(),
                stage: settle(Stage::Animals, map_width * map_height),
                placed: 0,
            }),
    {
        let cells = map_width * map_height;
        let mut used: Vec<Vec<bool>> = Vec::new();
        let mut y: usize = 0;
        while y < map_height
            invariant
                y <= map_height,
                is_grid(used@, map_width as int, y as int),
                forall|x: int, y2: int| 0 <= x < map_width && 0 <= y2 < y ==> !#[trigger] used@[y2]@[x],
            decreases map_height - y,
        {
            let mut row: Vec<bool> = Vec::new();
            let mut x: usize = 0;
            while x < map_width
                invariant
                    x <= map_width,
                    row@.len() == x,
                    forall|x2: int| 0 <= x2 < x ==> !#[trigger] row@[x2],
                decreases map_width - x,
            {
                row.push(false);
                x = x + 1;
            }
            used.push(row);
            y = y + 1;
        }
        let animals = if cells / 30 < cells { cells / 30 } else { cells };
        let plants = if cells / 40 < cells - animals { cells / 40 } else { cells - animals };
        let objects = if cells / 24 < cells - animals - plants { cells / 24 } else { cells - animals - plants };
        let food = if cells / 50 > 2 { cells / 50 } else { 2 };
        let chests = if cells / 80 > 1 { cells / 80 } else { 1 };
        let mut b = WorldBuilder {
            map_width,
            map_height,
            map,
            entities: Vec::new(),
            used,
            stage: Stage::Animals,
            placed: 0,
            targets: [animals, plants, objects, food, chests],
        };
        let ghost cells_i = map_width * map_height;
        proof {
            lemma_settle_start(Stage::Animals, cells_i);
            lemma_total_zero(b.entities@, food_weight());
            lemma_total_zero(b.entities@, chest_weight());
            lemma_total_zero(b.entities@, pending_food_weight());
            lemma_total_zero(b.entities@, collected_weight());
            lemma_total_zero(b.entities@, opened_weight());
        }
        b.stage = b.settled(Stage::Animals);
        assert(b@.map =~= Seq::new(b.map@.len(), |y: int| b.map@[y]@));
        assert(builder_view_wf(b@));
        assert(is_grid(b.used@, b.map_width as int, b.map_height as int));
        b
    }

    fn target(&self, stage: Stage) -> (t: usize)
        requires
            self.targets[0] == animal_target(self.map_width * self.map_height),
            self.targets[1] == plant_target(self.map_width * self.map_height),
            self.targets[2] == object_target(self.map_width * self.map_height),
            self.targets[3] == food_target(self.map_width * self.map_height),
            self.targets[4] == chest_target(self.map_width * self.map_height),
        ensures
            t == stage_target(stage, self.map_width * self.map_height),
    {
        match stage {
            Stage::Animals => self.targets[0],
            Stage::Plants => self.targets[1],
            Stage::Objects => self.targets[2],
            Stage::Food => self.targets[3],
            Stage::Chests => self.targets[4],
            Stage::Done => 0,
        }
    }

    fn settled(&self, stage: Stage) -> (s: Stage)
        requires
            self.targets[0] == animal_target(self.map_width * self.map_height),
            self.targets[1] == plant_target(self.map_width * self.map_height),
            self.targets[2] == object_target(self.map_width * self.map_height),
            self.targets[3] == food_target(self.map_width * self.map_height),
            self.targets[4] == chest_target(self.map_width * self.map_height),
        ensures
            s == settle(stage, self.map_width * self.map_height),
    {
        let mut s = stage;
        while s != Stage::Done && self.target(s) == 0
            invariant
                self.targets[0] == animal_target(self.map_width * self.map_height),
                self.targets[1] == plant_target(self.map_width * self.map_height),
                self.targets[2] == object_target(self.map_width * self.map_height),
                self.targets[3] == food_target(self.map_width * self.map_height),
                self.targets[4] == chest_target(self.map_width * self.map_height),
                settle(s, self.map_width * self.map_height) == settle(stage, self.map_width * self.map_height),
            decreases 5 - stage_rank(s),
        {
            s = match s {
                Stage::Animals => Stage::Plants,
                Stage::Plants => Stage::Objects,
                Stage::Objects => Stage::Food,
                Stage::Food => Stage::Chests,
                _ => Stage::Done,
            };
        }
        s
    }
}

/// The building state after one more entity of the current stage is placed.
pub open spec fn after_placing(v: BuilderView) -> BuilderView {
    let cells = v.map_width * v.map_height;
    if v.placed + 1 == stage_target(v.stage, cells) {
        BuilderView { stage: settle(next_stage(v.stage), cells), placed: 0, ..v }
    } else {
        BuilderView { placed: v.placed + 1, ..v }
    }
}

impl WorldBuilder {
    /// Whether every entity has been placed.
    pub fn is_done(&self) -> (done: bool)
        ensures
            done == (self@.stage == Stage::Done),
    {
        self.stage == Stage::Done
    }

    /// The kind of entity being placed now.
    pub fn stage(&self) -> (s: Stage)
        ensures
            s == self@.stage,
    {
        self.stage
    }

    /// Offers one attempt at placing the next entity: `draw_x` and `draw_y`
    /// select its cell, `draw_look` its symbol or kind of food. The attempt
    /// succeeds, and the entity is placed, if and only if no entity stands on
    /// that cell yet; once every entity is placed, attempts do nothing.
    pub fn offer(&mut self, draw_x: u64, draw_y: u64, draw_look: u64) -> (placed: bool)
        requires
            old(self).wf(),
        ensures
            final(self).wf(),
            ({
                let v = old(self)@;
                let x = scaled(draw_x, v.map_width);
                let y = scaled(draw_y, v.map_height);
                if v.stage == Stage::Done || occupied(v.entities, x, y) {
                    &&& !placed
                    &&& final(self)@ == v
                } else {
                    let w = final(self)@;
                    &&& placed
                    &&& w.entities.len() == v.entities.len() + 1
                    &&& w.entities.drop_last() == v.entities
                    &&& placed_as(w.entities.last(), v.stage, x, y, draw_look)
                    &&& w == (BuilderView { entities: w.entities, ..after_placing(v) })
                }
            }),
    {
        if self.stage == Stage::Done {
            return false;
        }
        let ghost v = self@;
        let ghost cells = self.map_width * self.map_height;
        let x = scale_draw(draw_x, self.map_width);
        let y = scale_draw(draw_y, self.map_height);
        if self.used[y][x] {
            return false;
        }
        let e = make_entity(self.stage, x, y, draw_look);
        proof {
            lemma_place(v, e, x as int, y as int, draw_look);
        }
        self.entities.push(e);
        self.used[y].set(x, true);
        let target = self.target(self.stage);
        if self.placed + 1 == target {
            let next = match self.stage {
                Stage::Animals => Stage::Plants,
                Stage::Plants => Stage::Objects,
                Stage::Objects => Stage::Food,
                Stage::Food => Stage::Chests,
                _ => Stage::Done,
            };
            proof {
                lemma_settle_start(next, cells);
            }
            self.stage = self.settled(next);
            self.placed = 0;
        } else {
            self.placed = self.placed + 1;
        }
        proof {
            assert(self.entities@ == v.entities.push(e));
            assert(self.entities@.drop_last() =~= v.entities);
            assert forall|x2: int, y2: int|
                0 <= x2 < self.map_width && 0 <= y2 < self.map_height implies #[trigger] self.used@[y2]@[x2]
                    == occupied(self.entities@, x2, y2) by {
                lemma_occupied_push(v.entities, e, x2, y2);
            }
        }
        true
    }
}

/// Whether a cell is occupied after one more entity is placed.
proof fn lemma_occupied_push(es: Seq<Entity>, e: Entity, x: int, y: int)
    ensures
        occupied(es.push(e), x, y) == (occupied(es, x, y) || (e.x == x && e.y == y)),
{
    let es2 = es.push(e);
    if occupied(es, x, y) {
        let i = choose|i: int| 0 <= i < es.len() && (#[trigger] es[i]).x == x && es[i].y == y;
        assert(es2[i] == es[i]);
    }
    if e.x == x && e.y == y {
        assert(es2[es.len() as int] == e);
    }
    if occupied(es2, x, y) {
        let i = choose|i: int| 0 <= i < es2.len() && (#[trigger] es2[i]).x == x && es2[i].y == y;
        if i < es.len() {
            assert(es2[i] == es[i]);
        }
    }
}

/// Placing an entity on a free cell keeps a builder view consistent.
proof fn lemma_place(v: BuilderView, e: Entity, x: int, y: int, draw: u64)
    requires
        builder_view_wf(v),
        v.stage != Stage::Done,
        0 <= x < v.map_width,
        0 <= y < v.map_height,
        !occupied(v.entities, x, y),
        placed_as(e, v.stage, x, y, draw),
    ensures
        builder_view_wf(BuilderView { entities: v.entities.push(e), ..after_placing(v) }),
{
    let cells = v.map_width * v.map_height;
    let es = v.entities;
    let es2 = es.push(e);
    let w = BuilderView { entities: es2, ..after_placing(v) };
    lemma_placed_weights(e, v.stage, x, y, draw);
    lemma_total_push(es, e, food_weight());
    lemma_total_push(es, e, chest_weight());
    lemma_total_push(es, e, pending_food_weight());
    lemma_total_push(es, e, collected_weight());
    lemma_total_push(es, e, opened_weight());
    lemma_settle_start(next_stage(v.stage), cells);
    assert(slot_stage(es.len() as int, cells) == v.stage);
    assert forall|i: int, j: int|
        0 <= i < j < es2.len() implies !((#[trigger] es2[i]).x == (#[trigger] es2[j]).x && es2[i].y == es2[j].y) by {
        if j == es.len() {
            assert(es2[i] == es[i]);
        } else {
            assert(es2[i] == es[i] && es2[j] == es[j]);
        }
    }
    assert forall|i: int| 0 <= i < es2.len() implies {
        &&& 0 <= (#[trigger] es2[i]).x < w.map_width
        &&& 0 <= es2[i].y < w.map_height
        &&& fresh_of(es2[i], slot_stage(i, cells))
    } by {
        if i < es.len() {
            assert(es2[i] == es[i]);
        }
    }
}

/// The entity a placement in `stage` puts on `(x, y)`, its look chosen by `draw_look`.
fn make_entity(stage: Stage, x: usize, y: usize, draw_look: u64) -> (e: Entity)
    requires
        stage != Stage::Done,
    ensures
        placed_as(e, stage, x as int, y as int, draw_look),
{
    match stage {
        Stage::Animals => Entity {
            entity_type: EntityType::Animal,
            x,
            y,
            symbol: animal_symbol(scale_draw(draw_look, 8)),
            color: "#ff6666",
        },
        Stage::Plants => Entity {
            entity_type: EntityType::Plant,
            x,
            y,
            symbol: plant_symbol(scale_draw(draw_look, 10)),
            color: "#66cc66",
        },
        Stage::Objects => Entity {
            entity_type: EntityType::Object { collected: false },
            x,
            y,
            symbol: object_symbol(scale_draw(draw_look, 22)),
            color: "#6699ff",
        },
        Stage::Food => {
            let kind = food_kind(scale_draw(draw_look, 5));
            Entity {
                entity_type: EntityType::Food { eaten: false, kind },
                x,
                y,
                symbol: kind.symbol(false),
                color: kind.color(false),
            }
        },
        _ => Entity {
            entity_type: EntityType::Chest { opened: false },
            x,
            y,
            symbol: '□',
            color: "#ffcc66",
        },
    }
}

impl WorldBuilder {
    /// The finished world: its width, height, terrain and entities.
    pub fn into_parts(self) -> (parts: (usize, usize, Vec<Vec<Terrain>>, Vec<Entity>))
        requires
            self.wf(),
            self@.stage == Stage::Done,
        ensures
            builder_view_wf(self@),
            parts.0 == self@.map_width,
            parts.1 == self@.map_height,
            is_grid(parts.2@, parts.0 as int, parts.1 as int),
            Seq::new(parts.2@.len(), |y: int| parts.2@[y]@) == self@.map,
            parts.3@ == self@.entities,
    {
        (self.map_width, self.map_height, self.map, self.entities)
    }
}

/// Whether a `map_width` by `map_height` world can be built: each side is at
/// least one cell and leaves room for the vision radius in an `isize`, the
/// cell count fits a `usize`, and the stamina and score can never overflow.
pub open spec fn size_supported(map_width: int, map_height: int) -> bool {
    &&& 1 <= map_width <= isize::MAX - 4
    &&& 1 <= map_height <= isize::MAX - 4
    &&& map_width * map_height <= usize::MAX
    &&& counters_fit(map_width * map_height)
}

/// Whether a `map_width` by `map_height` world can be built.
pub fn supports_size(map_width: usize, map_height: usize) -> (b: bool)
    ensures
        b == size_supported(map_width as int, map_height as int),
{
    if map_width < 1 || map_width > (isize::MAX - 4) as usize || map_height < 1 || map_height > (
    isize::MAX - 4) as usize {
        return false;
    }
    if map_width > usize::MAX / map_height {
        proof {
            assert(map_width * map_height > usize::MAX) by (nonlinear_arith)
                requires
                    map_width > usize::MAX / map_height,
                    map_height >= 1,
            ;
        }
        return false;
    }
    proof {
        assert(map_width * map_height <= usize::MAX) by (nonlinear_arith)
            requires
                map_width <= usize::MAX / map_height,
                map_height >= 1,
        ;
    }
    let cells = map_width * map_height;
    let food = if cells / 50 > 2 { cells / 50 } else { 2 };
    let chests = if cells / 80 > 1 { cells / 80 } else { 1 };
    food <= ((u32::MAX - START_STAMINA) / FOOD_STAMINA_MAX) as usize && chests <= (u32::MAX
        / CHEST_SCORE) as usize
}
} // verus!
