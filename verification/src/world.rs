//! The things a map is made of: terrain, food, and the entities placed on it.
use vstd::prelude::*;

verus! {

/// Radius, in cells, of the area the player can see around itself.
pub const PLAYER_VISION: usize = 5;

/// Stamina the player starts with.
pub const START_STAMINA: u32 = 20;

/// The most stamina any one food restores.
pub const FOOD_STAMINA_MAX: u32 = 20;

/// Score awarded for opening a chest.
pub const CHEST_SCORE: u32 = 10;

/// Symbols an animal can be drawn with.
pub open spec fn animal_symbols() -> Seq<char> {
    seq!['$', '&', '#', '%', '*', '¥', '§', '?']
}

/// Symbols a plant can be drawn with.
pub open spec fn plant_symbols() -> Seq<char> {
    seq!['*', '#', '%', '&', '+', '-', '=', '√', '∞', '≈']
}

/// Symbols an object can be drawn with.
pub open spec fn object_symbols() -> Seq<char> {
    seq![
        '!', '?', '~', '#', '$', '%', '&', '*', '+', '-', '=', '<', '>', '|', '^', '°', '○', '《',
        '》', '“', '”', '￥',
    ]
}

/// The ground of a map cell.
#[derive(Clone, Copy, PartialEq, Eq, Structural, Debug)]
pub enum Terrain {
    Water,
    Mountain,
    Forest,
    Plain,
}

impl Terrain {
    /// The text a cell of this terrain is drawn with.
    pub open spec fn symbol_text(self) -> Seq<char> {
        match self {
            Terrain::Water => "≈"@,
            Terrain::Mountain => "^"@,
            Terrain::Forest => "↑"@,
            Terrain::Plain => "."@,
        }
    }

    /// The colour a cell of this terrain is drawn with.
    pub open spec fn color_text(self) -> Seq<char> {
        match self {
            Terrain::Water => "#3366cc"@,
            Terrain::Mountain => "#888888"@,
            Terrain::Forest => "#336633"@,
            Terrain::Plain => "#444466"@,
        }
    }

    pub fn symbol(&self) -> (s: &'static str)
        ensures
            s@ == self.symbol_text(),
    {
        match self {
            Terrain::Water => "≈",
            Terrain::Mountain => "^",
            Terrain::Forest => "↑",
            Terrain::Plain => ".",
        }
    }

    pub fn color(&self) -> (s: &'static str)
        ensures
            s@ == self.color_text(),
    {
        match self {
            Terrain::Water => "#3366cc",
            Terrain::Mountain => "#888888",
            Terrain::Forest => "#336633",
            Terrain::Plain => "#444466",
        }
    }
}

/// The kinds of food that restore stamina.
#[derive(Clone, Copy, PartialEq, Eq, Structural, Debug)]
pub enum FoodKind {
    Apple,
    Banana,
    Bread,
    Chicken,
    Cake,
}

impl FoodKind {
    /// The symbol of this food, before and after it is eaten.
    pub open spec fn symbol_of(self, eaten: bool) -> char {
        match self {
            FoodKind::Apple => if eaten { '🍏' } else { '🍎' },
            FoodKind::Banana => '🍌',
            FoodKind::Bread => if eaten { '🥖' } else { '🍞' },
            FoodKind::Chicken => if eaten { '🍖' } else { '🍗' },
            FoodKind::Cake => if eaten { '🍮' } else { '🍰' },
        }
    }

    /// The colour of this food, before and after it is eaten.
    pub open spec fn color_text(self, eaten: bool) -> Seq<char> {
        match self {
            FoodKind::Apple => if eaten { "#99ff99"@ } else { "#ff3333"@ },
            FoodKind::Banana => if eaten { "#cccc66"@ } else { "#ffe066"@ },
            FoodKind::Bread => if eaten { "#bfa76f"@ } else { "#e0b97d"@ },
            FoodKind::Chicken => if eaten { "#d1a05a"@ } else { "#ffbb66"@ },
            FoodKind::Cake => if eaten { "#ffe6b3"@ } else { "#ffb3e6"@ },
        }
    }

    /// The stamina that eating this food restores.
    pub open spec fn stamina_of(self) -> u32 {
        match self {
            FoodKind::Apple => 5,
            FoodKind::Banana => 8,
            FoodKind::Bread => 10,
            FoodKind::Chicken => 15,
            FoodKind::Cake => 20,
        }
    }

    /// The name of this food.
    pub open spec fn name_text(self) -> Seq<char> {
        match self {
            FoodKind::Apple => "苹果"@,
            FoodKind::Banana => "香蕉"@,
            FoodKind::Bread => "面包"@,
            FoodKind::Chicken => "鸡腿"@,
            FoodKind::Cake => "蛋糕"@,
        }
    }

    /// The kind at `index` in the order apple, banana, bread, chicken, cake.
    pub open spec fn nth(index: int) -> FoodKind {
        if index == 0 {
            FoodKind::Apple
        } else if index == 1 {
            FoodKind::Banana
        } else if index == 2 {
            FoodKind::Bread
        } else if index == 3 {
            FoodKind::Chicken
        } else {
            FoodKind::Cake
        }
    }

    pub fn symbol(&self, eaten: bool) -> (c: char)
        ensures
            c == self.symbol_of(eaten),
    {
        match (self, eaten) {
            (FoodKind::Apple, false) => '🍎',
            (FoodKind::Apple, true) => '🍏',
            (FoodKind::Banana, false) => '🍌',
            (FoodKind::Banana, true) => '🍌',
            (FoodKind::Bread, false) => '🍞',
            (FoodKind::Bread, true) => '🥖',
            (FoodKind::Chicken, false) => '🍗',
            (FoodKind::Chicken, true) => '🍖',
            (FoodKind::Cake, false) => '🍰',
            (FoodKind::Cake, true) => '🍮',
        }
    }

    pub fn color(&self, eaten: bool) -> (s: &'static str)
        ensures
            s@ == self.color_text(eaten),
    {
        match (self, eaten) {
            (FoodKind::Apple, false) => "#ff3333",
            (FoodKind::Apple, true) => "#99ff99",
            (FoodKind::Banana, false) => "#ffe066",
            (FoodKind::Banana, true) => "#cccc66",
            (FoodKind::Bread, false) => "#e0b97d",
            (FoodKind::Bread, true) => "#bfa76f",
            (FoodKind::Chicken, false) => "#ffbb66",
            (FoodKind::Chicken, true) => "#d1a05a",
            (FoodKind::Cake, false) => "#ffb3e6",
            (FoodKind::Cake, true) => "#ffe6b3",
        }
    }

    pub fn stamina(&self) -> (s: u32)
        ensures
            s == self.stamina_of(),
    {
        match self {
            FoodKind::Apple => 5,
            FoodKind::Banana => 8,
            FoodKind::Bread => 10,
            FoodKind::Chicken => 15,
            FoodKind::Cake => 20,
        }
    }

    pub fn name(&self) -> (s: &'static str)
        ensures
            s@ == self.name_text(),
    {
        match self {
            FoodKind::Apple => "苹果",
            FoodKind::Banana => "香蕉",
            FoodKind::Bread => "面包",
            FoodKind::Chicken => "鸡腿",
            FoodKind::Cake => "蛋糕",
        }
    }
}

/// What an entity is, with the state it can be in.
#[derive(Clone, Copy, PartialEq, Eq, Structural, Debug)]
pub enum EntityType {
    Animal,
    Plant,
    Object { collected: bool },
    Food { eaten: bool, kind: FoodKind },
    Chest { opened: bool },
}

/// Something placed on a map cell.
#[derive(Clone, Copy, Debug)]
pub struct Entity {
    pub entity_type: EntityType,
    pub x: usize,
    pub y: usize,
    pub symbol: char,
    pub color: &'static str,
}

} // verus!
