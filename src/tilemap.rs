use vstd::prelude::*;

verus! {

/// Side of one square map tile, in world units.
pub const TILE_SIZE: usize = 16;

/// Whether one map cell blocks movement.
#[derive(Clone, Copy, Debug, PartialEq, Eq, Structural)]
pub enum CollisionTile {
    Empty,
    Full,
}

/// Per-cell solidity of a level, indexed `tiles[row][col]`, row 0 at the top.
pub struct CollisionTiles {
    pub width: usize,
    pub height: usize,
    pub tiles: Vec<Vec<CollisionTile>>,
}

impl CollisionTiles {
    /// The grid has `height` rows of `width` cells each.
    pub open spec fn wf(&self) -> bool {
        &&& self.tiles@.len() == self.height
        &&& forall|r: int| 0 <= r < self.height ==> #[trigger] self.tiles@[r]@.len() == self.width
    }

    pub open spec fn cell(&self, row: int, col: int) -> CollisionTile {
        self.tiles@[row]@[col]
    }

    /// An all-empty grid of the given size.
    pub fn new(width: usize, height: usize) -> (r: CollisionTiles)
        ensures
            r.wf(),
            r.width == width,
            r.height == height,
            forall|row: int, col: int|
                0 <= row < height && 0 <= col < width ==> #[trigger] r.cell(row, col)
                    == CollisionTile::Empty,
    {
        let mut row: Vec<CollisionTile> = Vec::with_capacity(width);
        let mut c: usize = 0;
        while c < width
            invariant
                c <= width,
                row@.len() == c,
                forall|i: int| 0 <= i < c ==> row@[i] == CollisionTile::Empty,
            decreases width - c,
        {
            row.push(CollisionTile::Empty);
            c = c + 1;
        }
        let mut tiles: Vec<Vec<CollisionTile>> = Vec::with_capacity(height);
        let mut r: usize = 0;
        while r < height
            invariant
                r <= height,
                row@.len() == width,
                forall|i: int| 0 <= i < width ==> row@[i] == CollisionTile::Empty,
                tiles@.len() == r,
                forall|i: int| 0 <= i < r ==> #[trigger] tiles@[i]@ == row@,
            decreases height - r,
        {
            tiles.push(row.clone());
            r = r + 1;
        }
        CollisionTiles { width, height, tiles }
    }

    /// The cell at `row`, `col`.
    pub fn get(&self, row: usize, col: usize) -> (r: CollisionTile)
        requires
            self.wf(),
            row < self.height,
            col < self.width,
        ensures
            r == self.cell(row as int, col as int),
    {
        self.tiles[row][col]
    }

    /// Marks one cell solid and leaves every other cell as it was.
    fn set_full(&mut self, row: usize, col: usize)
        requires
            old(self).wf(),
            row < old(self).height,
            col < old(self).width,
        ensures
            final(self).wf(),
            final(self).width == old(self).width,
            final(self).height == old(self).height,
            forall|r: int, c: int|
                0 <= r < old(self).height && 0 <= c < old(self).width ==> #[trigger] final(self).cell(r, c)
                    == if r == row && c == col {
                    CollisionTile::Full
                } else {
                    old(self).cell(r, c)
                },
    {
        let mut line = self.tiles[row].clone();
        line.set(col, CollisionTile::Full);
        self.tiles.set(row, line);
    }
}

/// The tiles of one layer: a grid of tile ids (0 = empty) indexed
/// `[row][col]`, or chunked data that this game does not load.
pub enum LayerTiles {
    Finite(Vec<Vec<u32>>),
    Infinite,
}

/// A named tile layer of a map document.
pub struct TileLayer {
    pub name: String,
    pub tiles: LayerTiles,
}

/// The outline of a map object.
#[derive(Clone, Copy, Debug, PartialEq, Eq, Structural)]
pub enum ObjectShape {
    Rect,
    Other,
}

/// A freely placed map object; `x`, `y` is its top-left corner in map units,
/// with Y growing downwards.
pub struct MapObject {
    pub obj_type: String,
    pub x: i32,
    pub y: i32,
    pub width: u32,
    pub height: u32,
    pub shape: ObjectShape,
}

/// A list of map objects.
pub struct ObjectGroup {
    pub objects: Vec<MapObject>,
}

/// A map document: its size in tiles, its tile layers in drawing order, and
/// its object groups.
pub struct MapDescription {
    pub width: u32,
    pub height: u32,
    pub layers: Vec<TileLayer>,
    pub object_groups: Vec<ObjectGroup>,
}

/// The loaded level's container: its size in tiles and its index in the level set.
#[derive(Clone, Copy, Debug, PartialEq, Eq, Structural)]
pub struct LevelMap {
    pub width: usize,
    pub height: usize,
    pub index: usize,
}

/// One tile to draw. `x`, `y` is its centre in world space; `order` is the
/// drawing depth of its layer (later layers in front); `layer`, `row` and
/// `col` say which map cell it was made from.
#[derive(Clone, Copy, Debug, PartialEq, Eq, Structural)]
pub struct TileSprite {
    pub x: i64,
    pub y: i64,
    pub tile_id: u32,
    pub order: usize,
    pub solid: bool,
    pub layer: usize,
    pub row: usize,
    pub col: usize,
}

impl TileSprite {
    /// Index of the sprite's image in the tileset (tile ids count from 1).
    pub fn atlas_index(&self) -> (r: u32)
        requires
            self.tile_id != 0,
        ensures
            r == self.tile_id - 1,
    {
        self.tile_id - 1
    }
}

/// The two enemy archetypes; they differ only in looks.
#[derive(Clone, Copy, Debug, PartialEq, Eq, Structural)]
pub enum FishType {
    Anglerfish,
    Sawfish,
}

/// An entity to create when a level loads, at world position `x`, `y`.
#[derive(Clone, Copy, Debug, PartialEq, Eq, Structural)]
pub enum SpawnRequest {
    PlayerStart { x: i64, y: i64 },
    Enemy { kind: FishType, x: i64, y: i64 },
    Pickup { x: i64, y: i64 },
    Goal { x: i64, y: i64, width: u32, height: u32 },
    EffectGenerator { x: i64, y: i64 },
}

/// What an object's type tag asks for.
#[derive(Clone, Copy, Debug, PartialEq, Eq, Structural)]
pub enum ObjectKind {
    PlayerStart,
    Anglerfish,
    Sawfish,
    Pickup,
    Goal,
    EffectGenerator,
    Unknown,
}

/// Why a map document cannot be played.
#[derive(Clone, Copy, Debug, PartialEq, Eq, Structural)]
pub enum LevelError {
    /// A layer other than "water" is not a grid of the map's size.
    InvalidLayer,
    /// A goal object is not a rectangle.
    NonRectangularGoal,
    /// No object asks for the player's start position.
    MissingPlayerStart,
}

/// Everything a level load produces.
pub struct CompiledLevel {
    pub map: LevelMap,
    pub collision: CollisionTiles,
    pub sprites: Vec<TileSprite>,
    pub spawns: Vec<SpawnRequest>,
}

pub open spec fn object_kind_of(tag: Seq<char>) -> ObjectKind {
    if tag == "player_start"@ {
        ObjectKind::PlayerStart
    } else if tag == "anglerfish"@ {
        ObjectKind::Anglerfish
    } else if tag == "sawfish"@ {
        ObjectKind::Sawfish
    } else if tag == "star"@ {
        ObjectKind::Pickup
    } else if tag == "goal"@ {
        ObjectKind::Goal
    } else if tag == "bubbles"@ {
        ObjectKind::EffectGenerator
    } else {
        ObjectKind::Unknown
    }
}

/// World X of the centre of map column `col`.
pub open spec fn world_x_of_col(col: int) -> int {
    col * 16 + 8
}

/// World Y of the centre of map row `row` (row 0 is the top row).
pub open spec fn world_y_of_row(map_height: int, row: int) -> int {
    (map_height - row) * 16 - 8
}

/// World X of the centre of an object.
pub open spec fn object_world_x(o: MapObject) -> int {
    o.x + o.width / 2
}

/// World Y of the centre of an object, flipped so that Y grows upwards.
pub open spec fn object_world_y(map_height: int, o: MapObject) -> int {
    map_height * 16 - o.y - o.height / 2
}

/// The spawn request an object asks for, if its tag is known.
pub open spec fn spawn_of(map_height: int, o: MapObject) -> Option<SpawnRequest> {
    let x = object_world_x(o) as i64;
    let y = object_world_y(map_height, o) as i64;
    match object_kind_of(o.obj_type@) {
        ObjectKind::PlayerStart => Some(SpawnRequest::PlayerStart { x, y }),
        ObjectKind::Anglerfish => Some(SpawnRequest::Enemy { kind: FishType::Anglerfish, x, y }),
        ObjectKind::Sawfish => Some(SpawnRequest::Enemy { kind: FishType::Sawfish, x, y }),
        ObjectKind::Pickup => Some(SpawnRequest::Pickup { x, y }),
        ObjectKind::Goal => Some(SpawnRequest::Goal { x, y, width: o.width, height: o.height }),
        ObjectKind::EffectGenerator => Some(SpawnRequest::EffectGenerator { x, y }),
        ObjectKind::Unknown => None,
    }
}

pub open spec fn opt_seq(r: Option<SpawnRequest>) -> Seq<SpawnRequest> {
    match r {
        Some(s) => seq![s],
        None => Seq::empty(),
    }
}

/// The spawn requests of a list of objects, in order.
pub open spec fn spawns_of_objects(map_height: int, objs: Seq<MapObject>) -> Seq<SpawnRequest>
    decreases objs.len(),
{
    if objs.len() == 0 {
        Seq::empty()
    } else {
        spawns_of_objects(map_height, objs.drop_last()) + opt_seq(spawn_of(map_height, objs.last()))
    }
}

/// The spawn requests of all object groups, in order.
pub open spec fn spawns_of_groups(map_height: int, groups: Seq<ObjectGroup>) -> Seq<SpawnRequest>
    decreases groups.len(),
{
    if groups.len() == 0 {
        Seq::empty()
    } else {
        spawns_of_groups(map_height, groups.drop_last()) + spawns_of_objects(
            map_height,
            groups.last().objects@,
        )
    }
}

/// A goal object with any outline but a rectangle.
pub open spec fn is_bad_goal(o: MapObject) -> bool {
    object_kind_of(o.obj_type@) == ObjectKind::Goal && o.shape != ObjectShape::Rect
}

pub open spec fn has_bad_goal(desc: MapDescription) -> bool {
    exists|g: int, i: int|
        0 <= g < desc.object_groups@.len() && 0 <= i < desc.object_groups@[g].objects@.len()
            && is_bad_goal(#[trigger] desc.object_groups@[g].objects@[i])
}

pub open spec fn has_player_start(spawns: Seq<SpawnRequest>) -> bool {
    exists|i: int| 0 <= i < spawns.len() && #[trigger] spawns[i] is PlayerStart
}

pub open spec fn is_water(l: TileLayer) -> bool {
    l.name@ == "water"@
}

pub open spec fn is_collision(l: TileLayer) -> bool {
    l.name@ == "collision"@
}

/// A layer is usable when it is "water" (never read) or a full grid of the map's size.
pub open spec fn layer_ok(l: TileLayer, width: int, height: int) -> bool {
    is_water(l) || match l.tiles {
        LayerTiles::Finite(g) => g@.len() == height && forall|r: int|
            0 <= r < height ==> #[trigger] g@[r]@.len() == width,
        LayerTiles::Infinite => false,
    }
}

pub open spec fn layers_ok(desc: MapDescription) -> bool {
    forall|l: int|
        0 <= l < desc.layers@.len() ==> layer_ok(
            #[trigger] desc.layers@[l],
            desc.width as int,
            desc.height as int,
        )
}

/// The tile id at a cell of a finite layer (0 for any other layer).
pub open spec fn tile_at(l: TileLayer, row: int, col: int) -> u32 {
    match l.tiles {
        LayerTiles::Finite(g) => g@[row]@[col],
        LayerTiles::Infinite => 0,
    }
}

/// The cell `row`, `col` of layer `l` holds a tile that must be drawn.
pub open spec fn drawn_at(desc: MapDescription, l: int, row: int, col: int) -> bool {
    &&& 0 <= l < desc.layers@.len()
    &&& 0 <= row < desc.height
    &&& 0 <= col < desc.width
    &&& !is_water(desc.layers@[l])
    &&& tile_at(desc.layers@[l], row, col) != 0
}

/// The cell `row`, `col` is solid: a "collision" layer has a tile there.
pub open spec fn solid_at(desc: MapDescription, row: int, col: int) -> bool {
    exists|l: int|
        0 <= l < desc.layers@.len() && is_collision(desc.layers@[l]) && #[trigger] tile_at(
            desc.layers@[l],
            row,
            col,
        ) != 0
}

/// The sprite made for the cell `row`, `col` of layer `l`.
pub open spec fn sprite_for(desc: MapDescription, l: int, row: int, col: int) -> TileSprite {
    TileSprite {
        x: world_x_of_col(col) as i64,
        y: world_y_of_row(desc.height as int, row) as i64,
        tile_id: tile_at(desc.layers@[l], row, col),
        order: (l + 1) as usize,
        solid: is_collision(desc.layers@[l]),
        layer: l as usize,
        row: row as usize,
        col: col as usize,
    }
}

/// Strict lexicographic order on (layer, row, column).
pub open spec fn cell_before(a: (int, int, int), b: (int, int, int)) -> bool {
    a.0 < b.0 || (a.0 == b.0 && (a.1 < b.1 || (a.1 == b.1 && a.2 < b.2)))
}

pub open spec fn key_of(s: TileSprite) -> (int, int, int) {
    (s.layer as int, s.row as int, s.col as int)
}

pub open spec fn has_sprite_at(sprites: Seq<TileSprite>, l: int, row: int, col: int) -> bool {
    exists|i: int| 0 <= i < sprites.len() && #[trigger] key_of(sprites[i]) == (l, row, col)
}

/// The sprite list holds exactly one sprite for each drawn cell, made by
/// `sprite_for`, in (layer, row, column) order.
pub open spec fn sprites_exact(desc: MapDescription, sprites: Seq<TileSprite>) -> bool {
    &&& forall|i: int|
        0 <= i < sprites.len() ==> {
            let s = #[trigger] sprites[i];
            &&& drawn_at(desc, s.layer as int, s.row as int, s.col as int)
            &&& s == sprite_for(desc, s.layer as int, s.row as int, s.col as int)
        }
    &&& forall|i: int, j: int|
        0 <= i < j < sprites.len() ==> cell_before(key_of(#[trigger] sprites[i]), key_of(#[trigger] sprites[j]))
    &&& forall|l: int, row: int, col: int|
        #[trigger] drawn_at(desc, l, row, col) ==> has_sprite_at(sprites, l, row, col)
}

/// The collision grid has the map's size and is full exactly where a
/// "collision" layer has a tile.
pub open spec fn collision_exact(desc: MapDescription, grid: CollisionTiles) -> bool {
    &&& grid.wf()
    &&& grid.width == desc.width
    &&& grid.height == desc.height
    &&& forall|row: int, col: int|
        0 <= row < desc.height && 0 <= col < desc.width ==> (#[trigger] grid.cell(row, col)
            == CollisionTile::Full <==> solid_at(desc, row, col))
}

/// What a successful compile of `desc` as level `index` yields.
pub open spec fn compiled_from(desc: MapDescription, index: usize, lvl: CompiledLevel) -> bool {
    &&& lvl.map == LevelMap { width: desc.width as usize, height: desc.height as usize, index }
    &&& collision_exact(desc, lvl.collision)
    &&& sprites_exact(desc, lvl.sprites@)
    &&& lvl.spawns@ == spawns_of_groups(desc.height as int, desc.object_groups@)
}

/// Why `desc` cannot be compiled, if it cannot: the first of a bad layer, a
/// goal that is not a rectangle, and a missing player start.
pub open spec fn compile_error_of(desc: MapDescription) -> Option<LevelError> {
    if !layers_ok(desc) {
        Some(LevelError::InvalidLayer)
    } else if has_bad_goal(desc) {
        Some(LevelError::NonRectangularGoal)
    } else if !has_player_start(spawns_of_groups(desc.height as int, desc.object_groups@)) {
        Some(LevelError::MissingPlayerStart)
    } else {
        None
    }
}

/// Maps an object's type tag to what it asks for; unknown tags ask for nothing.
pub fn classify_object(tag: &String) -> (r: ObjectKind)
    ensures
        r == object_kind_of(tag@),
{
    if *tag == String::from_str("player_start") {
        ObjectKind::PlayerStart
    } else if *tag == String::from_str("anglerfish") {
        ObjectKind::Anglerfish
    } else if *tag == String::from_str("sawfish") {
        ObjectKind::Sawfish
    } else if *tag == String::from_str("star") {
        ObjectKind::Pickup
    } else if *tag == String::from_str("goal") {
        ObjectKind::Goal
    } else if *tag == String::from_str("bubbles") {
        ObjectKind::EffectGenerator
    } else {
        ObjectKind::Unknown
    }
}

/// World position of an object's centre: its top-left corner plus half its
/// size, with Y flipped against the map's height in tiles.
pub fn position_tmx_to_world(map_height: u32, object: &MapObject) -> (r: (i64, i64))
    ensures
        r.0 == object_world_x(*object),
        r.1 == object_world_y(map_height as int, *object),
{
    let x = object.x as i64 + (object.width / 2) as i64;
    let y = map_height as i64 * 16 - object.y as i64 - (object.height / 2) as i64;
    (x, y)
}

/// The spawn request an object asks for, if any.
pub fn spawn_request_for(map_height: u32, object: &MapObject) -> (r: Option<SpawnRequest>)
    ensures
        r == spawn_of(map_height as int, *object),
{
    let (x, y) = position_tmx_to_world(map_height, object);
    match classify_object(&object.obj_type) {
        ObjectKind::PlayerStart => Some(SpawnRequest::PlayerStart { x, y }),
        ObjectKind::Anglerfish => Some(SpawnRequest::Enemy { kind: FishType::Anglerfish, x, y }),
        ObjectKind::Sawfish => Some(SpawnRequest::Enemy { kind: FishType::Sawfish, x, y }),
        ObjectKind::Pickup => Some(SpawnRequest::Pickup { x, y }),
        ObjectKind::Goal => Some(
            SpawnRequest::Goal { x, y, width: object.width, height: object.height },
        ),
        ObjectKind::EffectGenerator => Some(SpawnRequest::EffectGenerator { x, y }),
        ObjectKind::Unknown => None,
    }
}

/// The sprite for one map cell: its world centre, tile id, layer depth and solidity.
pub fn create_tile_sprite(
    height: u32,
    layer: usize,
    row: usize,
    col: usize,
    tile_id: u32,
    has_collision: bool,
) -> (r: TileSprite)
    requires
        row < height,
        col <= u32::MAX,
        layer < usize::MAX,
    ensures
        r.x == world_x_of_col(col as int),
        r.y == world_y_of_row(height as int, row as int),
        r == (TileSprite {
            x: r.x,
            y: r.y,
            tile_id,
            order: (layer + 1) as usize,
            solid: has_collision,
            layer,
            row,
            col,
        }),
{
    let x = col as i64 * 16 + 8;
    let y = (height as i64 - row as i64) * 16 - 8;
    TileSprite { x, y, tile_id, order: layer + 1, solid: has_collision, layer, row, col }
}

/// Some "collision" layer has a tile at `row`, `col` in a cell before `pos`.
pub open spec fn solid_before(desc: MapDescription, row: int, col: int, pos: (int, int, int)) -> bool {
    exists|l: int|
        0 <= l < desc.layers@.len() && cell_before((l, row, col), pos) && is_collision(
            desc.layers@[l],
        ) && #[trigger] tile_at(desc.layers@[l], row, col) != 0
}

/// `sprites_exact`, for the cells before `pos` only.
pub open spec fn sprites_upto(desc: MapDescription, sprites: Seq<TileSprite>, pos: (int, int, int)) -> bool {
    &&& forall|i: int|
        0 <= i < sprites.len() ==> {
            let s = #[trigger] sprites[i];
            &&& drawn_at(desc, s.layer as int, s.row as int, s.col as int)
            &&& s == sprite_for(desc, s.layer as int, s.row as int, s.col as int)
            &&& cell_before(key_of(s), pos)
        }
    &&& forall|i: int, j: int|
        0 <= i < j < sprites.len() ==> cell_before(key_of(#[trigger] sprites[i]), key_of(#[trigger] sprites[j]))
    &&& forall|l: int, row: int, col: int|
        #[trigger] drawn_at(desc, l, row, col) && cell_before((l, row, col), pos) ==> has_sprite_at(sprites, l, row, col)
}

/// `collision_exact`, for the cells before `pos` only.
pub open spec fn collision_upto(desc: MapDescription, grid: CollisionTiles, pos: (int, int, int)) -> bool {
    &&& grid.wf()
    &&& grid.width == desc.width
    &&& grid.height == desc.height
    &&& forall|row: int, col: int|
        0 <= row < desc.height && 0 <= col < desc.width ==> (#[trigger] grid.cell(row, col)
            == CollisionTile::Full <==> solid_before(desc, row, col, pos))
}

/// Draws layer `l` (a full grid, not "water"): one sprite per non-empty cell,
/// and solid cells for a "collision" layer.
fn emit_layer(
    desc: &MapDescription,
    l: usize,
    sprites: &mut Vec<TileSprite>,
    grid: &mut CollisionTiles,
)
    requires
        l < desc.layers@.len(),
        desc.layers@.len() <= usize::MAX,
        !is_water(desc.layers@[l as int]),
        layer_ok(desc.layers@[l as int], desc.width as int, desc.height as int),
        sprites_upto(*desc, old(sprites)@, (l as int, 0, 0)),
        collision_upto(*desc, *old(grid), (l as int, 0, 0)),
    ensures
        sprites_upto(*desc, final(sprites)@, (l + 1, 0, 0)),
        collision_upto(*desc, *final(grid), (l + 1, 0, 0)),
{
    let ghost d = *desc;
    let layer = &desc.layers[l];
    let solid = layer.name == String::from_str("collision");
    let g = match &layer.tiles {
        LayerTiles::Finite(g) => g,
        LayerTiles::Infinite => {
            return;
        },
    };
    let height = desc.height as usize;
    let width = desc.width as usize;
    let mut row: usize = 0;
    while row < height
        invariant
            d == *desc,
            layer == desc.layers@[l as int],
            solid == is_collision(*layer),
            layer.tiles == LayerTiles::Finite(*g),
            height == desc.height,
            width == desc.width,
            l < desc.layers@.len(),
            desc.layers@.len() <= usize::MAX,
            !is_water(*layer),
            layer_ok(*layer, width as int, height as int),
            row <= height,
            sprites_upto(d, sprites@, (l as int, row as int, 0)),
            collision_upto(d, *grid, (l as int, row as int, 0)),
        decreases height - row,
    {
        let line = &g[row];
        let mut col: usize = 0;
        while col < width
            invariant
                d == *desc,
                layer == desc.layers@[l as int],
                solid == is_collision(*layer),
                layer.tiles == LayerTiles::Finite(*g),
                height == desc.height,
                width == desc.width,
                l < desc.layers@.len(),
                desc.layers@.len() <= usize::MAX,
                !is_water(*layer),
                layer_ok(*layer, width as int, height as int),
                row < height,
                *line == g@[row as int],
                col <= width,
                sprites_upto(d, sprites@, (l as int, row as int, col as int)),
                collision_upto(d, *grid, (l as int, row as int, col as int)),
            decreases width - col,
        {
            let tile = line[col];
            assert(tile == tile_at(*layer, row as int, col as int));
            let ghost pos = (l as int, row as int, col as int);
            let ghost next = (l as int, row as int, col as int + 1);
            if tile != 0 {
                let ghost old_sprites = sprites@;
                let sprite = create_tile_sprite(desc.height, l, row, col, tile, solid);
                assert(sprite == sprite_for(d, l as int, row as int, col as int));
                sprites.push(sprite);
                assert(drawn_at(d, l as int, row as int, col as int));
                assert forall|i: int| 0 <= i < sprites@.len() implies {
                    let s = #[trigger] sprites@[i];
                    &&& drawn_at(d, s.layer as int, s.row as int, s.col as int)
                    &&& s == sprite_for(d, s.layer as int, s.row as int, s.col as int)
                    &&& cell_before(key_of(s), next)
                } by {
                    if i < old_sprites.len() {
                        assert(sprites@[i] == old_sprites[i]);
                    }
                }
                assert forall|i: int, j: int|
                    0 <= i < j < sprites@.len() implies cell_before(key_of(#[trigger] sprites@[i]), key_of(#[trigger] sprites@[j])) by {
                    assert(sprites@[i] == old_sprites[i]);
                    if j < old_sprites.len() {
                        assert(sprites@[j] == old_sprites[j]);
                    }
                }
                assert forall|l2: int, r2: int, c2: int|
                    #[trigger] drawn_at(d, l2, r2, c2) && cell_before((l2, r2, c2), next) implies has_sprite_at(sprites@, l2, r2, c2) by {
                    if (l2, r2, c2) == pos {
                        assert(key_of(sprites@[old_sprites.len() as int]) == (l2, r2, c2));
                    } else {
                        assert(has_sprite_at(old_sprites, l2, r2, c2));
                        let i = choose|i: int| 0 <= i < old_sprites.len() && #[trigger] key_of(old_sprites[i]) == (l2, r2, c2);
                        assert(sprites@[i] == old_sprites[i]);
                    }
                }
                if solid {
                    let ghost old_grid = *grid;
                    grid.set_full(row, col);
                    assert forall|r2: int, c2: int|
                        0 <= r2 < d.height && 0 <= c2 < d.width implies (#[trigger] grid.cell(r2, c2)
                            == CollisionTile::Full <==> solid_before(d, r2, c2, next)) by {
                        if r2 == row && c2 == col {
                            assert(tile_at(d.layers@[l as int], r2, c2) != 0);
                        } else {
                            if solid_before(d, r2, c2, next) {
                                let l3 = choose|l3: int|
                                    0 <= l3 < d.layers@.len() && cell_before((l3, r2, c2), next) && is_collision(
                                        d.layers@[l3],
                                    ) && #[trigger] tile_at(d.layers@[l3], r2, c2) != 0;
                                assert(cell_before((l3, r2, c2), pos));
                            }
                            if solid_before(d, r2, c2, pos) {
                                let l3 = choose|l3: int|
                                    0 <= l3 < d.layers@.len() && cell_before((l3, r2, c2), pos) && is_collision(
                                        d.layers@[l3],
                                    ) && #[trigger] tile_at(d.layers@[l3], r2, c2) != 0;
                                assert(cell_before((l3, r2, c2), next));
                            }
                        }
                    }
                }
            }
            proof {
                assert forall|r2: int, c2: int|
                    0 <= r2 < d.height && 0 <= c2 < d.width implies (#[trigger] grid.cell(r2, c2)
                        == CollisionTile::Full <==> solid_before(d, r2, c2, next)) by {
                    if solid_before(d, r2, c2, next) {
                        let l3 = choose|l3: int|
                            0 <= l3 < d.layers@.len() && cell_before((l3, r2, c2), next) && is_collision(
                                d.layers@[l3],
                            ) && #[trigger] tile_at(d.layers@[l3], r2, c2) != 0;
                        if !(solid && tile != 0) && (l3, r2, c2) == pos {
                            assert(false);
                        }
                        if (l3, r2, c2) != pos {
                            assert(cell_before((l3, r2, c2), pos));
                        }
                    }
                    if solid_before(d, r2, c2, pos) {
                        let l3 = choose|l3: int|
                            0 <= l3 < d.layers@.len() && cell_before((l3, r2, c2), pos) && is_collision(
                                d.layers@[l3],
                            ) && #[trigger] tile_at(d.layers@[l3], r2, c2) != 0;
                        assert(cell_before((l3, r2, c2), next));
                    }
                }
                if tile == 0 {
                    assert forall|l2: int, r2: int, c2: int|
                        #[trigger] drawn_at(d, l2, r2, c2) && cell_before((l2, r2, c2), next) implies has_sprite_at(sprites@, l2, r2, c2) by {
                        assert((l2, r2, c2) != pos);
                    }
                }
            }
            col = col + 1;
        }
        proof {
            let end = (l as int, row as int, width as int);
            let next = (l as int, row as int + 1, 0int);
            assert forall|r2: int, c2: int|
                0 <= r2 < d.height && 0 <= c2 < d.width implies (#[trigger] grid.cell(r2, c2)
                    == CollisionTile::Full <==> solid_before(d, r2, c2, next)) by {
                if solid_before(d, r2, c2, next) {
                    let l3 = choose|l3: int|
                        0 <= l3 < d.layers@.len() && cell_before((l3, r2, c2), next) && is_collision(
                            d.layers@[l3],
                        ) && #[trigger] tile_at(d.layers@[l3], r2, c2) != 0;
                    assert(cell_before((l3, r2, c2), end));
                }
                if solid_before(d, r2, c2, end) {
                    let l3 = choose|l3: int|
                        0 <= l3 < d.layers@.len() && cell_before((l3, r2, c2), end) && is_collision(
                            d.layers@[l3],
                        ) && #[trigger] tile_at(d.layers@[l3], r2, c2) != 0;
                    assert(cell_before((l3, r2, c2), next));
                }
            }
        }
        row = row + 1;
    }
    proof {
        let end = (l as int, height as int, 0int);
        let next = (l as int + 1, 0int, 0int);
        assert forall|r2: int, c2: int|
            0 <= r2 < d.height && 0 <= c2 < d.width implies (#[trigger] grid.cell(r2, c2)
                == CollisionTile::Full <==> solid_before(d, r2, c2, next)) by {
            if solid_before(d, r2, c2, next) {
                let l3 = choose|l3: int|
                    0 <= l3 < d.layers@.len() && cell_before((l3, r2, c2), next) && is_collision(
                        d.layers@[l3],
                    ) && #[trigger] tile_at(d.layers@[l3], r2, c2) != 0;
                assert(cell_before((l3, r2, c2), end));
            }
            if solid_before(d, r2, c2, end) {
                let l3 = choose|l3: int|
                    0 <= l3 < d.layers@.len() && cell_before((l3, r2, c2), end) && is_collision(
                        d.layers@[l3],
                    ) && #[trigger] tile_at(d.layers@[l3], r2, c2) != 0;
                assert(cell_before((l3, r2, c2), next));
            }
        }
    }
}

/// Whether a layer is "water" or a grid of `height` rows of `width` tiles.
fn check_layer(layer: &TileLayer, width: usize, height: usize) -> (r: bool)
    ensures
        r == layer_ok(*layer, width as int, height as int),
{
    if layer.name == String::from_str("water") {
        return true;
    }
    match &layer.tiles {
        LayerTiles::Infinite => false,
        LayerTiles::Finite(g) => {
            if g.len() != height {
                return false;
            }
            let mut row: usize = 0;
            while row < height
                invariant
                    !is_water(*layer),
                    layer.tiles == LayerTiles::Finite(*g),
                    g@.len() == height,
                    row <= height,
                    forall|r: int| 0 <= r < row ==> #[trigger] g@[r]@.len() == width,
                decreases height - row,
            {
                if g[row].len() != width {
                    assert(g@[row as int]@.len() != width);
                    return false;
                }
                row = row + 1;
            }
            true
        },
    }
}

proof fn lemma_spawns_of_objects_step(h: int, objs: Seq<MapObject>, o: int)
    requires
        0 <= o < objs.len(),
    ensures
        spawns_of_objects(h, objs.subrange(0, o + 1)) == spawns_of_objects(h, objs.subrange(0, o))
            + opt_seq(spawn_of(h, objs[o])),
{
    assert(objs.subrange(0, o + 1).drop_last() =~= objs.subrange(0, o));
}

proof fn lemma_spawns_of_groups_step(h: int, groups: Seq<ObjectGroup>, g: int)
    requires
        0 <= g < groups.len(),
    ensures
        spawns_of_groups(h, groups.subrange(0, g + 1)) == spawns_of_groups(h, groups.subrange(0, g))
            + spawns_of_objects(h, groups[g].objects@),
{
    assert(groups.subrange(0, g + 1).drop_last() =~= groups.subrange(0, g));
}

/// The spawn requests of every object, in order, or the error for a goal
/// that is not a rectangle.
fn collect_spawns(desc: &MapDescription) -> (r: Result<Vec<SpawnRequest>, LevelError>)
    ensures
        r is Err <==> has_bad_goal(*desc),
        r is Err ==> r->Err_0 == LevelError::NonRectangularGoal,
        r is Ok ==> r->Ok_0@ == spawns_of_groups(desc.height as int, desc.object_groups@),
{
    let ghost h = desc.height as int;
    let groups = &desc.object_groups;
    let mut spawns: Vec<SpawnRequest> = Vec::new();
    let mut g: usize = 0;
    while g < groups.len()
        invariant
            groups == desc.object_groups,
            g <= groups@.len(),
            h == desc.height,
            spawns@ == spawns_of_groups(h, groups@.subrange(0, g as int)),
            forall|g2: int, i: int|
                0 <= g2 < g && 0 <= i < groups@[g2].objects@.len() ==> !is_bad_goal(
                    #[trigger] groups@[g2].objects@[i],
                ),
        decreases groups@.len() - g,
    {
        let objs = &groups[g].objects;
        let mut o: usize = 0;
        while o < objs.len()
            invariant
                groups == desc.object_groups,
                g < groups@.len(),
                *objs == groups@[g as int].objects,
                o <= objs@.len(),
                h == desc.height,
                spawns@ == spawns_of_groups(h, groups@.subrange(0, g as int)) + spawns_of_objects(
                    h,
                    objs@.subrange(0, o as int),
                ),
                forall|g2: int, i: int|
                    0 <= g2 < g && 0 <= i < groups@[g2].objects@.len() ==> !is_bad_goal(
                        #[trigger] groups@[g2].objects@[i],
                    ),
                forall|i: int| 0 <= i < o ==> !is_bad_goal(#[trigger] objs@[i]),
            decreases objs@.len() - o,
        {
            let object = &objs[o];
            let kind = classify_object(&object.obj_type);
            if kind == ObjectKind::Goal && object.shape != ObjectShape::Rect {
                assert(is_bad_goal(desc.object_groups@[g as int].objects@[o as int]));
                return Err(LevelError::NonRectangularGoal);
            }
            let req = spawn_request_for(desc.height, object);
            proof {
                lemma_spawns_of_objects_step(h, objs@, o as int);
            }
            match req {
                Some(s) => {
                    spawns.push(s);
                },
                None => {},
            }
            assert(spawns@ == spawns_of_groups(h, groups@.subrange(0, g as int)) + spawns_of_objects(
                h,
                objs@.subrange(0, o as int + 1),
            ));
            o = o + 1;
        }
        proof {
            lemma_spawns_of_groups_step(h, groups@, g as int);
            assert(objs@.subrange(0, o as int) =~= objs@);
        }
        g = g + 1;
    }
    assert(groups@.subrange(0, g as int) =~= groups@);
    Ok(spawns)
}

/// Whether a list of spawn requests holds a player start.
fn contains_player_start(spawns: &Vec<SpawnRequest>) -> (r: bool)
    ensures
        r == has_player_start(spawns@),
{
    let mut i: usize = 0;
    while i < spawns.len()
        invariant
            i <= spawns@.len(),
            forall|j: int| 0 <= j < i ==> !(#[trigger] spawns@[j] is PlayerStart),
        decreases spawns@.len() - i,
    {
        if let SpawnRequest::PlayerStart { .. } = spawns[i] {
            return true;
        }
        i = i + 1;
    }
    false
}

/// Compiles a map document into level `index`: its collision grid, the
/// sprites of every non-empty cell of every layer but "water", and the spawn
/// requests of its objects. Fails on a layer that is not a grid of the map's
/// size, then on a goal that is not a rectangle, then when no object asks for
/// the player's start.
pub fn compile(desc: &MapDescription, index: usize) -> (r: Result<CompiledLevel, LevelError>)
    ensures
        r matches Err(LevelError::InvalidLayer) <==> !layers_ok(*desc),
        r matches Err(LevelError::NonRectangularGoal) <==> layers_ok(*desc) && has_bad_goal(*desc),
        r matches Err(LevelError::MissingPlayerStart) <==> layers_ok(*desc) && !has_bad_goal(*desc)
            && !has_player_start(spawns_of_groups(desc.height as int, desc.object_groups@)),
        r matches Ok(lvl) ==> compiled_from(*desc, index, lvl),
        r is Ok <==> compile_error_of(*desc) is None,
        r matches Err(e) ==> compile_error_of(*desc) == Some(e),
{
    let ghost d = *desc;
    let width = desc.width as usize;
    let height = desc.height as usize;
    let mut collision = CollisionTiles::new(width, height);
    let mut sprites: Vec<TileSprite> = Vec::new();
    let layer_count = desc.layers.len();
    let mut l: usize = 0;
    proof {
        assert forall|r2: int, c2: int|
            0 <= r2 < d.height && 0 <= c2 < d.width implies (#[trigger] collision.cell(r2, c2)
                == CollisionTile::Full <==> solid_before(d, r2, c2, (0int, 0int, 0int))) by {
            if solid_before(d, r2, c2, (0int, 0int, 0int)) {
                let l3 = choose|l3: int|
                    0 <= l3 < d.layers@.len() && cell_before((l3, r2, c2), (0int, 0int, 0int)) && is_collision(
                        d.layers@[l3],
                    ) && #[trigger] tile_at(d.layers@[l3], r2, c2) != 0;
            }
        }
    }
    while l < layer_count
        invariant
            d == *desc,
            layer_count == desc.layers@.len(),
            width == desc.width,
            height == desc.height,
            l <= layer_count,
            forall|j: int|
                0 <= j < l ==> layer_ok(#[trigger] desc.layers@[j], width as int, height as int),
            sprites_upto(d, sprites@, (l as int, 0, 0)),
            collision_upto(d, collision, (l as int, 0, 0)),
        decreases layer_count - l,
    {
        let layer = &desc.layers[l];
        if !check_layer(layer, width, height) {
            return Err(LevelError::InvalidLayer);
        }
        if layer.name == String::from_str("water") {
            proof {
                reveal_strlit("water");
                reveal_strlit("collision");
                assert("water"@.len() != "collision"@.len());
                assert(!is_collision(*layer));
                let pos = (l as int, 0int, 0int);
                let next = (l as int + 1, 0int, 0int);
                assert forall|l2: int, r2: int, c2: int|
                    #[trigger] drawn_at(d, l2, r2, c2) && cell_before((l2, r2, c2), next) implies has_sprite_at(sprites@, l2, r2, c2) by {
                    assert(l2 != l);
                }
                assert forall|r2: int, c2: int|
                    0 <= r2 < d.height && 0 <= c2 < d.width implies (#[trigger] collision.cell(r2, c2)
                        == CollisionTile::Full <==> solid_before(d, r2, c2, next)) by {
                    if solid_before(d, r2, c2, next) {
                        let l3 = choose|l3: int|
                            0 <= l3 < d.layers@.len() && cell_before((l3, r2, c2), next) && is_collision(
                                d.layers@[l3],
                            ) && #[trigger] tile_at(d.layers@[l3], r2, c2) != 0;
                        assert(l3 != l);
                        assert(cell_before((l3, r2, c2), pos));
                    }
                    if solid_before(d, r2, c2, pos) {
                        let l3 = choose|l3: int|
                            0 <= l3 < d.layers@.len() && cell_before((l3, r2, c2), pos) && is_collision(
                                d.layers@[l3],
                            ) && #[trigger] tile_at(d.layers@[l3], r2, c2) != 0;
                        assert(cell_before((l3, r2, c2), next));
                    }
                }
            }
        } else {
            emit_layer(desc, l, &mut sprites, &mut collision);
        }
        l = l + 1;
    }
    let spawns = match collect_spawns(desc) {
        Ok(v) => v,
        Err(e) => {
            return Err(e);
        },
    };
    if !contains_player_start(&spawns) {
        return Err(LevelError::MissingPlayerStart);
    }
    let ghost end = (layer_count as int, 0int, 0int);
    proof {
        assert forall|r2: int, c2: int|
            0 <= r2 < d.height && 0 <= c2 < d.width implies (#[trigger] collision.cell(r2, c2)
                == CollisionTile::Full <==> solid_at(d, r2, c2)) by {
            if solid_at(d, r2, c2) {
                let l3 = choose|l3: int|
                    0 <= l3 < d.layers@.len() && is_collision(d.layers@[l3]) && #[trigger] tile_at(
                        d.layers@[l3],
                        r2,
                        c2,
                    ) != 0;
                assert(cell_before((l3, r2, c2), end));
            }
        }
    }
    let map = LevelMap { width, height, index };
    Ok(CompiledLevel { map, collision, sprites, spawns })
}

/// A compiled level's collision grid has the map's width and height, and a
/// cell is full exactly when the "collision" layer has a tile there: a tile
/// that only a "water" layer holds never makes a cell full.
pub proof fn lemma_collision_grid_matches_map(desc: MapDescription, index: usize, lvl: CompiledLevel)
    requires
        compiled_from(desc, index, lvl),
    ensures
        lvl.collision.wf(),
        lvl.collision.width == desc.width,
        lvl.collision.height == desc.height,
        forall|row: int, col: int|
            0 <= row < desc.height && 0 <= col < desc.width ==> (#[trigger] lvl.collision.cell(row, col)
                == CollisionTile::Full <==> exists|l: int|
                0 <= l < desc.layers@.len() && is_collision(desc.layers@[l]) && #[trigger] tile_at(
                    desc.layers@[l],
                    row,
                    col,
                ) != 0),
        forall|row: int, col: int|
            0 <= row < desc.height && 0 <= col < desc.width && (forall|l: int|
                0 <= l < desc.layers@.len() && #[trigger] tile_at(desc.layers@[l], row, col) != 0
                    ==> is_water(desc.layers@[l])) ==> #[trigger] lvl.collision.cell(row, col)
                == CollisionTile::Empty,
{
    reveal_strlit("water");
    reveal_strlit("collision");
    assert("water"@.len() != "collision"@.len());
    assert forall|row: int, col: int|
        0 <= row < desc.height && 0 <= col < desc.width && (forall|l: int|
            0 <= l < desc.layers@.len() && #[trigger] tile_at(desc.layers@[l], row, col) != 0
                ==> is_water(desc.layers@[l])) implies #[trigger] lvl.collision.cell(row, col)
            == CollisionTile::Empty by {
        if lvl.collision.cell(row, col) == CollisionTile::Full {
            let l = choose|l: int|
                0 <= l < desc.layers@.len() && is_collision(desc.layers@[l]) && #[trigger] tile_at(
                    desc.layers@[l],
                    row,
                    col,
                ) != 0;
            assert(is_water(desc.layers@[l]));
        }
        if lvl.collision.cell(row, col) != CollisionTile::Full {
            assert(lvl.collision.cell(row, col) == CollisionTile::Empty);
        }
    }
}

/// A compiled level holds exactly one sprite for each non-empty cell of each
/// layer but "water", placed at that cell's world centre; a sprite of a lower
/// row always stands lower in the world.
pub proof fn lemma_one_sprite_per_tile(desc: MapDescription, index: usize, lvl: CompiledLevel)
    requires
        compiled_from(desc, index, lvl),
    ensures
        forall|l: int, row: int, col: int|
            #[trigger] drawn_at(desc, l, row, col) ==> exists|i: int|
                0 <= i < lvl.sprites@.len() && #[trigger] lvl.sprites@[i] == sprite_for(desc, l, row, col),
        forall|i: int, j: int|
            0 <= i < lvl.sprites@.len() && 0 <= j < lvl.sprites@.len() && key_of(
                #[trigger] lvl.sprites@[i],
            ) == key_of(#[trigger] lvl.sprites@[j]) ==> i == j,
        forall|i: int|
            0 <= i < lvl.sprites@.len() ==> {
                let s = #[trigger] lvl.sprites@[i];
                &&& drawn_at(desc, s.layer as int, s.row as int, s.col as int)
                &&& s.x == world_x_of_col(s.col as int)
                &&& s.y == world_y_of_row(desc.height as int, s.row as int)
            },
        forall|i: int, j: int|
            0 <= i < lvl.sprites@.len() && 0 <= j < lvl.sprites@.len() && lvl.sprites@[i].row
                < lvl.sprites@[j].row ==> #[trigger] lvl.sprites@[i].y > #[trigger] lvl.sprites@[j].y,
{
    let sp = lvl.sprites@;
    assert forall|l: int, row: int, col: int| #[trigger] drawn_at(desc, l, row, col) implies exists|i: int|
        0 <= i < sp.len() && #[trigger] sp[i] == sprite_for(desc, l, row, col) by {
        assert(has_sprite_at(sp, l, row, col));
        let i = choose|i: int| 0 <= i < sp.len() && #[trigger] key_of(sp[i]) == (l, row, col);
        assert(sp[i] == sprite_for(desc, l, row, col));
    }
    assert forall|i: int, j: int|
        0 <= i < sp.len() && 0 <= j < sp.len() && key_of(#[trigger] sp[i]) == key_of(#[trigger] sp[j])
            implies i == j by {
        if i < j {
            assert(cell_before(key_of(sp[i]), key_of(sp[j])));
        } else if j < i {
            assert(cell_before(key_of(sp[j]), key_of(sp[i])));
        }
    }
    assert forall|i: int, j: int|
        0 <= i < sp.len() && 0 <= j < sp.len() && sp[i].row < sp[j].row implies #[trigger] sp[i].y
            > #[trigger] sp[j].y by {
        let si = sp[i];
        let sj = sp[j];
        assert(si == sprite_for(desc, si.layer as int, si.row as int, si.col as int));
        assert(sj == sprite_for(desc, sj.layer as int, sj.row as int, sj.col as int));
    }
}

} // verus!
