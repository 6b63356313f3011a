use unfair_advantage::tilemap::{
    compile, classify_object, position_tmx_to_world, CollisionTile, FishType, LayerTiles,
    LevelError, MapDescription, MapObject, ObjectGroup, ObjectKind, ObjectShape, SpawnRequest,
    TileLayer,
};

fn layer(name: &str, rows: Vec<Vec<u32>>) -> TileLayer {
    TileLayer { name: name.to_string(), tiles: LayerTiles::Finite(rows) }
}

fn object(tag: &str, x: i32, y: i32, width: u32, height: u32) -> MapObject {
    MapObject { obj_type: tag.to_string(), x, y, width, height, shape: ObjectShape::Rect }
}

fn sample_map() -> MapDescription {
    MapDescription {
        width: 3,
        height: 2,
        layers: vec![
            layer("background", vec![vec![5, 0, 0], vec![0, 0, 6]]),
            layer("water", vec![vec![9, 9, 9], vec![9, 9, 9]]),
            layer("collision", vec![vec![0, 0, 0], vec![1, 2, 0]]),
        ],
        object_groups: vec![ObjectGroup {
            objects: vec![
                object("player_start", 10, 4, 0, 0),
                object("anglerfish", 20, 8, 16, 16),
                object("tree", 0, 0, 4, 4),
                object("star", 30, 12, 2, 2),
                object("goal", 32, 0, 16, 32),
                object("bubbles", 8, 8, 0, 0),
                object("sawfish", 0, 16, 10, 6),
            ],
        }],
    }
}

#[test]
fn collision_grid_has_map_size_and_solid_cells() {
    let level = compile(&sample_map(), 0).unwrap();
    assert_eq!(level.collision.width, 3);
    assert_eq!(level.collision.height, 2);
    assert_eq!(level.collision.tiles.len(), 2);
    let expected = [
        [CollisionTile::Empty, CollisionTile::Empty, CollisionTile::Empty],
        [CollisionTile::Full, CollisionTile::Full, CollisionTile::Empty],
    ];
    for row in 0..2 {
        assert_eq!(level.collision.tiles[row].len(), 3);
        for col in 0..3 {
            assert_eq!(level.collision.get(row, col), expected[row][col]);
        }
    }
}

#[test]
fn water_tiles_are_neither_drawn_nor_solid() {
    let level = compile(&sample_map(), 0).unwrap();
    assert!(level.sprites.iter().all(|s| s.layer != 1));
    assert_eq!(level.collision.get(0, 0), CollisionTile::Empty);
}

#[test]
fn one_sprite_per_non_empty_tile() {
    let level = compile(&sample_map(), 4).unwrap();
    assert_eq!(level.map.index, 4);
    assert_eq!(level.map.width, 3);
    assert_eq!(level.map.height, 2);
    let cells: Vec<(usize, usize, usize, u32)> =
        level.sprites.iter().map(|s| (s.layer, s.row, s.col, s.tile_id)).collect();
    assert_eq!(cells, vec![(0, 0, 0, 5), (0, 1, 2, 6), (2, 1, 0, 1), (2, 1, 1, 2)]);
    let first = level.sprites[0];
    assert_eq!((first.x, first.y, first.order, first.solid), (8, 24, 1, false));
    let last = level.sprites[3];
    assert_eq!((last.x, last.y, last.order, last.solid), (24, 8, 3, true));
    assert_eq!(first.atlas_index(), 4);
}

#[test]
fn world_y_falls_as_row_grows() {
    let rows: Vec<Vec<u32>> = (0..5).map(|_| vec![1]).collect();
    let desc = MapDescription {
        width: 1,
        height: 5,
        layers: vec![layer("ground", rows)],
        object_groups: vec![ObjectGroup { objects: vec![object("player_start", 0, 0, 0, 0)] }],
    };
    let level = compile(&desc, 0).unwrap();
    let ys: Vec<i64> = level.sprites.iter().map(|s| s.y).collect();
    assert_eq!(ys, vec![72, 56, 40, 24, 8]);
}

#[test]
fn spawn_requests_follow_objects_in_order() {
    let level = compile(&sample_map(), 0).unwrap();
    assert_eq!(
        level.spawns,
        vec![
            SpawnRequest::PlayerStart { x: 10, y: 28 },
            SpawnRequest::Enemy { kind: FishType::Anglerfish, x: 28, y: 16 },
            SpawnRequest::Pickup { x: 31, y: 19 },
            SpawnRequest::Goal { x: 40, y: 16, width: 16, height: 32 },
            SpawnRequest::EffectGenerator { x: 8, y: 24 },
            SpawnRequest::Enemy { kind: FishType::Sawfish, x: 5, y: 13 },
        ]
    );
}

#[test]
fn object_centre_is_flipped_into_world_space() {
    let o = object("goal", 100, 40, 20, 10);
    assert_eq!(position_tmx_to_world(10, &o), (110, 115));
}

#[test]
fn unknown_tags_are_ignored() {
    assert_eq!(classify_object(&"tree".to_string()), ObjectKind::Unknown);
    assert_eq!(classify_object(&"player_start".to_string()), ObjectKind::PlayerStart);
    assert_eq!(classify_object(&"goal".to_string()), ObjectKind::Goal);
}

#[test]
fn missing_player_start_is_an_error() {
    let mut desc = sample_map();
    desc.object_groups[0].objects.remove(0);
    assert_eq!(compile(&desc, 0).err(), Some(LevelError::MissingPlayerStart));
}

#[test]
fn empty_object_layer_without_start_is_an_error() {
    let mut desc = sample_map();
    desc.object_groups = vec![];
    assert_eq!(compile(&desc, 0).err(), Some(LevelError::MissingPlayerStart));
}

#[test]
fn non_rectangular_goal_is_an_error() {
    let mut desc = sample_map();
    desc.object_groups[0].objects[4].shape = ObjectShape::Other;
    assert_eq!(compile(&desc, 0).err(), Some(LevelError::NonRectangularGoal));
}

#[test]
fn layer_of_wrong_size_is_an_error() {
    let mut desc = sample_map();
    desc.layers[0] = layer("background", vec![vec![1, 0, 0]]);
    assert_eq!(compile(&desc, 0).err(), Some(LevelError::InvalidLayer));
    let mut desc = sample_map();
    desc.layers[2].tiles = LayerTiles::Infinite;
    assert_eq!(compile(&desc, 0).err(), Some(LevelError::InvalidLayer));
}

#[test]
fn water_layer_of_any_shape_is_accepted() {
    let mut desc = sample_map();
    desc.layers[1].tiles = LayerTiles::Infinite;
    assert!(compile(&desc, 0).is_ok());
}
