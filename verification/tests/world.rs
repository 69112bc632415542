use space_invaders::sprite::Sprite;
use space_invaders::world::{World, WorldBuilder};

fn world_with_player(x: u32, y: u32, width: u32, height: u32) -> World {
    match WorldBuilder::new().with_player(Sprite::new(x, y, width, height)).build() {
        Ok(world) => world,
        Err(message) => panic!("no world: {}", message),
    }
}

#[test]
fn build_without_player_fails() {
    match WorldBuilder::new().build() {
        Ok(_) => panic!("a world without a player was built"),
        Err(message) => assert_eq!(message, "Player is required"),
    }
}

#[test]
fn build_with_player_succeeds() {
    let built = WorldBuilder::new().with_player(Sprite::new(1, 2, 3, 4)).build();
    assert!(built.is_ok());
    let world = world_with_player(1, 2, 3, 4);
    assert_eq!(world.player().x(), 1);
    assert_eq!(world.player().y(), 2);
    assert_eq!(world.player().width(), 3);
    assert_eq!(world.player().height(), 4);
}

#[test]
fn later_player_replaces_earlier_one() {
    let built = WorldBuilder::new()
        .with_player(Sprite::new(1, 2, 3, 4))
        .with_player(Sprite::new(10, 20, 30, 40))
        .build();
    match built {
        Ok(world) => {
            assert_eq!(world.player().x(), 10);
            assert_eq!(world.player().y(), 20);
            assert_eq!(world.player().width(), 30);
            assert_eq!(world.player().height(), 40);
        }
        Err(message) => panic!("no world: {}", message),
    }
}

#[test]
fn set_pixel_paints_the_player_white() {
    let world = world_with_player(400, 500, 20, 20);
    let mut pixel = [1u8, 2, 3, 4];
    world.set_pixel(410, 510, &mut pixel);
    assert_eq!(pixel, [255, 255, 255, 255]);
    let mut corner = [0u8; 4];
    world.set_pixel(420, 520, &mut corner);
    assert_eq!(corner, [255, 255, 255, 255]);
}

#[test]
fn set_pixel_paints_the_background_black() {
    let world = world_with_player(400, 500, 20, 20);
    let mut pixel = [1u8, 2, 3, 4];
    world.set_pixel(0, 0, &mut pixel);
    assert_eq!(pixel, [0, 0, 0, 255]);
    let mut next_to_player = [9u8; 4];
    world.set_pixel(421, 510, &mut next_to_player);
    assert_eq!(next_to_player, [0, 0, 0, 255]);
}

#[test]
fn set_pixel_keeps_bytes_behind_the_fourth() {
    let world = world_with_player(400, 500, 20, 20);
    let mut inside = [1u8, 2, 3, 4, 5, 6];
    world.set_pixel(400, 500, &mut inside);
    assert_eq!(inside, [255, 255, 255, 255, 5, 6]);
    let mut outside = [1u8, 2, 3, 4, 5, 6, 7];
    world.set_pixel(399, 500, &mut outside);
    assert_eq!(outside, [0, 0, 0, 255, 5, 6, 7]);
}

#[test]
fn move_player_moves_and_clamps() {
    let mut world = world_with_player(400, 500, 20, 20);
    world.move_player(-5);
    assert_eq!(world.player().x(), 395);
    world.move_player(-400);
    assert_eq!(world.player().x(), 0);
    world.move_player(10_000);
    assert_eq!(world.player().x(), 780);
    assert_eq!(world.player().y(), 500);
}

#[test]
fn moved_player_is_painted_at_its_new_place() {
    let mut world = world_with_player(400, 500, 20, 20);
    world.move_player(-400);
    let mut pixel = [0u8; 4];
    world.set_pixel(0, 500, &mut pixel);
    assert_eq!(pixel, [255, 255, 255, 255]);
    world.set_pixel(410, 510, &mut pixel);
    assert_eq!(pixel, [0, 0, 0, 255]);
}
