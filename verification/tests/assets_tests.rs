use pong::assets::{create_sprites, load_assets, PlayerId, Texture, PADDLE_HEIGHT, PADDLE_WIDTH};
use pong::geometry::IntRect;

#[test]
fn load_assets_holds_both_paddle_textures_in_order() {
    let assets = load_assets();
    assert_eq!(assets.len(), 2);

    let blue = assets.entry_at(0);
    assert_eq!(blue.0, PlayerId::BluePaddle);
    assert_eq!(blue.1.path, "./assets/blue-paddle.png");

    let green = assets.entry_at(1);
    assert_eq!(green.0, PlayerId::GreenPaddle);
    assert_eq!(green.1.path, "./assets/green-paddle.png");
}

#[test]
fn load_assets_crops_both_textures_to_the_paddle_rectangle() {
    let assets = load_assets();
    let expected = IntRect {
        left: 0,
        top: 0,
        width: PADDLE_WIDTH,
        height: PADDLE_HEIGHT,
    };
    assert_eq!(assets.entry_at(0).1.area, expected);
    assert_eq!(assets.entry_at(1).1.area, expected);
}

#[test]
fn create_sprites_pairs_each_sprite_with_its_texture() {
    let assets = load_assets();
    let sprites = create_sprites(&assets);
    assert_eq!(sprites.len(), 2);
    for (i, (id, sprite)) in sprites.iter().enumerate() {
        assert_eq!(*id, assets.entry_at(i).0);
        assert_eq!(sprite.texture, *id);
        assert_eq!(sprite.position.x, 0);
        assert_eq!(sprite.position.y, 0);
    }
}

#[test]
fn reinserting_a_player_replaces_its_row_in_place() {
    let mut assets = load_assets();
    let smaller = IntRect {
        left: 0,
        top: 0,
        width: 10,
        height: 25,
    };
    assets.insert(
        PlayerId::BluePaddle,
        Texture {
            path: String::from("./assets/blue-paddle.png"),
            area: smaller,
        },
    );
    // The table never grows past one row per player.
    assert_eq!(assets.len(), 2);
    assert_eq!(assets.entry_at(0).0, PlayerId::BluePaddle);
    assert_eq!(assets.entry_at(0).1.area, smaller);
    assert_eq!(assets.entry_at(1).0, PlayerId::GreenPaddle);
}

#[test]
fn player_ids_and_table_positions_correspond() {
    assert_eq!(PlayerId::BluePaddle.index(), 0);
    assert_eq!(PlayerId::GreenPaddle.index(), 1);
    assert_eq!(PlayerId::from_index(0), Some(PlayerId::BluePaddle));
    assert_eq!(PlayerId::from_index(1), Some(PlayerId::GreenPaddle));
    assert_eq!(PlayerId::from_index(2), None);
}
