use pong::scene::{BACKGROUND_BLUE, BACKGROUND_GREEN, BACKGROUND_RED};
use pong::{Frame, GameState, Input, Rgb, Scene, SpriteSize, Vec2, Winner};

fn fresh() -> GameState {
    GameState::new(SpriteSize::new(16, 96), SpriteSize::new(16, 96), SpriteSize::new(16, 16)).unwrap()
}

#[test]
fn background_is_cornflower_blue() {
    assert_eq!(BACKGROUND_RED, 392);
    assert_eq!(BACKGROUND_GREEN, 584);
    assert_eq!(BACKGROUND_BLUE, 929);
    let frame = fresh().draw();
    assert_eq!(frame.background, Rgb { red: 392, green: 584, blue: 929 });
}

#[test]
fn running_match_shows_the_three_sprites() {
    let frame = fresh().draw();
    assert_eq!(
        frame,
        Frame {
            background: Rgb { red: 392, green: 584, blue: 929 },
            scene: Scene::Playing {
                player1: Vec2::new(16_000, 192_000),
                player2: Vec2::new(608_000, 192_000),
                ball: Vec2::new(312_000, 232_000),
            },
        }
    );
}

#[test]
fn sprites_are_shown_where_the_entities_are() {
    let mut s = fresh();
    s.update(Input { player1_up: true, player1_down: false, player2_up: false, player2_down: true });
    assert_eq!(
        s.draw().scene,
        Scene::Playing {
            player1: Vec2::new(16_000, 184_000),
            player2: Vec2::new(608_000, 200_000),
            ball: Vec2::new(307_000, 232_000),
        }
    );
}

#[test]
fn ended_match_shows_only_the_closing_text() {
    let mut s = fresh();
    s.winner = Some(Winner::Player2);
    let frame = s.draw();
    assert_eq!(frame.background, Rgb { red: 392, green: 584, blue: 929 });
    assert_eq!(
        frame.scene,
        Scene::Ended { winner: Winner::Player2, text_at: Vec2::new(180_000, 218_000) }
    );
    s.winner = Some(Winner::Player1);
    assert_eq!(
        s.draw().scene,
        Scene::Ended { winner: Winner::Player1, text_at: Vec2::new(180_000, 218_000) }
    );
}

#[test]
fn draw_changes_nothing() {
    let s = fresh();
    let before = s;
    let _ = s.draw();
    assert_eq!(s, before);
}
