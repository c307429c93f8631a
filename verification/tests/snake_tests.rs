use snaek::math::pos::Pos;
use snaek::math::size::Size;
use snaek::snake::snaeksheet::snaek_sheet;
use snaek::snake::{Banana, Direction, Slot, SnakeGame};
use snaek::spritesheet::{ascii_chars_spritesheet, snaeksheet};
use snaek::render::ascii_sheet::ascii_sheet;

#[test]
fn slot_packs_directions_independently() {
    let mut s = Slot::empty();
    s.set_direction_prev(Direction::Left);
    s.set_direction_next(Direction::Down);
    assert_eq!(s.direction_prev(), Direction::Left);
    assert_eq!(s.direction_next(), Direction::Down);
    s.set_direction_prev(Direction::Up);
    assert_eq!(s.direction_prev(), Direction::Up);
    assert_eq!(s.direction_next(), Direction::Down, "the other field is untouched");
}

#[test]
fn slot_snake_markers_and_banana() {
    let mut s = Slot::empty();
    assert!(!s.has_snake());
    s.set_snake_head();
    assert!(s.has_snake_head() && s.has_snake());
    s.set_snake_tail();
    assert!(s.has_snake_tail());
    s.set_banana(Some(Banana::Red));
    assert_eq!(s.banana(), Some(Banana::Red));
    s.remove_snake();
    assert!(!s.has_snake());
    assert_eq!(s.banana(), Some(Banana::Red), "bananas survive the snake leaving");
    s.set_banana(None);
    assert_eq!(s.banana(), None);
}

#[test]
fn direction_opposites_pair_up() {
    assert_eq!(Direction::Up.opposite(), Direction::Down);
    assert_eq!(Direction::Left.opposite(), Direction::Right);
    assert_eq!(Direction::Down.opposite().opposite(), Direction::Down);
    assert_eq!(Direction::Right.pos_offset(), Pos { x: 1, y: 0 });
    assert_eq!(Direction::Up.pos_offset(), Pos { x: 0, y: -1 });
}

fn banana_count(game: &SnakeGame) -> usize {
    let size = game.size();
    let mut count = 0;
    for y in 0..size.h as i16 {
        for x in 0..size.w as i16 {
            if game.slot_at(Pos { x, y }).banana().is_some() {
                count += 1;
            }
        }
    }
    count
}

#[test]
fn new_game_places_snake_and_one_banana() {
    let game = SnakeGame::new(Size { w: 11, h: 11 });
    assert!(!game.is_dead());
    assert_eq!(game.bananas_eaten(), 0);
    assert_eq!(game.direction(), Direction::Right);
    assert_eq!(game.speed(), 30);
    assert_eq!(game.snake_head(), Pos { x: 5, y: 5 });
    let head = game.slot_at(game.snake_head());
    assert!(head.has_snake_head());
    assert!(game.slot_at(Pos { x: 4, y: 5 }).has_snake_tail());
    assert_eq!(banana_count(&game), 1);
}

#[test]
fn update_advances_the_head() {
    let mut game = SnakeGame::new(Size { w: 11, h: 11 });
    let before = game.snake_head();
    game.update();
    if !game.ate_banana() {
        assert_eq!(game.snake_head(), Pos { x: before.x + 1, y: before.y });
    }
    assert!(!game.is_dead());
}

#[test]
fn change_direction_ignores_reversal() {
    let mut game = SnakeGame::new(Size { w: 11, h: 11 });
    game.change_direction(Direction::Left);
    assert_eq!(game.direction(), Direction::Right, "a reversal is ignored");
    game.change_direction(Direction::Up);
    assert_eq!(game.direction(), Direction::Up);
    game.change_direction(Direction::Down);
    assert_eq!(game.direction(), Direction::Up);
}

#[test]
fn eating_bananas_raises_score_and_speed() {
    let mut game = SnakeGame::new(Size { w: 5, h: 5 });
    let mut eaten = 0;
    for _ in 0..200 {
        if game.is_dead() {
            break;
        }
        game.update();
        if game.ate_banana() {
            eaten += 1;
            assert_eq!(game.bananas_eaten(), eaten);
            assert_eq!(game.speed(), 30 + eaten);
        }
        // Steer in a small loop so the snake keeps moving.
        let turn = match game.direction() {
            Direction::Right => Direction::Down,
            Direction::Down => Direction::Left,
            Direction::Left => Direction::Up,
            Direction::Up => Direction::Right,
        };
        game.change_direction(turn);
    }
}

fn banana_pos(game: &SnakeGame) -> Option<Pos> {
    let size = game.size();
    for y in 0..size.h as i16 {
        for x in 0..size.w as i16 {
            if game.slot_at(Pos { x, y }).banana().is_some() {
                return Some(Pos { x, y });
            }
        }
    }
    None
}

#[test]
fn duration_freezes_on_death() {
    let mut game = SnakeGame::new(Size { w: 3, h: 3 });
    game.update_duration(1234);
    assert_eq!(game.duration(), 1234);
    // Chase bananas on a tiny board: the snake grows until it runs into
    // its own body.
    let mut steps = 0;
    while !game.is_dead() && steps < 100_000 {
        if let Some(b) = banana_pos(&game) {
            let h = game.snake_head();
            if b.x > h.x {
                game.change_direction(Direction::Right);
            } else if b.x < h.x {
                game.change_direction(Direction::Left);
            } else if b.y > h.y {
                game.change_direction(Direction::Down);
            } else if b.y < h.y {
                game.change_direction(Direction::Up);
            }
        }
        game.update();
        steps += 1;
    }
    assert!(game.is_dead(), "a banana-chasing snake on a 3x3 board dies");
    let frozen = game.duration();
    let score = game.bananas_eaten();
    game.update_duration(9999);
    assert_eq!(game.duration(), frozen, "the clock is frozen after death");
    game.update();
    assert_eq!(game.bananas_eaten(), score, "a dead game no longer changes");
    assert!(game.is_dead());
}

#[test]
fn restart_resets_the_run() {
    let mut game = SnakeGame::new(Size { w: 7, h: 7 });
    game.update();
    game.update_duration(5000);
    game.restart();
    assert!(!game.is_dead());
    assert_eq!(game.bananas_eaten(), 0);
    assert_eq!(game.speed(), 30);
    assert_eq!(game.duration(), 0);
    assert_eq!(game.direction(), Direction::Right);
    assert_eq!(banana_count(&game), 1);
}

#[test]
fn slot_at_wraps_around_the_torus() {
    let game = SnakeGame::new(Size { w: 11, h: 11 });
    let head = game.snake_head();
    let wrapped = game.slot_at(Pos { x: head.x - 11, y: head.y + 11 });
    assert!(wrapped.has_snake_head());
}

#[test]
fn sheets_agree_on_shared_sprites() {
    let a = snaek_sheet();
    let b = snaeksheet();
    assert_eq!(a.cursor, b.cursor);
    assert_eq!(a.box_playfield, b.box_playfield);
    assert_eq!(a.nums[0], b.num_0);
    assert_eq!(a.bignums[9], b.bignum_9);
    let f = ascii_sheet();
    assert_eq!(f.space.rect.w, 2);
    let g = ascii_chars_spritesheet();
    assert_eq!(g.space.rect.w, 2);
}
