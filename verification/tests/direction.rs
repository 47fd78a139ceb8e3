use snake::heading::Direction;
use snake::player::{heading_of, BodyPart, Player};
use snake::systems::direction::{
    body_sprite, chosen, handle_sprites, head_sprite, tail_sprite, DirectionSystem, Input,
};

fn keys(up: bool, down: bool, left: bool, right: bool) -> Input {
    Input { up, down, left, right }
}

fn none() -> Input {
    keys(false, false, false, false)
}

fn heading_right() -> Player {
    Player::new((5, 5), (4, 5), (3, 5))
}

fn with_head(dir: Direction) -> Player {
    let mut player = heading_right();
    player.snake[0].dir = dir;
    player.vel = dir.unit();
    player
}

#[test]
fn one_key_sets_the_pending_heading() {
    let mut player = heading_right();
    DirectionSystem.run(&mut player, &keys(true, false, false, false));
    assert_eq!(player.vel, (0, 1));
    DirectionSystem.run(&mut player, &keys(false, true, false, false));
    assert_eq!(player.vel, (0, -1));
    DirectionSystem.run(&mut player, &keys(false, false, false, true));
    assert_eq!(player.vel, (1, 0));
}

#[test]
fn resolver_moves_and_turns_nothing() {
    let mut player = heading_right();
    let before: Vec<BodyPart> = player.snake.clone();
    DirectionSystem.run(&mut player, &keys(true, false, false, false));
    assert_eq!(player.snake, before);
    assert!(player.is_alive);
    assert_eq!(player.snake[0].dir, Direction::Right);
}

#[test]
fn no_key_keeps_the_pending_heading() {
    let mut player = heading_right();
    player.vel = (0, 1);
    DirectionSystem.run(&mut player, &none());
    assert_eq!(player.vel, (0, 1));
    player.vel = (0, 0);
    DirectionSystem.run(&mut player, &none());
    assert_eq!(player.vel, (0, 0));
}

#[test]
fn reverse_key_is_not_taken() {
    let mut player = heading_right();
    DirectionSystem.run(&mut player, &keys(false, false, true, false));
    assert_eq!(player.vel, (1, 0));
    let mut player = with_head(Direction::Left);
    DirectionSystem.run(&mut player, &keys(false, false, false, true));
    assert_eq!(player.vel, (-1, 0));
    let mut player = with_head(Direction::Up);
    DirectionSystem.run(&mut player, &keys(false, true, false, false));
    assert_eq!(player.vel, (0, 1));
    let mut player = with_head(Direction::Down);
    DirectionSystem.run(&mut player, &keys(true, false, false, false));
    assert_eq!(player.vel, (0, -1));
}

#[test]
fn pending_heading_never_points_against_the_head() {
    let heads: Vec<Direction> = vec![Direction::Up, Direction::Down, Direction::Right, Direction::Left];
    for head in heads {
        for bits in 0..16u8 {
            let input = keys(bits & 1 != 0, bits & 2 != 0, bits & 4 != 0, bits & 8 != 0);
            let mut player = with_head(head);
            DirectionSystem.run(&mut player, &input);
            assert_ne!(heading_of(player.vel), Some(head.opposite()));
            assert_eq!(player.snake[0].dir, head);
            assert!(player.is_valid());
        }
    }
}

#[test]
fn held_keys_are_taken_in_the_order_right_left_up_down() {
    assert_eq!(chosen(keys(true, true, true, true), Direction::Up), Some(Direction::Right));
    assert_eq!(chosen(keys(true, true, true, false), Direction::Up), Some(Direction::Left));
    assert_eq!(chosen(keys(true, true, false, false), Direction::Right), Some(Direction::Up));
    assert_eq!(chosen(keys(false, true, false, false), Direction::Right), Some(Direction::Down));
    // A key against the head does not count, and the next in line wins.
    assert_eq!(chosen(keys(true, true, true, true), Direction::Left), Some(Direction::Left));
    assert_eq!(chosen(keys(true, true, true, true), Direction::Right), Some(Direction::Right));
    assert_eq!(chosen(keys(true, false, false, true), Direction::Left), Some(Direction::Up));
    assert_eq!(chosen(keys(true, true, false, false), Direction::Down), Some(Direction::Down));
    assert_eq!(chosen(keys(true, false, false, false), Direction::Down), None);
    assert_eq!(chosen(none(), Direction::Up), None);
}

#[test]
fn resolver_leaves_an_empty_chain_alone() {
    let mut player = Player::default();
    DirectionSystem.run(&mut player, &keys(true, false, false, false));
    assert_eq!(player.vel, (0, 0));
    assert!(player.snake.is_empty());
}

#[test]
fn sprites_of_head_tail_and_body() {
    assert_eq!(head_sprite(Direction::Right), 4);
    assert_eq!(head_sprite(Direction::Left), 10);
    assert_eq!(head_sprite(Direction::Up), 3);
    assert_eq!(head_sprite(Direction::Down), 11);
    assert_eq!(tail_sprite(Direction::Right), 18);
    assert_eq!(tail_sprite(Direction::Left), 24);
    assert_eq!(tail_sprite(Direction::Up), 17);
    assert_eq!(tail_sprite(Direction::Down), 25);
    assert_eq!(tail_sprite(Direction::RightUp), 17);
    assert_eq!(body_sprite(Direction::Right), 1);
    assert_eq!(body_sprite(Direction::Left), 1);
    assert_eq!(body_sprite(Direction::Up), 9);
    assert_eq!(body_sprite(Direction::Down), 9);
    assert_eq!(body_sprite(Direction::LeftUp), 7);
    assert_eq!(body_sprite(Direction::DownRight), 7);
    assert_eq!(body_sprite(Direction::LeftDown), 0);
    assert_eq!(body_sprite(Direction::UpRight), 0);
    assert_eq!(body_sprite(Direction::RightUp), 16);
    assert_eq!(body_sprite(Direction::DownLeft), 16);
    assert_eq!(body_sprite(Direction::RightDown), 2);
    assert_eq!(body_sprite(Direction::UpLeft), 2);
}

#[test]
fn sprites_of_a_chain() {
    let player = Player {
        snake: vec![
            BodyPart { part: 0, x: 4, y: 7, dir: Direction::Up, is_tail: false },
            BodyPart { part: 1, x: 4, y: 6, dir: Direction::RightUp, is_tail: false },
            BodyPart { part: 2, x: 3, y: 6, dir: Direction::Right, is_tail: false },
            BodyPart { part: 3, x: 2, y: 6, dir: Direction::Right, is_tail: true },
        ],
        vel: (0, 1),
        is_alive: true,
    };
    assert_eq!(handle_sprites(&player), vec![3, 16, 1, 18]);
    assert_eq!(handle_sprites(&Player::default()), Vec::<usize>::new());
    assert_eq!(handle_sprites(&heading_right()), vec![4, 1, 18]);
}
