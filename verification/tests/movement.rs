use snake::grid::{BoundaryPolicy, Grid};
use snake::heading::Direction;
use snake::player::{heading_of, initialise_snake, BodyPart, Player};
use snake::systems::movement::{check_bounds, MoveSystem};

fn grid(policy: BoundaryPolicy) -> Grid {
    Grid::new(10, 10, policy).unwrap()
}

fn part(part: usize, x: i32, y: i32, dir: Direction, is_tail: bool) -> BodyPart {
    BodyPart { part, x, y, dir, is_tail }
}

fn cells(player: &Player) -> Vec<(i32, i32)> {
    player.snake.iter().map(|p| (p.x, p.y)).collect()
}

fn headings(player: &Player) -> Vec<Direction> {
    player.snake.iter().map(|p| p.dir).collect()
}

#[test]
fn grid_needs_a_cell() {
    assert_eq!(Grid::new(0, 10, BoundaryPolicy::Wrap), None);
    assert_eq!(Grid::new(10, 0, BoundaryPolicy::Wrap), None);
    assert_eq!(Grid::new(-3, 4, BoundaryPolicy::Lethal), None);
    assert_eq!(
        Grid::new(1, 1, BoundaryPolicy::Lethal),
        Some(Grid { width: 1, height: 1, policy: BoundaryPolicy::Lethal })
    );
    assert_eq!(Grid::default(), Grid { width: 10, height: 10, policy: BoundaryPolicy::Wrap });
}

#[test]
fn grid_contains_its_cells_only() {
    let g = grid(BoundaryPolicy::Lethal);
    assert!(g.contains(0, 0));
    assert!(g.contains(9, 9));
    assert!(!g.contains(10, 5));
    assert!(!g.contains(5, 10));
    assert!(!g.contains(-1, 5));
    assert!(!g.contains(5, -1));
}

#[test]
fn check_bounds_wraps_to_the_opposite_edge() {
    let g = grid(BoundaryPolicy::Wrap);
    let mut p = part(0, 10, 5, Direction::Right, false);
    assert!(check_bounds(&mut p, &g));
    assert_eq!((p.x, p.y), (0, 5));
    let mut p = part(0, -1, 5, Direction::Left, false);
    assert!(check_bounds(&mut p, &g));
    assert_eq!((p.x, p.y), (9, 5));
    let mut p = part(0, 3, 10, Direction::Up, false);
    assert!(check_bounds(&mut p, &g));
    assert_eq!((p.x, p.y), (3, 0));
    let mut p = part(0, 3, -1, Direction::Down, false);
    assert!(check_bounds(&mut p, &g));
    assert_eq!((p.x, p.y), (3, 9));
    let mut p = part(7, 4, 6, Direction::UpLeft, true);
    assert!(check_bounds(&mut p, &g));
    assert_eq!(p, part(7, 4, 6, Direction::UpLeft, true));
}

#[test]
fn check_bounds_on_a_lethal_grid_moves_nothing() {
    let g = grid(BoundaryPolicy::Lethal);
    let mut p = part(0, 10, 5, Direction::Right, false);
    assert!(!check_bounds(&mut p, &g));
    assert_eq!((p.x, p.y), (10, 5));
    let mut p = part(0, 5, -1, Direction::Down, false);
    assert!(!check_bounds(&mut p, &g));
    assert_eq!((p.x, p.y), (5, -1));
    let mut p = part(0, 9, 0, Direction::Down, false);
    assert!(check_bounds(&mut p, &g));
    assert_eq!((p.x, p.y), (9, 0));
}

#[test]
fn heading_of_knows_the_four_unit_steps() {
    assert_eq!(heading_of((1, 0)), Some(Direction::Right));
    assert_eq!(heading_of((-1, 0)), Some(Direction::Left));
    assert_eq!(heading_of((0, 1)), Some(Direction::Up));
    assert_eq!(heading_of((0, -1)), Some(Direction::Down));
    assert_eq!(heading_of((0, 0)), None);
    assert_eq!(heading_of((1, 1)), None);
    assert_eq!(heading_of((2, 0)), None);
}

#[test]
fn initial_snake_lies_in_the_middle_heading_right() {
    let g = grid(BoundaryPolicy::Wrap);
    let player = initialise_snake(&g);
    assert_eq!(cells(&player), vec![(5, 5), (4, 5), (3, 5)]);
    assert_eq!(headings(&player), vec![Direction::Right, Direction::Right, Direction::Right]);
    assert_eq!(player.snake.iter().map(|p| p.part).collect::<Vec<usize>>(), vec![0, 1, 2]);
    assert_eq!(player.snake.iter().map(|p| p.is_tail).collect::<Vec<bool>>(), vec![false, false, true]);
    assert_eq!(player.vel, (1, 0));
    assert!(player.is_alive);
    assert!(player.is_valid());
    assert!(player.is_within(&g));
}

#[test]
fn default_player_is_outside_a_session() {
    let player = Player::default();
    assert!(player.snake.is_empty());
    assert_eq!(player.vel, (0, 0));
    assert!(!player.is_alive);
    assert!(player.is_valid());
}

#[test]
fn step_moves_the_head_and_the_rest_follows() {
    let g = grid(BoundaryPolicy::Wrap);
    let mut player = Player::new((5, 5), (4, 5), (3, 5));
    MoveSystem::step(&mut player, &g);
    assert_eq!(cells(&player), vec![(6, 5), (5, 5), (4, 5)]);
    assert_eq!(headings(&player), vec![Direction::Right, Direction::Right, Direction::Right]);
    assert!(player.is_alive);
    assert_eq!(player.vel, (1, 0));
}

#[test]
fn follow_the_leader_on_a_bent_chain() {
    let g = grid(BoundaryPolicy::Wrap);
    let mut player = Player {
        snake: vec![
            part(0, 4, 7, Direction::Up, false),
            part(1, 4, 6, Direction::Up, false),
            part(2, 4, 5, Direction::RightUp, false),
            part(3, 3, 5, Direction::Right, false),
            part(4, 2, 5, Direction::Right, true),
        ],
        vel: (-1, 0),
        is_alive: true,
    };
    assert!(player.is_valid());
    let before = cells(&player);
    MoveSystem::step(&mut player, &g);
    let after = cells(&player);
    assert_eq!(after[0], (3, 7));
    for i in 1..after.len() {
        assert_eq!(after[i], before[i - 1]);
    }
    assert_eq!(
        headings(&player),
        vec![
            Direction::Left,
            Direction::UpLeft,
            Direction::Up,
            Direction::RightUp,
            Direction::Right,
        ]
    );
    assert!(player.is_valid());
}

#[test]
fn turn_travels_down_the_chain() {
    let g = grid(BoundaryPolicy::Wrap);
    let mut player = Player::new((5, 5), (4, 5), (3, 5));
    player.vel = (0, 1);
    MoveSystem::step(&mut player, &g);
    assert_eq!(cells(&player), vec![(5, 6), (5, 5), (4, 5)]);
    assert_eq!(headings(&player), vec![Direction::Up, Direction::RightUp, Direction::Right]);
    MoveSystem::step(&mut player, &g);
    assert_eq!(cells(&player), vec![(5, 7), (5, 6), (5, 5)]);
    // The tail's turn collapses to the way it leaves.
    assert_eq!(headings(&player), vec![Direction::Up, Direction::Up, Direction::Up]);
    MoveSystem::step(&mut player, &g);
    assert_eq!(cells(&player), vec![(5, 8), (5, 7), (5, 6)]);
    assert_eq!(headings(&player), vec![Direction::Up, Direction::Up, Direction::Up]);
}

#[test]
fn step_falls_back_to_the_heading_it_has() {
    let g = grid(BoundaryPolicy::Wrap);
    let mut player = Player::new((5, 5), (4, 5), (3, 5));
    player.vel = (0, 0);
    MoveSystem::step(&mut player, &g);
    assert_eq!(cells(&player), vec![(6, 5), (5, 5), (4, 5)]);
    player.vel = (3, 3);
    MoveSystem::step(&mut player, &g);
    assert_eq!(cells(&player), vec![(7, 5), (6, 5), (5, 5)]);
    assert_eq!(player.snake[0].dir, Direction::Right);
}

#[test]
fn step_wraps_the_head_only() {
    let g = grid(BoundaryPolicy::Wrap);
    let mut player = Player::new((9, 5), (8, 5), (7, 5));
    MoveSystem::step(&mut player, &g);
    assert_eq!(cells(&player), vec![(0, 5), (9, 5), (8, 5)]);
    assert!(player.is_alive);
    let mut player = Player::new((0, 0), (1, 0), (2, 0));
    player.snake[0].dir = Direction::Down;
    player.vel = (0, -1);
    MoveSystem::step(&mut player, &g);
    assert_eq!(cells(&player), vec![(0, 9), (0, 0), (1, 0)]);
    assert!(player.is_alive);
}

#[test]
fn scenario_lethal_boundary() {
    let g = grid(BoundaryPolicy::Lethal);
    let mut player = Player::new((9, 5), (8, 5), (7, 5));
    assert!(player.is_valid() && player.is_within(&g));
    MoveSystem::step(&mut player, &g);
    assert_eq!((player.snake[0].x, player.snake[0].y), (10, 5));
    assert!(!player.is_alive);
    assert_eq!(cells(&player), vec![(10, 5), (9, 5), (8, 5)]);
}

#[test]
fn move_system_steps_at_its_interval() {
    let g = grid(BoundaryPolicy::Wrap);
    let mut player = Player::new((5, 5), (4, 5), (3, 5));
    let mut system = MoveSystem::default();
    assert_eq!(system.interval(), 80);
    assert_eq!(system.elapsed(), 0);
    assert!(!system.run(&mut player, &g, 30));
    assert_eq!(system.elapsed(), 30);
    assert!(!system.run(&mut player, &g, 49));
    assert_eq!(system.elapsed(), 79);
    assert_eq!(cells(&player), vec![(5, 5), (4, 5), (3, 5)]);
    assert!(system.run(&mut player, &g, 1));
    assert_eq!(system.elapsed(), 0);
    assert_eq!(cells(&player), vec![(6, 5), (5, 5), (4, 5)]);
    // However late the frame, the snake moves one cell.
    assert!(system.run(&mut player, &g, 1000));
    assert_eq!(system.elapsed(), 0);
    assert_eq!(cells(&player), vec![(7, 5), (6, 5), (5, 5)]);
    assert!(system.run(&mut player, &g, u64::MAX));
    assert_eq!(cells(&player), vec![(8, 5), (7, 5), (6, 5)]);
}

#[test]
fn move_system_counts_past_the_largest_number() {
    let g = grid(BoundaryPolicy::Wrap);
    let mut player = Player::new((5, 5), (4, 5), (3, 5));
    let mut system = MoveSystem::new(u64::MAX);
    assert!(!system.run(&mut player, &g, u64::MAX - 1));
    assert_eq!(system.elapsed(), u64::MAX - 1);
    assert!(system.run(&mut player, &g, 5));
    assert_eq!(system.elapsed(), 0);
    assert_eq!(cells(&player), vec![(6, 5), (5, 5), (4, 5)]);
}

#[test]
fn move_system_leaves_the_dead_alone() {
    let g = grid(BoundaryPolicy::Wrap);
    let mut player = Player::new((5, 5), (4, 5), (3, 5));
    player.is_alive = false;
    let mut system = MoveSystem::new(10);
    assert!(!system.run(&mut player, &g, 7));
    assert!(!system.run(&mut player, &g, 100));
    assert_eq!(system.elapsed(), 0);
    assert_eq!(cells(&player), vec![(5, 5), (4, 5), (3, 5)]);
    let mut nobody = Player::default();
    assert!(!system.run(&mut nobody, &g, 100));
    assert!(nobody.snake.is_empty());
}

#[test]
fn move_system_setup_starts_the_count_again() {
    let g = grid(BoundaryPolicy::Wrap);
    let mut player = Player::new((5, 5), (4, 5), (3, 5));
    let mut system = MoveSystem::new(50);
    assert!(!system.run(&mut player, &g, 40));
    system.setup();
    assert_eq!(system.elapsed(), 0);
    assert_eq!(system.interval(), 50);
    assert!(!system.run(&mut player, &g, 40));
    assert!(system.run(&mut player, &g, 10));
}

#[test]
fn a_zero_interval_steps_every_frame() {
    let g = grid(BoundaryPolicy::Wrap);
    let mut player = Player::new((5, 5), (4, 5), (3, 5));
    let mut system = MoveSystem::new(0);
    assert!(system.run(&mut player, &g, 0));
    assert!(system.run(&mut player, &g, 0));
    assert_eq!(cells(&player), vec![(7, 5), (6, 5), (5, 5)]);
}
