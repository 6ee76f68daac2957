use crossterm::style::Color;
use snake::dimensions::{Pos, Size};
use snake::food::{Food, FoodType};
use snake::game::{direction_for, init_food, Game, KeyAction, Tick, TickEvent, BOOST_TICK_MS, TICK_MS};
use snake::snake::{Direction, Snake};

const TERMINAL: Size = Size { width: 80, height: 14 };

fn in_field(p: Pos, s: Size) -> bool {
    2 <= p.x && p.x <= s.width + 1 && 1 <= p.y && p.y <= s.height
}

fn positions(g: &Game) -> Vec<Pos> {
    g.get_snake().get_parts().iter().map(|p| p.get_pos()).collect()
}

fn game_at(head: Pos, dir: Direction, apple: Food, bricks: Vec<Food>) -> Game {
    let snake = Snake::with_head(Size::from((10, 10)), dir, head);
    Game::with_items(snake, apple, bricks, TERMINAL)
}

fn far_apple() -> Food {
    Food::new(FoodType::GreenApple, Pos::from((10, 9)))
}

/// A 10 by 10 field holds one brick; this one is out of the way.
fn far_bricks() -> Vec<Food> {
    vec![Food::new(FoodType::Brick, Pos::from((2, 10)))]
}

#[test]
fn one_tick_moves_a_single_segment() {
    let mut g = game_at(Pos::from((5, 5)), Direction::Right, far_apple(), far_bricks());
    let t = g.tick();
    assert_eq!(t, Some(Tick { vacated: Pos::from((5, 5)), event: TickEvent::Moved }));
    assert_eq!(positions(&g), vec![Pos::from((6, 5))]);
    assert_eq!(g.get_score(), 0);
    assert!(!g.is_stopped());
}

#[test]
fn eating_an_apple_scores_grows_and_respawns() {
    let apple = Food::new(FoodType::GoldApple, Pos::from((6, 5)));
    let bricks = vec![Food::new(FoodType::Brick, Pos::from((9, 9)))];
    let mut g = game_at(Pos::from((5, 5)), Direction::Right, apple, bricks);
    let t = g.tick();
    assert_eq!(t, Some(Tick { vacated: Pos::from((5, 5)), event: TickEvent::Ate }));
    assert_eq!(g.get_score(), 20);
    assert_eq!(g.get_snake().get_parts().len(), 2);
    assert!(!g.is_stopped());
    let new_apple = g.get_apple();
    assert!(in_field(new_apple.get_pos(), g.get_field_size()));
    assert!(!g.get_snake().check_pos(&new_apple.get_pos()));
    assert!(matches!(new_apple.get_type(), FoodType::GreenApple | FoodType::GoldApple));
    assert_eq!(g.get_bricks().len(), 1);
    for b in g.get_bricks() {
        assert_eq!(b.get_type(), FoodType::Brick);
        assert!(in_field(b.get_pos(), g.get_field_size()));
        assert!(!g.get_snake().check_pos(&b.get_pos()));
        assert_ne!(b.get_pos(), new_apple.get_pos());
    }
    assert!(g.tick().is_some());
    assert_eq!(positions(&g)[1], Pos::from((6, 5)));
}

#[test]
fn green_apple_scores_ten() {
    let apple = Food::new(FoodType::GreenApple, Pos::from((5, 4)));
    let mut g = game_at(Pos::from((5, 5)), Direction::Up, apple, far_bricks());
    let t = g.tick().unwrap();
    assert_eq!(t.event, TickEvent::Ate);
    assert_eq!(g.get_score(), 10);
}

#[test]
fn eating_a_brick_stops_the_run_for_good() {
    let bricks = vec![Food::new(FoodType::Brick, Pos::from((6, 5)))];
    let mut g = game_at(Pos::from((5, 5)), Direction::Right, far_apple(), bricks);
    let t = g.tick();
    assert_eq!(t, Some(Tick { vacated: Pos::from((5, 5)), event: TickEvent::AteBrick }));
    assert!(g.is_stopped());
    let after = positions(&g);
    for _ in 0..3 {
        assert_eq!(g.tick(), None);
        assert_eq!(positions(&g), after);
    }
    g.on_action(KeyAction::MoveUp);
    g.on_action(KeyAction::Pause);
    assert_eq!(g.tick(), None);
    assert_eq!(positions(&g), after);
    assert!(!g.is_paused());
}

#[test]
fn a_brick_under_the_apple_still_stops_the_run() {
    let apple = Food::new(FoodType::GreenApple, Pos::from((6, 5)));
    let bricks = vec![Food::new(FoodType::Brick, Pos::from((6, 5)))];
    let mut g = game_at(Pos::from((5, 5)), Direction::Right, apple, bricks);
    let t = g.tick();
    assert_eq!(t, Some(Tick { vacated: Pos::from((5, 5)), event: TickEvent::AteBrick }));
    assert!(g.is_stopped());
    assert_eq!(g.get_score(), 10);
    assert_eq!(g.get_snake().get_parts().len(), 2);
    assert_eq!(g.tick(), None);
}

#[test]
fn eating_keeps_the_number_of_bricks() {
    let size = Size::from((30, 20));
    let snake = Snake::with_head(size, Direction::Right, Pos::from((5, 5)));
    let apple = Food::new(FoodType::GoldApple, Pos::from((6, 5)));
    let bricks: Vec<Food> = (0..6u16).map(|i| Food::new(FoodType::Brick, Pos::from((20 + i, 15)))).collect();
    let mut g = Game::with_items(snake, apple, bricks, TERMINAL);
    assert_eq!(g.tick().unwrap().event, TickEvent::Ate);
    assert_eq!(g.get_bricks().len(), 6);
}

#[test]
fn running_into_the_body_stops_the_run() {
    let snake = {
        let mut s = Snake::with_head(Size::from((10, 10)), Direction::Right, Pos::from((5, 5)));
        for _ in 0..4 {
            s.add_part();
        }
        s.update();
        s.set_direction(Direction::Down);
        s.update();
        s.set_direction(Direction::Left);
        s.update();
        s
    };
    let mut g = Game::with_items(snake, far_apple(), far_bricks(), TERMINAL);
    g.on_action(KeyAction::MoveUp);
    let t = g.tick().unwrap();
    assert_eq!(t.event, TickEvent::SelfEaten);
    assert!(g.is_stopped());
    assert_eq!(g.tick(), None);
}

#[test]
fn pause_toggled_twice_restores_the_run() {
    let mut g = game_at(Pos::from((5, 5)), Direction::Right, far_apple(), far_bricks());
    g.tick();
    let before = (g.is_paused(), g.get_score(), positions(&g));
    g.on_action(KeyAction::Pause);
    assert!(g.is_paused());
    assert_eq!(g.tick(), None);
    g.on_action(KeyAction::Pause);
    assert_eq!((g.is_paused(), g.get_score(), positions(&g)), before);
}

#[test]
fn paused_run_ignores_moves_but_not_boost() {
    let mut g = game_at(Pos::from((5, 5)), Direction::Right, far_apple(), far_bricks());
    g.on_action(KeyAction::Pause);
    g.on_action(KeyAction::MoveUp);
    g.on_action(KeyAction::Boost);
    assert!(g.is_boosted());
    g.on_action(KeyAction::Pause);
    g.tick();
    assert_eq!(g.get_snake().get_direction(), Direction::Right);
    assert_eq!(g.get_snake().get_head_pos(), Pos::from((6, 5)));
}

#[test]
fn queued_turns_are_taken_one_per_tick() {
    let mut g = game_at(Pos::from((5, 5)), Direction::Right, far_apple(), far_bricks());
    g.on_action(KeyAction::MoveUp);
    g.on_action(KeyAction::MoveUp);
    g.on_action(KeyAction::MoveLeft);
    g.tick();
    assert_eq!(g.get_snake().get_direction(), Direction::Up);
    assert_eq!(g.get_snake().get_head_pos(), Pos::from((5, 4)));
    g.tick();
    assert_eq!(g.get_snake().get_direction(), Direction::Left);
    assert_eq!(g.get_snake().get_head_pos(), Pos::from((4, 4)));
    g.tick();
    assert_eq!(g.get_snake().get_head_pos(), Pos::from((3, 4)));
}

#[test]
fn a_queued_reversal_is_ignored() {
    let mut g = game_at(Pos::from((5, 5)), Direction::Right, far_apple(), far_bricks());
    g.on_action(KeyAction::MoveLeft);
    g.tick();
    assert_eq!(g.get_snake().get_direction(), Direction::Right);
    assert_eq!(g.get_snake().get_head_pos(), Pos::from((6, 5)));
}

#[test]
fn boost_shortens_the_tick_and_colors_the_head() {
    let mut g = game_at(Pos::from((5, 5)), Direction::Right, far_apple(), far_bricks());
    assert_eq!(g.tick_delay_ms(), TICK_MS);
    g.on_action(KeyAction::Boost);
    assert!(g.is_boosted());
    assert_eq!(g.tick_delay_ms(), BOOST_TICK_MS);
    assert_eq!(g.get_snake().get_parts()[0].get_symbol().color, Color::Cyan);
    g.on_action(KeyAction::Boost);
    assert!(!g.is_boosted());
    assert_eq!(g.tick_delay_ms(), 200);
    assert_eq!(g.get_snake().get_parts()[0].get_symbol().color, Color::Green);
    assert!(BOOST_TICK_MS < TICK_MS);
}

#[test]
fn exit_stops_the_run() {
    let mut g = game_at(Pos::from((5, 5)), Direction::Right, far_apple(), far_bricks());
    g.on_action(KeyAction::NoAction);
    assert!(!g.is_stopped());
    g.on_action(KeyAction::Exit);
    assert!(g.is_stopped());
    assert_eq!(g.tick(), None);
}

#[test]
fn halt_stops_the_run() {
    let mut g = game_at(Pos::from((5, 5)), Direction::Right, far_apple(), far_bricks());
    g.halt();
    assert!(g.is_stopped());
}

#[test]
fn resized_terminal_stops_the_run() {
    let mut g = game_at(Pos::from((5, 5)), Direction::Right, far_apple(), far_bricks());
    g.terminal_size_checker(TERMINAL);
    assert!(!g.is_stopped());
    g.terminal_size_checker(Size::from((81, 14)));
    assert!(g.is_stopped());
}

#[test]
fn new_game_places_everything_apart() {
    let size = Size::from((30, 20));
    for _ in 0..20 {
        let g = Game::new(size, TERMINAL);
        assert_eq!(g.get_score(), 0);
        assert!(!g.is_stopped() && !g.is_paused() && !g.is_boosted());
        assert_eq!(g.get_snake().get_parts().len(), 1);
        let head = g.get_snake().get_head_pos();
        assert!(in_field(head, size));
        let apple = g.get_apple();
        assert!(in_field(apple.get_pos(), size));
        assert_ne!(apple.get_pos(), head);
        assert_eq!(g.get_bricks().len(), 6);
        let bricks = g.get_bricks();
        for (i, b) in bricks.iter().enumerate() {
            assert!(in_field(b.get_pos(), size));
            assert_ne!(b.get_pos(), head);
            assert_ne!(b.get_pos(), apple.get_pos());
            for c in &bricks[i + 1..] {
                assert_ne!(b.get_pos(), c.get_pos());
            }
        }
    }
}

#[test]
fn init_food_on_a_full_field_is_none() {
    let s = Snake::with_head(Size::from((1, 1)), Direction::Up, Pos::from((2, 1)));
    assert!(init_food(&s).is_none());
}

#[test]
fn last_apple_on_a_full_field_ends_the_run() {
    let snake = Snake::with_head(Size::from((1, 1)), Direction::Right, Pos::from((2, 1)));
    let apple = Food::new(FoodType::GreenApple, Pos::from((2, 1)));
    let mut g = Game::with_items(snake, apple, Vec::new(), TERMINAL);
    let t = g.tick().unwrap();
    assert_eq!(t.event, TickEvent::NoRoom);
    assert!(g.is_stopped());
    assert_eq!(g.get_score(), 10);
    assert_eq!(g.get_snake().get_parts().len(), 2);
}

#[test]
fn heading_drawn_from_a_number() {
    assert_eq!(direction_for(0), Direction::Up);
    assert_eq!(direction_for(1), Direction::Down);
    assert_eq!(direction_for(2), Direction::Left);
    assert_eq!(direction_for(3), Direction::Right);
}
