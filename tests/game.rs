use spinny_bird::button::Button;
use spinny_bird::config::{HOLE_MAX, HOLE_MIN, JUMP_HEIGHT, PLAYER_HEIGHT, PLAYER_WIDTH, RESPAWN_X};
use spinny_bird::geometry::Rect;
use spinny_bird::input::{InputAction, InputEvent, InputRouter, Key, MouseButton};
use spinny_bird::layout::{ground_rect, pipe_sprite_rects, player_sprite_rect, score_text_rect};
use spinny_bird::pipe::Pipe;
use spinny_bird::player::Player;
use spinny_bird::world::World;

fn far_player() -> Player {
    // Left of every obstacle used below, so it neither scores nor collides.
    Player::new(-5000, 300)
}

#[test]
fn player_two_ticks_without_jump() {
    let mut p = Player::new(200, 400);
    assert_eq!(p.y_velocity, -10);
    assert_eq!(p.bounding_box, Rect::new(200, 400, 64, 48));
    p.update();
    assert_eq!(p.y_velocity, -9);
    assert_eq!(p.bounding_box.y, 391);
    p.update();
    assert_eq!(p.y_velocity, -8);
    assert_eq!(p.bounding_box.y, 383);
}

#[test]
fn free_fall_follows_the_sum_of_velocities() {
    let mut p = Player::new(200, 400);
    let (y0, v0) = (400i64, -10i64);
    for n in 1..=30i64 {
        p.update();
        let sum: i64 = (1..=n).map(|k| v0 + k).sum();
        assert_eq!(p.y_velocity as i64, v0 + n);
        assert_eq!(p.bounding_box.y as i64, y0 + sum);
    }
    assert_eq!(p.frames_falling, 0);
    assert!(!p.is_dead);
}

#[test]
fn world_spawns_three_evenly_spaced_obstacles() {
    let w = World::new();
    let xs: Vec<i32> = w.pipes.iter().map(|p| p.bounding_box.x).collect();
    assert_eq!(xs, vec![500, 900, 1300]);
    assert_eq!(w.score, 0);
    assert_eq!(w.player.bounding_box, Rect::new(200, 400, PLAYER_WIDTH, PLAYER_HEIGHT));
    for p in &w.pipes {
        assert!(HOLE_MIN <= p.hole_y && p.hole_y <= HOLE_MAX);
        assert!(!p.has_scored);
    }
}

#[test]
fn first_obstacle_recycles_after_350_ticks() {
    let w = World::new();
    let mut pipe = w.pipes[0];
    let mut player = far_player();
    let mut score: u32 = 0;
    for _ in 0..349 {
        pipe.update(&mut score, &mut player);
    }
    assert_eq!(pipe.bounding_box.x, -198);
    pipe.update(&mut score, &mut player);
    // The 350th tick brings x to -200, which sends the obstacle back to the right.
    assert_eq!(pipe.bounding_box.x, RESPAWN_X);
    assert_eq!(pipe.bounding_box.x, 1000);
    assert!(!pipe.has_scored);
    assert!(HOLE_MIN <= pipe.hole_y && pipe.hole_y <= HOLE_MAX);
    assert_eq!(score, 0);
}

#[test]
fn recycle_resets_score_flag_and_redraws_gap() {
    let mut pipe = Pipe::with_hole(-197, 300);
    pipe.has_scored = true;
    let mut player = far_player();
    let mut score: u32 = 7;
    pipe.update(&mut score, &mut player);
    assert_eq!(pipe.bounding_box.x, -199);
    assert!(pipe.has_scored);
    pipe.update(&mut score, &mut player);
    assert_eq!(pipe.bounding_box.x, 1000);
    assert!(!pipe.has_scored);
    assert!(HOLE_MIN <= pipe.hole_y && pipe.hole_y <= HOLE_MAX);
    assert_eq!(score, 7);
}

#[test]
fn advance_uses_given_gap_on_recycle_only() {
    let mut player = far_player();
    let mut score: u32 = 0;
    let mut pipe = Pipe::with_hole(-198, 300);
    pipe.advance(&mut score, &mut player, 123);
    assert_eq!(pipe.bounding_box.x, 1000);
    assert_eq!(pipe.hole_y, 123);
    let mut pipe = Pipe::with_hole(600, 300);
    pipe.advance(&mut score, &mut player, 123);
    assert_eq!(pipe.bounding_box.x, 598);
    assert_eq!(pipe.hole_y, 300);
}

#[test]
fn gap_stays_in_range_over_many_ticks() {
    let mut player = far_player();
    let mut score: u32 = 0;
    let mut pipe = Pipe::new(500);
    for _ in 0..3000 {
        pipe.update(&mut score, &mut player);
        assert!(HOLE_MIN <= pipe.hole_y && pipe.hole_y <= HOLE_MAX);
        assert!(pipe.bounding_box.x > -200);
    }
}

#[test]
fn generated_gaps_cover_more_than_one_value() {
    let holes: Vec<i32> = (0..200).map(|_| Pipe::generate_hole()).collect();
    assert!(holes.iter().all(|h| (50..=450).contains(h)));
    assert!(holes.iter().any(|h| *h != holes[0]));
}

#[test]
fn obstacle_scores_once_per_traversal() {
    // Player inside the gap: it overlaps the column but neither solid part.
    let mut player = Player::new(200, 300);
    let mut pipe = Pipe::with_hole(230, 250);
    let mut score: u32 = 0;
    pipe.update(&mut score, &mut player);
    assert_eq!(score, 1);
    assert!(pipe.has_scored);
    for _ in 0..20 {
        pipe.update(&mut score, &mut player);
    }
    assert_eq!(score, 1);
    assert!(!player.is_dead);
}

#[test]
fn hitting_a_column_kills_and_may_still_score() {
    let mut player = Player::new(200, 100);
    let mut pipe = Pipe::with_hole(230, 250);
    let mut score: u32 = 0;
    pipe.update(&mut score, &mut player);
    assert!(player.is_dead);
    assert_eq!(score, 1);
    assert_eq!(player.bounding_box.y, 100);
}

#[test]
fn ground_contact_ends_the_simulation() {
    let mut w = World::new();
    w.player.bounding_box.y = 647;
    w.player.y_velocity = 5;
    let pipes_before = w.pipes.clone();
    let grounded = w.tick();
    assert!(grounded);
    assert!(w.player.is_dead);
    assert_eq!(w.player.bounding_box.y, 653);
    assert_eq!(w.pipes, pipes_before);
    assert_eq!(w.player.frames_falling, 0);
}

#[test]
fn just_above_ground_is_alive() {
    let mut w = World::new();
    // 652 is the last y at which a 48-pixel body is not on the 700-pixel ground line.
    w.player.bounding_box.y = 646;
    w.player.y_velocity = 5;
    let grounded = w.tick();
    assert_eq!(w.player.bounding_box.y, 652);
    assert!(!grounded);
    assert!(!w.player.is_dead);
    assert_eq!(w.player.frames_falling, 1);
    assert_eq!(w.pipes[0].bounding_box.x, 498);
}

#[test]
fn collision_kills_without_ending_the_simulation() {
    let mut w = World::new();
    w.pipes = vec![Pipe::with_hole(230, 450)];
    w.player.bounding_box.y = 100;
    w.player.y_velocity = -1;
    let grounded = w.tick();
    assert!(!grounded);
    assert!(w.player.is_dead);
    assert_eq!(w.score, 1);
    assert!(!w.tick());
    assert_eq!(w.score, 1);
}

#[test]
fn tick_scores_each_overlapping_obstacle() {
    let mut w = World::new();
    w.pipes = vec![Pipe::with_hole(230, 250), Pipe::with_hole(150, 250), Pipe::with_hole(800, 250)];
    w.player.bounding_box.y = 301;
    w.player.y_velocity = -2;
    assert!(!w.tick());
    assert_eq!(w.player.bounding_box.y, 300);
    assert_eq!(w.score, 2);
    assert!(!w.player.is_dead);
    assert_eq!(
        w.pipes.iter().map(|p| p.has_scored).collect::<Vec<bool>>(),
        vec![true, true, false]
    );
}

#[test]
fn fall_counter_stops_at_its_maximum() {
    let mut p = Player::new(0, 0);
    p.frames_falling = 254;
    p.count_falling_frame();
    assert_eq!(p.frames_falling, 255);
    p.count_falling_frame();
    assert_eq!(p.frames_falling, 255);
}

#[test]
fn tick_refused_when_score_could_overflow() {
    let mut w = World::new();
    assert!(w.fits_next_tick());
    w.score = u32::MAX - 2;
    assert!(!w.fits_next_tick());
    w.score = u32::MAX - 3;
    assert!(w.fits_next_tick());
    w.player.y_velocity = i32::MAX;
    assert!(!w.fits_next_tick());
}

#[test]
fn click_inside_button_fires_outside_does_not() {
    let mut b = Button::new(50, 50, "Click me!");
    assert!(!b.check_for_click(50, 50));
    b.fit_label(100, 40);
    assert_eq!(b.rect, Rect::new(50, 50, 110, 50));
    assert!(b.check_for_click(50, 50));
    assert!(b.check_for_click(159, 99));
    assert!(!b.check_for_click(160, 60));
    assert!(!b.check_for_click(60, 100));
    assert!(!b.check_for_click(49, 60));
    assert_eq!(b.label_rect(), Rect::new(55, 55, 110, 50));
}

#[test]
fn router_reports_click_once_per_event() {
    let mut b = Button::new(50, 50, "Click me!");
    b.fit_label(100, 40);
    let mut r = InputRouter::new();
    let mut p = Player::new(200, 400);
    let inside = InputEvent::MouseDown { button: MouseButton::Left, x: 60, y: 60 };
    let outside = InputEvent::MouseDown { button: MouseButton::Left, x: 600, y: 60 };
    let right = InputEvent::MouseDown { button: MouseButton::Other, x: 60, y: 60 };
    let clicks = [inside, outside, inside, right]
        .iter()
        .filter(|e| r.handle(**e, &mut p, &b) == InputAction::ButtonClicked)
        .count();
    assert_eq!(clicks, 2);
}

#[test]
fn jump_fires_on_press_edge_only() {
    let b = Button::new(50, 50, "Click me!");
    let mut r = InputRouter::new();
    let mut p = Player::new(200, 400);
    p.y_velocity = 7;
    p.frames_falling = 12;
    let down = InputEvent::KeyDown { key: Key::Space };
    let up = InputEvent::KeyUp { key: Key::Space };
    assert_eq!(r.handle(down, &mut p, &b), InputAction::Continue);
    assert_eq!((p.y_velocity, p.frames_falling), (JUMP_HEIGHT, 0));
    assert!(r.jump_key_down);
    p.y_velocity = 3;
    p.frames_falling = 4;
    r.handle(down, &mut p, &b);
    assert_eq!((p.y_velocity, p.frames_falling), (3, 4));
    r.handle(up, &mut p, &b);
    assert!(!r.jump_key_down);
    r.handle(down, &mut p, &b);
    assert_eq!((p.y_velocity, p.frames_falling), (-10, 0));
}

#[test]
fn quit_and_escape_end_the_session() {
    let b = Button::new(50, 50, "Click me!");
    let mut r = InputRouter::new();
    let mut p = Player::new(200, 400);
    assert_eq!(r.handle(InputEvent::Quit, &mut p, &b), InputAction::Quit);
    assert_eq!(r.handle(InputEvent::KeyDown { key: Key::Escape }, &mut p, &b), InputAction::Quit);
    assert_eq!(r.handle(InputEvent::KeyUp { key: Key::Escape }, &mut p, &b), InputAction::Continue);
    assert_eq!(r.handle(InputEvent::KeyDown { key: Key::Other }, &mut p, &b), InputAction::Continue);
    assert_eq!(r.handle(InputEvent::Other, &mut p, &b), InputAction::Continue);
}

#[test]
fn rectangles_sharing_an_edge_do_not_intersect() {
    let a = Rect::new(0, 0, 5, 5);
    assert!(a.has_intersection(a));
    assert!(a.has_intersection(Rect::new(2, 2, 5, 5)));
    assert!(!a.has_intersection(Rect::new(5, 0, 5, 5)));
    assert!(!a.has_intersection(Rect::new(0, 5, 5, 5)));
    assert!(!a.has_intersection(Rect::new(1, 1, 0, 3)));
    assert!(Rect::new(i32::MAX, 0, u32::MAX, 1).has_intersection(Rect::new(i32::MAX, 0, 1, 1)));
}

#[test]
fn point_containment_excludes_right_and_bottom_edges() {
    let r = Rect::new(1, 2, 3, 4);
    assert!(r.contains_point(1, 2));
    assert!(!r.contains_point(0, 1));
    assert!(r.contains_point(3, 5));
    assert!(!r.contains_point(4, 6));
    assert!(!Rect::new(0, 0, 0, 0).contains_point(0, 0));
}

#[test]
fn obstacle_gap_rectangles() {
    let p = Pipe::with_hole(300, 100);
    assert_eq!(p.upper_rect(), Rect::new(300, 0, 96, 100));
    assert_eq!(p.lower_rect(), Rect::new(300, 300, 96, 400));
    let p = Pipe::with_hole(300, 450);
    assert_eq!(p.lower_rect(), Rect::new(300, 650, 96, 50));
}

#[test]
fn draw_layout() {
    assert_eq!(ground_rect(), Rect::new(0, 700, 1000, 100));
    assert_eq!(score_text_rect(41, 50), Rect::new(480, 25, 41, 50));
    assert_eq!(score_text_rect(u32::MAX, 1).x, 500 - (u32::MAX / 2) as i32);
    assert_eq!(player_sprite_rect(&Player::new(200, 400)), Rect::new(200, 400, 64, 64));
    let (upper, lower) = pipe_sprite_rects(&Pipe::with_hole(300, 100), 32, 160);
    assert_eq!(upper, Rect::new(300, -380, 96, 480));
    assert_eq!(lower, Rect::new(300, 300, 96, 480));
}
