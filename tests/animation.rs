use nightfall::field::{SparkleField, BASE_SPEED, JITTER_SPAN, PHASE_SPAN, RADIUS_MIN, RADIUS_SPAN, SPARKLE_COUNT};
use nightfall::scene::{select_tint, FrameAction, KeyPresses, LoopState, Scene, Tint};
use nightfall::sparkle::{Point, Sparkle, CANVAS_HEIGHT, CANVAS_WIDTH, NANOS_PER_PIXEL};

const SECOND: u32 = 1_000_000;

fn no_keys() -> KeyPresses {
    KeyPresses { quit: false, red: false, green: false, blue: false, white: false }
}

fn sparkle_at(x: u64, y: u64, speed: u32) -> Sparkle {
    Sparkle { position: Point { x, y }, speed, cycle: 0, radius: 1000 }
}

#[test]
fn one_second_at_speed_two_moves_twenty_down_and_four_left() {
    let spawned = SparkleField::spawn(3, 0);
    let mut start: Vec<Sparkle> = spawned.sparkles().clone();
    for s in start.iter_mut() {
        s.speed = 2000;
    }
    let mut field = SparkleField::from_sparkles(start.clone()).unwrap();
    field.update(SECOND);
    assert_eq!(field.len(), 3);
    for (before, after) in start.iter().zip(field.sparkles().iter()) {
        let y = (before.position.y + 20 * NANOS_PER_PIXEL) % CANVAS_HEIGHT;
        let x = (before.position.x + CANVAS_WIDTH - 4 * NANOS_PER_PIXEL) % CANVAS_WIDTH;
        assert_eq!(after.position.y, y);
        assert_eq!(after.position.x, x);
        assert_eq!(after.cycle, before.cycle + 1_000_000);
        assert_eq!(after.speed, 2000);
        assert_eq!(after.radius, before.radius);
    }
}

#[test]
fn crossing_the_bottom_edge_wraps_to_the_top() {
    let mut s = sparkle_at(NANOS_PER_PIXEL, 1079 * NANOS_PER_PIXEL, 3000);
    s.advance(100_000);
    assert_eq!(s.position.y, 2 * NANOS_PER_PIXEL);
    assert_eq!(s.position.x, 400_000_000);
    assert_eq!(s.cycle, 100_000);
}

#[test]
fn crossing_the_left_edge_wraps_to_the_right() {
    let mut s = sparkle_at(NANOS_PER_PIXEL, 0, 2000);
    s.advance(SECOND);
    assert_eq!(s.position.x, CANVAS_WIDTH - 3 * NANOS_PER_PIXEL);
    assert_eq!(s.position.y, 20 * NANOS_PER_PIXEL);
}

#[test]
fn a_huge_delta_wraps_many_times() {
    let mut s = sparkle_at(0, 0, 2998);
    s.advance(u32::MAX);
    let fall = 2998u128 * u32::MAX as u128 * 10;
    let slide = 2998u128 * u32::MAX as u128 * 2;
    assert_eq!(s.position.y as u128, fall % CANVAS_HEIGHT as u128);
    let w = CANVAS_WIDTH as u128;
    assert_eq!(s.position.x as u128, (w - slide % w) % w);
    assert!(s.position.x < CANVAS_WIDTH && s.position.y < CANVAS_HEIGHT);
}

#[test]
fn phase_stops_at_the_largest_value() {
    let mut s = sparkle_at(0, 0, 2000);
    s.cycle = u64::MAX - 5;
    s.advance(10);
    assert_eq!(s.cycle, u64::MAX);
}

#[test]
fn red_then_blue_leaves_blue() {
    let mut scene = Scene::new(3, 0);
    assert_eq!(scene.tint(), Tint::White);
    let red = KeyPresses { red: true, ..no_keys() };
    let blue = KeyPresses { blue: true, ..no_keys() };
    assert_eq!(scene.frame(red, 16_000), FrameAction::Draw);
    assert_eq!(scene.tint(), Tint::Red);
    assert_eq!(scene.frame(blue, 16_000), FrameAction::Draw);
    for _ in 0..10 {
        assert_eq!(scene.frame(no_keys(), 16_000), FrameAction::Draw);
    }
    assert_eq!(scene.tint(), Tint::Blue);
    assert_eq!(scene.tint().rgb(), (0, 0, 255));
}

#[test]
fn tint_keys_take_priority_in_order() {
    let all = KeyPresses { quit: false, red: true, green: true, blue: true, white: true };
    assert_eq!(select_tint(Tint::White, all), Tint::Red);
    let gb = KeyPresses { green: true, blue: true, ..no_keys() };
    assert_eq!(select_tint(Tint::Red, gb), Tint::Green);
    let w = KeyPresses { white: true, ..no_keys() };
    assert_eq!(select_tint(Tint::Blue, w), Tint::White);
    assert_eq!(select_tint(Tint::Green, no_keys()), Tint::Green);
}

#[test]
fn tint_colours() {
    assert_eq!(Tint::Red.rgb(), (255, 0, 0));
    assert_eq!(Tint::Green.rgb(), (0, 255, 0));
    assert_eq!(Tint::Blue.rgb(), (0, 0, 255));
    assert_eq!(Tint::White.rgb(), (255, 255, 255));
}

#[test]
fn changing_tint_leaves_sparkles_alone() {
    let mut scene = Scene::new(25, 4);
    let before: Vec<Sparkle> = scene.field().sparkles().clone();
    scene.handle_keys(KeyPresses { green: true, ..no_keys() });
    assert_eq!(scene.tint(), Tint::Green);
    assert_eq!(scene.field().sparkles(), &before);
}

#[test]
fn quit_stops_updates_for_good() {
    let mut scene = Scene::new(5, 0);
    let before: Vec<Sparkle> = scene.field().sparkles().clone();
    let quit = KeyPresses { quit: true, white: false, ..no_keys() };
    assert_eq!(scene.frame(quit, SECOND), FrameAction::Quit);
    assert_eq!(scene.state(), LoopState::Terminated);
    assert_eq!(scene.field().sparkles(), &before);
    assert_eq!(scene.frame(KeyPresses { red: true, ..no_keys() }, SECOND), FrameAction::Quit);
    assert_eq!(scene.tint(), Tint::White);
    assert_eq!(scene.field().sparkles(), &before);
}

#[test]
fn tint_is_taken_on_the_quit_frame() {
    let mut scene = Scene::new(2, 0);
    let keys = KeyPresses { quit: true, red: true, ..no_keys() };
    assert_eq!(scene.frame(keys, SECOND), FrameAction::Quit);
    assert_eq!(scene.tint(), Tint::Red);
}

#[test]
fn same_seed_same_run() {
    let deltas: Vec<u32> = vec![16_000, 17_000, 250_000, SECOND, 3 * SECOND, 1];
    let mut a = SparkleField::spawn(40, 0);
    let mut b = SparkleField::spawn(40, 0);
    assert_eq!(a.sparkles(), b.sparkles());
    for d in deltas.iter() {
        a.update(*d);
        b.update(*d);
        assert_eq!(a.sparkles(), b.sparkles());
    }
    let mut c = SparkleField::spawn(40, 0);
    c.replay(&deltas);
    assert_eq!(a.sparkles(), c.sparkles());
}

#[test]
fn other_seed_other_field() {
    let a = SparkleField::spawn(40, 0);
    let b = SparkleField::spawn(40, 1);
    assert_ne!(a.sparkles(), b.sparkles());
}

#[test]
fn spawned_sparkles_lie_in_their_ranges() {
    let field = SparkleField::spawn(SPARKLE_COUNT, 0);
    assert_eq!(field.len(), 500);
    let mut distinct_x = false;
    let first = field.sparkles()[0];
    for s in field.sparkles().iter() {
        assert!(s.position.x < CANVAS_WIDTH);
        assert!(s.position.y < CANVAS_HEIGHT);
        assert!(RADIUS_MIN <= s.radius && s.radius < RADIUS_MIN + RADIUS_SPAN);
        assert!(BASE_SPEED <= s.speed && s.speed < 3000);
        assert!(s.cycle < PHASE_SPAN);
        assert_eq!(s.speed % 2, 0);
        if s.position.x != first.position.x {
            distinct_x = true;
        }
    }
    assert!(distinct_x);
    assert_eq!(JITTER_SPAN, 500);
}

#[test]
fn draws_map_to_sparkle_fields() {
    let s = Sparkle::from_draws(5, 6, 0, 0, 7);
    assert_eq!(s, Sparkle { position: Point { x: 5, y: 6 }, speed: 2000, cycle: 7, radius: 500 });
    let t = Sparkle::from_draws(CANVAS_WIDTH - 1, CANVAS_HEIGHT - 1, 2499, 499, PHASE_SPAN - 1);
    assert_eq!(t.speed, 2998);
    assert_eq!(t.radius, 2999);
}

#[test]
fn off_canvas_sparkles_are_refused() {
    assert!(SparkleField::from_sparkles(vec![sparkle_at(CANVAS_WIDTH, 0, 2000)]).is_none());
    assert!(SparkleField::from_sparkles(vec![sparkle_at(0, CANVAS_HEIGHT, 2000)]).is_none());
    assert!(SparkleField::from_sparkles(vec![sparkle_at(0, 0, 2000), sparkle_at(5, CANVAS_HEIGHT + 3, 2000)]).is_none());
    let ok = SparkleField::from_sparkles(vec![sparkle_at(CANVAS_WIDTH - 1, CANVAS_HEIGHT - 1, 2000)]).unwrap();
    assert_eq!(ok.len(), 1);
    assert_eq!(SparkleField::from_sparkles(vec![]).unwrap().len(), 0);
}

#[test]
fn every_frame_keeps_population_canvas_and_phase() {
    let mut scene = Scene::standard();
    let mut prev: Vec<Sparkle> = scene.field().sparkles().clone();
    let deltas: [u32; 6] = [0, 16_667, 33_333, 5 * SECOND, 100 * SECOND, u32::MAX];
    for d in deltas.iter() {
        assert_eq!(scene.frame(no_keys(), *d), FrameAction::Draw);
        let now = scene.field().sparkles();
        assert_eq!(now.len(), SPARKLE_COUNT);
        for (a, b) in prev.iter().zip(now.iter()) {
            assert!(b.position.x < CANVAS_WIDTH && b.position.y < CANVAS_HEIGHT);
            assert!(b.cycle >= a.cycle);
            assert_eq!(b.cycle, a.cycle + *d as u64);
            assert_eq!(b.speed, a.speed);
            assert_eq!(b.radius, a.radius);
        }
        prev = now.clone();
    }
}
