use falling_words::{DrawOp, DrawStep, GeometryError, Scalar, Universe};

fn s(value: f32) -> Scalar {
    Scalar::from_bits(value.to_bits())
}

fn f(scalar: Scalar) -> f32 {
    f32::from_bits(scalar.to_bits())
}

/// Adds a wall given by its centre, width and height.
fn add_wall(universe: &mut Universe, x: f32, y: f32, width: f32, height: f32) {
    universe.add_wall(s(x), s(y), s(width / 2.0), s(height / 2.0)).unwrap();
}

/// Adds a word given by its left edge, bottom edge, width and height, with a
/// density equal to its area.
fn add_word(universe: &mut Universe, x_min: f32, y_max: f32, width: f32, height: f32, text: &str) {
    universe
        .add_word(
            s(x_min + width / 2.0),
            s(y_max - height / 2.0),
            s(width / 2.0),
            s(height / 2.0),
            s(width * height),
            text.to_string(),
        )
        .unwrap();
}

fn x_min(universe: &Universe, index: usize) -> f32 {
    let word = universe.word(index).unwrap();
    f(word.center_x()) - f(word.half_width())
}

fn y_max(universe: &Universe, index: usize) -> f32 {
    let word = universe.word(index).unwrap();
    f(word.center_y()) + f(word.half_height())
}

fn poses(universe: &Universe) -> Vec<(u32, u32, u32)> {
    (0..universe.len())
        .map(|i| {
            let word = universe.word(i).unwrap();
            (word.center_x().to_bits(), word.center_y().to_bits(), word.angle().to_bits())
        })
        .collect()
}

fn scene() -> Universe {
    let mut universe = Universe::new();
    add_wall(&mut universe, 50.0, 100.0, 100.0, 10.0);
    add_word(&mut universe, 0.0, 0.0, 20.0, 10.0, "hi");
    add_word(&mut universe, 30.0, 20.0, 40.0, 12.0, "there");
    add_word(&mut universe, 35.0, 10.0, 30.0, 10.0, "you");
    universe
}

#[test]
fn new_universe_is_empty() {
    let universe = Universe::new();
    assert_eq!(universe.len(), 0);
    assert!(universe.word(0).is_none());
}

#[test]
fn universe_steps_one_sixtieth_of_a_second() {
    let mut universe = scene();
    let before = universe.world().read_settings();
    assert_eq!(f(before.timestep), 1.0 / 60.0);
    assert_eq!(before.solver_iterations, 4);
    assert_eq!(before.ccd_substeps, 1);
    for _ in 0..10 {
        universe.tick();
    }
    assert_eq!(universe.world().read_settings(), before);
}

#[test]
fn steps_count_the_ticks() {
    let mut universe = Universe::new();
    assert_eq!(universe.steps(), 0);
    add_wall(&mut universe, 50.0, 100.0, 100.0, 10.0);
    add_word(&mut universe, 0.0, 0.0, 20.0, 10.0, "hi");
    assert!(universe.add_wall(s(0.0), s(0.0), s(-1.0), s(1.0)).is_err());
    assert_eq!(universe.steps(), 0);
    for k in 1..=200u32 {
        universe.tick();
        assert_eq!(universe.steps(), k);
        assert_eq!(universe.world().steps(), k);
    }
    add_word(&mut universe, 40.0, 0.0, 20.0, 10.0, "you");
    assert_eq!(universe.steps(), 200);
}

#[test]
fn new_universe_ticks_to_an_empty_frame() {
    let mut universe = Universe::new();
    let cursor = universe.tick();
    assert!(cursor.is_finished());
    assert_eq!(universe.len(), 0);
}

#[test]
fn word_falls_and_rests_on_wall() {
    let mut universe = Universe::new();
    add_wall(&mut universe, 50.0, 100.0, 100.0, 10.0);
    add_word(&mut universe, 0.0, 0.0, 20.0, 10.0, "hi");
    let mut last = y_max(&universe, 0);
    assert_eq!(last, 0.0);
    for _ in 0..60 {
        universe.tick();
        let now = y_max(&universe, 0);
        assert!(now > last, "{} after {}", now, last);
        assert!(now < 95.0);
        last = now;
    }
    // one second of fall under 20 units/s^2
    assert!((last - 10.0).abs() < 0.1, "{}", last);
    let mut resting = 0;
    for _ in 0..540 {
        universe.tick();
        let now = y_max(&universe, 0);
        // without continuous collision detection the word may dip into the
        // wall on impact, by less than it moves in one step
        assert!(now < 95.5, "fell through: {}", now);
        if (now - 95.0).abs() < 0.05 {
            resting += 1;
        }
        last = now;
    }
    assert!((last - 95.0).abs() < 0.05, "{}", last);
    assert!(resting > 300);
    assert!((x_min(&universe, 0) - 0.0).abs() < 1.0, "{}", x_min(&universe, 0));
    assert!(f(universe.word(0).unwrap().angle()).abs() < 0.01);
}

#[test]
fn overlapping_words_separate() {
    let mut universe = Universe::new();
    add_wall(&mut universe, 50.0, 100.0, 400.0, 10.0);
    add_word(&mut universe, 40.0, 95.0, 20.0, 10.0, "left");
    add_word(&mut universe, 50.0, 95.0, 20.0, 10.0, "right");
    let gap = |universe: &Universe| {
        let a = universe.word(0).unwrap();
        let b = universe.word(1).unwrap();
        let dx = f(a.center_x()) - f(b.center_x());
        let dy = f(a.center_y()) - f(b.center_y());
        (dx * dx + dy * dy).sqrt()
    };
    let mut least = gap(&universe);
    assert_eq!(least, 10.0);
    for _ in 0..300 {
        universe.tick();
        let now = gap(&universe);
        // while the boxes overlap they only move apart; once apart they stay
        // apart, up to the solver's slop
        assert!(now >= least.min(19.95), "{} after {}", now, least);
        least = now;
    }
    // two boxes of width 20 side by side: their centres are 20 apart at least
    assert!(gap(&universe) > 19.9, "{}", gap(&universe));
}

#[test]
fn same_calls_give_the_same_transforms() {
    let run = || {
        let mut universe = scene();
        let mut history = Vec::new();
        for _ in 0..200 {
            universe.tick();
            history.push(poses(&universe));
        }
        history
    };
    let first = run();
    let second = run();
    assert_eq!(first, second);
    assert_ne!(first[0], first[199]);
}

#[test]
fn words_are_kept_in_call_order() {
    let mut universe = Universe::new();
    let texts = ["alpha", "beta", "gamma", "delta", "epsilon"];
    for (k, text) in texts.iter().enumerate() {
        add_word(&mut universe, 30.0 * k as f32, 0.0, 20.0 + k as f32, 10.0, text);
        assert_eq!(universe.len(), k + 1);
        if k == 2 {
            add_wall(&mut universe, 50.0, 100.0, 100.0, 10.0);
            assert_eq!(universe.len(), k + 1);
        }
        universe.tick();
        assert_eq!(universe.len(), k + 1);
    }
    for _ in 0..100 {
        universe.tick();
    }
    assert_eq!(universe.len(), 5);
    assert!(universe.word(5).is_none());
    for (k, text) in texts.iter().enumerate() {
        let word = universe.word(k).unwrap();
        assert_eq!(word.text(), text);
        assert_eq!(f(word.half_width()), (20.0 + k as f32) / 2.0);
        assert_eq!(f(word.half_height()), 5.0);
        assert_eq!(f(word.density()), (20.0 + k as f32) * 10.0);
    }
}

#[test]
fn each_word_has_its_own_body_and_collider() {
    let universe = scene();
    for i in 0..universe.len() {
        let a = universe.word(i).unwrap();
        assert!(a.body_handle().is_some());
        assert!(a.collider_handle().is_some());
        for j in 0..i {
            let b = universe.word(j).unwrap();
            assert_ne!(a.body_handle(), b.body_handle());
            assert_ne!(a.collider_handle(), b.collider_handle());
        }
    }
}

#[test]
fn added_word_stands_where_it_was_put() {
    let mut universe = Universe::new();
    add_word(&mut universe, 0.0, 0.0, 20.0, 10.0, "hi");
    let word = universe.word(0).unwrap();
    assert_eq!(f(word.center_x()), 10.0);
    assert_eq!(f(word.center_y()), -5.0);
    assert_eq!(word.angle().to_bits(), 0);
    let pose = universe.world().pose(word.body_handle().unwrap());
    assert_eq!((pose.x, pose.y, pose.angle), (word.center_x(), word.center_y(), word.angle()));
}

#[test]
fn words_show_their_bodies_after_each_tick() {
    let mut universe = scene();
    for _ in 0..150 {
        let before = poses(&universe);
        universe.tick();
        assert_ne!(poses(&universe), before);
        for i in 0..universe.len() {
            let word = universe.word(i).unwrap();
            let pose = universe.world().pose(word.body_handle().unwrap());
            assert_eq!(word.center_x(), pose.x);
            assert_eq!(word.center_y(), pose.y);
            assert_eq!(word.angle(), pose.angle);
        }
    }
}

#[test]
fn tick_changes_nothing_of_a_word_but_its_pose() {
    let mut universe = scene();
    let identity = |universe: &Universe| {
        (0..universe.len())
            .map(|i| {
                let word = universe.word(i).unwrap();
                (
                    word.half_width(),
                    word.half_height(),
                    word.density(),
                    word.text().clone(),
                    word.body_handle(),
                    word.collider_handle(),
                )
            })
            .collect::<Vec<_>>()
    };
    let before = identity(&universe);
    for _ in 0..100 {
        universe.tick();
    }
    assert_eq!(identity(&universe), before);
}

#[test]
fn tick_hands_out_the_frame_of_all_words() {
    let mut universe = scene();
    let mut cursor = universe.tick();
    let mut steps = Vec::new();
    while let Some(step) = cursor.current() {
        assert!(universe.word(step.word).is_some());
        steps.push(step);
        cursor.advance(true);
    }
    assert_eq!(steps.len(), 15);
    assert_eq!(steps[0], DrawStep { word: 0, op: DrawOp::Save });
    assert_eq!(steps[3], DrawStep { word: 0, op: DrawOp::FillText });
    assert_eq!(steps[5], DrawStep { word: 1, op: DrawOp::Save });
    assert_eq!(steps[14], DrawStep { word: 2, op: DrawOp::Restore });
}

#[test]
fn rejected_wall_changes_nothing() {
    let mut universe = scene();
    let before = poses(&universe);
    assert_eq!(
        universe.add_wall(s(f32::NAN), s(0.0), s(1.0), s(1.0)),
        Err(GeometryError::CenterNotFinite)
    );
    assert_eq!(
        universe.add_wall(s(0.0), s(0.0), s(-1.0), s(1.0)),
        Err(GeometryError::WidthNotPositive)
    );
    assert_eq!(
        universe.add_wall(s(0.0), s(0.0), s(1.0), s(0.0)),
        Err(GeometryError::HeightNotPositive)
    );
    assert_eq!(universe.len(), 3);
    assert_eq!(poses(&universe), before);
    // the words fall as if nothing had been asked: no wall stands at the origin
    let mut reference = scene();
    for _ in 0..200 {
        universe.tick();
        reference.tick();
    }
    assert_eq!(poses(&universe), poses(&reference));
}

#[test]
fn rejected_word_changes_nothing() {
    let mut universe = scene();
    let before = poses(&universe);
    let mut try_word = |x: f32, w: f32, h: f32, d: f32| {
        universe.add_word(s(x), s(0.0), s(w), s(h), s(d), "no".to_string())
    };
    assert_eq!(try_word(f32::NEG_INFINITY, 1.0, 1.0, 1.0), Err(GeometryError::CenterNotFinite));
    assert_eq!(try_word(0.0, 0.0, 1.0, 1.0), Err(GeometryError::WidthNotPositive));
    assert_eq!(try_word(0.0, 1.0, f32::NAN, 1.0), Err(GeometryError::HeightNotPositive));
    assert_eq!(try_word(0.0, 1.0, 1.0, -4.0), Err(GeometryError::DensityNotPositive));
    assert_eq!(universe.len(), 3);
    assert_eq!(poses(&universe), before);
    let mut reference = scene();
    for _ in 0..200 {
        universe.tick();
        reference.tick();
    }
    assert_eq!(poses(&universe), poses(&reference));
}

#[test]
fn wall_stops_words_for_good() {
    // the wall is where it was put however long the words lie on it
    let mut universe = Universe::new();
    add_wall(&mut universe, 200.0, 100.0, 400.0, 10.0);
    add_word(&mut universe, 10.0, 0.0, 20.0, 10.0, "one");
    add_word(&mut universe, 100.0, 40.0, 60.0, 30.0, "two");
    add_word(&mut universe, 300.0, -50.0, 8.0, 4.0, "three");
    for _ in 0..1000 {
        universe.tick();
    }
    for i in 0..universe.len() {
        assert!((y_max(&universe, i) - 95.0).abs() < 0.05, "word {} at {}", i, y_max(&universe, i));
    }
}

#[test]
fn word_without_wall_falls_on() {
    let mut universe = Universe::new();
    add_word(&mut universe, 0.0, 0.0, 20.0, 10.0, "hi");
    for _ in 0..300 {
        universe.tick();
    }
    // five seconds of free fall under 20 units/s^2: 250 units
    assert!((y_max(&universe, 0) - 250.0).abs() < 2.0, "{}", y_max(&universe, 0));
}

/// A target of the given scale lies on a floor; a box of fixed size appears
/// overlapping its left side and pushes it to the right. Returns how far the
/// target has moved when all is at rest again.
fn pushed(scale: f32) -> f32 {
    let mut universe = Universe::new();
    add_wall(&mut universe, 500.0, 105.0, 2000.0, 10.0);
    add_word(&mut universe, 500.0, 100.0, 20.0 * scale, 10.0 * scale, "target");
    for _ in 0..120 {
        universe.tick();
    }
    let start = f(universe.word(0).unwrap().center_x());
    add_word(&mut universe, 482.0, 100.0, 20.0, 10.0, "striker");
    for _ in 0..240 {
        universe.tick();
    }
    f(universe.word(0).unwrap().center_x()) - start
}

#[test]
fn larger_word_is_displaced_less() {
    let scales = [0.5f32, 1.0, 1.5, 2.0, 3.0];
    let moved: Vec<f32> = scales.iter().map(|scale| pushed(*scale)).collect();
    assert!(moved[0] > 1.0, "{:?}", moved);
    for pair in moved.windows(2) {
        assert!(pair[1] > 0.0, "{:?}", moved);
        assert!(pair[1] < pair[0], "{:?}", moved);
    }
}

#[test]
fn extreme_geometry_that_is_accepted_can_be_stepped() {
    let extremes = [f32::from_bits(1), f32::MIN_POSITIVE, 1e-20, 1.0, 1e20, f32::MAX];
    let centers = [f32::MIN, -1e20, -f32::MIN_POSITIVE, -0.0, 0.0, 1e20, f32::MAX];
    let mut universe = Universe::new();
    let mut words = 0;
    for (i, extent) in extremes.iter().enumerate() {
        for (j, center) in centers.iter().enumerate() {
            let other = extremes[(i + j) % extremes.len()];
            universe.add_wall(s(*center), s(-*center), s(*extent), s(other)).unwrap();
            let text = "x".to_string();
            universe
                .add_word(s(-*center), s(*center), s(other), s(*extent), s(*extent), text)
                .unwrap();
            words += 1;
        }
    }
    assert_eq!(universe.len(), words);
    for _ in 0..50 {
        universe.tick();
    }
    assert_eq!(universe.len(), words);
}
