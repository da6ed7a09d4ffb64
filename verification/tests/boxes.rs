use falling_words::body::{BodyDesc, ColliderDesc, Pose};
use falling_words::geometry::GeometryError;
use falling_words::handle::{BodyHandle, ColliderHandle};
use falling_words::scalar::Scalar;
use falling_words::wall::Wall;
use falling_words::word::WordBox;
use falling_words::world::PhysicsWorld;

fn s(value: f32) -> Scalar {
    Scalar::from_bits(value.to_bits())
}

fn hi() -> WordBox {
    WordBox::new(s(10.0), s(-5.0), s(10.0), s(5.0), s(200.0), "hi".to_string()).unwrap()
}

#[test]
fn wall_keeps_its_geometry() {
    let wall = Wall::new(s(50.0), s(100.0), s(50.0), s(5.0)).unwrap();
    assert_eq!(
        wall,
        Wall { center_x: s(50.0), center_y: s(100.0), half_width: s(50.0), half_height: s(5.0) }
    );
}

#[test]
fn wall_with_bad_geometry_is_rejected() {
    assert_eq!(
        Wall::new(s(f32::NAN), s(100.0), s(50.0), s(5.0)),
        Err(GeometryError::CenterNotFinite)
    );
    assert_eq!(Wall::new(s(50.0), s(100.0), s(0.0), s(5.0)), Err(GeometryError::WidthNotPositive));
    assert_eq!(
        Wall::new(s(50.0), s(100.0), s(50.0), s(-5.0)),
        Err(GeometryError::HeightNotPositive)
    );
}

#[test]
fn wall_body_is_fixed_at_the_centre() {
    let wall = Wall::new(s(50.0), s(100.0), s(50.0), s(5.0)).unwrap();
    assert_eq!(
        wall.new_body(),
        BodyDesc::Fixed { pose: Pose { x: s(50.0), y: s(100.0), angle: s(0.0) } }
    );
}

#[test]
fn wall_collider_is_a_box_of_its_size() {
    let wall = Wall::new(s(50.0), s(100.0), s(50.0), s(5.0)).unwrap();
    assert_eq!(
        wall.new_collider(),
        ColliderDesc { half_width: s(50.0), half_height: s(5.0), density: None }
    );
}

#[test]
fn new_word_is_unrotated_and_unregistered() {
    let word = hi();
    assert_eq!(word.center_x(), s(10.0));
    assert_eq!(word.center_y(), s(-5.0));
    assert_eq!(word.half_width(), s(10.0));
    assert_eq!(word.half_height(), s(5.0));
    assert_eq!(word.density(), s(200.0));
    assert_eq!(word.angle(), s(0.0));
    assert_eq!(word.text(), "hi");
    assert_eq!(word.body_handle(), None);
    assert_eq!(word.collider_handle(), None);
}

#[test]
fn word_with_bad_geometry_is_rejected() {
    let new = |x: f32, w: f32, h: f32, d: f32| {
        WordBox::new(s(x), s(0.0), s(w), s(h), s(d), "x".to_string()).err()
    };
    assert_eq!(new(f32::INFINITY, 1.0, 1.0, 1.0), Some(GeometryError::CenterNotFinite));
    assert_eq!(new(0.0, -1.0, 1.0, 1.0), Some(GeometryError::WidthNotPositive));
    assert_eq!(new(0.0, 1.0, 0.0, 1.0), Some(GeometryError::HeightNotPositive));
    assert_eq!(new(0.0, 1.0, 1.0, f32::NAN), Some(GeometryError::DensityNotPositive));
    assert_eq!(new(0.0, 1.0, 1.0, 1.0), None);
}

#[test]
fn word_body_is_dynamic_damped_and_without_ccd() {
    assert_eq!(
        hi().new_body(),
        BodyDesc::Dynamic {
            pose: Pose { x: s(10.0), y: s(-5.0), angle: s(0.0) },
            angular_damping: s(20.0),
            ccd_enabled: false,
        }
    );
}

#[test]
fn word_collider_has_the_words_size_and_density() {
    assert_eq!(
        hi().new_collider(),
        ColliderDesc { half_width: s(10.0), half_height: s(5.0), density: Some(s(200.0)) }
    );
}

#[test]
fn handles_are_recorded() {
    let mut word = hi();
    let body = BodyHandle { index: 3, generation: 1 };
    let collider = ColliderHandle { index: 7, generation: 2 };
    word.set_body_handle(body);
    assert_eq!(word.body_handle(), Some(body));
    assert_eq!(word.collider_handle(), None);
    word.set_collider_handle(collider);
    assert_eq!(word.body_handle(), Some(body));
    assert_eq!(word.collider_handle(), Some(collider));
    assert_eq!(word.text(), "hi");
    assert_eq!(word.half_width(), s(10.0));
}

#[test]
fn update_coords_copies_the_bodys_pose() {
    let mut world = PhysicsWorld::new(Scalar::zero(), s(20.0));
    let mut word = hi();
    let body = world.insert_body(word.new_body());
    word.set_body_handle(body);
    let collider = world.insert_collider(word.new_collider(), body);
    word.set_collider_handle(collider);
    for _ in 0..30 {
        world.step();
    }
    assert_eq!(word.center_y(), s(-5.0));
    word.update_coords(&world);
    let pose = world.pose(body);
    assert!(f32::from_bits(pose.y.to_bits()) > -5.0);
    assert_eq!(word.center_x(), pose.x);
    assert_eq!(word.center_y(), pose.y);
    assert_eq!(word.angle(), pose.angle);
    assert_eq!(word.half_width(), s(10.0));
    assert_eq!(word.half_height(), s(5.0));
    assert_eq!(word.density(), s(200.0));
    assert_eq!(word.text(), "hi");
    assert_eq!(word.body_handle(), Some(body));
    assert_eq!(word.collider_handle(), Some(collider));
}
