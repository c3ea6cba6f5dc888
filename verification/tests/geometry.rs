use arcade_core::geometry::Aabb;
use arcade_core::geometry::Circle;
use arcade_core::geometry::Collision;
use arcade_core::geometry::Vec2;
use arcade_core::geometry::ball_collision;
use arcade_core::geometry::clamp_i64;

fn circle(x: i64, y: i64, r: i64) -> Circle {
    Circle { center: Vec2 { x, y }, radius: r }
}

fn boxed(x: i64, y: i64, hx: i64, hy: i64) -> Aabb {
    Aabb { center: Vec2 { x, y }, half: Vec2 { x: hx, y: hy } }
}

#[test]
fn separated_ball_reports_no_collision() {
    let b = boxed(0, 0, 10_000_000, 10_000_000);
    // Strictly outside the Minkowski-expanded box along x.
    assert_eq!(ball_collision(&circle(30_000_000, 0, 5_000_000), &b), None);
    // And along y, below the box.
    assert_eq!(ball_collision(&circle(0, -40_000_000, 5_000_000), &b), None);
    // Touching exactly counts as a collision.
    assert_eq!(
        ball_collision(&circle(15_000_000, 0, 5_000_000), &b),
        Some(Collision::Right)
    );
}

#[test]
fn corner_tie_classifies_vertical() {
    let b = boxed(0, 0, 10_000_000, 10_000_000);
    // Ball beyond the upper-right corner with equal offsets: the tie falls
    // through to the vertical branch and the positive offset reads Top.
    assert_eq!(
        ball_collision(&circle(12_000_000, 12_000_000, 5_000_000), &b),
        Some(Collision::Top)
    );
    // Below the lower-right corner the tie reads Bottom.
    assert_eq!(
        ball_collision(&circle(12_000_000, -12_000_000, 5_000_000), &b),
        Some(Collision::Bottom)
    );
    // Centered exactly at a corner the offset is zero on both axes.
    assert_eq!(
        ball_collision(&circle(10_000_000, 10_000_000, 5_000_000), &b),
        Some(Collision::Bottom)
    );
}

#[test]
fn center_inside_box_still_collides() {
    let b = boxed(0, 0, 10_000_000, 10_000_000);
    // A center inside the box has offset (0, 0); the intersection test must
    // come first, and the tie-break then reads Bottom.
    assert_eq!(
        ball_collision(&circle(1_000_000, 2_000_000, 5_000_000), &b),
        Some(Collision::Bottom)
    );
}

#[test]
fn each_side_classifies_by_dominant_offset() {
    let b = boxed(0, 0, 10_000_000, 10_000_000);
    let r = 8_000_000;
    assert_eq!(
        ball_collision(&circle(-15_000_000, 1_000_000, r), &b),
        Some(Collision::Left)
    );
    assert_eq!(
        ball_collision(&circle(15_000_000, -1_000_000, r), &b),
        Some(Collision::Right)
    );
    assert_eq!(
        ball_collision(&circle(1_000_000, 15_000_000, r), &b),
        Some(Collision::Top)
    );
    assert_eq!(
        ball_collision(&circle(-1_000_000, -15_000_000, r), &b),
        Some(Collision::Bottom)
    );
}

#[test]
fn clamp_holds_value_to_interval() {
    assert_eq!(clamp_i64(5, -3, 3), 3);
    assert_eq!(clamp_i64(-5, -3, 3), -3);
    assert_eq!(clamp_i64(2, -3, 3), 2);
    assert_eq!(clamp_i64(-3, -3, 3), -3);
}
