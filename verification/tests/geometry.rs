use ace_engine::fixed::check_range;
use ace_engine::fixed::floor_sqrt;
use ace_engine::fixed::LIMIT;
use ace_engine::minecraft_resource::MinecraftResource;
use ace_engine::minecraft_resource::PlayerHead;
use ace_engine::minecraft_resource::PlayerPosition;
use ace_engine::vectors::normalize;
use ace_engine::vectors::CalculateAngleForce;
use ace_engine::vectors::Vector3D;

#[test]
fn floor_sqrt_of_small_numbers() {
    assert_eq!(floor_sqrt(0), 0);
    assert_eq!(floor_sqrt(1), 1);
    assert_eq!(floor_sqrt(2), 1);
    assert_eq!(floor_sqrt(3), 1);
    assert_eq!(floor_sqrt(4), 2);
    assert_eq!(floor_sqrt(99), 9);
    assert_eq!(floor_sqrt(100), 10);
}

#[test]
fn floor_sqrt_of_the_largest_number() {
    assert_eq!(floor_sqrt(u128::MAX), u64::MAX);
    assert_eq!(floor_sqrt((u64::MAX as u128) * (u64::MAX as u128)), u64::MAX);
    assert_eq!(floor_sqrt((u64::MAX as u128) * (u64::MAX as u128) - 1), u64::MAX - 1);
}

#[test]
fn range_check_is_inclusive() {
    assert!(check_range(0));
    assert!(check_range(LIMIT));
    assert!(check_range(-LIMIT));
    assert!(!check_range(LIMIT + 1));
    assert!(!check_range(-LIMIT - 1));
}

#[test]
fn magnitude_rounds_down() {
    assert_eq!(Vector3D { x: 3000, y: 0, z: 4000 }.magnitude(), 5000);
    assert_eq!(Vector3D { x: 1000, y: 1000, z: 1000 }.magnitude(), 1732);
    assert_eq!(Vector3D { x: -2000, y: -3000, z: -6000 }.magnitude(), 7000);
    assert_eq!(Vector3D { x: 0, y: 0, z: 0 }.magnitude(), 0);
}

#[test]
fn magnitude_of_the_farthest_vector() {
    let far = Vector3D { x: i64::MIN, y: i64::MIN, z: i64::MIN };
    // sqrt(3) * 2^63, rounded down
    assert_eq!(far.magnitude(), 15975348984942515101);
}

#[test]
fn distance_ignores_height() {
    let here = Vector3D { x: 0, y: 64_000, z: 0 };
    let there = Vector3D { x: 10_000, y: -5_000, z: 0 };
    assert_eq!(here.distance_to(&there), 10_000);
    assert_eq!(there.distance_to(&here), 10_000);
    let diagonal = Vector3D { x: 1000, y: 0, z: 1000 };
    assert_eq!(Vector3D { x: 0, y: 0, z: 0 }.distance_to(&diagonal), 1414);
}

#[test]
fn height_offset_is_signed() {
    let low = Vector3D { x: 0, y: 1000, z: 0 };
    let high = Vector3D { x: 0, y: 3500, z: 0 };
    assert_eq!(low.y_distance_to(&high), -2500);
    assert_eq!(high.y_distance_to(&low), 2500);
    assert_eq!(low.y_distance_to(&low), 0);
}

#[test]
fn subtraction_is_componentwise() {
    let a = Vector3D { x: 5, y: 7, z: -9 };
    let b = Vector3D { x: 1, y: 10, z: 1 };
    assert_eq!(a - b, Vector3D { x: 4, y: -3, z: -10 });
}

#[test]
fn vectors_come_from_positions_and_triples() {
    let position = PlayerPosition::from((1, 2, 3));
    assert_eq!(position, PlayerPosition { x: 1, y: 2, z: 3 });
    assert_eq!(Vector3D::from(position), Vector3D { x: 1, y: 2, z: 3 });
    assert_eq!(Vector3D::from([4, 5, 6]), Vector3D { x: 4, y: 5, z: 6 });
}

#[test]
fn a_fresh_snapshot_is_at_the_origin() {
    let snapshot = MinecraftResource::new();
    assert_eq!(snapshot.player_position, PlayerPosition { x: 0, y: 0, z: 0 });
    assert_eq!(snapshot.player_head, PlayerHead { yaw: 0, y: 0 });
    assert!(snapshot.check_range());
}

#[test]
fn a_snapshot_out_of_range_is_told() {
    let mut snapshot = MinecraftResource::new();
    snapshot.player_head.yaw = LIMIT + 1;
    assert!(!snapshot.check_range());
}

#[test]
fn normalize_leaves_the_range_alone() {
    assert_eq!(normalize(0), 0);
    assert_eq!(normalize(180_000), 180_000);
    assert_eq!(normalize(-180_000), -180_000);
    assert_eq!(normalize(-179_999), -179_999);
}

#[test]
fn normalize_takes_full_turns_away() {
    assert_eq!(normalize(180_001), -179_999);
    assert_eq!(normalize(-180_001), 179_999);
    assert_eq!(normalize(360_000), 0);
    assert_eq!(normalize(-360_000), 0);
    assert_eq!(normalize(540_000), 180_000);
    assert_eq!(normalize(-540_000), -180_000);
    assert_eq!(normalize(725_500), 5_500);
    assert_eq!(normalize(-725_500), -5_500);
}

#[test]
fn normalize_of_the_extremes() {
    // i64::MAX = 9223372036854775807 = 25620477880152 full turns + 55807
    assert_eq!(normalize(i64::MAX), 55_807);
    assert_eq!(normalize(i64::MIN), -55_808);
}

#[test]
fn force_is_cut_to_whole_degrees_towards_zero() {
    assert_eq!(0_i64.calculate_angle_force(32, -32), 0);
    assert_eq!(999_i64.calculate_angle_force(32, -32), 0);
    assert_eq!((-999_i64).calculate_angle_force(32, -32), 0);
    assert_eq!(1_000_i64.calculate_angle_force(32, -32), 1);
    assert_eq!((-1_000_i64).calculate_angle_force(32, -32), -1);
    assert_eq!(10_900_i64.calculate_angle_force(32, -32), 10);
    assert_eq!((-10_900_i64).calculate_angle_force(32, -32), -10);
}

#[test]
fn force_saturates() {
    assert_eq!(32_000_i64.calculate_angle_force(32, -32), 32);
    assert_eq!(33_000_i64.calculate_angle_force(32, -32), 32);
    assert_eq!(179_000_i64.calculate_angle_force(32, -32), 32);
    assert_eq!((-33_000_i64).calculate_angle_force(32, -32), -32);
    assert_eq!((-179_000_i64).calculate_angle_force(32, -32), -32);
}

#[test]
fn force_wraps_before_it_saturates() {
    assert_eq!(190_000_i64.calculate_angle_force(32, -32), -32);
    assert_eq!((-190_000_i64).calculate_angle_force(32, -32), 32);
    assert_eq!(350_000_i64.calculate_angle_force(32, -32), -10);
    assert_eq!(370_000_i64.calculate_angle_force(32, -32), 10);
}

#[test]
fn force_is_the_same_a_full_turn_on() {
    let errors: [i64; 7] = [0, 1_500, -1_500, 31_999, -45_000, 179_999, -179_999];
    for error in errors {
        let force = error.calculate_angle_force(32, -32);
        assert!((-32..=32).contains(&force));
        for turns in -3_i64..=3 {
            assert_eq!((error + turns * 360_000).calculate_angle_force(32, -32), force);
        }
    }
}

#[test]
fn half_a_turn_keeps_its_sign() {
    assert_eq!(180_000_i64.calculate_angle_force(32, -32), 32);
    assert_eq!((-180_000_i64).calculate_angle_force(32, -32), -32);
    assert_eq!(540_000_i64.calculate_angle_force(32, -32), 32);
    assert_eq!((-540_000_i64).calculate_angle_force(32, -32), -32);
}

#[test]
fn force_follows_other_bounds() {
    assert_eq!(50_000_i64.calculate_angle_force(10, -5), 10);
    assert_eq!((-50_000_i64).calculate_angle_force(10, -5), -5);
    assert_eq!(7_000_i64.calculate_angle_force(10, -5), 7);
    // the floor is applied first, so a ceiling below it wins
    assert_eq!(0_i64.calculate_angle_force(-32, 32), -32);
}
