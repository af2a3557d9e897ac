use pong::field::{
    to_pixel, BAND_MAX, BAND_MIN, BOTTOM_EDGE, COORD_LIMIT, HALF_PADDLE, MAX_STEP_MS, PADDLE_MAX,
    PADDLE_MIN, RIGHT_EDGE, TOP_EDGE,
};
use pong::physics::{advance_coord, clamp_step, elapsed, move_paddle, reflect_x, reflect_y};

#[test]
fn clamp_step_keeps_short_steps() {
    assert_eq!(clamp_step(0), 0);
    assert_eq!(clamp_step(1), 1);
    assert_eq!(clamp_step(16), 16);
    assert_eq!(clamp_step(49), 49);
    assert_eq!(clamp_step(50), 50);
}

#[test]
fn clamp_step_caps_long_stalls() {
    assert_eq!(clamp_step(51), 50);
    assert_eq!(clamp_step(1000), 50);
    assert_eq!(clamp_step(u32::MAX), 50);
    for dt in 0..2000u32 {
        assert!(clamp_step(dt) <= MAX_STEP_MS);
        assert!(clamp_step(dt) <= dt);
    }
}

#[test]
fn elapsed_is_the_difference_of_two_ticks() {
    assert_eq!(elapsed(10, 26), 16);
    assert_eq!(elapsed(5, 5), 0);
    assert_eq!(elapsed(0, u32::MAX), u32::MAX);
}

#[test]
fn elapsed_counts_across_the_wraparound() {
    assert_eq!(elapsed(u32::MAX, 0), 1);
    assert_eq!(elapsed(u32::MAX - 5, 10), 16);
    assert_eq!(elapsed(10, 5), u32::MAX - 4);
}

#[test]
fn paddle_moves_with_the_keys() {
    assert_eq!(move_paddle(384_000, true, false, 16), 379_200);
    assert_eq!(move_paddle(384_000, false, true, 16), 388_800);
    assert_eq!(move_paddle(384_000, false, true, 50), 399_000);
    assert_eq!(move_paddle(384_000, true, false, 1), 383_700);
}

#[test]
fn paddle_rests_without_a_key_or_with_both() {
    assert_eq!(move_paddle(384_000, false, false, 50), 384_000);
    assert_eq!(move_paddle(384_000, true, true, 50), 384_000);
    assert_eq!(move_paddle(384_000, true, false, 0), 384_000);
}

#[test]
fn paddle_stops_at_the_walls() {
    assert_eq!(move_paddle(66_000, true, false, 50), PADDLE_MIN);
    assert_eq!(move_paddle(702_000, false, true, 50), PADDLE_MAX);
    assert_eq!(move_paddle(PADDLE_MIN, true, false, 16), 65_000);
    assert_eq!(move_paddle(PADDLE_MAX, false, true, 16), 703_000);
    assert_eq!(move_paddle(PADDLE_MIN, false, true, 16), 69_800);
    assert_eq!(move_paddle(PADDLE_MAX, true, false, 16), 698_200);
}

#[test]
fn paddle_is_brought_back_from_anywhere() {
    assert_eq!(move_paddle(0, false, false, 0), PADDLE_MIN);
    assert_eq!(move_paddle(768_000, false, false, 0), PADDLE_MAX);
    assert_eq!(move_paddle(i64::MIN, true, false, u32::MAX), PADDLE_MIN);
    assert_eq!(move_paddle(i64::MAX, false, true, u32::MAX), PADDLE_MAX);
    assert_eq!(PADDLE_MIN, TOP_EDGE + HALF_PADDLE);
    assert_eq!(PADDLE_MAX, BOTTOM_EDGE - HALF_PADDLE);
}

#[test]
fn ball_coordinate_moves_by_velocity_times_time() {
    assert_eq!(advance_coord(500_000, -100, 16), 498_400);
    assert_eq!(advance_coord(5_000, -50, 16), 4_200);
    assert_eq!(advance_coord(512_000, -200, 50), 502_000);
    assert_eq!(advance_coord(384_000, 235, 50), 395_750);
    assert_eq!(advance_coord(384_000, 235, 0), 384_000);
    assert_eq!(advance_coord(384_000, 0, 50), 384_000);
}

#[test]
fn ball_coordinate_rests_at_the_limit() {
    assert_eq!(advance_coord(COORD_LIMIT, 1, 1), COORD_LIMIT);
    assert_eq!(advance_coord(COORD_LIMIT - 10, 1, 50), COORD_LIMIT);
    assert_eq!(advance_coord(-COORD_LIMIT, -1, 1), -COORD_LIMIT);
    assert_eq!(advance_coord(-COORD_LIMIT, 1, 1), -COORD_LIMIT + 1);
    assert_eq!(advance_coord(i64::MAX, i64::MAX, u32::MAX), COORD_LIMIT);
    assert_eq!(advance_coord(i64::MIN, i64::MIN, u32::MAX), -COORD_LIMIT);
}

#[test]
fn top_wall_turns_a_rising_ball() {
    assert_eq!(reflect_y(TOP_EDGE, -50), 50);
    assert_eq!(reflect_y(5_000, -50), 50);
    assert_eq!(reflect_y(-3_000, -1), 1);
    assert_eq!(reflect_y(TOP_EDGE + 1, -50), -50);
    assert_eq!(reflect_y(TOP_EDGE, 50), 50);
    assert_eq!(reflect_y(TOP_EDGE, 0), 0);
}

#[test]
fn bottom_wall_turns_a_falling_ball() {
    assert_eq!(reflect_y(BOTTOM_EDGE, 50), -50);
    assert_eq!(reflect_y(800_000, 235), -235);
    assert_eq!(reflect_y(BOTTOM_EDGE, 0), 0);
    assert_eq!(reflect_y(BOTTOM_EDGE - 1, 50), 50);
    assert_eq!(reflect_y(BOTTOM_EDGE, -50), -50);
}

#[test]
fn right_wall_turns_a_ball_moving_right() {
    assert_eq!(reflect_x(RIGHT_EDGE, 384_000, 100, 384_000), -100);
    assert_eq!(reflect_x(1_020_000, 10_000, 200, 384_000), -200);
    assert_eq!(reflect_x(RIGHT_EDGE, 384_000, 0, 384_000), 0);
    assert_eq!(reflect_x(RIGHT_EDGE - 1, 384_000, 100, 384_000), 100);
    assert_eq!(reflect_x(RIGHT_EDGE, 384_000, -100, 384_000), -100);
}

#[test]
fn paddle_turns_a_ball_in_its_band() {
    assert_eq!(reflect_x(22_000, 384_000, -100, 384_000), 100);
    assert_eq!(reflect_x(BAND_MIN, 384_000, -100, 384_000), 100);
    assert_eq!(reflect_x(BAND_MAX, 384_000, -100, 384_000), 100);
    assert_eq!(reflect_x(22_000, 384_000 + HALF_PADDLE, -100, 384_000), 100);
    assert_eq!(reflect_x(22_000, 384_000 - HALF_PADDLE, -100, 384_000), 100);
}

#[test]
fn paddle_lets_a_ball_outside_its_band_pass() {
    assert_eq!(reflect_x(BAND_MIN - 1, 384_000, -100, 384_000), -100);
    assert_eq!(reflect_x(BAND_MAX + 1, 384_000, -100, 384_000), -100);
    assert_eq!(reflect_x(22_000, 384_000 + HALF_PADDLE + 1, -100, 384_000), -100);
    assert_eq!(reflect_x(22_000, 384_000 - HALF_PADDLE - 1, -100, 384_000), -100);
    assert_eq!(reflect_x(22_000, 500_000, -100, 100_000), -100);
    assert_eq!(reflect_x(22_000, 384_000, 100, 384_000), 100);
    assert_eq!(reflect_x(22_000, 384_000, 0, 384_000), 0);
    assert_eq!(reflect_x(22_000, i64::MIN, -100, i64::MAX), -100);
}

#[test]
fn resolving_a_contact_again_changes_nothing() {
    let velocities = [-235i64, -50, -1, 0, 1, 50, 235];
    let heights = [-1_000i64, TOP_EDGE, TOP_EDGE + 1, 384_000, BOTTOM_EDGE - 1, BOTTOM_EDGE, 800_000];
    let widths = [-1_000i64, BAND_MIN - 1, BAND_MIN, 22_000, BAND_MAX, BAND_MAX + 1, RIGHT_EDGE, 1_100_000];
    for &v in velocities.iter() {
        for &y in heights.iter() {
            let once = reflect_y(y, v);
            assert!(once == v || once == -v);
            assert_eq!(reflect_y(y, once), once);
            for &x in widths.iter() {
                let turned = reflect_x(x, y, v, 384_000);
                assert!(turned == v || turned == -v);
                assert_eq!(reflect_x(x, y, turned, 384_000), turned);
            }
        }
    }
}

#[test]
fn pixels_round_towards_zero() {
    assert_eq!(to_pixel(0), 0);
    assert_eq!(to_pixel(999), 0);
    assert_eq!(to_pixel(1_000), 1);
    assert_eq!(to_pixel(7_500), 7);
    assert_eq!(to_pixel(512_000), 512);
    assert_eq!(to_pixel(-1), 0);
    assert_eq!(to_pixel(-999), 0);
    assert_eq!(to_pixel(-1_000), -1);
    assert_eq!(to_pixel(-1_500), -1);
}

#[test]
fn pixels_beyond_the_limit_count_as_at_the_limit() {
    assert_eq!(to_pixel(COORD_LIMIT), 1_000_000_000);
    assert_eq!(to_pixel(-COORD_LIMIT), -1_000_000_000);
    assert_eq!(to_pixel(i64::MAX), 1_000_000_000);
    assert_eq!(to_pixel(i64::MIN), -1_000_000_000);
}
