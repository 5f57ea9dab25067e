//! Exact values of the arithmetic helpers, the stage policy table, the audio
//! generators, and the configuration defaults.
use eyemotion::audio::{generate_bgm, generate_bounce_sounds};
use eyemotion::num::{clamp, isqrt, tdiv_i64};
use eyemotion::trig::{atan2_mrad, cos_mrad, norm_mrad, sin_mrad};
use eyemotion::{
    stage_direction, stage_speed, AudioParams, Axis, Ball, MotionType, StageConfig, Theme,
    UserConfig,
};

#[test]
fn trig_hits_the_cardinal_points() {
    assert_eq!(sin_mrad(0), 0);
    assert_eq!(sin_mrad(1571), 1000);
    assert_eq!(sin_mrad(3142), 0);
    assert_eq!(sin_mrad(4713), -1000);
    assert_eq!(cos_mrad(0), 1000);
    assert_eq!(cos_mrad(1571), 0);
    assert_eq!(sin_mrad(6284 + 1571), 1000);
    assert_eq!(sin_mrad(-4713), 1000);
    assert_eq!(norm_mrad(-1), 6283);
}

#[test]
fn atan2_recovers_the_position_angle() {
    assert_eq!(atan2_mrad(0, 0), 0);
    assert_eq!(atan2_mrad(0, 5), 0);
    assert_eq!(atan2_mrad(5, 0), 1571);
    assert_eq!(atan2_mrad(0, -5), 3142);
    assert_eq!(atan2_mrad(-5, 0), 4713);
    assert_eq!(atan2_mrad(300_000, 300_000), 788);
    assert_eq!(atan2_mrad(-400_000, 300_000), 5354);
    assert_eq!(atan2_mrad(400_000, -300_000), 2212);
}

#[test]
fn trig_approximates_interior_angles() {
    // The rational half-circle formula, evaluated by hand at a sixth and a
    // quarter of the half circle.
    assert_eq!(sin_mrad(524), 500);
    assert_eq!(sin_mrad(786), 706);
    assert_eq!(cos_mrad(786), 705);
    assert_eq!(cos_mrad(1047), 500);
}

#[test]
fn integer_helpers_compute_exactly() {
    assert_eq!(isqrt(0), 0);
    assert_eq!(isqrt(15), 3);
    assert_eq!(isqrt(16), 4);
    assert_eq!(isqrt(2_000_000_000_000), 1_414_213);
    assert_eq!(tdiv_i64(7, 2), 3);
    assert_eq!(tdiv_i64(-7, 2), -3);
    assert_eq!(clamp(5, 0, 10), 5);
    assert_eq!(clamp(-5, 0, 10), 0);
    assert_eq!(clamp(15, 0, 10), 10);
}

#[test]
fn stage_speeds_match_the_policy_table() {
    assert_eq!(stage_speed(1), 1_000_000);
    assert_eq!(stage_speed(2), 1_100_000);
    assert_eq!(stage_speed(3), 1_625_000);
    assert_eq!(stage_speed(4), 1_500_000);
    assert_eq!(stage_speed(5), 0);
    assert_eq!(stage_speed(0), 1_000_000);
    assert_eq!(stage_speed(9), 1_000_000);
}

#[test]
fn stage_directions_stay_in_their_ranges() {
    for _ in 0..50 {
        let (dx, dy) = stage_direction(1);
        assert!((930..=990).contains(&dx.abs()), "stage 1 dx: {dx}");
        assert!((170..=350).contains(&dy), "stage 1 dy: {dy}");

        let (dx, dy) = stage_direction(2);
        assert!((80..=270).contains(&dx.abs()), "stage 2 dx: {dx}");
        assert!((950..=1000).contains(&dy.abs()), "stage 2 dy: {dy}");

        let (dx, dy) = stage_direction(3);
        assert_eq!(dx, 0);
        assert!(dy == 1000 || dy == -1000);

        let (dx, dy) = stage_direction(4);
        assert!((340..=940).contains(&dx), "stage 4 dx: {dx}");
        assert!((340..=945).contains(&dy.abs()), "stage 4 dy: {dy}");

        let (dx, dy) = stage_direction(5);
        assert!((930..=990).contains(&dx.abs()), "stage 5 dx: {dx}");
        assert!((170..=350).contains(&dy), "stage 5 dy: {dy}");
    }
    assert_eq!(stage_direction(0), (1000, 1000));
    assert_eq!(stage_direction(7), (1000, 1000));
}

#[test]
fn degenerate_direction_falls_back_to_random() {
    let mut ball = Ball::new(800_000, 600_000);
    ball.set_speed(1_000_000, Some((0, 0)));
    let mag2 = ball.vx * ball.vx + ball.vy * ball.vy;
    assert!(mag2 >= 980_000 * 980_000, "velocity left degenerate: {mag2}");
}

#[test]
fn resize_clamps_back_inside() {
    let mut ball = Ball::new(100_000, 100_000);
    ball.x = 99_000;
    ball.update_screen_size(50_000, 100_000);
    assert_eq!(ball.radius, 1_250);
    assert_eq!(ball.x, 48_750);
}

#[test]
fn bgm_is_eight_seconds_of_stereo() {
    let data = generate_bgm();
    assert_eq!(data.len(), 2 * 352_800);
    assert_eq!(data[0], 0);
    assert_eq!(data[1], 0);
    for k in 0..2000 {
        assert_eq!(data[2 * k], data[2 * k + 1], "channels differ at frame {k}");
    }
    assert!(data.iter().any(|v| *v != 0), "the track is silent");
}

#[test]
fn bounce_sounds_are_twelve_decaying_chimes() {
    let sounds = generate_bounce_sounds();
    assert_eq!(sounds.len(), 12);
    let expected_frames = [3528i64, 4410, 5292];
    for (i, clip) in sounds.iter().enumerate() {
        let frames = expected_frames[i / 4];
        assert_eq!(clip.len() as i64, 2 * frames);
        assert_eq!(clip[0], 0);
        assert!(clip.iter().any(|v| *v != 0), "clip {i} is silent");
        let early = clip[..clip.len() / 4].iter().map(|v| v.abs()).max().unwrap();
        let late = clip[3 * clip.len() / 4..].iter().map(|v| v.abs()).max().unwrap();
        assert!(early > late, "clip {i} does not decay: {early} vs {late}");
    }
}

#[test]
fn theme_default_matches_the_palette() {
    let t = Theme::default();
    assert_eq!((t.background.grid_color_dark.r, t.background.grid_color_dark.g,
        t.background.grid_color_dark.b), (0, 31, 86));
    assert_eq!((t.background.grid_color_light.r, t.background.grid_color_light.g,
        t.background.grid_color_light.b), (0, 48, 130));
    assert_eq!(t.background.grid_size, 80_000);
    assert_eq!((t.ball.gradient_start.r, t.ball.gradient_start.g, t.ball.gradient_start.b),
        (16, 180, 195));
    assert_eq!((t.ball.gradient_end.r, t.ball.gradient_end.g, t.ball.gradient_end.b),
        (17, 197, 140));
    assert_eq!((t.ball.outline_color.r, t.ball.outline_color.g, t.ball.outline_color.b),
        (70, 226, 213));
    assert_eq!(t.ball.radius_per_mille, 25);
    assert_eq!((t.ui.title_color.r, t.ui.title_color.g, t.ui.title_color.b), (255, 215, 0));
    assert_eq!((t.ui.subtitle_color.r, t.ui.subtitle_color.g, t.ui.subtitle_color.b),
        (255, 105, 120));
    assert_eq!((t.ui.stats_color.r, t.ui.stats_color.g, t.ui.stats_color.b), (135, 206, 235));
    assert_eq!((t.ui.background_color.r, t.ui.background_color.g, t.ui.background_color.b),
        (0, 31, 86));
}

#[test]
fn audio_params_default_matches_the_tuning() {
    let p = AudioParams::default();
    assert!(p.bgm.enabled);
    assert_eq!(p.bgm.volume_per_mille, 150);
    assert_eq!(p.bgm.chords.len(), 4);
    assert_eq!(p.bgm.chords[0], vec![130_810, 261_630, 329_630, 392_000, 493_880]);
    assert_eq!(p.bgm.chords[3], vec![196_000, 493_880, 293_660, 349_230]);
    assert_eq!(
        p.bgm.melody,
        vec![261_630, 329_630, 392_000, 493_880, 440_000, 392_000, 329_630, 293_660]
    );
    assert!(p.sfx.enabled);
    assert_eq!(p.sfx.volume_per_mille, 800);
    assert_eq!(p.sfx.bounce_freq_start, 150_000);
    assert_eq!(p.sfx.bounce_freq_end, 75_000);
    assert_eq!(p.sfx.bounce_duration_ms, 80);
}

#[test]
fn stage_config_default_is_stage_one() {
    let c = StageConfig::default();
    assert_eq!(c.speed, 1_000_000);
    assert_eq!(c.angle_range, (175, 349));
    assert!(matches!(c.motion_type, MotionType::Linear { primary_axis: Axis::Horizontal }));
}

#[test]
fn user_config_ratchets_the_last_stage() {
    let mut c = UserConfig::default();
    assert_eq!(c.language, "en");
    assert_eq!(c.last_played_stage, 1);
    c.update_last_stage(3);
    assert_eq!(c.last_played_stage, 3);
    c.update_last_stage(2);
    assert_eq!(c.last_played_stage, 3);
    c.update_last_stage(5);
    assert_eq!(c.last_played_stage, 5);
}
