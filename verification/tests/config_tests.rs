use explore::config::{Config, ConfigError, MOVE_SPEED_FP, SCALE, TURN_SPEED_FP};

#[test]
fn default_config_values() {
    let c = Config::default();
    assert_eq!(c.width, 800);
    assert_eq!(c.height, 600);
    assert_eq!(c.target_fps, 60);
    assert_eq!(c.tick_fp, 50);
    assert_eq!(c.move_step, 10);
    assert_eq!(c.turn_step, 100);
}

#[test]
fn checked_matches_default() {
    let c = Config::checked(800, 600, 60).unwrap();
    assert_eq!(c, Config::default());
}

#[test]
fn checked_derives_steps() {
    let c = Config::checked(1024, 768, 30).unwrap();
    assert_eq!(c.tick_fp, SCALE / 30);
    assert_eq!(c.move_step, MOVE_SPEED_FP / 30);
    assert_eq!(c.turn_step, TURN_SPEED_FP / 30);
}

#[test]
fn checked_rejects_zero_width() {
    assert_eq!(Config::checked(0, 600, 60), Err(ConfigError::ZeroWidth));
}

#[test]
fn checked_rejects_zero_height() {
    assert_eq!(Config::checked(800, 0, 60), Err(ConfigError::ZeroHeight));
}

#[test]
fn checked_rejects_zero_tick_rate() {
    assert_eq!(Config::checked(800, 600, 0), Err(ConfigError::ZeroTickRate));
}

#[test]
fn checked_rejects_oversized_screen() {
    assert_eq!(Config::checked(100_001, 600, 60), Err(ConfigError::OversizedScreen));
    assert_eq!(Config::checked(800, 100_001, 60), Err(ConfigError::OversizedScreen));
}

#[test]
fn checked_rejects_excessive_tick_rate() {
    assert_eq!(Config::checked(800, 600, 1001), Err(ConfigError::TickRateTooHigh));
}
