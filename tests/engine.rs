use opentaws::alerts::{Alert, AlertLevel};
use opentaws::detector::{AlertSystem, Mode4};
use opentaws::engine::{ConfigError, TAWS};
use opentaws::envelope::Band;
use opentaws::types::{AircraftState, ModeConfig, TAWSConfig};

fn sample(height: i64, climb_rate: i64) -> AircraftState {
    AircraftState { altitude_ground: height, climb_rate, ..Default::default() }
}

fn engine() -> TAWS {
    TAWS::new(TAWSConfig::default()).unwrap()
}

fn safe_band_config() -> TAWSConfig {
    let mut config = TAWSConfig::default();
    config.modes[Alert::Mode1.index()] = ModeConfig {
        arm_min_ft: 0,
        arm_max_ft: 2450,
        caution: vec![
            Band { lo_ft: 0, hi_ft: 499, rate_lo_fpm: 0, rate_hi_fpm: 0 },
            Band { lo_ft: 1001, hi_ft: 2450, rate_lo_fpm: 0, rate_hi_fpm: 0 },
        ],
        warning: vec![],
        margin_fpm: 0,
    };
    config
}

#[test]
fn safe_height_band_is_quiet() {
    let mut taws = TAWS::new(safe_band_config()).unwrap();
    for h in [500, 750, 1000] {
        let r = taws.process(&sample(h, -3000));
        assert_eq!(r.mode_alert_level(Alert::Mode1), None);
        assert_eq!(r.nuisance_alert_level(Alert::Mode1), None);
    }
    let r = taws.process(&sample(499, -3000));
    assert_eq!(r.mode_alert_level(Alert::Mode1), Some(AlertLevel::Caution));
}

#[test]
fn single_caution_is_shown_alone() {
    let mut taws = engine();
    let r = taws.process(&sample(1000, -3000));
    assert!(taws.is_armed(Alert::Mode1));
    assert!(!taws.is_inhibited(Alert::Mode1));
    assert_eq!(r.mode_alert_level(Alert::Mode1), Some(AlertLevel::Caution));
    assert_eq!(r.nuisance_alert_level(Alert::Mode1), None);
    assert_eq!(r.alerts_total_count(), 1);
    assert_eq!(r.alerts_count(AlertLevel::Caution), 1);
}

#[test]
fn both_regions_upgrade_to_warning() {
    let mut taws = engine();
    let r = taws.process(&sample(1000, -4000));
    assert_eq!(r.mode_alert_level(Alert::Mode1), Some(AlertLevel::Warning));
    assert_eq!(r.nuisance_alert_level(Alert::Mode1), Some(AlertLevel::Caution));
    assert_eq!(r.alerts_total_count(), 2);
}

#[test]
fn outside_envelope_is_quiet() {
    let mut taws = engine();
    let r = taws.process(&sample(1000, -2000));
    assert_eq!(r.alerts_total_count(), 0);
    let r = taws.process(&sample(1000, 500));
    assert_eq!(r.alerts_total_count(), 0);
}

#[test]
fn envelope_boundary_counts_as_inside() {
    // At the lower end of the caution line the limit is exactly 1560 ft/min.
    let mut taws = engine();
    let r = taws.process(&sample(10, -1560));
    assert_eq!(r.mode_alert_level(Alert::Mode1), Some(AlertLevel::Caution));
    let mut taws = engine();
    let r = taws.process(&sample(10, -1559));
    assert_eq!(r.mode_alert_level(Alert::Mode1), None);
}

#[test]
fn inhibited_detector_is_silent() {
    let mut taws = engine();
    taws.inhibit(Alert::Mode1);
    assert!(taws.is_inhibited(Alert::Mode1));
    let r = taws.process(&sample(1000, -4000));
    assert_eq!(r.mode_alert_level(Alert::Mode1), None);
    assert_eq!(r.nuisance_alert_level(Alert::Mode1), None);
    assert!(taws.is_armed(Alert::Mode1));
    taws.uninhibit(Alert::Mode1);
    let r = taws.process(&sample(1000, -4000));
    assert_eq!(r.mode_alert_level(Alert::Mode1), Some(AlertLevel::Warning));
}

#[test]
fn disarmed_detector_is_silent() {
    let mut taws = engine();
    let r = taws.process(&sample(3000, -9000));
    assert!(!taws.is_armed(Alert::Mode1));
    assert_eq!(r.alerts_total_count(), 0);
}

#[test]
fn alert_holds_within_margin() {
    let mut taws = engine();
    let r = taws.process(&sample(1000, -3000));
    assert_eq!(r.mode_alert_level(Alert::Mode1), Some(AlertLevel::Caution));
    // Below the caution line, but within the 100 ft/min margin.
    let r = taws.process(&sample(1000, -2900));
    assert_eq!(r.mode_alert_level(Alert::Mode1), Some(AlertLevel::Caution));
    // Beyond the margin: the alert clears.
    let r = taws.process(&sample(1000, -2800));
    assert_eq!(r.mode_alert_level(Alert::Mode1), None);
    // Once cleared, the plain line applies again.
    let r = taws.process(&sample(1000, -2900));
    assert_eq!(r.mode_alert_level(Alert::Mode1), None);
}

#[test]
fn default_config_values() {
    let config = TAWSConfig::default();
    assert_eq!(config.max_climbrate, 700);
    assert_eq!(config.max_climbrate_change, 100);
    assert_eq!(config.modes.len(), 8);
    assert!(config.is_valid());
}

#[test]
fn invalid_config_is_refused() {
    let mut config = TAWSConfig::default();
    config.modes.pop();
    assert!(matches!(TAWS::new(config), Err(ConfigError::Invalid)));

    let mut config = TAWSConfig::default();
    config.modes[0].caution.push(Band { lo_ft: 100, hi_ft: 100, rate_lo_fpm: 0, rate_hi_fpm: 0 });
    assert!(matches!(TAWS::new(config), Err(ConfigError::Invalid)));

    let mut config = TAWSConfig::default();
    config.max_climbrate = 0;
    assert!(matches!(TAWS::new(config), Err(ConfigError::Invalid)));

    let mut config = TAWSConfig::default();
    config.modes[3].margin_fpm = -1;
    assert!(matches!(TAWS::new(config), Err(ConfigError::Invalid)));
}

#[test]
fn mode_4_is_never_armed() {
    let mut m = Mode4::new();
    assert!(!m.is_armed());
    assert!(!m.is_inhibited());
    m.inhibit();
    assert!(m.is_inhibited());
    assert_eq!(m.process(&sample(100, -5000)), None);
    m.uninhibit();
    assert!(!m.is_inhibited());

    let mut taws = engine();
    let r = taws.process(&sample(100, -5000));
    assert!(!taws.is_armed(Alert::Mode4));
    assert_eq!(r.mode_alert_level(Alert::Mode4), None);
}

#[test]
fn default_excessive_descent_bands() {
    let config = TAWSConfig::default();
    let m = &config.modes[Alert::Mode1.index()];
    assert_eq!(m.arm_min_ft, 0);
    assert_eq!(m.arm_max_ft, 2450);
    assert_eq!(m.caution, vec![Band { lo_ft: 10, hi_ft: 2450, rate_lo_fpm: 1560, rate_hi_fpm: 5000 }]);
    assert_eq!(m.warning, vec![Band { lo_ft: 10, hi_ft: 2450, rate_lo_fpm: 1600, rate_hi_fpm: 7000 }]);
    assert_eq!(m.margin_fpm, 100);
    for i in 0..8 {
        if i != Alert::Mode1.index() {
            let m = &config.modes[i];
            assert!(m.arm_min_ft > m.arm_max_ft);
            assert!(m.caution.is_empty() && m.warning.is_empty());
        }
    }
}
