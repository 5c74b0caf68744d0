use opentaws::alerts::{Alert, AlertLevel, AlertState};
use opentaws::labels::ParseError;

#[test]
pub fn strum_test() {
    let mut key = String::from("Mode 1");
    key.retain(|c| !c.is_whitespace());

    let _: Alert = key
        .parse()
        .expect(&format!("Unable to parse {} as Alert ", key));
}

#[test]
pub fn alert_state_propagates_alerts() {
    let mut alert_state = AlertState::default();
    let test_alerts = vec![(Alert::Mode3, AlertLevel::Caution)];
    for (new_alert, new_alert_level) in test_alerts.iter() {
        alert_state.insert(*new_alert, *new_alert_level);
    }

    assert_eq!(test_alerts.len(), alert_state.alerts_total_count())
}

#[test]
pub fn alert_state_usage() {
    let alts = AlertState::default();

    if alts.mode_alert_level(Alert::Mode1) == Some(AlertLevel::Caution) {
        panic!("an empty state shows no alert");
    }
    if alts.alerts_count(AlertLevel::Caution) > 0 {
        panic!("an empty state shows no caution");
    }
    for i in 0..8 {
        match (Alert::from_index(i), alts.mode_alert_level(Alert::from_index(i))) {
            (Alert::Mode1, Some(AlertLevel::Caution)) => panic!("unexpected caution"),
            (Alert::Mode1, Some(AlertLevel::Warning)) => panic!("unexpected warning"),
            _ => {}
        }
    }
}

#[test]
fn every_label_parses_to_its_kind() {
    let labels = ["FLTA", "FFAC", "PDA", "Mode1", "Mode2", "Mode3", "Mode4", "Mode5"];
    for (i, label) in labels.iter().enumerate() {
        assert_eq!(Alert::from_label(label), Some(Alert::from_index(i)));
    }
}

#[test]
fn unknown_alert_label_is_refused() {
    assert_eq!("Mode 1".parse::<Alert>(), Err(ParseError::UnknownAlert));
    assert_eq!("mode1".parse::<Alert>(), Err(ParseError::UnknownAlert));
    assert_eq!("".parse::<Alert>(), Err(ParseError::UnknownAlert));
}

#[test]
fn level_labels_ignore_case() {
    assert_eq!("warning".parse::<AlertLevel>(), Ok(AlertLevel::Warning));
    assert_eq!("Caution".parse::<AlertLevel>(), Ok(AlertLevel::Caution));
    assert_eq!("WARNING".parse::<AlertLevel>(), Ok(AlertLevel::Warning));
    assert_eq!("alert".parse::<AlertLevel>(), Err(ParseError::UnknownLevel));
    assert_eq!("cautio".parse::<AlertLevel>(), Err(ParseError::UnknownLevel));
}

#[test]
fn caution_then_warning_upgrades() {
    let c = vec![(Alert::Mode1, AlertLevel::Caution), (Alert::Mode1, AlertLevel::Warning)];
    let s = AlertState::from_candidates(&c);
    assert_eq!(s.mode_alert_level(Alert::Mode1), Some(AlertLevel::Warning));
    assert_eq!(s.nuisance_alert_level(Alert::Mode1), Some(AlertLevel::Caution));
    assert_eq!(s.alerts_total_count(), 2);
    assert_eq!(s.alerts_count(AlertLevel::Warning), 1);
    assert_eq!(s.alerts_count(AlertLevel::Caution), 0);
}

#[test]
fn warning_then_caution_keeps_warning() {
    let c = vec![(Alert::Mode1, AlertLevel::Warning), (Alert::Mode1, AlertLevel::Caution)];
    let s = AlertState::from_candidates(&c);
    assert_eq!(s.mode_alert_level(Alert::Mode1), Some(AlertLevel::Warning));
    assert_eq!(s.nuisance_alert_level(Alert::Mode1), None);
    assert_eq!(s.alerts_total_count(), 1);
}

#[test]
fn equal_levels_are_dropped() {
    let mut s = AlertState::new();
    s.insert(Alert::FLTA, AlertLevel::Caution);
    s.insert(Alert::FLTA, AlertLevel::Caution);
    assert_eq!(s.mode_alert_level(Alert::FLTA), Some(AlertLevel::Caution));
    assert_eq!(s.nuisance_alert_level(Alert::FLTA), None);
    assert_eq!(s.alerts_total_count(), 1);
}

#[test]
fn kinds_are_arbitrated_separately() {
    let c = vec![
        (Alert::Mode2, AlertLevel::Caution),
        (Alert::FLTA, AlertLevel::Warning),
        (Alert::Mode5, AlertLevel::Caution),
    ];
    let s = AlertState::from_candidates(&c);
    assert_eq!(s.alerts_count(AlertLevel::Caution), 2);
    assert_eq!(s.alerts_count(AlertLevel::Warning), 1);
    assert_eq!(s.alerts_total_count(), 3);
    assert_eq!(s.mode_alert_level(Alert::Mode1), None);
    for i in 0..8 {
        let k = Alert::from_index(i);
        assert!(!(s.mode_alert_level(k).is_some() && s.nuisance_alert_level(k).is_some()));
    }
}
