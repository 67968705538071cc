use qendercore_mqtt_adapter::double::Double;
use qendercore_mqtt_adapter::model::{
    DailyScheduleConfig, QcData, Readings, Schedule, ScheduleMode, SCHEDULE_COUNT,
};

fn config(schedules: Vec<Schedule>) -> DailyScheduleConfig {
    DailyScheduleConfig {
        state_enabled: true,
        force_charge_current: Double::from_integer(100),
        force_discharge_current: Double::from_integer(48),
        min_soc: 15,
        max_soc: 100,
        schedules,
    }
}

#[test]
fn modes_have_names_and_numbers() {
    for (mode, name, value) in [
        (ScheduleMode::Disable, "Disable", 0u8),
        (ScheduleMode::ForcedCharge, "Forced Charge", 1),
        (ScheduleMode::ForcedDischarge, "Forced Discharge", 2),
    ] {
        assert_eq!(mode.display_name(), name);
        assert_eq!(ScheduleMode::from_display_name(name).unwrap(), mode);
        assert_eq!(mode.as_api_int(), value);
        assert_eq!(u8::from(mode), value);
        assert_eq!(ScheduleMode::try_from(value).unwrap(), mode);
    }
    assert_eq!(ScheduleMode::all().len(), 3);
    assert_eq!(
        ScheduleMode::from_display_name("disable").unwrap_err().message(),
        "invalid state: unknown schedule mode display name: disable"
    );
    assert_eq!(
        ScheduleMode::try_from(3).unwrap_err().message(),
        "invalid state: unknown schedule mode value: 3"
    );
}

#[test]
fn ensure_slot_fills_up_with_disabled_slots() {
    let first = Schedule {
        mode: ScheduleMode::ForcedCharge,
        start_time: "02:00:00".to_string(),
        end_time: "05:00:00".to_string(),
    };
    let mut short = config(vec![first.clone()]);
    short.ensure_slot(3).unwrap();
    assert_eq!(short.schedules, vec![first.clone(), Schedule::disabled(), Schedule::disabled()]);
    short.ensure_slot(1).unwrap();
    assert_eq!(short.schedules.len(), 3);
    assert_eq!(short.clone(), short);
    for slot in [0, SCHEDULE_COUNT + 1] {
        let error = short.ensure_slot(slot).unwrap_err();
        assert_eq!(
            error.message(),
            format!("invalid state: schedule slot {slot} out of range 1..=5")
        );
    }
    assert_eq!(short.schedules.len(), 3);
}

#[test]
fn readings_keep_the_last_value_of_a_name() {
    let mut readings = Readings::new();
    assert!(readings.get("a").is_none());
    readings.insert("a".to_string(), Double::parse("1.5").unwrap());
    readings.insert("b".to_string(), Double::from_integer(2));
    readings.insert("a".to_string(), Double::from_integer(3));
    assert_eq!(readings.get("a").unwrap().to_bits(), 3.0f64.to_bits());
    assert_eq!(readings.get("b").unwrap().to_bits(), 2.0f64.to_bits());
    for name in ["ab", "Z", "", "\u{e4}", "aa"] {
        readings.insert(name.to_string(), Double::from_integer(0));
    }
    assert_eq!(readings.names(), ["", "Z", "a", "aa", "ab", "b", "\u{e4}"]);
    assert!(Readings::new().names().is_empty());
    let mut data = QcData::default();
    data.status = readings;
    let copy = data.clone();
    assert_eq!(copy.status.get("a").unwrap().to_bits(), 3.0f64.to_bits());
    assert!(copy.energy.get("a").is_none());
}
