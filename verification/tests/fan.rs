use govee_ble::error::{Error, NumberError};
use govee_ble::fan::{
    mqtt_h7105_power, mqtt_h7105_preset, mqtt_h7105_speed, topic, Action, FanDevice, FanId,
    H7105Fan, H7105FanState, Publication, Stage,
};
use govee_ble::text::{byte_text, equal_ignoring_case, parse_byte, same_text};

fn fan() -> H7105Fan<&'static str, u8> {
    H7105Fan::new(
        FanDevice {
            id: "AA:BB".to_string(),
            safe_id: "AABB".to_string(),
            info: 7,
        },
        "gv2mqtt/availability".to_string(),
        "origin",
    )
}

fn message(topic: &str, payload: &str) -> Publication {
    Publication {
        topic: topic.to_string(),
        payload: payload.to_string(),
    }
}

#[test]
fn announcement_of_a_fan() {
    let fan = fan();
    assert_eq!(fan.device_id(), "AA:BB");
    let config = fan.config();
    assert_eq!(config.base.availability_topic, "gv2mqtt/availability");
    assert_eq!(config.base.name, None);
    assert_eq!(config.base.device_class, None);
    assert_eq!(config.base.origin, "origin");
    assert_eq!(config.base.device, 7);
    assert_eq!(config.base.unique_id, "gv2mqtt-AABB-fan");
    assert_eq!(config.base.entity_category, None);
    assert_eq!(config.base.icon, Some("mdi:fan".to_string()));
    assert_eq!(config.command_topic, "gv2mqtt/fan/AABB/command");
    assert_eq!(config.state_topic, "gv2mqtt/fan/AABB/state");
    assert_eq!(config.percentage_command_topic, "gv2mqtt/fan/AABB/speed/command");
    assert_eq!(config.percentage_state_topic, "gv2mqtt/fan/AABB/speed/state");
    assert_eq!(config.preset_mode_command_topic, "gv2mqtt/fan/AABB/preset/command");
    assert_eq!(config.preset_mode_state_topic, "gv2mqtt/fan/AABB/preset/state");
    assert_eq!(config.preset_modes, vec!["Auto".to_string()]);
    assert_eq!(config.oscillation_state_topic, "gv2mqtt/fan/AABB/oscillation/state");
    assert_eq!(config.payload_on, "ON");
    assert_eq!(config.payload_off, "OFF");
    assert_eq!(config.payload_oscillation_on, "ON");
    assert_eq!(config.payload_oscillation_off, "OFF");
    assert_eq!(config.payload_available, "online");
    assert_eq!(config.speed_range_min, 1);
    assert_eq!(config.speed_range_max, 12);
    assert!(!config.optimistic);
}

#[test]
fn topics_name_the_fan() {
    assert_eq!(topic("x", "y/z"), "gv2mqtt/fan/x/y/z");
    assert_ne!(topic("a", "state"), topic("b", "state"));
    assert_ne!(topic("a", "state"), topic("a", "command"));
    // a name with a slash could be taken for another fan
    assert_eq!(topic("a/speed", "state"), topic("a", "speed/state"));
}

#[test]
fn state_of_a_fan() {
    let state = H7105FanState {
        speed: Some(12),
        auto: true,
        oscillating: Some(false),
    };
    assert_eq!(
        fan().notify_state(Some(true), state),
        vec![
            message("gv2mqtt/fan/AABB/state", "ON"),
            message("gv2mqtt/fan/AABB/speed/state", "12"),
            message("gv2mqtt/fan/AABB/preset/state", "Auto"),
            message("gv2mqtt/fan/AABB/oscillation/state", "OFF"),
        ]
    );
    let state = H7105FanState {
        speed: None,
        auto: false,
        oscillating: Some(true),
    };
    assert_eq!(
        fan().notify_state(Some(false), state),
        vec![
            message("gv2mqtt/fan/AABB/state", "OFF"),
            message("gv2mqtt/fan/AABB/preset/state", "None"),
            message("gv2mqtt/fan/AABB/oscillation/state", "ON"),
        ]
    );
}

#[test]
fn state_of_an_unknown_fan() {
    assert_eq!(
        fan().notify_state(None, H7105FanState::default()),
        vec![
            message("gv2mqtt/fan/AABB/state", "OFF"),
            message("gv2mqtt/fan/AABB/preset/state", "None"),
        ]
    );
}

/// What is tried for a request whose actions succeed until the one at `fails`.
fn course_until(
    step: impl Fn(Stage) -> Result<Action, Error>,
    fails: Option<Stage>,
) -> (Vec<Action>, Option<Error>) {
    let mut stage = Stage::Received;
    let mut actions = vec![];
    loop {
        match step(stage) {
            Ok(Action::Finish) => return (actions, None),
            Ok(action) => actions.push(action),
            Err(e) => return (actions, Some(e)),
        }
        stage = match stage.after(Some(stage) != fails) {
            Some(next) => next,
            None => return (actions, None),
        };
    }
}

fn course(step: impl Fn(Stage) -> Result<Action, Error>) -> (Vec<Action>, Option<Error>) {
    course_until(step, None)
}

#[test]
fn failed_actions_end_requests() {
    let all = [Action::ResolveDevice, Action::SetPower(true), Action::PollDevice];
    for (i, stage) in [Stage::Received, Stage::Resolved, Stage::Applied].iter().enumerate() {
        assert_eq!(stage.after(false), None);
        assert_eq!(
            course_until(|stage| mqtt_h7105_power("ON", stage), Some(*stage)),
            (all[..=i].to_vec(), None)
        );
    }
    // a device that is not found comes before a payload that makes no sense
    assert_eq!(
        course_until(|stage| mqtt_h7105_speed("fast", stage), Some(Stage::Received)),
        (vec![Action::ResolveDevice], None)
    );
    assert_eq!(Stage::Received.after(true), Some(Stage::Resolved));
    assert_eq!(Stage::Polled.after(true), Some(Stage::Polled));
}

#[test]
fn power_requests() {
    for (payload, on) in [("ON", true), ("OFF", false)] {
        assert_eq!(
            course(|stage| mqtt_h7105_power(payload, stage)),
            (
                vec![Action::ResolveDevice, Action::SetPower(on), Action::PollDevice],
                None
            )
        );
    }
    for payload in ["on", "", "ON "] {
        assert_eq!(
            course(|stage| mqtt_h7105_power(payload, stage)),
            (
                vec![Action::ResolveDevice],
                Some(Error::InvalidPower(payload.to_string()))
            )
        );
    }
}

#[test]
fn speed_requests() {
    for (payload, speed) in [("0", 0), ("7", 7), ("+12", 12), ("0255", 255)] {
        assert_eq!(
            course(|stage| mqtt_h7105_speed(payload, stage)),
            (
                vec![Action::ResolveDevice, Action::SetSpeed(speed), Action::PollDevice],
                None
            )
        );
    }
    for (payload, reason) in [
        ("", NumberError::Empty),
        ("+", NumberError::InvalidDigit),
        ("-1", NumberError::InvalidDigit),
        ("256", NumberError::TooLarge),
        ("1.0", NumberError::InvalidDigit),
        (" 1", NumberError::InvalidDigit),
        ("++1", NumberError::InvalidDigit),
    ] {
        assert_eq!(
            course(|stage| mqtt_h7105_speed(payload, stage)),
            (
                vec![Action::ResolveDevice],
                Some(Error::InvalidSpeed(reason))
            )
        );
    }
}

#[test]
fn preset_requests() {
    for payload in ["Auto", "auto", "AUTO"] {
        assert_eq!(
            course(|stage| mqtt_h7105_preset(payload, stage)),
            (
                vec![Action::ResolveDevice, Action::SetAuto, Action::PollDevice],
                None
            )
        );
    }
    for payload in ["Nature", "", "aut\u{f6}"] {
        assert_eq!(
            course(|stage| mqtt_h7105_preset(payload, stage)),
            (vec![], Some(Error::UnsupportedPreset(payload.to_string())))
        );
    }
}

#[test]
fn fan_ids() {
    assert_eq!(FanId::new("AA:BB".to_string()).id(), "AA:BB");
}

#[test]
fn numbers_and_names() {
    for n in 0..=255u8 {
        let text = byte_text(n);
        assert_eq!(text, n.to_string());
        assert_eq!(parse_byte(&text), Ok(n));
    }
    for (a, b) in [("Sleep", "sLEEP"), ("a", "b"), ("[", "{"), ("\u{c4}", "\u{e4}"), ("ab", "a")] {
        assert_eq!(equal_ignoring_case(a, b), a.eq_ignore_ascii_case(b));
        assert_eq!(same_text(a, b), a == b);
    }
    assert!(same_text("H7105", "H7105"));
}

#[test]
fn numbers_are_refused_as_std_does() {
    let texts = [
        "", "+", "-", "-0", "+-1", "++1", "00000000000000000001", "99999999999999999999", "1e1",
        "\u{661}", "255", "256", "300", "25x", "26x", "255x", "256x", "999x", "99x9", "1000\u{e9}",
        "2\u{e9}", "+256", "+25x", "x256", "0x10", " 1", "1 ",
    ];
    for text in texts {
        let expected = text.parse::<u8>().map_err(|e| match e.kind() {
            std::num::IntErrorKind::Empty => NumberError::Empty,
            std::num::IntErrorKind::InvalidDigit => NumberError::InvalidDigit,
            std::num::IntErrorKind::PosOverflow => NumberError::TooLarge,
            _ => unreachable!(),
        });
        assert_eq!(parse_byte(text), expected, "{text}");
    }
}
