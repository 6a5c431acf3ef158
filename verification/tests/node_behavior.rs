//! Behavioral tests for the proximity node's verified core.

use proximity_node::alarm::{
    alarm_cycle, alert_level, buzzer_pattern, led_settings, tone_compare, tone_hold_ms,
    AlertLevel, LedSettings, ToneStep,
};
use proximity_node::distance::{calculate_speed, classify_echo, RangeOutcome, Unit};
use proximity_node::fanout::{Fanout, HandoffSlot, PublishPhase, should_publish};
use proximity_node::http::{build_http_response, format_distance};
use proximity_node::responder::{
    event_of_read, request_wants_telemetry, responder_step, ConnectionEvent, ResponderAction,
    ResponderState,
};
use proximity_node::sensor::{SensorCommand, SensorPhase, HCSR04};
use proximity_node::servo::{
    frame, pulse_width_from_angle, settle_frame_count, sweep_cycle, Pulse,
};

fn max_sentinel() -> Unit {
    Unit {
        millimeters_x100: 400000,
        centimeters_x100: 40000,
        decimeters_x100: 4000,
        meters_x100: 400,
    }
}

fn zero_sentinel() -> Unit {
    Unit { millimeters_x100: 0, centimeters_x100: 0, decimeters_x100: 0, meters_x100: 0 }
}

#[test]
fn echo_outside_window_gives_max_range_sentinel() {
    // Shorter than 100 us, or longer than 18 ms: no object detected.
    assert_eq!(calculate_speed(0), max_sentinel());
    assert_eq!(calculate_speed(99), max_sentinel());
    assert_eq!(calculate_speed(18001), max_sentinel());
    assert_eq!(calculate_speed(u64::MAX), max_sentinel());
    assert_eq!(classify_echo(99), RangeOutcome::NoEcho);
    assert_eq!(classify_echo(18001), RangeOutcome::NoEcho);
}

#[test]
fn echo_window_boundaries_are_inclusive() {
    // 100 us and 18 ms themselves are accepted and derive a distance.
    assert_eq!(classify_echo(100), RangeOutcome::TooClose);
    assert_eq!(classify_echo(18000), RangeOutcome::Reading(30870));
}

#[test]
fn raw_distance_below_two_centimeters_gives_zero_sentinel() {
    // 110 us: 343 * 110 / 200 = 188 hundredths, below the 2 cm minimum.
    assert_eq!(classify_echo(110), RangeOutcome::TooClose);
    assert_eq!(calculate_speed(110), zero_sentinel());
}

#[test]
fn valid_echo_derives_all_unit_views() {
    // 500 us: 343 * 500 / 200 = 857 hundredths of a centimeter (8.57 cm).
    assert_eq!(classify_echo(500), RangeOutcome::Reading(857));
    let u = calculate_speed(500);
    assert_eq!(u.centimeters_x100, 857);
    assert_eq!(u.millimeters_x100, 8570);
    assert_eq!(u.decimeters_x100, 85);
    assert_eq!(u.meters_x100, 8);
}

#[test]
fn alert_level_thresholds() {
    // (0, 10 cm] Danger; (10 cm, 30 cm] Caution; zero or >= 30 cm Off.
    assert_eq!(alert_level(500), AlertLevel::Danger);
    assert_eq!(alert_level(1000), AlertLevel::Danger);
    assert_eq!(alert_level(1001), AlertLevel::Caution);
    assert_eq!(alert_level(3000), AlertLevel::Caution);
    assert_eq!(alert_level(3001), AlertLevel::Off);
    assert_eq!(alert_level(0), AlertLevel::Off);
    assert_eq!(alert_level(40000), AlertLevel::Off);
}

#[test]
fn pulse_width_mapping() {
    assert_eq!(pulse_width_from_angle(0), 1000);
    assert_eq!(pulse_width_from_angle(180), 2000);
    assert_eq!(pulse_width_from_angle(230), 2277);
}

#[test]
fn handoff_slot_backpressure_keeps_every_sample() {
    let mut slot = HandoffSlot::new();
    // First publish fills the empty slot.
    assert!(slot.try_publish(1234));
    // A second publish before the consume is refused and overwrites nothing.
    assert!(!slot.try_publish(555));
    // The consumer gets exactly the first sample.
    assert_eq!(slot.try_consume(), Some(1234));
    // Only now does the second publish go through.
    assert!(slot.try_publish(555));
    assert_eq!(slot.try_consume(), Some(555));
    assert_eq!(slot.try_consume(), None);
}

#[test]
fn fanout_publishes_telemetry_first_then_alarm() {
    let mut fanout = Fanout::new();
    let phase = fanout.begin_publish(857);
    assert_eq!(phase, PublishPhase::NeedTelemetry);
    let phase = fanout.publish_step(phase, 857);
    assert_eq!(phase, PublishPhase::NeedAlarm);
    assert_eq!(fanout.telemetry.value, Some(857));
    assert_eq!(fanout.alarm.value, None);
    let phase = fanout.publish_step(phase, 857);
    assert_eq!(phase, PublishPhase::Done);
    assert_eq!(fanout.alarm.value, Some(857));
}

#[test]
fn fanout_suspends_on_occupied_slot_and_discards_sentinels() {
    let mut fanout = Fanout::new();
    // A sentinel sample is discarded without publication.
    assert!(!should_publish(40000));
    assert_eq!(fanout.begin_publish(40000), PublishPhase::Done);
    assert_eq!(fanout.telemetry.value, None);
    // An occupied telemetry slot suspends the publisher: the phase repeats.
    assert!(should_publish(857));
    let phase = fanout.begin_publish(100);
    let phase = fanout.publish_step(phase, 100);
    assert_eq!(phase, PublishPhase::NeedAlarm);
    let stuck = fanout.begin_publish(857);
    // Still NeedTelemetry: the first sample has not been consumed.
    assert_eq!(fanout.publish_step(stuck, 857), PublishPhase::NeedTelemetry);
    assert_eq!(fanout.telemetry.value, Some(100));
}

#[test]
fn formatted_distance_has_two_decimals() {
    assert_eq!(format_distance(1234), "12.34");
    assert_eq!(format_distance(0), "0.00");
    assert_eq!(format_distance(1), "0.01");
    assert_eq!(format_distance(500), "5.00");
    assert_eq!(format_distance(999), "9.99");
    assert_eq!(format_distance(1000), "10.00");
    assert_eq!(format_distance(40000), "400.00");
}

#[test]
fn response_for_get_request_is_exact() {
    let response = build_http_response(1234);
    assert_eq!(
        response.as_str(),
        "HTTP/1.1 200 OK\r\nContent-Type: application/json\r\nConnection: close\r\nAccess-Control-Allow-Origin: *\r\n\r\n{\"object\": \"detected\", \"distance\": 12.34}\r\n"
    );
}

#[test]
fn get_request_earns_a_reply() {
    // The sensor published 12.34 cm; it sits in the telemetry slot.
    let mut fanout = Fanout::new();
    let phase = fanout.begin_publish(1234);
    let phase = fanout.publish_step(phase, 1234);
    let phase = fanout.publish_step(phase, 1234);
    assert_eq!(phase, PublishPhase::Done);

    let request = b"GET / HTTP/1.1\r\n\r\n";
    assert!(request_wants_telemetry(request));
    let event = event_of_read(request, request.len());
    assert_eq!(event, ConnectionEvent::GetRequest);
    let (state, action) = responder_step(ResponderState::Listening, event);
    assert_eq!(state, ResponderState::Listening);
    assert_eq!(action, ResponderAction::RespondAndClose);

    // The reply carries exactly the slot's sample, to two decimal places.
    let sample = fanout.telemetry.try_consume().unwrap();
    assert_eq!(sample, 1234);
    let response = build_http_response(sample);
    assert!(response
        .as_str()
        .ends_with("\r\n\r\n{\"object\": \"detected\", \"distance\": 12.34}\r\n"));
}

#[test]
fn non_get_request_is_closed_without_bytes() {
    let request = b"POST /data HTTP/1.1\r\n\r\n";
    assert!(!request_wants_telemetry(request));
    let event = event_of_read(request, request.len());
    assert_eq!(event, ConnectionEvent::OtherRequest);
    let (state, action) = responder_step(ResponderState::Listening, event);
    assert_eq!(state, ResponderState::Listening);
    assert_eq!(action, ResponderAction::CloseOnly);
    // A prefix shorter than GET never earns a reply either.
    assert!(!request_wants_telemetry(b"GE"));
    assert!(!request_wants_telemetry(b""));
}

#[test]
fn zero_byte_read_stops_the_responder_for_good() {
    let buf = [0u8; 16];
    let event = event_of_read(&buf, 0);
    assert_eq!(event, ConnectionEvent::PeerClosed);
    let (state, action) = responder_step(ResponderState::Listening, event);
    assert_eq!(state, ResponderState::Stopped);
    assert_eq!(action, ResponderAction::Exit);
    // No later event revives it: the liveness gap is kept deliberately.
    for event in [
        ConnectionEvent::AcceptFailed,
        ConnectionEvent::GetRequest,
        ConnectionEvent::OtherRequest,
        ConnectionEvent::PeerClosed,
        ConnectionEvent::ReadFailed,
    ] {
        let (state, action) = responder_step(ResponderState::Stopped, event);
        assert_eq!(state, ResponderState::Stopped);
        assert_eq!(action, ResponderAction::Exit);
    }
}

#[test]
fn accept_failure_is_retried() {
    let (state, action) = responder_step(ResponderState::Listening, ConnectionEvent::AcceptFailed);
    assert_eq!(state, ResponderState::Listening);
    assert_eq!(action, ResponderAction::RetryAccept);
}

#[test]
fn measurement_protocol_is_strictly_ordered() {
    let mut driver = HCSR04::new();
    assert_eq!(driver.phase, SensorPhase::Idle);
    assert_eq!(driver.advance(), SensorCommand::SettleDelayUs(10000));
    assert_eq!(driver.advance(), SensorCommand::TriggerPulseUs(10));
    assert_eq!(driver.advance(), SensorCommand::WaitEchoRise);
    assert_eq!(driver.advance(), SensorCommand::WaitEchoFall);
    assert_eq!(driver.phase, SensorPhase::EchoDone);
    let unit = driver.measure(500);
    assert_eq!(unit.centimeters_x100, 857);
    assert_eq!(driver.phase, SensorPhase::Idle);
}

#[test]
fn buzzer_pattern_alternates_two_tones_three_times() {
    // 5.00 cm: each tone held 50 + 2 * 5 = 60 ms.
    assert_eq!(tone_hold_ms(500), 60);
    // Floor semantics: 10.50 cm counts as 10 whole centimeters.
    assert_eq!(tone_hold_ms(1050), 70);
    assert_eq!(tone_compare(0xFFFF, 2000), 32);
    assert_eq!(tone_compare(0xFFFF, 5), 13107);
    let steps = buzzer_pattern(500);
    assert_eq!(steps.len(), 6);
    for (i, step) in steps.iter().enumerate() {
        let expected = if i % 2 == 0 { 32 } else { 13107 };
        assert_eq!(*step, ToneStep { compare: expected, hold_ms: 60 });
    }
}

#[test]
fn led_colors_per_level() {
    assert_eq!(
        led_settings(AlertLevel::Danger),
        LedSettings { red: 0x8000, green: 0, blue: 0 }
    );
    assert_eq!(
        led_settings(AlertLevel::Caution),
        LedSettings { red: 0x8000, green: 0, blue: 0x8000 }
    );
    assert_eq!(led_settings(AlertLevel::Off), LedSettings { red: 0, green: 0, blue: 0x8000 });
}

#[test]
fn alarm_cycle_recomputes_everything_from_the_sample() {
    let danger = alarm_cycle(500);
    assert_eq!(danger.level, AlertLevel::Danger);
    assert_eq!(danger.tones.len(), 6);
    assert_eq!(danger.led, LedSettings { red: 0x8000, green: 0, blue: 0 });
    let idle = alarm_cycle(3500);
    assert_eq!(idle.level, AlertLevel::Off);
    assert!(idle.tones.is_empty());
    assert_eq!(idle.led, LedSettings { red: 0, green: 0, blue: 0x8000 });
}

#[test]
fn sweep_cycle_plan_is_exact() {
    assert_eq!(settle_frame_count(0), 25);
    assert_eq!(settle_frame_count(1), 50);
    let out = Pulse { high_us: 2277, low_us: 17723 };
    let neutral = Pulse { high_us: 1500, low_us: 18500 };
    let back = Pulse { high_us: 1000, low_us: 19000 };
    assert_eq!(frame(2277), out);
    let plan = sweep_cycle();
    assert_eq!(plan.len(), 125);
    for (i, pulse) in plan.iter().enumerate() {
        let expected = if i < 25 {
            out
        } else if i < 50 {
            neutral
        } else if i < 75 {
            back
        } else {
            neutral
        };
        assert_eq!(*pulse, expected, "frame {i}");
    }
}

#[test]
fn response_fits_the_bounded_buffer() {
    // The longest printable distance still leaves the heapless buffer with
    // spare capacity; assembly cannot have truncated anything.
    let response = build_http_response(40000);
    let text: &heapless::String<256> = &response;
    assert!(text.len() <= 256);
    assert!(text.as_str().ends_with("{\"object\": \"detected\", \"distance\": 400.00}\r\n"));
}
