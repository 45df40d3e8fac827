use envnode::link::{
    convert_certificate, link_auth, wifi, AccessPoint, AuthChoice, Config, LinkError,
};
use envnode::payload::{
    classify_inbound, decode_payload, encode_reading, push_decimal, reading_text, Inbound,
    MqttMessage, Reading,
};
use envnode::retry::{RetryPolicy, RetryStep};
use envnode::supervisor::{Action, Event, Fault, Phase, Supervisor};

fn reading(t: u32, h: u32, p: u32, g: u32) -> Reading {
    Reading { temperature: t, humidity: h, pressure: p, gas_resistance: g }
}

/// Mirrors what the driver does with a sensor value: truncation toward zero.
fn truncated(t: f32, h: f32, p: f32, g: f32) -> Reading {
    reading(t as u32, h as u32, p as u32, g as u32)
}

/// Drives a fresh supervisor through startup with the given creation outcomes.
fn started(outcomes: &[bool]) -> (Supervisor, Action) {
    let (mut s, mut a) = Supervisor::start(RetryPolicy::standard());
    for ok in outcomes {
        assert_eq!(a, Action::CreateSession);
        a = s.handle(Event::SessionCreated { ok: *ok });
        if a == (Action::Sleep { ms: 5000 }) {
            a = s.handle(Event::Slept);
        }
    }
    (s, a)
}

/// A supervisor in steady state, about to sleep out the period.
fn steady() -> Supervisor {
    let (mut s, a) = started(&[true]);
    assert_eq!(a, Action::Subscribe);
    let a = s.handle(Event::Subscribed { ok: true });
    assert_eq!(a, Action::Sleep { ms: 5000 });
    assert_eq!(s.phase(), Phase::Waiting);
    s
}

#[test]
fn round_trip_truncates_toward_zero() {
    let r = truncated(21.7, 55.3, 1013.2, 12000.0);
    let payload = encode_reading(&r);
    assert_eq!(payload, b"{\"message\":\"21, 55, 1013, 12000\"}".to_vec());
    let text = decode_payload(&payload).unwrap();
    assert_eq!(String::from_utf8(text).unwrap(), "21, 55, 1013, 12000");
}

#[test]
fn reading_text_exact() {
    assert_eq!(reading_text(&reading(20, 50, 1000, 10000)), b"20, 50, 1000, 10000".to_vec());
    assert_eq!(reading_text(&reading(0, 0, 0, 0)), b"0, 0, 0, 0".to_vec());
}

#[test]
fn decimal_edges() {
    let mut out: Vec<u8> = b"x".to_vec();
    push_decimal(&mut out, u32::MAX);
    assert_eq!(out, b"x4294967295".to_vec());
    let mut zero: Vec<u8> = Vec::new();
    push_decimal(&mut zero, 0);
    assert_eq!(zero, b"0".to_vec());
    let mut ten: Vec<u8> = Vec::new();
    push_decimal(&mut ten, 10);
    assert_eq!(ten, b"10".to_vec());
}

#[test]
fn malformed_payload_is_dropped() {
    assert_eq!(decode_payload(b"{not json"), None);
    assert!(matches!(classify_inbound(b"{not json", None), Inbound::Malformed));
    // the cycle is untouched by inbound traffic
    let mut s = steady();
    assert_eq!(s.handle(Event::Slept), Action::CheckLink);
    assert_eq!(s.phase(), Phase::CheckingLink);
}

#[test]
fn decode_refuses_other_shapes() {
    assert_eq!(decode_payload(b""), None);
    assert_eq!(decode_payload(b"{\"message\":\"a\"b\"}"), None);
    assert_eq!(decode_payload(b"{\"message\":\"a\\b\"}"), None);
    assert_eq!(decode_payload(b"{\"msg\":\"abcde\"}"), None);
    assert_eq!(decode_payload(b"{\"message\":\"abc\"]"), None);
    assert_eq!(decode_payload(b"{\"message\":\"\"}"), Some(Vec::new()));
}

#[test]
fn inbound_outcomes() {
    assert!(matches!(classify_inbound(b"", None), Inbound::Empty));
    let m = MqttMessage { message: String::from("hi") };
    match classify_inbound(b"{\"message\":\"hi\"}", Some(m)) {
        Inbound::Received { message } => assert_eq!(message.message, "hi"),
        other => panic!("unexpected {:?}", other),
    }
}

#[test]
fn retry_policy_steps() {
    let p = RetryPolicy::standard();
    assert_eq!(p.max_attempts, 3);
    assert_eq!(p.delay_ms, 5000);
    assert_eq!(p.after_attempt(1, true), RetryStep::Done);
    assert_eq!(p.after_attempt(1, false), RetryStep::Retry { next_attempt: 2, delay_ms: 5000 });
    assert_eq!(p.after_attempt(3, false), RetryStep::Exhausted { attempts: 3 });
}

#[test]
fn creation_succeeds_after_failures() {
    for n in 0..3 {
        let mut outcomes = vec![false; n];
        outcomes.push(true);
        let (s, a) = started(&outcomes);
        assert_eq!(a, Action::Subscribe);
        assert_eq!(s.phase(), Phase::Subscribing { attempt: 1 });
    }
}

#[test]
fn creation_exhausts_after_three_attempts() {
    let (mut s, mut a) = Supervisor::start(RetryPolicy::standard());
    let mut attempts = 0;
    let mut sleeps = 0;
    while a == Action::CreateSession {
        attempts += 1;
        a = s.handle(Event::SessionCreated { ok: false });
        assert_eq!(a, Action::Sleep { ms: 5000 });
        sleeps += 1;
        a = s.handle(Event::Slept);
    }
    assert_eq!(attempts, 3);
    assert_eq!(sleeps, 3);
    assert_eq!(a, Action::Abort { fault: Fault::SessionExhausted { attempts: 3 } });
    assert_eq!(s.phase(), Phase::Halted);
    assert_eq!(s.handle(Event::SessionCreated { ok: true }), Action::Nothing);
}

#[test]
fn subscription_exhaustion_is_not_fatal() {
    let (mut s, a) = started(&[true]);
    assert_eq!(a, Action::Subscribe);
    for _ in 0..2 {
        assert_eq!(s.handle(Event::Subscribed { ok: false }), Action::Sleep { ms: 5000 });
        assert_eq!(s.handle(Event::Slept), Action::Subscribe);
    }
    assert_eq!(s.handle(Event::Subscribed { ok: false }), Action::Sleep { ms: 5000 });
    assert_eq!(s.phase(), Phase::SubscribeExhausted);
    assert_eq!(s.handle(Event::Slept), Action::Sleep { ms: 5000 });
    assert_eq!(s.phase(), Phase::Waiting);
    assert!(!s.subscribed);
}

#[test]
fn unsubscribed_cycle_subscribes_again() {
    let (mut s, _) = started(&[true]);
    for _ in 0..2 {
        s.handle(Event::Subscribed { ok: false });
        s.handle(Event::Slept);
    }
    s.handle(Event::Subscribed { ok: false });
    s.handle(Event::Slept);
    // first iteration: the subscription is asked for again and fails
    assert_eq!(s.handle(Event::Slept), Action::Subscribe);
    assert_eq!(s.handle(Event::Subscribed { ok: false }), Action::CheckLink);
    assert_eq!(s.handle(Event::LinkStatus { connected: true }), Action::Measure);
    let r = reading(1, 2, 3, 4);
    assert_eq!(s.handle(Event::Measured { reading: r }), Action::Publish { reading: r });
    assert_eq!(s.handle(Event::Published { ok: true }), Action::Sleep { ms: 5000 });
    // next iteration: it succeeds, and later iterations no longer ask
    assert_eq!(s.handle(Event::Slept), Action::Subscribe);
    assert_eq!(s.handle(Event::Subscribed { ok: true }), Action::CheckLink);
    assert!(s.subscribed);
    s.handle(Event::LinkStatus { connected: true });
    s.handle(Event::Measured { reading: r });
    s.handle(Event::Published { ok: true });
    assert_eq!(s.handle(Event::Slept), Action::CheckLink);
}

#[test]
fn connected_cycle_publishes_and_repeats() {
    let mut s = steady();
    let r = reading(20, 50, 1000, 10000);
    for _ in 0..2 {
        assert_eq!(s.handle(Event::Slept), Action::CheckLink);
        assert_eq!(s.handle(Event::LinkStatus { connected: true }), Action::Measure);
        assert_eq!(s.handle(Event::Measured { reading: r }), Action::Publish { reading: r });
        assert_eq!(
            encode_reading(&r),
            b"{\"message\":\"20, 50, 1000, 10000\"}".to_vec()
        );
        assert_eq!(s.handle(Event::Published { ok: true }), Action::Sleep { ms: 5000 });
        assert_eq!(s.phase(), Phase::Waiting);
    }
}

#[test]
fn link_down_enters_recovery_without_measuring() {
    let mut s = steady();
    assert_eq!(s.handle(Event::Slept), Action::CheckLink);
    let a = s.handle(Event::LinkStatus { connected: false });
    assert_eq!(a, Action::Connect);
    assert_eq!(s.phase(), Phase::RecoverConnecting);
    // a stray sensor event changes nothing while recovering
    assert_eq!(s.handle(Event::Measured { reading: reading(1, 2, 3, 4) }), Action::Nothing);
    assert_eq!(s.phase(), Phase::RecoverConnecting);
}

#[test]
fn publish_failure_enters_recovery() {
    let mut s = steady();
    s.handle(Event::Slept);
    s.handle(Event::LinkStatus { connected: true });
    s.handle(Event::Measured { reading: reading(1, 2, 3, 4) });
    assert_eq!(s.handle(Event::Published { ok: false }), Action::CheckLink);
    assert_eq!(s.phase(), Phase::RecoverChecking);
}

#[test]
fn recovery_sequence() {
    let mut s = steady();
    s.handle(Event::Slept);
    assert_eq!(s.handle(Event::LinkStatus { connected: false }), Action::Connect);
    assert_eq!(s.handle(Event::Connected { ok: false }), Action::Sleep { ms: 10000 });
    assert_eq!(s.handle(Event::Slept), Action::CheckLink);
    assert_eq!(s.handle(Event::LinkStatus { connected: false }), Action::Connect);
    assert_eq!(s.handle(Event::Connected { ok: true }), Action::CheckLink);
    assert_eq!(s.handle(Event::LinkStatus { connected: true }), Action::Sleep { ms: 10000 });
    assert_eq!(s.phase(), Phase::Settling);
    assert_eq!(s.handle(Event::Slept), Action::Subscribe);
    assert_eq!(s.handle(Event::Subscribed { ok: true }), Action::Sleep { ms: 5000 });
    assert_eq!(s.phase(), Phase::Waiting);
}

#[test]
fn failed_resubscribe_is_fatal() {
    let mut s = steady();
    s.handle(Event::Slept);
    s.handle(Event::LinkStatus { connected: true });
    s.handle(Event::Measured { reading: reading(1, 2, 3, 4) });
    s.handle(Event::Published { ok: false });
    s.handle(Event::LinkStatus { connected: true });
    s.handle(Event::Slept);
    assert_eq!(
        s.handle(Event::Subscribed { ok: false }),
        Action::Abort { fault: Fault::ResubscribeFailed }
    );
    assert_eq!(s.phase(), Phase::Halted);
}

#[test]
fn sensor_fault_is_fatal() {
    let mut s = steady();
    s.handle(Event::Slept);
    s.handle(Event::LinkStatus { connected: true });
    assert_eq!(s.handle(Event::MeasureFailed), Action::Abort { fault: Fault::SensorFault });
    assert_eq!(s.phase(), Phase::Halted);
}

fn ap(name: &str, channel: u8) -> AccessPoint {
    AccessPoint { ssid: String::from(name), channel }
}

#[test]
fn wifi_settings() {
    let scanned = vec![ap("other", 1), ap("home", 6), ap("home", 11)];
    let s = wifi(&String::from("home"), &String::from("pw"), &scanned).unwrap();
    assert_eq!(s.auth, AuthChoice::Wpa2Personal);
    assert_eq!(s.channel, Some(6));
    let open = wifi(&String::from("cafe"), &String::new(), &scanned).unwrap();
    assert_eq!(open.auth, AuthChoice::Open);
    assert_eq!(open.channel, None);
    assert_eq!(wifi(&String::new(), &String::from("pw"), &scanned), Err(LinkError::MissingSsid));
}

#[test]
fn auth_is_decided_before_scanning() {
    assert_eq!(link_auth(&String::new(), &String::from("pw")), Err(LinkError::MissingSsid));
    assert_eq!(link_auth(&String::from("home"), &String::new()), Ok(AuthChoice::Open));
    assert_eq!(
        link_auth(&String::from("home"), &String::from("pw")),
        Ok(AuthChoice::Wpa2Personal)
    );
}

#[test]
fn certificates_are_nul_terminated() {
    assert_eq!(convert_certificate(b"PEM".to_vec()), b"PEM\0".to_vec());
    assert_eq!(convert_certificate(Vec::new()), vec![0u8]);
    let c = Config::new(
        String::from("net"),
        String::from("pw"),
        String::from("node"),
        b"ca".to_vec(),
        b"crt".to_vec(),
        b"key".to_vec(),
        String::from("mqtts://broker:8883"),
        String::from("in"),
        String::from("out"),
    );
    assert_eq!(c.server_cert, b"ca\0".to_vec());
    assert_eq!(c.client_cert, b"crt\0".to_vec());
    assert_eq!(c.private_key, b"key\0".to_vec());
    assert_eq!(c.sub_topic, "in");
    assert_eq!(c.pub_topic, "out");
}
