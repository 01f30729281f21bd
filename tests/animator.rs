use mqtt_led::channel::{Inbox, CHANNEL_CAPACITY};
use mqtt_led::light::Light;
use mqtt_led::render::{get_red, lit_frame, render, AnimatorEvent, Rgb, COMMAND_HOLD_MS};
use mqtt_led::status::{Ready, LEDS};

const OFF: Rgb = Rgb { r: 0, g: 0, b: 0 };

#[test]
fn transport_connected_milestone_sizes() {
    let r = Ready::tcp();
    assert_eq!(r.enlight, 25);
    assert_eq!(r.blink, 12);
    assert_eq!(r.blink_wait_ms, 100);
    assert_eq!(r.bright_threshold(), 37);
}

#[test]
fn address_acquired_milestone_sizes() {
    let r = Ready::ip();
    assert_eq!(r.enlight, 12);
    assert_eq!(r.blink, 12);
    assert_eq!(r.blink_wait_ms, 100);
    assert_eq!(r.bright_threshold(), 24);
}

#[test]
fn milestone_blink_lights_37_of_50() {
    let phases = render(&AnimatorEvent::Status(Ready::tcp()));
    assert_eq!(phases.len(), 24);
    let bright = &phases[0].frame;
    assert_eq!(bright.len(), LEDS);
    let lit = bright.iter().filter(|p| **p != OFF).count();
    assert_eq!(lit, 37);
    for (i, p) in bright.iter().enumerate() {
        if i < 37 {
            assert_eq!(*p, Rgb { r: 128, g: 0, b: 0 });
        } else {
            assert_eq!(*p, OFF);
        }
    }
    assert!(phases[1].frame.iter().all(|p| *p == OFF));
    assert_eq!(phases[2].frame, phases[0].frame);
    assert!(phases.iter().all(|ph| ph.hold_ms == 100));
}

#[test]
fn command_lights_the_whole_strip() {
    let phases = render(&AnimatorEvent::Command(Light::get_on(2)));
    assert_eq!(phases.len(), 1);
    assert_eq!(phases[0].hold_ms, COMMAND_HOLD_MS);
    assert_eq!(phases[0].hold_ms, 2000);
    assert_eq!(phases[0].frame.len(), 50);
    assert!(phases[0].frame.iter().all(|p| *p == Rgb { r: 128, g: 0, b: 0 }));
    let other = render(&AnimatorEvent::Command(Light::get_off(9)));
    assert_eq!(other[0].frame, phases[0].frame);
}

#[test]
fn frame_applies_gamma_then_brightness() {
    let f = lit_frame(1, 128, 255);
    assert_eq!(f[0], Rgb { r: 37, g: 0, b: 0 });
    assert_eq!(f[1], OFF);
    let g = lit_frame(2, 200, 128);
    assert_eq!(g[0], Rgb { r: 65, g: 0, b: 0 });
    assert_eq!(g[2], OFF);
    let full = lit_frame(LEDS, 255, 255);
    assert!(full.iter().all(|p| *p == Rgb { r: 255, g: 0, b: 0 }));
    let none = lit_frame(0, 255, 255);
    assert!(none.iter().all(|p| *p == OFF));
}

#[test]
fn fourth_send_waits_and_keeps_the_first_three() {
    let mut inbox = Inbox::new();
    let a = Light::get_on(1);
    let b = Light::get_on(2);
    let c = Light::get_off(3);
    let d = Light::get_on(4);
    assert_eq!(CHANNEL_CAPACITY, 3);
    assert_eq!(inbox.send_command(a), Ok(()));
    assert_eq!(inbox.send_command(b), Ok(()));
    assert_eq!(inbox.send_command(c), Ok(()));
    assert_eq!(inbox.send_command(d), Err(d));
    assert_eq!(inbox.next_event(), Some(AnimatorEvent::Command(a)));
    assert_eq!(inbox.send_command(d), Ok(()));
    assert_eq!(inbox.next_event(), Some(AnimatorEvent::Command(b)));
    assert_eq!(inbox.next_event(), Some(AnimatorEvent::Command(c)));
    assert_eq!(inbox.next_event(), Some(AnimatorEvent::Command(d)));
    assert_eq!(inbox.next_event(), None);
}

#[test]
fn status_channel_also_pushes_back() {
    let mut inbox = Inbox::new();
    for _ in 0..3 {
        assert_eq!(inbox.send_status(Ready::ip()), Ok(()));
    }
    assert_eq!(inbox.send_status(Ready::tcp()), Err(Ready::tcp()));
    assert_eq!(inbox.next_event(), Some(AnimatorEvent::Status(Ready::ip())));
}

#[test]
fn channels_take_turns_when_both_hold_items() {
    let mut inbox = Inbox::new();
    let a = Light::get_on(1);
    let b = Light::get_on(2);
    inbox.send_command(a).unwrap();
    inbox.send_command(b).unwrap();
    inbox.send_status(Ready::ip()).unwrap();
    inbox.send_status(Ready::tcp()).unwrap();
    assert_eq!(inbox.next_event(), Some(AnimatorEvent::Command(a)));
    assert_eq!(inbox.next_event(), Some(AnimatorEvent::Status(Ready::ip())));
    assert_eq!(inbox.next_event(), Some(AnimatorEvent::Command(b)));
    assert_eq!(inbox.next_event(), Some(AnimatorEvent::Status(Ready::tcp())));
    assert_eq!(inbox.next_event(), None);
}

#[test]
fn empty_inbox_has_nothing() {
    let mut inbox = Inbox::new();
    assert_eq!(inbox.next_event(), None);
    inbox.send_status(Ready::tcp()).unwrap();
    assert_eq!(inbox.next_event(), Some(AnimatorEvent::Status(Ready::tcp())));
}

#[test]
fn red_keeps_its_level_and_no_other_channel() {
    assert_eq!(get_red(200), Rgb { r: 200, g: 0, b: 0 });
    assert_eq!(get_red(0), OFF);
    assert_eq!(get_red(255), Rgb { r: 255, g: 0, b: 0 });
}
