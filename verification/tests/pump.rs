use watchreload::bus::EventBus;
use watchreload::outcome::Outcome;
use watchreload::pump::{reload_message, Pump, PumpAction};

fn waiting_pump(bus: &EventBus) -> Pump {
    let mut pump = Pump::new();
    assert_eq!(pump.step(Outcome::Done, bus), PumpAction::Wait);
    pump
}

fn waiting_at(pump: &Pump) -> Option<u64> {
    match pump {
        Pump::Waiting(cursor) => Some(cursor.generation()),
        _ => None,
    }
}

#[test]
fn new_pump_asks_for_the_handshake() {
    let pump = Pump::new();
    assert_eq!(pump, Pump::Init);
    assert_eq!(pump.pending(), PumpAction::Handshake);
    assert!(!pump.is_closed());
}

#[test]
fn handshake_subscribes_at_the_current_generation() {
    let mut bus = EventBus::new();
    bus.publish();
    bus.publish();
    let mut pump = Pump::new();
    let action = pump.step(Outcome::Done, &bus);
    assert_eq!(action, PumpAction::Wait);
    assert_eq!(waiting_at(&pump), Some(2));
}

#[test]
fn failed_handshake_closes_the_pump() {
    let bus = EventBus::new();
    let mut pump = Pump::new();
    assert_eq!(pump.step(Outcome::Failed, &bus), PumpAction::Release);
    assert_eq!(pump, Pump::Closed);
    assert!(pump.is_closed());
}

#[test]
fn wake_after_publish_asks_for_one_notification() {
    let mut bus = EventBus::new();
    let mut pump = waiting_pump(&bus);
    bus.publish();
    assert_eq!(pump.step(Outcome::Done, &bus), PumpAction::Notify);
    match &pump {
        Pump::Notifying(cursor) => assert_eq!(cursor.generation(), 1),
        other => panic!("unexpected state {:?}", other),
    }
    assert_eq!(pump.step(Outcome::Done, &bus), PumpAction::Wait);
    assert_eq!(pump.step(Outcome::Done, &bus), PumpAction::Wait);
    assert_eq!(pump.step(Outcome::Done, &bus), PumpAction::Wait);
}

#[test]
fn wake_without_publish_goes_back_to_waiting() {
    let bus = EventBus::new();
    let mut pump = waiting_pump(&bus);
    assert_eq!(waiting_at(&pump), Some(0));
    assert_eq!(pump.step(Outcome::Done, &bus), PumpAction::Wait);
    assert_eq!(waiting_at(&pump), Some(0));
}

#[test]
fn pump_joining_after_publish_stays_silent() {
    let mut bus = EventBus::new();
    bus.publish();
    let mut pump = waiting_pump(&bus);
    assert_eq!(pump.step(Outcome::Done, &bus), PumpAction::Wait);
    assert_eq!(pump.step(Outcome::Done, &bus), PumpAction::Wait);
}

#[test]
fn two_publishes_give_one_notification() {
    let mut bus = EventBus::new();
    let mut pump = waiting_pump(&bus);
    bus.publish();
    bus.publish();
    let mut notifications = 0;
    let mut action = pump.step(Outcome::Done, &bus);
    for _ in 0..10 {
        if action == PumpAction::Notify {
            notifications += 1;
        }
        action = pump.step(Outcome::Done, &bus);
    }
    assert_eq!(notifications, 1);
}

#[test]
fn publish_during_send_is_notified_afterwards() {
    let mut bus = EventBus::new();
    let mut pump = waiting_pump(&bus);
    bus.publish();
    assert_eq!(pump.step(Outcome::Done, &bus), PumpAction::Notify);
    bus.publish();
    assert_eq!(pump.step(Outcome::Done, &bus), PumpAction::Wait);
    assert_eq!(pump.step(Outcome::Done, &bus), PumpAction::Notify);
    assert_eq!(pump.step(Outcome::Done, &bus), PumpAction::Wait);
    assert_eq!(pump.step(Outcome::Done, &bus), PumpAction::Wait);
}

#[test]
fn send_failure_closes_the_pump() {
    let mut bus = EventBus::new();
    let mut pump = waiting_pump(&bus);
    bus.publish();
    assert_eq!(pump.step(Outcome::Done, &bus), PumpAction::Notify);
    assert_eq!(pump.step(Outcome::Failed, &bus), PumpAction::Release);
    assert!(pump.is_closed());
}

#[test]
fn failed_wait_closes_the_pump() {
    let bus = EventBus::new();
    let mut pump = waiting_pump(&bus);
    assert_eq!(pump.step(Outcome::Failed, &bus), PumpAction::Release);
    assert_eq!(pump, Pump::Closed);
}

#[test]
fn closed_pump_stays_closed() {
    let mut bus = EventBus::new();
    let mut pump = Pump::Closed;
    assert_eq!(pump.pending(), PumpAction::Release);
    bus.publish();
    assert_eq!(pump.step(Outcome::Done, &bus), PumpAction::Release);
    assert_eq!(pump.step(Outcome::Failed, &bus), PumpAction::Release);
    assert_eq!(pump, Pump::Closed);
}

#[test]
fn closing_one_connection_leaves_the_other_waiting() {
    let mut bus = EventBus::new();
    let mut a = waiting_pump(&bus);
    let mut b = waiting_pump(&bus);
    assert_eq!(waiting_at(&b), Some(0));
    assert_eq!(a.step(Outcome::Failed, &bus), PumpAction::Release);
    assert_eq!(a, Pump::Closed);
    assert_eq!(waiting_at(&b), Some(0));
    assert_eq!(b.pending(), PumpAction::Wait);
    assert_eq!(b.step(Outcome::Done, &bus), PumpAction::Wait);
    bus.publish();
    assert_eq!(b.step(Outcome::Done, &bus), PumpAction::Notify);
    assert_eq!(a.step(Outcome::Done, &bus), PumpAction::Release);
}

#[test]
fn one_publish_reaches_every_open_connection_once() {
    let mut bus = EventBus::new();
    let mut pumps: Vec<Pump> = Vec::new();
    for _ in 0..4 {
        pumps.push(waiting_pump(&bus));
    }
    assert_eq!(pumps[3].step(Outcome::Failed, &bus), PumpAction::Release);
    bus.publish();
    let mut sent = vec![0, 0, 0, 0];
    for round in 0..6 {
        for index in [2usize, 0, 3, 1] {
            if round < index {
                continue;
            }
            let pump = &mut pumps[index];
            match pump.pending() {
                PumpAction::Wait => {
                    pump.step(Outcome::Done, &bus);
                }
                PumpAction::Notify => {
                    assert_eq!(reload_message(), "reload");
                    sent[index] += 1;
                    pump.step(Outcome::Done, &bus);
                }
                PumpAction::Release => {}
                PumpAction::Handshake => panic!("every pump was connected"),
            }
        }
    }
    assert_eq!(sent, vec![1, 1, 1, 0]);
}

#[test]
fn subscriber_leaves_and_the_bus_goes_on() {
    let mut bus = EventBus::new();
    assert_eq!(bus.generation(), 0);
    let mut pump = Pump::new();
    assert_eq!(pump.step(Outcome::Done, &bus), PumpAction::Wait);
    bus.publish();
    assert_eq!(bus.generation(), 1);
    assert_eq!(pump.step(Outcome::Done, &bus), PumpAction::Notify);
    assert_eq!(pump.step(Outcome::Failed, &bus), PumpAction::Release);
    assert!(pump.is_closed());
    bus.publish();
    assert_eq!(bus.generation(), 2);
    assert_eq!(pump.step(Outcome::Done, &bus), PumpAction::Release);
}

#[test]
fn reload_message_is_the_word_reload() {
    assert_eq!(reload_message(), "reload");
}

#[test]
fn pump_is_behind_only_while_it_owes_a_notification() {
    let mut bus = EventBus::new();
    let new = Pump::new();
    assert!(!new.is_behind(&bus));
    let mut pump = waiting_pump(&bus);
    assert!(!pump.is_behind(&bus));
    bus.publish();
    assert!(new.is_behind(&bus) == false);
    assert!(pump.is_behind(&bus));
    assert_eq!(pump.step(Outcome::Done, &bus), PumpAction::Notify);
    assert!(!pump.is_behind(&bus));
    assert_eq!(pump.step(Outcome::Done, &bus), PumpAction::Wait);
    assert!(!pump.is_behind(&bus));
    assert!(!Pump::Closed.is_behind(&bus));
}

#[test]
fn publish_during_send_leaves_the_pump_behind() {
    let mut bus = EventBus::new();
    let mut pump = waiting_pump(&bus);
    bus.publish();
    assert_eq!(pump.step(Outcome::Done, &bus), PumpAction::Notify);
    bus.publish();
    assert!(pump.is_behind(&bus));
    assert_eq!(pump.step(Outcome::Done, &bus), PumpAction::Wait);
    assert!(pump.is_behind(&bus));
    assert_eq!(pump.step(Outcome::Done, &bus), PumpAction::Notify);
    assert!(!pump.is_behind(&bus));
}
