use dfplayer_control::bus::CommandBus;
use dfplayer_control::bus::CAPACITY;
use dfplayer_control::control::ControlMessages;

#[test]
fn new_bus_is_empty() {
    let mut bus = CommandBus::new();
    assert_eq!(bus.len(), 0);
    assert!(bus.is_empty());
    assert!(!bus.is_full());
    assert_eq!(bus.try_dequeue(), None);
}

#[test]
fn bus_is_first_in_first_out() {
    let mut bus = CommandBus::new();
    assert_eq!(bus.try_enqueue(ControlMessages::Track(5)), Ok(()));
    assert_eq!(bus.try_enqueue(ControlMessages::Pause), Ok(()));
    assert_eq!(bus.try_enqueue(ControlMessages::Track(6)), Ok(()));
    assert_eq!(bus.len(), 3);
    assert_eq!(bus.try_dequeue(), Some(ControlMessages::Track(5)));
    assert_eq!(bus.try_dequeue(), Some(ControlMessages::Pause));
    assert_eq!(bus.try_dequeue(), Some(ControlMessages::Track(6)));
    assert_eq!(bus.try_dequeue(), None);
}

#[test]
fn full_bus_refuses_until_drained() {
    let mut bus = CommandBus::new();
    for n in 1..=10u16 {
        assert_eq!(bus.try_enqueue(ControlMessages::Track(n)), Ok(()));
    }
    assert_eq!(bus.len(), CAPACITY);
    assert!(bus.is_full());
    assert_eq!(bus.try_enqueue(ControlMessages::Stop), Err(ControlMessages::Stop));
    assert_eq!(bus.len(), CAPACITY);
    assert_eq!(bus.try_dequeue(), Some(ControlMessages::Track(1)));
    assert!(!bus.is_full());
    assert_eq!(bus.try_enqueue(ControlMessages::Stop), Ok(()));
    assert!(bus.is_full());
    for n in 2..=10u16 {
        assert_eq!(bus.try_dequeue(), Some(ControlMessages::Track(n)));
    }
    assert_eq!(bus.try_dequeue(), Some(ControlMessages::Stop));
    assert!(bus.is_empty());
}
