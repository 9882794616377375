use riot_rs::event::Event;
use riot_rs::interrupt_table::{interrupt_for_peripheral, interrupt_of, table_is_well_formed, ContextInterrupt, ContextInterrupts};
use riot_rs::text::keys_are_distinct;
use riot_rs::interrupts::{AccelerometerInterruptEvent, DeviceInterrupt, InterruptError, InterruptEventKind};

#[test]
fn new_event_is_unset_and_new_set_is_set() {
    assert!(!Event::new().is_set());
    assert!(Event::new_set().is_set());
    assert!(!Event::default().is_set());
}

#[test]
fn waiting_on_a_set_event_does_not_block() {
    let mut e = Event::new_set();
    assert!(!e.wait(3));
    assert!(e.is_set());
    assert_eq!(e.set(), Vec::<u8>::new());
}

#[test]
fn set_wakes_every_waiter() {
    let mut e = Event::new();
    assert!(e.wait(1));
    assert!(e.wait(2));
    assert!(!e.is_set());
    assert_eq!(e.set(), vec![1, 2]);
    assert!(e.is_set());
    assert!(!e.wait(4));
}

#[test]
fn clear_reports_whether_the_event_was_set() {
    let mut e = Event::new_set();
    assert!(e.clear());
    assert!(!e.is_set());
    assert!(!e.clear());
    let mut f = Event::new();
    assert!(f.wait(7));
    assert!(!f.clear());
    assert_eq!(f.set(), vec![7]);
}

#[test]
fn interrupt_found_per_context() {
    let table = vec![
        ContextInterrupts {
            context: "nrf52840".to_string(),
            interrupts: vec![
                ("TWISPI0".to_string(), "SPIM0_SPIS0_TWIM0".to_string()),
                ("UARTE0".to_string(), "UARTE0_UART0".to_string()),
            ],
        },
        ContextInterrupts { context: "rp2040".to_string(), interrupts: vec![("I2C0".to_string(), "I2C0_IRQ".to_string())] },
        ContextInterrupts {
            context: "nrf5340".to_string(),
            interrupts: vec![("TWISPI0".to_string(), "SERIAL0".to_string())],
        },
    ];
    let found = interrupt_for_peripheral(&table, "TWISPI0");
    assert_eq!(found.len(), 2);
    assert_eq!(found[0].context(), "nrf52840");
    assert_eq!(found[0].interrupt(), "SPIM0_SPIS0_TWIM0");
    assert_eq!(found[1].context(), "nrf5340");
    assert_eq!(found[1].interrupt(), "SERIAL0");
    assert!(interrupt_for_peripheral(&table, "USBD").is_empty());
    assert_eq!(interrupt_of(&table[1].interrupts, "I2C0").map(|s| s.as_str()), Some("I2C0_IRQ"));
    assert_eq!(interrupt_of(&table[1].interrupts, "I2C1"), None);
}

#[test]
fn interrupt_tables_without_repeats_are_well_formed() {
    let c = ContextInterrupt { context: "c".to_string(), interrupt: "i".to_string() };
    assert_eq!((c.context(), c.interrupt()), ("c", "i"));
    let ok = vec![ContextInterrupts { context: "a".to_string(), interrupts: vec![("P".to_string(), "I".to_string())] }];
    assert!(table_is_well_formed(&ok));
    let repeated_peripheral = vec![ContextInterrupts {
        context: "a".to_string(),
        interrupts: vec![("P".to_string(), "A".to_string()), ("P".to_string(), "B".to_string())],
    }];
    assert!(!table_is_well_formed(&repeated_peripheral));
    let repeated_context = vec![
        ContextInterrupts { context: "a".to_string(), interrupts: vec![] },
        ContextInterrupts { context: "a".to_string(), interrupts: vec![] },
    ];
    assert!(!table_is_well_formed(&repeated_context));
    assert!(keys_are_distinct(&vec![("x".to_string(), 1), ("y".to_string(), 1)]));
    assert!(!keys_are_distinct(&vec![("x".to_string(), 1), ("y".to_string(), 2), ("x".to_string(), 3)]));
}

#[test]
fn interrupt_names_and_descriptions() {
    assert_eq!(DeviceInterrupt::Int0.name(), "INT0");
    assert_eq!(DeviceInterrupt::Int3.name(), "INT3");
    assert_eq!(AccelerometerInterruptEvent::DoubleTap.description(), "double tap");
    assert_eq!(InterruptEventKind::Accelerometer(AccelerometerInterruptEvent::FreeFall).description(), "free fall");
}

#[test]
fn interrupt_error_messages() {
    let e = InterruptError::UnsupportedDeviceInterrupt { interrupt: DeviceInterrupt::Int1 };
    assert_eq!(e.message(), "device interrupt `INT1` is not supported for sensor");
    let e = InterruptError::UnsupportedInterruptEventKind {
        event_kind: InterruptEventKind::Accelerometer(AccelerometerInterruptEvent::Tap),
    };
    assert_eq!(e.message(), "interrupt event `tap` is not supported for sensor");
}

#[test]
fn waiter_is_taken_once_per_signal() {
    let w = riot_rs::waiter::Waiter::new();
    assert!(!w.try_take());
    w.signal();
    let mut taken = false;
    for _ in 0..1000 {
        if w.try_take() {
            taken = true;
            break;
        }
    }
    assert!(taken);
    assert!(!w.try_take());
    w.signal();
    w.reset();
    assert!(!w.try_take());
    assert!(riot_rs::waiter::taken(Ok(true)));
    assert!(!riot_rs::waiter::taken(Err(false)));
}

#[test]
fn check_type_sizes() {
    assert_eq!(core::mem::size_of::<riot_rs::waiter::Waiter>(), core::mem::size_of::<u8>());
    assert_eq!(core::mem::align_of::<riot_rs::waiter::Waiter>(), 1);
}
