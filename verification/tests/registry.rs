use chatstream::errors::StreamError;
use chatstream::registry::CancelRegistry;

#[derive(Debug, Clone, PartialEq)]
struct Handle(u32);

#[test]
fn register_and_cancel_returns_handle() {
    let mut reg: CancelRegistry<Handle> = CancelRegistry::new();
    reg.register("conv-1".to_string(), Handle(7));
    assert!(reg.contains("conv-1"));
    assert_eq!(reg.len(), 1);
    let h = reg.signal_cancel("conv-1").expect("stream should be active");
    assert_eq!(h, Handle(7));
    assert!(!reg.contains("conv-1"));
    assert_eq!(reg.len(), 0);
}

#[test]
fn cancel_is_idempotent() {
    // the first cancel succeeds, the second reports no active stream, and
    // neither corrupts the registry
    let mut reg: CancelRegistry<Handle> = CancelRegistry::new();
    reg.register("conv-1".to_string(), Handle(1));
    reg.register("conv-2".to_string(), Handle(2));
    assert!(reg.signal_cancel("conv-1").is_ok());
    match reg.signal_cancel("conv-1") {
        Err(StreamError::Registry(m)) => {
            assert_eq!(m, "No active stream found for this conversation");
        }
        other => panic!("unexpected: {:?}", other),
    }
    // the other conversation's entry is untouched
    assert!(reg.contains("conv-2"));
    assert_eq!(reg.len(), 1);
}

#[test]
fn cancel_without_stream_is_an_error_and_mutates_nothing() {
    let mut reg: CancelRegistry<Handle> = CancelRegistry::new();
    reg.register("other".to_string(), Handle(3));
    let r = reg.signal_cancel("absent");
    assert!(matches!(r, Err(StreamError::Registry(_))));
    assert_eq!(reg.len(), 1);
    assert!(reg.contains("other"));
}

#[test]
fn register_overwrites_silently() {
    let mut reg: CancelRegistry<Handle> = CancelRegistry::new();
    reg.register("conv-1".to_string(), Handle(1));
    reg.register("conv-1".to_string(), Handle(2));
    assert_eq!(reg.len(), 1);
    let h = reg.signal_cancel("conv-1").unwrap();
    assert_eq!(h, Handle(2));
}

#[test]
fn deregister_is_unconditional_and_idempotent() {
    let mut reg: CancelRegistry<Handle> = CancelRegistry::new();
    reg.register("conv-1".to_string(), Handle(1));
    reg.deregister("conv-1");
    assert!(!reg.contains("conv-1"));
    reg.deregister("conv-1");
    assert!(!reg.contains("conv-1"));
    assert_eq!(reg.len(), 0);
}
