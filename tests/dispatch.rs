use my_lib::{dispatch_host_call, reply_to_guest, Error};

#[test]
fn dispatcher_refuses_every_call() {
    let result = dispatch_host_call(7, "binding", "ns", "op", &[1, 2, 3]);
    match result {
        Err(Error::NotImplemented { binding, namespace, operation }) => {
            assert_eq!(binding, "binding");
            assert_eq!(namespace, "ns");
            assert_eq!(operation, "op");
        }
        _ => panic!("expected NotImplemented"),
    }
}

#[test]
fn dispatcher_refuses_empty_routing() {
    let result = dispatch_host_call(0, "", "", "", &[]);
    assert!(matches!(result, Err(Error::NotImplemented { .. })));
}

#[test]
fn dispatcher_refuses_unusual_routing() {
    let payload = vec![0xff; 4096];
    let result = dispatch_host_call(u64::MAX, "ü", "\0", "ops/with spaces", &payload);
    assert!(matches!(result, Err(Error::NotImplemented { .. })));
}

#[test]
fn guest_sees_not_implemented() {
    let result = reply_to_guest(1, "b", "n", "o", &[5]);
    assert_eq!(result, Err("Not implemented".to_string()));
}

#[test]
fn diagnostics_of_each_error() {
    let io = Error::IoError { path: "p".to_string(), message: "denied".to_string() };
    assert_eq!(io.diagnostic(), "denied");
    assert_eq!(Error::InstantiationError("bad".to_string()).diagnostic(), "bad");
    assert_eq!(Error::InvocationError("trap".to_string()).diagnostic(), "trap");
    assert_eq!(Error::SerializationError("codec".to_string()).diagnostic(), "codec");
    let refused = Error::NotImplemented {
        binding: "b".to_string(),
        namespace: "n".to_string(),
        operation: "o".to_string(),
    };
    assert_eq!(refused.diagnostic(), "Not implemented");
}
