use presence_client::log::{add_log, XmppLog};

#[test]
fn log_eviction_501_to_401() {
    let mut logs: Vec<XmppLog> = Vec::new();
    for i in 0..501u64 {
        add_log(&mut logs, "recv", &format!("entry {}", i), i);
    }
    assert_eq!(logs.len(), 401);
    assert_eq!(logs[0].data, "entry 100");
    assert_eq!(logs[400].data, "entry 500");
    assert_eq!(logs[400].timestamp, 500);
}

#[test]
fn log_keeps_up_to_capacity() {
    let mut logs: Vec<XmppLog> = Vec::new();
    for i in 0..500u64 {
        add_log(&mut logs, "sent", "x", i);
    }
    assert_eq!(logs.len(), 500);
    assert_eq!(logs[0].direction, "sent");
}
