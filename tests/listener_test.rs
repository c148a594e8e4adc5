use serialplugin::device::ReadOutcome;
use serialplugin::listener::{
    disconnected_event, listener_config, on_signal, read_event, sanitize, ChannelPoll,
    ListenerState, ListenerStep,
};

#[test]
fn event_names_replace_separators() {
    assert_eq!(sanitize("/dev/ttyUSB0"), "-dev-ttyUSB0");
    assert_eq!(sanitize("COM3"), "COM3");
    assert_eq!(sanitize("a.b/c"), "a-b-c");
    assert_eq!(read_event(&"COM3".to_string()), "plugin-serialplugin-read-COM3");
    assert_eq!(
        disconnected_event(&"/dev/cu.usb".to_string()),
        "plugin-serialplugin-disconnected--dev-cu-usb"
    );
}

#[test]
fn listener_timing() {
    let c = listener_config(Some(50), None);
    assert_eq!((c.poll_timeout_ms, c.window_ms, c.chunk_size), (50, 50, 1024));
    let c = listener_config(None, Some(16));
    assert_eq!((c.poll_timeout_ms, c.window_ms, c.chunk_size), (100, 200, 16));
}

#[test]
fn cancel_channel_decisions() {
    let p = "COM1".to_string();
    assert!(matches!(on_signal(&p, ChannelPoll::Cancelled), Some(ListenerStep::Stop)));
    assert!(on_signal(&p, ChannelPoll::Empty).is_none());
    match on_signal(&p, ChannelPoll::SenderDropped) {
        Some(ListenerStep::Disconnect(m)) => assert_eq!(m, "Serial port COM1 disconnected!"),
        _ => panic!("expected a disconnect"),
    }
}

#[test]
fn windowed_batching() {
    let p = "COM1".to_string();
    let mut st = ListenerState::new();
    assert!(matches!(st.on_read(&p, ReadOutcome::Data(vec![1, 2]), 10, 200), ListenerStep::Continue));
    assert!(matches!(st.on_read(&p, ReadOutcome::TimedOut, 20, 200), ListenerStep::Continue));
    assert!(matches!(st.on_read(&p, ReadOutcome::Data(vec![3]), 50, 200), ListenerStep::Continue));
    assert_eq!(st.pending, vec![1, 2, 3]);
    match st.on_read(&p, ReadOutcome::Data(vec![4]), 201, 200) {
        ListenerStep::Emit(v) => assert_eq!(v, vec![1, 2, 3, 4]),
        _ => panic!("expected an emit"),
    }
    assert!(st.pending.is_empty());
    assert!(matches!(st.on_read(&p, ReadOutcome::TimedOut, 300, 200), ListenerStep::RestartWindow));
    assert!(matches!(st.on_read(&p, ReadOutcome::Data(vec![]), 300, 200), ListenerStep::RestartWindow));
}

#[test]
fn failed_read_disconnects() {
    let p = "COM1".to_string();
    let mut st = ListenerState::new();
    st.on_read(&p, ReadOutcome::Data(vec![7]), 0, 200);
    match st.on_read(&p, ReadOutcome::Failed("broken pipe".to_string()), 0, 200) {
        ListenerStep::Disconnect(m) => {
            assert_eq!(m, "Serial port COM1 disconnected due to error: broken pipe")
        }
        _ => panic!("expected a disconnect"),
    }
    assert_eq!(st.pending, vec![7]);
}
