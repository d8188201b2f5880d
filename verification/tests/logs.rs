use stream_agent::log_buffer::{LogBuffer, DEFAULT_MAX_LINES};

fn lines(from: usize, to: usize) -> Vec<String> {
    (from..to).map(|i| format!("line {}", i)).collect()
}

#[test]
fn a_new_buffer_knows_no_component() {
    let buffer = LogBuffer::new();
    assert!(buffer.get("relay").is_none());
    assert!(buffer.get_last("relay", 10).is_empty());
}

#[test]
fn lines_are_kept_by_component_in_order() {
    let mut buffer = LogBuffer::new();
    buffer.append("relay".to_string(), "one".to_string());
    buffer.append("tunnel".to_string(), "uno".to_string());
    buffer.append("relay".to_string(), "two".to_string());
    assert_eq!(*buffer.get("relay").unwrap(), vec!["one", "two"]);
    assert_eq!(*buffer.get("tunnel").unwrap(), vec!["uno"]);
    assert!(buffer.get("camera").is_none());
}

#[test]
fn get_last_returns_the_newest_lines_oldest_first() {
    let mut buffer = LogBuffer::new();
    for line in lines(0, 5) {
        buffer.append("relay".to_string(), line);
    }
    assert_eq!(buffer.get_last("relay", 2), lines(3, 5));
    assert_eq!(buffer.get_last("relay", 5), lines(0, 5));
    assert_eq!(buffer.get_last("relay", 100), lines(0, 5));
    assert_eq!(buffer.get_last("relay", usize::MAX), lines(0, 5));
    assert!(buffer.get_last("relay", 0).is_empty());
    assert!(buffer.get_last("other", 3).is_empty());
}

#[test]
fn the_oldest_line_goes_when_the_buffer_is_full() {
    assert_eq!(DEFAULT_MAX_LINES, 1000);
    let mut buffer = LogBuffer::new();
    for line in lines(0, 1000) {
        buffer.append("relay".to_string(), line);
    }
    assert_eq!(buffer.get("relay").unwrap().len(), 1000);
    assert_eq!(buffer.get("relay").unwrap()[0], "line 0");
    buffer.append("relay".to_string(), "line 1000".to_string());
    assert_eq!(*buffer.get("relay").unwrap(), lines(1, 1001));
    buffer.append("tunnel".to_string(), "other".to_string());
    assert_eq!(buffer.get("relay").unwrap().len(), 1000);
    assert_eq!(buffer.get_last("relay", 1), vec!["line 1000"]);
}
