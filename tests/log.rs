use three_body_tui::log::{Logger, LOG_CAPACITY};

#[test]
fn log_keeps_the_most_recent_hundred() {
    let mut l = Logger::new();
    for i in 0..150 {
        l.log(&format!("line {i}"));
    }
    assert_eq!(l.len(), LOG_CAPACITY);
    assert_eq!(l.len(), 100);
    let all = l.get_logs(1000);
    let lines: Vec<&str> = all.lines().collect();
    assert_eq!(lines.len(), 100);
    assert_eq!(lines[0], "line 50");
    assert_eq!(lines[99], "line 149");
}

#[test]
fn log_below_capacity_keeps_everything() {
    let mut l = Logger::new();
    l.log("a");
    l.log("b");
    assert_eq!(l.len(), 2);
    assert_eq!(l.get_logs(10), "a\nb\n");
}

#[test]
fn get_logs_returns_the_last_n() {
    let mut l = Logger::new();
    for i in 0..5 {
        l.log(&format!("{i}"));
    }
    assert_eq!(l.get_logs(2), "3\n4\n");
    assert_eq!(l.get_logs(0), "");
    assert_eq!(Logger::new().get_logs(10), "");
}
