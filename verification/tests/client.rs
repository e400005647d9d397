use sysly::{Facility, MemTransport, SendError, Syslog, Transport};

struct FailTransport {
    attempts: u32,
}

impl Transport for FailTransport {
    fn send(&mut self, _line: &str) -> Result<(), SendError> {
        self.attempts += 1;
        Err(SendError { code: Some(111) })
    }
}

fn tokens(line: &str) -> Vec<&str> {
    line.split(' ').collect()
}

#[test]
fn test_send_failure_is_returned_without_retry() {
    let mut syslog = Syslog::new(FailTransport { attempts: 0 });
    let result = syslog.info("hello");
    assert_eq!(result, Err(SendError { code: Some(111) }));
    assert_eq!(syslog.transport().attempts, 1);
}

#[test]
fn test_last_facility_wins() {
    let mut syslog = Syslog::new(MemTransport::new())
        .facility(Facility::LOCAL3)
        .facility(Facility::LOCAL0);
    assert_eq!(syslog.info("yo"), Ok(()));
    let lines = syslog.transport().lines();
    assert_eq!(lines.len(), 1);
    assert!(lines[0].starts_with("<134>1 "));
    assert!(lines[0].ends_with(" - - - - yo"));
}

#[test]
fn test_structured_send_with_all_fields() {
    let mut syslog = Syslog::new(MemTransport::new())
        .facility(Facility::USER)
        .host("foo.local")
        .app("app")
        .pid("16")
        .msgid("TCPIN");
    assert_eq!(syslog.err("boom"), Ok(()));
    let lines = syslog.transport().lines();
    assert_eq!(lines.len(), 1);
    let t = tokens(&lines[0]);
    assert_eq!(t.len(), 7);
    assert_eq!(t[0], "<11>1");
    assert!(!t[1].is_empty());
    assert_eq!(t[2], "foo.local");
    assert_eq!(t[3], "app");
    assert_eq!(t[4], "16");
    assert_eq!(t[5], "TCPIN");
    assert_eq!(t[6], "boom");
}

#[test]
fn test_legacy_send_with_host_and_tag() {
    let mut syslog = Syslog::new_legacy(MemTransport::new())
        .facility(Facility::LOCAL0)
        .host("foo.local")
        .tag("sysly");
    assert_eq!(syslog.info("yo"), Ok(()));
    let lines = syslog.transport().lines();
    assert_eq!(lines.len(), 1);
    let t = tokens(&lines[0]);
    assert_eq!(t.len(), 5);
    assert_eq!(t[0], "<134>");
    assert!(!t[1].is_empty());
    assert_eq!(t[2], "foo.local");
    assert_eq!(t[3], "sysly");
    assert_eq!(t[4], "yo");
}

#[test]
fn test_timestamp_field_is_one_spaceless_token() {
    let mut syslog = Syslog::new(MemTransport::new());
    assert_eq!(syslog.info("yo"), Ok(()));
    let lines = syslog.transport().lines();
    let t = tokens(&lines[0]);
    // "<pri>1", timestamp, four placeholders, message: the timestamp came out
    // non-empty and without an embedded space.
    assert_eq!(t.len(), 7);
    assert!(!t[1].is_empty());
    assert!(t[1].contains('T'));
}

#[test]
fn test_each_severity_sets_the_priority() {
    let expected = [
        ("<15>1 ", "debug"),
        ("<14>1 ", "info"),
        ("<13>1 ", "notice"),
        ("<12>1 ", "warn"),
        ("<11>1 ", "err"),
        ("<10>1 ", "critical"),
        ("<9>1 ", "alert"),
        ("<8>1 ", "emergency"),
    ];
    let mut syslog = Syslog::new(MemTransport::new());
    assert_eq!(syslog.debug("m"), Ok(()));
    assert_eq!(syslog.info("m"), Ok(()));
    assert_eq!(syslog.notice("m"), Ok(()));
    assert_eq!(syslog.warn("m"), Ok(()));
    assert_eq!(syslog.err("m"), Ok(()));
    assert_eq!(syslog.critical("m"), Ok(()));
    assert_eq!(syslog.alert("m"), Ok(()));
    assert_eq!(syslog.emergency("m"), Ok(()));
    let lines = syslog.transport().lines();
    assert_eq!(lines.len(), 8);
    for (i, (prefix, _name)) in expected.iter().enumerate() {
        assert!(lines[i].starts_with(prefix), "line {} was {}", i, lines[i]);
    }
}

#[test]
fn test_host_setter_keeps_other_fields() {
    let mut syslog = Syslog::new(MemTransport::new()).app("app").host("h");
    assert_eq!(syslog.info("m"), Ok(()));
    let lines = syslog.transport().lines();
    let t = tokens(&lines[0]);
    assert_eq!(t[2], "h");
    assert_eq!(t[3], "app");
    assert_eq!(t[4], "-");
    assert_eq!(t[5], "-");
}
