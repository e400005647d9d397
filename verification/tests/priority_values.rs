use sysly::{Facility, MemTransport, Severity, Syslog};

fn all_facilities() -> Vec<Facility> {
    vec![
        Facility::KERN,
        Facility::USER,
        Facility::MAIL,
        Facility::DAEMON,
        Facility::AUTH,
        Facility::SYSLOG,
        Facility::LINEPTR,
        Facility::NEWS,
        Facility::UUCP,
        Facility::CLOCK,
        Facility::AUTHPRIV,
        Facility::FTP,
        Facility::LOCAL0,
        Facility::LOCAL1,
        Facility::LOCAL2,
        Facility::LOCAL3,
        Facility::LOCAL4,
        Facility::LOCAL5,
        Facility::LOCAL6,
        Facility::LOCAL7,
    ]
}

fn all_severities() -> Vec<Severity> {
    vec![
        Severity::EMERGENCY,
        Severity::ALERT,
        Severity::CRITICAL,
        Severity::ERROR,
        Severity::WARNING,
        Severity::NOTICE,
        Severity::INFO,
        Severity::DEBUG,
    ]
}

#[test]
fn test_priority_or_equals_add_for_all_pairs() {
    for f in all_facilities() {
        for s in all_severities() {
            let p = Syslog::<MemTransport>::priority(f, s);
            assert_eq!(p, f.value() | s.value());
            assert_eq!(p as u16, f.value() as u16 + s.value() as u16);
            assert!(p <= 191);
        }
    }
}

#[test]
fn test_priority_local0_info_is_134() {
    assert_eq!(Syslog::<MemTransport>::priority(Facility::LOCAL0, Severity::INFO), 134);
}

#[test]
fn test_severity_order() {
    assert_eq!(Severity::EMERGENCY.value(), 0);
    assert_eq!(Severity::ALERT.value(), 1);
    assert_eq!(Severity::CRITICAL.value(), 2);
    assert_eq!(Severity::ERROR.value(), 3);
    assert_eq!(Severity::WARNING.value(), 4);
    assert_eq!(Severity::NOTICE.value(), 5);
    assert_eq!(Severity::INFO.value(), 6);
    assert_eq!(Severity::DEBUG.value(), 7);
}

#[test]
fn test_facility_codes_are_multiples_of_eight() {
    for f in all_facilities() {
        assert_eq!(f.value() % 8, 0);
        assert!(f.value() <= 184);
    }
}
