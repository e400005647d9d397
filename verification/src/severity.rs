use vstd::prelude::*;

verus! {

/// Syslog severities as defined by RFC 5424, ordered from most to least
/// severe. The numeric value of a severity is its position in this order,
/// from 0 (most severe) to 7 (least severe).
#[derive(Clone, Copy, Debug)]
pub enum Severity {
    EMERGENCY,
    ALERT,
    CRITICAL,
    ERROR,
    WARNING,
    NOTICE,
    INFO,
    DEBUG,
}

impl Severity {
    /// The numeric severity level, 0 through 7.
    pub open spec fn spec_value(self) -> u8 {
        match self {
            Severity::EMERGENCY => 0,
            Severity::ALERT => 1,
            Severity::CRITICAL => 2,
            Severity::ERROR => 3,
            Severity::WARNING => 4,
            Severity::NOTICE => 5,
            Severity::INFO => 6,
            Severity::DEBUG => 7,
        }
    }

    /// Returns this severity's numeric level.
    pub fn value(self) -> (v: u8)
        ensures
            v == self.spec_value(),
    {
        match self {
            Severity::EMERGENCY => 0,
            Severity::ALERT => 1,
            Severity::CRITICAL => 2,
            Severity::ERROR => 3,
            Severity::WARNING => 4,
            Severity::NOTICE => 5,
            Severity::INFO => 6,
            Severity::DEBUG => 7,
        }
    }

    /// Every severity level fits in the low three bits of the priority byte.
    pub proof fn lemma_value_shape(self)
        ensures
            self.spec_value() <= 7,
    {
    }
}

} // verus!
