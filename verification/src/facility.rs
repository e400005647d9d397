use vstd::prelude::*;

verus! {

/// Syslog facilities as defined by RFC 5424: the categorical source of a log
/// message. Each facility maps to a fixed code that is a multiple of 8, so it
/// occupies the high bits of the combined priority byte and never overlaps the
/// severity bits.
#[derive(Clone, Copy, Debug)]
pub enum Facility {
    KERN,
    USER,
    MAIL,
    DAEMON,
    AUTH,
    SYSLOG,
    LINEPTR,
    NEWS,
    UUCP,
    CLOCK,
    AUTHPRIV,
    FTP,
    LOCAL0,
    LOCAL1,
    LOCAL2,
    LOCAL3,
    LOCAL4,
    LOCAL5,
    LOCAL6,
    LOCAL7,
}

impl Facility {
    /// The numeric facility code: eight times the slot the standard assigns.
    pub open spec fn spec_value(self) -> u8 {
        match self {
            Facility::KERN => 0,
            Facility::USER => 8,
            Facility::MAIL => 16,
            Facility::DAEMON => 24,
            Facility::AUTH => 32,
            Facility::SYSLOG => 40,
            Facility::LINEPTR => 48,
            Facility::NEWS => 56,
            Facility::UUCP => 64,
            Facility::CLOCK => 72,
            Facility::AUTHPRIV => 80,
            Facility::FTP => 88,
            Facility::LOCAL0 => 128,
            Facility::LOCAL1 => 136,
            Facility::LOCAL2 => 144,
            Facility::LOCAL3 => 152,
            Facility::LOCAL4 => 160,
            Facility::LOCAL5 => 168,
            Facility::LOCAL6 => 176,
            Facility::LOCAL7 => 184,
        }
    }

    /// Returns this facility's numeric code.
    pub fn value(self) -> (v: u8)
        ensures
            v == self.spec_value(),
    {
        match self {
            Facility::KERN => 0,
            Facility::USER => 8,
            Facility::MAIL => 16,
            Facility::DAEMON => 24,
            Facility::AUTH => 32,
            Facility::SYSLOG => 40,
            Facility::LINEPTR => 48,
            Facility::NEWS => 56,
            Facility::UUCP => 64,
            Facility::CLOCK => 72,
            Facility::AUTHPRIV => 80,
            Facility::FTP => 88,
            Facility::LOCAL0 => 128,
            Facility::LOCAL1 => 136,
            Facility::LOCAL2 => 144,
            Facility::LOCAL3 => 152,
            Facility::LOCAL4 => 160,
            Facility::LOCAL5 => 168,
            Facility::LOCAL6 => 176,
            Facility::LOCAL7 => 184,
        }
    }

    /// Every facility code is a multiple of 8 and at most 184, so it leaves
    /// the low three bits of the priority byte free for the severity.
    pub proof fn lemma_value_shape(self)
        ensures
            self.spec_value() % 8 == 0,
            self.spec_value() <= 184,
    {
    }
}

} // verus!
