use vstd::prelude::*;

use crate::facility::Facility;
use crate::severity::Severity;

verus! {

/// The priority byte that leads every syslog line: the facility code with the
/// severity level folded into its low three bits.
pub open spec fn spec_priority(facility: Facility, severity: Severity) -> u8 {
    facility.spec_value() | severity.spec_value()
}

/// The facility and severity encodings never overlap bits, so the bitwise or
/// that combines them equals their sum, and the priority never exceeds 191.
pub proof fn lemma_priority_or_is_add(facility: Facility, severity: Severity)
    ensures
        spec_priority(facility, severity) == facility.spec_value() + severity.spec_value(),
        spec_priority(facility, severity) <= 191,
{
    let a = facility.spec_value();
    let b = severity.spec_value();
    facility.lemma_value_shape();
    severity.lemma_value_shape();
    assert(a | b == a + b) by (bit_vector)
        requires
            a % 8 == 0,
            b <= 7,
    ;
}

} // verus!
