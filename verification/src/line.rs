use vstd::prelude::*;

use crate::digits::spec_decimal;
use crate::facility::Facility;
use crate::priority::spec_priority;
use crate::severity::Severity;

verus! {

/// An optional field as it appears on the wire: its own text when set, the
/// single placeholder character `-` when absent.
pub open spec fn nil_or(field: Option<Seq<char>>) -> Seq<char> {
    match field {
        Some(text) => text,
        None => seq!['-'],
    }
}

/// A structured-format (RFC 5424 style) line: the bracketed decimal priority,
/// the version marker `1`, then the timestamp, host, app-name, proc-id and
/// msg-id fields (each `-` when absent) and the message, separated by single
/// spaces. The message is written verbatim.
pub open spec fn spec_structured_line(
    facility: Facility,
    severity: Severity,
    timestamp: Seq<char>,
    host: Option<Seq<char>>,
    app: Option<Seq<char>>,
    pid: Option<Seq<char>>,
    msgid: Option<Seq<char>>,
    msg: Seq<char>,
) -> Seq<char> {
    seq!['<'] + spec_decimal(spec_priority(facility, severity) as nat) + seq!['>', '1', ' ']
        + timestamp + seq![' '] + nil_or(host) + seq![' '] + nil_or(app) + seq![' '] + nil_or(pid)
        + seq![' '] + nil_or(msgid) + seq![' '] + msg
}

/// A legacy-format (RFC 3164 style) line: the bracketed decimal priority,
/// then the timestamp, host and tag fields (each `-` when absent) and the
/// message, separated by single spaces. The message is written verbatim.
pub open spec fn spec_legacy_line(
    facility: Facility,
    severity: Severity,
    timestamp: Seq<char>,
    host: Option<Seq<char>>,
    tag: Option<Seq<char>>,
    msg: Seq<char>,
) -> Seq<char> {
    seq!['<'] + spec_decimal(spec_priority(facility, severity) as nat) + seq!['>', ' ']
        + timestamp + seq![' '] + nil_or(host) + seq![' '] + nil_or(tag) + seq![' '] + msg
}

/// Appends an optional field to the line being built, writing the `-`
/// placeholder when the field is absent.
pub(crate) fn append_field(line: &mut String, field: &Option<String>)
    ensures
        final(line)@ == old(line)@ + nil_or(field.deep_view()),
{
    match field {
        Some(text) => line.append(text.as_str()),
        None => {
            line.append("-");
            proof {
                reveal_strlit("-");
                assert("-"@ =~= seq!['-']);
            }
        },
    }
}

} // verus!
