use vstd::prelude::*;

use crate::clock::now_rfc3339;
use crate::digits::decimal_u8;
use crate::facility::Facility;
use crate::line::append_field;
use crate::line::spec_legacy_line;
use crate::line::spec_structured_line;
use crate::priority::spec_priority;
use crate::severity::Severity;
use crate::transport::SendError;
use crate::transport::Transport;

verus! {

/// The optional fields of one client, tagged by the wire format it writes:
/// host, app-name, proc-id and msg-id for the structured format; host and tag
/// for the legacy format. A client never carries both sets.
pub enum Fields {
    Structured {
        host: Option<String>,
        app: Option<String>,
        pid: Option<String>,
        msgid: Option<String>,
    },
    Legacy { host: Option<String>, tag: Option<String> },
}

/// The mathematical value of [`Fields`]: the same shape over sequences of
/// characters.
pub ghost enum FieldsView {
    Structured {
        host: Option<Seq<char>>,
        app: Option<Seq<char>>,
        pid: Option<Seq<char>>,
        msgid: Option<Seq<char>>,
    },
    Legacy { host: Option<Seq<char>>, tag: Option<Seq<char>> },
}

impl View for Fields {
    type V = FieldsView;

    open spec fn view(&self) -> FieldsView {
        match self {
            Fields::Structured { host, app, pid, msgid } => FieldsView::Structured {
                host: host.deep_view(),
                app: app.deep_view(),
                pid: pid.deep_view(),
                msgid: msgid.deep_view(),
            },
            Fields::Legacy { host, tag } => FieldsView::Legacy {
                host: host.deep_view(),
                tag: tag.deep_view(),
            },
        }
    }
}

/// The configuration of one client: the facility it targets and its optional
/// fields. The transport is not part of the configuration; severity is never
/// stored, it is supplied per call.
pub ghost struct Config {
    pub facility: Facility,
    pub fields: FieldsView,
}

/// The configuration with the facility replaced.
pub open spec fn with_facility(c: Config, facility: Facility) -> Config {
    Config { facility: facility, fields: c.fields }
}

/// The configuration with the host field set, in either format.
pub open spec fn with_host(c: Config, host: Seq<char>) -> Config {
    Config {
        facility: c.facility,
        fields: match c.fields {
            FieldsView::Structured { host: _, app, pid, msgid } => FieldsView::Structured {
                host: Some(host),
                app,
                pid,
                msgid,
            },
            FieldsView::Legacy { host: _, tag } => FieldsView::Legacy { host: Some(host), tag },
        },
    }
}

/// The configuration with the app-name field set. Meaningful only for the
/// structured format.
pub open spec fn with_app(c: Config, app: Seq<char>) -> Config
    recommends
        c.fields is Structured,
{
    match c.fields {
        FieldsView::Structured { host, app: _, pid, msgid } => Config {
            facility: c.facility,
            fields: FieldsView::Structured { host, app: Some(app), pid, msgid },
        },
        FieldsView::Legacy { .. } => c,
    }
}

/// The configuration with the proc-id field set. Meaningful only for the
/// structured format.
pub open spec fn with_pid(c: Config, pid: Seq<char>) -> Config
    recommends
        c.fields is Structured,
{
    match c.fields {
        FieldsView::Structured { host, app, pid: _, msgid } => Config {
            facility: c.facility,
            fields: FieldsView::Structured { host, app, pid: Some(pid), msgid },
        },
        FieldsView::Legacy { .. } => c,
    }
}

/// The configuration with the msg-id field set. Meaningful only for the
/// structured format.
pub open spec fn with_msgid(c: Config, msgid: Seq<char>) -> Config
    recommends
        c.fields is Structured,
{
    match c.fields {
        FieldsView::Structured { host, app, pid, msgid: _ } => Config {
            facility: c.facility,
            fields: FieldsView::Structured { host, app, pid, msgid: Some(msgid) },
        },
        FieldsView::Legacy { .. } => c,
    }
}

/// The configuration with the tag field set. Meaningful only for the legacy
/// format.
pub open spec fn with_tag(c: Config, tag: Seq<char>) -> Config
    recommends
        c.fields is Legacy,
{
    match c.fields {
        FieldsView::Legacy { host, tag: _ } => Config {
            facility: c.facility,
            fields: FieldsView::Legacy { host, tag: Some(tag) },
        },
        FieldsView::Structured { .. } => c,
    }
}

/// The wire line a client with configuration `c` writes for one message at
/// one timestamp, in the format the configuration is tagged with.
pub open spec fn spec_line_for(
    c: Config,
    severity: Severity,
    timestamp: Seq<char>,
    msg: Seq<char>,
) -> Seq<char> {
    match c.fields {
        FieldsView::Structured { host, app, pid, msgid } => spec_structured_line(
            c.facility,
            severity,
            timestamp,
            host,
            app,
            pid,
            msgid,
            msg,
        ),
        FieldsView::Legacy { host, tag } => spec_legacy_line(
            c.facility,
            severity,
            timestamp,
            host,
            tag,
            msg,
        ),
    }
}

/// What the clock yields: a rendered timestamp is never empty and never
/// holds a space, so it stays a single field of the line.
pub open spec fn valid_timestamp(timestamp: Seq<char>) -> bool {
    timestamp.len() > 0 && (forall|i: int| 0 <= i < timestamp.len() ==> timestamp[i] != ' ')
}

/// Setting the facility is last-writer-wins: chaining the facility setter
/// twice configures exactly what the second call alone would have.
pub proof fn lemma_facility_last_wins(c: Config, first: Facility, second: Facility)
    ensures
        with_facility(with_facility(c, first), second) == with_facility(c, second),
{
}

/// A syslog client: one facility, one set of optional fields, one exclusively
/// owned transport. Configuration is update-by-copy through value-returning
/// setters; the transport is carried over unchanged from setter to setter.
pub struct Syslog<T: Transport> {
    facility: Facility,
    fields: Fields,
    transport: T,
}

impl<T: Transport> View for Syslog<T> {
    type V = Config;

    closed spec fn view(&self) -> Config {
        Config { facility: self.facility, fields: self.fields@ }
    }
}

/// Clones an optional field.
fn clone_field(field: &Option<String>) -> (r: Option<String>)
    ensures
        r == *field,
{
    match field {
        Some(text) => Some(text.clone()),
        None => None,
    }
}

impl<T: Transport> Syslog<T> {
    /// The lines this client's transport has taken so far, oldest first.
    pub closed spec fn taken(&self) -> Seq<Seq<char>> {
        self.transport.taken()
    }

    /// What one logging call leaves behind: the configuration is untouched,
    /// and on success the transport has taken exactly one more line, the one
    /// this configuration formats for the message at some timestamp the
    /// clock yielded; on failure it has taken nothing.
    pub open spec fn log_effect(
        pre: Syslog<T>,
        post: Syslog<T>,
        severity: Severity,
        msg: Seq<char>,
        r: Result<(), SendError>,
    ) -> bool {
        &&& post@ == pre@
        &&& match r {
            Ok(_) => exists|ts: Seq<char>|
                #[trigger] valid_timestamp(ts) && post.taken() == pre.taken().push(
                    spec_line_for(pre@, severity, ts, msg),
                ),
            Err(_) => post.taken() == pre.taken(),
        }
    }

    /// Returns a structured-format client over the given transport, with
    /// facility USER and every optional field absent.
    pub fn new(transport: T) -> (r: Syslog<T>)
        ensures
            r@ == (Config {
                facility: Facility::USER,
                fields: FieldsView::Structured { host: None, app: None, pid: None, msgid: None },
            }),
            r.taken() == transport.taken(),
    {
        Syslog {
            facility: Facility::USER,
            fields: Fields::Structured { host: None, app: None, pid: None, msgid: None },
            transport,
        }
    }

    /// Returns a legacy-format client over the given transport, with
    /// facility USER and every optional field absent.
    pub fn new_legacy(transport: T) -> (r: Syslog<T>)
        ensures
            r@ == (Config {
                facility: Facility::USER,
                fields: FieldsView::Legacy { host: None, tag: None },
            }),
            r.taken() == transport.taken(),
    {
        Syslog {
            facility: Facility::USER,
            fields: Fields::Legacy { host: None, tag: None },
            transport,
        }
    }

    /// Returns a new client that logs with the provided facility, all else
    /// carried over.
    pub fn facility(self, facility: Facility) -> (r: Syslog<T>)
        ensures
            r@ == with_facility(self@, facility),
            r.taken() == self.taken(),
    {
        Syslog { facility: facility, fields: self.fields, transport: self.transport }
    }

    /// Returns a new client that logs with the provided host field, all else
    /// carried over.
    pub fn host(self, local: &str) -> (r: Syslog<T>)
        ensures
            r@ == with_host(self@, local@),
            r.taken() == self.taken(),
    {
        let fields = match self.fields {
            Fields::Structured { host: _, app, pid, msgid } => Fields::Structured {
                host: Some(local.to_owned()),
                app,
                pid,
                msgid,
            },
            Fields::Legacy { host: _, tag } => Fields::Legacy {
                host: Some(local.to_owned()),
                tag,
            },
        };
        Syslog { facility: self.facility, fields, transport: self.transport }
    }

    /// Returns a new client that logs with the provided app-name field, all
    /// else carried over.
    pub fn app(self, app: &str) -> (r: Syslog<T>)
        requires
            self@.fields is Structured,
        ensures
            r@ == with_app(self@, app@),
            r.taken() == self.taken(),
    {
        match self.fields {
            Fields::Structured { host, app: _, pid, msgid } => Syslog {
                facility: self.facility,
                fields: Fields::Structured { host, app: Some(app.to_owned()), pid, msgid },
                transport: self.transport,
            },
            Fields::Legacy { .. } => unreached(),
        }
    }

    /// Returns a new client that logs with the provided proc-id field, all
    /// else carried over.
    pub fn pid(self, pid: &str) -> (r: Syslog<T>)
        requires
            self@.fields is Structured,
        ensures
            r@ == with_pid(self@, pid@),
            r.taken() == self.taken(),
    {
        match self.fields {
            Fields::Structured { host, app, pid: _, msgid } => Syslog {
                facility: self.facility,
                fields: Fields::Structured { host, app, pid: Some(pid.to_owned()), msgid },
                transport: self.transport,
            },
            Fields::Legacy { .. } => unreached(),
        }
    }

    /// Returns a new client that logs with the provided msg-id field, all
    /// else carried over.
    pub fn msgid(self, id: &str) -> (r: Syslog<T>)
        requires
            self@.fields is Structured,
        ensures
            r@ == with_msgid(self@, id@),
            r.taken() == self.taken(),
    {
        match self.fields {
            Fields::Structured { host, app, pid, msgid: _ } => Syslog {
                facility: self.facility,
                fields: Fields::Structured { host, app, pid, msgid: Some(id.to_owned()) },
                transport: self.transport,
            },
            Fields::Legacy { .. } => unreached(),
        }
    }

    /// Returns a new client that logs with the provided tag field, all else
    /// carried over.
    pub fn tag(self, tag: &str) -> (r: Syslog<T>)
        requires
            self@.fields is Legacy,
        ensures
            r@ == with_tag(self@, tag@),
            r.taken() == self.taken(),
    {
        match self.fields {
            Fields::Legacy { host, tag: _ } => Syslog {
                facility: self.facility,
                fields: Fields::Legacy { host, tag: Some(tag.to_owned()) },
                transport: self.transport,
            },
            Fields::Structured { .. } => unreached(),
        }
    }

    /// A borrow of the transport, for callers that want to look at what an
    /// inspectable transport took.
    pub fn transport(&self) -> (r: &T)
        ensures
            r.taken() == self.taken(),
    {
        &self.transport
    }

    /// The combined priority byte, the facility code with the severity level
    /// folded into its low three bits.
    pub fn priority(facility: Facility, severity: Severity) -> (p: u8)
        ensures
            p == spec_priority(facility, severity),
    {
        facility.value() | severity.value()
    }

    /// Builds one structured-format wire line from the given parts.
    pub fn line(
        facility: Facility,
        severity: Severity,
        timestamp: &str,
        host: Option<String>,
        app: Option<String>,
        pid: Option<String>,
        msgid: Option<String>,
        msg: &str,
    ) -> (r: String)
        ensures
            r@ == spec_structured_line(
                facility,
                severity,
                timestamp@,
                host.deep_view(),
                app.deep_view(),
                pid.deep_view(),
                msgid.deep_view(),
                msg@,
            ),
    {
        let mut line = String::new();
        line.append("<");
        let pri = decimal_u8(Self::priority(facility, severity));
        line.append(pri.as_str());
        line.append(">1 ");
        line.append(timestamp);
        line.append(" ");
        append_field(&mut line, &host);
        line.append(" ");
        append_field(&mut line, &app);
        line.append(" ");
        append_field(&mut line, &pid);
        line.append(" ");
        append_field(&mut line, &msgid);
        line.append(" ");
        line.append(msg);
        proof {
            reveal_strlit("<");
            reveal_strlit(">1 ");
            reveal_strlit(" ");
            assert("<"@ =~= seq!['<']);
            assert(">1 "@ =~= seq!['>', '1', ' ']);
            assert(" "@ =~= seq![' ']);
            assert(line@ =~= spec_structured_line(
                facility,
                severity,
                timestamp@,
                host.deep_view(),
                app.deep_view(),
                pid.deep_view(),
                msgid.deep_view(),
                msg@,
            ));
        }
        line
    }

    /// Builds one legacy-format wire line from the given parts.
    pub fn line_legacy(
        facility: Facility,
        severity: Severity,
        timestamp: &str,
        host: Option<String>,
        tag: Option<String>,
        msg: &str,
    ) -> (r: String)
        ensures
            r@ == spec_legacy_line(
                facility,
                severity,
                timestamp@,
                host.deep_view(),
                tag.deep_view(),
                msg@,
            ),
    {
        let mut line = String::new();
        line.append("<");
        let pri = decimal_u8(Self::priority(facility, severity));
        line.append(pri.as_str());
        line.append("> ");
        line.append(timestamp);
        line.append(" ");
        append_field(&mut line, &host);
        line.append(" ");
        append_field(&mut line, &tag);
        line.append(" ");
        line.append(msg);
        proof {
            reveal_strlit("<");
            reveal_strlit("> ");
            reveal_strlit(" ");
            assert("<"@ =~= seq!['<']);
            assert("> "@ =~= seq!['>', ' ']);
            assert(" "@ =~= seq![' ']);
            assert(line@ =~= spec_legacy_line(
                facility,
                severity,
                timestamp@,
                host.deep_view(),
                tag.deep_view(),
                msg@,
            ));
        }
        line
    }

    /// Formats the message for this client's configuration, with a timestamp
    /// taken now, and hands the line to the transport, returning the
    /// transport's own verdict. The configuration is left untouched.
    fn log(&mut self, severity: Severity, msg: &str) -> (r: Result<(), SendError>)
        ensures
            Self::log_effect(*old(self), *final(self), severity, msg@, r),
    {
        let timestamp = now_rfc3339();
        let line = match &self.fields {
            Fields::Structured { host, app, pid, msgid } => Self::line(
                self.facility,
                severity,
                timestamp.as_str(),
                clone_field(host),
                clone_field(app),
                clone_field(pid),
                clone_field(msgid),
                msg,
            ),
            Fields::Legacy { host, tag } => Self::line_legacy(
                self.facility,
                severity,
                timestamp.as_str(),
                clone_field(host),
                clone_field(tag),
                msg,
            ),
        };
        let r = self.transport.send(line.as_str());
        proof {
            assert(valid_timestamp(timestamp@));
            assert(line@ == spec_line_for(old(self)@, severity, timestamp@, msg@));
        }
        r
    }

    /// Logs a message with DEBUG severity.
    pub fn debug(&mut self, msg: &str) -> (r: Result<(), SendError>)
        ensures
            Self::log_effect(*old(self), *final(self), Severity::DEBUG, msg@, r),
    {
        self.log(Severity::DEBUG, msg)
    }

    /// Logs a message with INFO severity.
    pub fn info(&mut self, msg: &str) -> (r: Result<(), SendError>)
        ensures
            Self::log_effect(*old(self), *final(self), Severity::INFO, msg@, r),
    {
        self.log(Severity::INFO, msg)
    }

    /// Logs a message with NOTICE severity.
    pub fn notice(&mut self, msg: &str) -> (r: Result<(), SendError>)
        ensures
            Self::log_effect(*old(self), *final(self), Severity::NOTICE, msg@, r),
    {
        self.log(Severity::NOTICE, msg)
    }

    /// Logs a message with WARNING severity.
    pub fn warn(&mut self, msg: &str) -> (r: Result<(), SendError>)
        ensures
            Self::log_effect(*old(self), *final(self), Severity::WARNING, msg@, r),
    {
        self.log(Severity::WARNING, msg)
    }

    /// Logs a message with ERROR severity.
    pub fn err(&mut self, msg: &str) -> (r: Result<(), SendError>)
        ensures
            Self::log_effect(*old(self), *final(self), Severity::ERROR, msg@, r),
    {
        self.log(Severity::ERROR, msg)
    }

    /// Logs a message with CRITICAL severity.
    pub fn critical(&mut self, msg: &str) -> (r: Result<(), SendError>)
        ensures
            Self::log_effect(*old(self), *final(self), Severity::CRITICAL, msg@, r),
    {
        self.log(Severity::CRITICAL, msg)
    }

    /// Logs a message with ALERT severity.
    pub fn alert(&mut self, msg: &str) -> (r: Result<(), SendError>)
        ensures
            Self::log_effect(*old(self), *final(self), Severity::ALERT, msg@, r),
    {
        self.log(Severity::ALERT, msg)
    }

    /// Logs a message with EMERGENCY severity.
    pub fn emergency(&mut self, msg: &str) -> (r: Result<(), SendError>)
        ensures
            Self::log_effect(*old(self), *final(self), Severity::EMERGENCY, msg@, r),
    {
        self.log(Severity::EMERGENCY, msg)
    }
}

} // verus!
