use vstd::prelude::*;
use vstd::utf8::is_ascii_chars;

use crate::probes::{probe_text, Probes};

verus! {

/// How serious the outcome of a probe is: `Info < Warning < Error`.
#[derive(Debug, Clone, Copy, PartialEq, Eq, Structural)]
pub enum Severity {
    Error,
    Warning,
    Info,
}

/// The name under which a severity is shown.
pub open spec fn severity_text(s: Severity) -> Seq<char> {
    match s {
        Severity::Info => seq!['I', 'n', 'f', 'o'],
        Severity::Warning => seq!['W', 'a', 'r', 'n', 'i', 'n', 'g'],
        Severity::Error => seq!['E', 'r', 'r', 'o', 'r'],
    }
}

impl Default for Severity {
    fn default() -> (r: Self)
        ensures
            r == Severity::Info,
    {
        Severity::Info
    }
}

impl Severity {
    pub fn to_str(&self) -> (r: String)
        ensures
            r@ == severity_text(*self),
    {
        proof {
            reveal_strlit("Info");
            reveal_strlit("Warning");
            reveal_strlit("Error");
        }
        match self {
            Severity::Info => String::from_str("Info"),
            Severity::Warning => String::from_str("Warning"),
            Severity::Error => String::from_str("Error"),
        }
    }
}

/// The outcome of one run of a probe.
#[derive(Debug)]
pub struct Message {
    pub date: String,
    pub service: String,
    pub probe: Probes,
    pub severity: Severity,
    pub header: String,
    pub body: String,
}

/// A message as plain values.
pub struct MessageView {
    pub date: Seq<char>,
    pub service: Seq<char>,
    pub probe: Probes,
    pub severity: Severity,
    pub header: Seq<char>,
    pub body: Seq<char>,
}

impl View for Message {
    type V = MessageView;

    open spec fn view(&self) -> MessageView {
        MessageView {
            date: self.date@,
            service: self.service@,
            probe: self.probe,
            severity: self.severity,
            header: self.header@,
            body: self.body@,
        }
    }
}

/// Two messages describe the same situation when they agree on the service,
/// the header, the probe kind and the severity; the time is left out.
pub open spec fn same_situation(a: MessageView, b: MessageView) -> bool {
    a.service == b.service && a.header == b.header && a.probe == b.probe && a.severity
        == b.severity
}

/// The empty message: no text, a ping probe, `Info`.
pub open spec fn empty_message() -> MessageView {
    MessageView {
        date: Seq::empty(),
        service: Seq::empty(),
        probe: Probes::Ping,
        severity: Severity::Info,
        header: Seq::empty(),
        body: Seq::empty(),
    }
}

/// `[<date>] <severity> <probe>/<service>: <header>` and the body on the next line.
pub open spec fn render(m: MessageView) -> Seq<char> {
    seq!['['] + m.date + seq![']', ' '] + severity_text(m.severity) + seq![' '] + probe_text(
        m.probe,
    ) + seq!['/'] + m.service + seq![':', ' '] + m.header + seq!['\n'] + m.body
}

/// `[Monitoring/<severity>/<probe>] <service> <header>`
pub open spec fn subject_line(m: MessageView) -> Seq<char> {
    seq!['[', 'M', 'o', 'n', 'i', 't', 'o', 'r', 'i', 'n', 'g', '/'] + severity_text(m.severity)
        + seq!['/'] + probe_text(m.probe) + seq![']', ' '] + m.service + seq![' '] + m.header
}

/// `c`, with an ASCII capital letter turned into its small letter.
pub open spec fn lower_char(c: char) -> char {
    if 'A' <= c <= 'Z' {
        ((c as u8) + 32) as u8 as char
    } else {
        c
    }
}

/// `s` with its ASCII capital letters turned into small letters.
pub open spec fn ascii_lower(s: Seq<char>) -> Seq<char> {
    s.map_values(|c: char| lower_char(c))
}

/// Relies on `str::to_ascii_lowercase`: the letters 'A' to 'Z' become 'a' to
/// 'z', and every other character is kept as it is.
#[verifier::external_body]
fn ascii_lowercase(s: &str) -> (r: String)
    ensures
        r@ == ascii_lower(s@),
{
    s.to_ascii_lowercase()
}

impl Clone for Message {
    fn clone(&self) -> (r: Self)
        ensures
            r@ == self@,
    {
        Message {
            date: self.date.clone(),
            service: self.service.clone(),
            probe: self.probe,
            severity: self.severity,
            header: self.header.clone(),
            body: self.body.clone(),
        }
    }
}

impl Default for Message {
    fn default() -> (r: Self)
        ensures
            r@ == empty_message(),
    {
        Message::new()
    }
}

impl PartialEq for Message {
    fn eq(&self, other: &Message) -> (r: bool) {
        self.service == other.service && self.header == other.header && self.probe == other.probe
            && self.severity == other.severity
    }
}

impl vstd::std_specs::cmp::PartialEqSpecImpl for Message {
    open spec fn obeys_eq_spec() -> bool {
        true
    }

    open spec fn eq_spec(&self, other: &Message) -> bool {
        same_situation(self@, other@)
    }
}

impl Message {
    pub fn new() -> (r: Self)
        ensures
            r@ == empty_message(),
    {
        Message {
            date: String::new(),
            service: String::new(),
            probe: Probes::Ping,
            severity: Severity::Info,
            header: String::new(),
            body: String::new(),
        }
    }

    pub fn to_str(&self) -> (r: String)
        ensures
            r@ == render(self@),
    {
        proof {
            reveal_strlit("[");
            reveal_strlit("] ");
            reveal_strlit(" ");
            reveal_strlit("/");
            reveal_strlit(": ");
            reveal_strlit("\n");
        }
        let mut s = String::from_str("[");
        s.append(self.date.as_str());
        s.append("] ");
        let severity = self.severity.to_str();
        s.append(severity.as_str());
        s.append(" ");
        let probe = self.probe.to_str();
        s.append(probe.as_str());
        s.append("/");
        s.append(self.service.as_str());
        s.append(": ");
        s.append(self.header.as_str());
        s.append("\n");
        s.append(self.body.as_str());
        assert(s@ =~= render(self@));
        s
    }

    /// The subject line of the notification for this message.
    pub fn subject(&self) -> (r: String)
        ensures
            r@ == subject_line(self@),
    {
        proof {
            reveal_strlit("[Monitoring/");
            reveal_strlit("/");
            reveal_strlit("] ");
            reveal_strlit(" ");
        }
        let mut s = String::from_str("[Monitoring/");
        let severity = self.severity.to_str();
        s.append(severity.as_str());
        s.append("/");
        let probe = self.probe.to_str();
        s.append(probe.as_str());
        s.append("] ");
        s.append(self.service.as_str());
        s.append(" ");
        s.append(self.header.as_str());
        assert(s@ =~= subject_line(self@));
        s
    }

    /// The text of the notification for this message: its rendering, in small letters.
    pub fn mail_body(&self) -> (r: String)
        ensures
            r@ == ascii_lower(render(self@)),
    {
        let text = self.to_str();
        ascii_lowercase(text.as_str())
    }

    /// Whether the body holds ASCII characters only, as the notifier requires.
    pub fn is_transmittable(&self) -> (r: bool)
        ensures
            r == is_ascii_chars(self.body@),
    {
        self.body.as_str().is_ascii()
    }
}

} // verus!