use vstd::prelude::*;

use crate::messaging::message::{Message, MessageView, Severity};
use crate::probes::Probes;
use crate::tools::clock::current_date;

verus! {

/// A reachability check of `host`, one echo request with a one second timeout.
pub struct Ping {
    pub host: String,
    pub service: String,
}

pub fn new(service_name: String, host: String) -> (r: Ping)
    ensures
        r.host@ == host@,
        r.service@ == service_name@,
{
    Ping { host, service: service_name }
}

/// Only bytes below this value are kept from the output of the check.
pub const PRINTABLE_LIMIT: u8 = 123;

/// The bytes of `output` that are kept in the body of a message, in order.
pub open spec fn kept_bytes(output: Seq<u8>) -> Seq<u8> {
    output.filter(|b: u8| b < PRINTABLE_LIMIT)
}

/// The characters whose codes are `bytes`.
pub open spec fn ascii_chars(bytes: Seq<u8>) -> Seq<char> {
    bytes.map_values(|b: u8| b as char)
}

pub open spec fn ping_severity(exit_code: Option<i32>) -> Severity {
    if exit_code == Some(0i32) {
        Severity::Info
    } else {
        Severity::Error
    }
}

pub open spec fn ping_header(exit_code: Option<i32>) -> Seq<char> {
    match exit_code {
        Some(0i32) => "Ping successful"@,
        Some(1i32) => "Unreachable host"@,
        Some(2i32) => "Invalid host"@,
        _ => "Unknown error"@,
    }
}

/// The message of a check that exited with `exit_code` (none when it was
/// stopped by a signal) after printing `output`.
pub open spec fn ping_report(
    service: Seq<char>,
    date: Seq<char>,
    exit_code: Option<i32>,
    output: Seq<u8>,
) -> MessageView {
    MessageView {
        date,
        service,
        probe: Probes::Ping,
        severity: ping_severity(exit_code),
        header: ping_header(exit_code),
        body: ascii_chars(kept_bytes(output)),
    }
}

/// Relies on `String::from_utf8`: a sequence of ASCII bytes is valid UTF-8,
/// and each byte stands for the character of that code.
#[verifier::external_body]
fn ascii_text(bytes: Vec<u8>) -> (r: String)
    requires
        forall|i: int| 0 <= i < bytes@.len() ==> bytes@[i] < 128,
    ensures
        r@ == ascii_chars(bytes@),
{
    String::from_utf8(bytes).unwrap()
}

/// The bytes of `output` below the printable limit, in order.
pub fn keep_printable(output: &Vec<u8>) -> (r: Vec<u8>)
    ensures
        r@ == kept_bytes(output@),
        forall|i: int| 0 <= i < r@.len() ==> r@[i] < PRINTABLE_LIMIT,
{
    proof {
        reveal(Seq::filter);
    }
    let mut kept: Vec<u8> = Vec::new();
    let mut i: usize = 0;
    while i < output.len()
        invariant
            i <= output@.len(),
            kept@ == kept_bytes(output@.take(i as int)),
            forall|j: int| 0 <= j < kept@.len() ==> kept@[j] < PRINTABLE_LIMIT,
        decreases output@.len() - i,
    {
        proof {
            reveal(Seq::filter);
        }
        assert(output@.take(i as int + 1).drop_last() == output@.take(i as int));
        if output[i] < PRINTABLE_LIMIT {
            kept.push(output[i]);
        }
        i = i + 1;
    }
    assert(output@.take(output@.len() as int) == output@);
    kept
}

impl Ping {
    /// The message for a check of this probe at `date` that exited with
    /// `exit_code` after printing `output`.
    pub fn report(&self, date: String, exit_code: Option<i32>, output: &Vec<u8>) -> (m: Message)
        ensures
            m@ == ping_report(self.service@, date@, exit_code, output@),
    {
        let body = ascii_text(keep_printable(output));
        let (severity, header) = match exit_code {
            Some(0i32) => (Severity::Info, String::from_str("Ping successful")),
            Some(1i32) => (Severity::Error, String::from_str("Unreachable host")),
            Some(2i32) => (Severity::Error, String::from_str("Invalid host")),
            _ => (Severity::Error, String::from_str("Unknown error")),
        };
        Message { date, service: self.service.clone(), probe: Probes::Ping, severity, header, body }
    }

    /// The message for a check of this probe that has just exited with
    /// `exit_code` after printing `output`, dated now.
    pub fn report_now(&self, exit_code: Option<i32>, output: &Vec<u8>) -> (m: Message)
        ensures
            m@ == ping_report(self.service@, m@.date, exit_code, output@),
    {
        self.report(current_date(), exit_code, output)
    }
}

} // verus!
