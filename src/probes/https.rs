use vstd::prelude::*;

use crate::messaging::message::{Message, MessageView, Severity};
use crate::probes::Probes;
use crate::tools::clock::current_date;
use crate::tools::text::{decimal, push_decimal};

verus! {

/// A check of the certificate that `host` presents on the HTTPS port.
pub struct Https {
    pub host: String,
    pub service: String,
}

pub fn new(service_name: String, host: String) -> (r: Https)
    ensures
        r.host@ == host@,
        r.service@ == service_name@,
{
    Https { host, service: service_name }
}

/// The severity of a certificate that expires in `days` whole days; the
/// ranges are tried in order, the first that holds decides.
pub open spec fn certificate_severity(days: int) -> Severity {
    if 0 < days < 2 {
        Severity::Error
    } else if 0 < days < 7 {
        Severity::Warning
    } else if days < 0 {
        Severity::Error
    } else {
        Severity::Info
    }
}

pub open spec fn certificate_header(days: int) -> Seq<char> {
    if 0 < days < 2 {
        "Certificate is about to expire, "@ + decimal(days as nat) + " days remaining"@
    } else if 0 < days < 7 {
        "Certificate expires soon, "@ + decimal(days as nat) + " days remaining"@
    } else if days < 0 {
        "Certificate expired "@ + decimal((-days) as nat) + " days ago"@
    } else {
        "Certificate expires in "@ + decimal(days as nat) + " days"@
    }
}

/// The message for a certificate that expires in `days` whole days.
pub open spec fn certificate_report(service: Seq<char>, date: Seq<char>, days: int) -> MessageView {
    MessageView {
        date,
        service,
        probe: Probes::Https,
        severity: certificate_severity(days),
        header: certificate_header(days),
        body: Seq::empty(),
    }
}

/// The message for a TLS connection that could not be made, for the reason `error`.
pub open spec fn connection_failure_report(
    service: Seq<char>,
    date: Seq<char>,
    error: Seq<char>,
) -> MessageView {
    MessageView {
        date,
        service,
        probe: Probes::Https,
        severity: Severity::Error,
        header: "critical error while connecting to https service"@,
        body: error,
    }
}

impl Https {
    /// The message of this probe at `date`, for a certificate that expires in
    /// `days` whole days (negative once it has expired).
    pub fn report(&self, date: String, days: i32) -> (m: Message)
        ensures
            m@ == certificate_report(self.service@, date@, days as int),
    {
        let (severity, mut header, count, tail) = if 0 < days && days < 2 {
            (Severity::Error, String::from_str("Certificate is about to expire, "), days as u64, " days remaining")
        } else if 0 < days && days < 7 {
            (Severity::Warning, String::from_str("Certificate expires soon, "), days as u64, " days remaining")
        } else if days < 0 {
            (Severity::Error, String::from_str("Certificate expired "), (-(days as i64)) as u64, " days ago")
        } else {
            (Severity::Info, String::from_str("Certificate expires in "), days as u64, " days")
        };
        push_decimal(&mut header, count);
        header.append(tail);
        Message {
            date,
            service: self.service.clone(),
            probe: Probes::Https,
            severity,
            header,
            body: String::new(),
        }
    }

    /// The message of this probe at `date` when the TLS connection failed with `error`.
    pub fn connection_failure(&self, date: String, error: String) -> (m: Message)
        ensures
            m@ == connection_failure_report(self.service@, date@, error@),
    {
        Message {
            date,
            service: self.service.clone(),
            probe: Probes::Https,
            severity: Severity::Error,
            header: String::from_str("critical error while connecting to https service"),
            body: error,
        }
    }

    /// As `report`, dated now.
    pub fn report_now(&self, days: i32) -> (m: Message)
        ensures
            m@ == certificate_report(self.service@, m@.date, days as int),
    {
        self.report(current_date(), days)
    }

    /// As `connection_failure`, dated now.
    pub fn connection_failure_now(&self, error: String) -> (m: Message)
        ensures
            m@ == connection_failure_report(self.service@, m@.date, error@),
    {
        self.connection_failure(current_date(), error)
    }
}

} // verus!
