use vstd::prelude::*;

pub mod https;
pub mod ping;

use crate::messaging::message::Message;

verus! {

/// Which kind of probe produced a message.
#[derive(Debug, Clone, Copy, PartialEq, Eq, Structural)]
pub enum Probes {
    Ping,
    Https,
}

/// The name under which a probe kind is shown.
pub open spec fn probe_text(p: Probes) -> Seq<char> {
    match p {
        Probes::Ping => seq!['p', 'i', 'n', 'g'],
        Probes::Https => seq!['h', 't', 't', 'p', 's'],
    }
}

impl Default for Probes {
    fn default() -> (r: Self)
        ensures
            r == Probes::Ping,
    {
        Probes::Ping
    }
}

impl Probes {
    pub fn to_str(&self) -> (r: String)
        ensures
            r@ == probe_text(*self),
    {
        proof {
            reveal_strlit("ping");
            reveal_strlit("https");
        }
        match self {
            Probes::Ping => String::from_str("ping"),
            Probes::Https => String::from_str("https"),
        }
    }
}

/// A health check that, each time it runs, reports its outcome as a message.
pub trait Probe {
    fn run(&self) -> Message;
}

} // verus!
