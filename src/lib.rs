pub mod daemon;
pub mod messaging;
pub mod probes;
pub mod tools;
