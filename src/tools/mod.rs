pub mod clock;
pub mod text;
