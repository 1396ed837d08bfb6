pub mod birthday;
pub mod bounded_string;
pub mod email;
pub mod order;
pub mod time;

pub use time::Duration;
pub use time::Instant;
