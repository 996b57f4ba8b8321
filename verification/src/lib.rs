pub mod pipeline;
pub mod progress;
pub mod transfer;
pub mod urls;
