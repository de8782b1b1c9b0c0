pub mod de;
pub mod error;
pub mod laws;
pub mod step;
