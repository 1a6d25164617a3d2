//! Validation of rows read from a GOKZ database and their preparation for export.

pub mod batch;
pub mod error;
pub mod laws;
pub mod mode;
pub mod output;
pub mod record;
pub mod row;
pub mod source;
pub mod steam;
pub mod timestamp;

pub use batch::{transform_all, Batch, Rejection};
pub use error::{Field, ValidationError};
pub use mode::{Mode, Schema};
pub use record::{Details, Record};
pub use row::{RawDetails, RawRecord};
