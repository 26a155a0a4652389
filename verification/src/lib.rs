//! A checker for the quoting rules of CSV text.
//!
//! The library walks a byte stream with a small finite-state machine and
//! reports every byte at which the quoting rules are broken, together with
//! its line, its column and the reason. It does not split the text into
//! records or fields.

pub mod error;
pub mod model;
pub mod position;
pub mod report;
pub mod scanner;
pub mod state;
pub mod theorems;
pub mod well_formed;

pub use error::{CSVError, ErrorRecord, ErrorType};
pub use position::Position;
pub use report::{csv_report, Report};
pub use scanner::Scanner;
pub use state::CSVState;
