//! COCOMO (Constructive Cost Model) estimation library.
//!
//! The library keeps every quantity it computes with as an exact decimal:
//! a [`fixed::Fixed`] counts ten-thousandths, so the Boehm coefficients,
//! the inflation multipliers, and wages are represented without rounding.
//! The transcendental parts of the model (the `KSLOC**b` power curve) are
//! left to the caller, which works in floating point.

pub mod engine;
pub mod error;
pub mod fixed;
pub mod inflation;
pub mod parse;
pub mod project;
pub mod report;
pub mod text;

pub use error::CocomoError;
pub use fixed::Fixed;
pub use fixed::Fixed8;
pub use inflation::InflationEntry;
pub use parse::parse_coefficients;
pub use parse::parse_coefficients_quad;
pub use project::resolve_coefficients;
pub use project::CoefficientSet;
pub use project::ProjectType;
pub use report::OutputFormat;
pub use report::ReportFields;
