//! Property-based testing by exhaustive enumeration.
//!
//! A property is checked on every candidate input, smallest first, up to a
//! depth bound. The first input that falsifies the property is therefore
//! the smallest one, and a search that finds none has covered every input
//! within the bound.
//!
//! ```ignore
//! let mut check: SmallCheck<u8> = SmallCheck::new();
//! let verdict = check.test(Property1::new(|x: u8| x < 3));
//! let counterexample = verdict.unwrap_err();
//! assert_eq!(counterexample.failed_msg(), "[check] TEST FAILED. Arguments: (3)");
//! assert_eq!(check.invocations(), 4);
//! ```
//!
//! The pieces, leaves first:
//!
//! - [`Serial`] and [`Cursor`]: how a type lists its values, and the count
//!   of steps that drives the listing;
//! - [`Render`]: how a value is shown in a report;
//! - [`TestResult`]: what one check of a property came to;
//! - [`Testable`]: what can be checked, among it functions, wrapped as
//!   [`Property1`] and its siblings;
//! - [`SmallCheck`]: the search itself.

pub mod outcome;
pub mod property;
pub mod render;
pub mod serial;
pub mod testable;
pub mod tester;
pub mod tuples;

pub use outcome::{Outcome, TestResult};
pub use property::{
    Property0, Property1, Property10, Property11, Property12, Property2, Property3, Property4,
    Property5, Property6, Property7, Property8, Property9,
};
pub use render::Render;
pub use serial::{Cursor, Serial};
pub use testable::Testable;
pub use tester::SmallCheck;
