//! Call-count expectations for mock objects.
//!
//! A mock object owns one [`ExpectationStore`]. While a test is set up, the
//! store is told how often each method is to be called
//! ([`ExpectationStore::track_method`]); while the test runs, every call of a
//! mock method is reported to it ([`ExpectationStore::was_called`]); at the end
//! [`ExpectationStore::verify`] holds the calls that were seen against the
//! calls that were expected.
//!
//! ```
//! use simulacrum::ExpectationStore;
//!
//! let mut store = ExpectationStore::new();
//! store.track_method("foo", String::from("Mock::foo")).called_once();
//! store.was_called("foo");
//! store.was_called("bar");
//! assert_eq!(store.verify(), Ok(()));
//! ```
//!
//! Methods are told apart by a key of the caller's choice. The contracts hold
//! for keys that hash and compare as the keys of a hash map should
//! (`obeys_key_model`).
//!
//! Every operation takes the store by exclusive or shared borrow and returns:
//! the borrow is what serialises the operations. A mock object that is shared
//! between threads keeps the store behind a lock of its own. The store does
//! not verify itself when it is dropped: its owner calls
//! [`ExpectationStore::verify`], once, when the mock object's life ends.

pub mod decimal;
pub mod laws;
pub mod mismatch;
pub mod store;
pub mod tracked_method;

pub use mismatch::{CallCountMismatch, Mismatch};
pub use store::{ExpectationStore, TrackedMethodGuard};
pub use tracked_method::{Expectation, TrackedMethod};
