//! A growable, heap-backed array container, built in two layers.
//!
//! [`raw::RawVec`] owns a capacity's worth of element slots and handles
//! geometric growth; it knows nothing about which slots are live.
//! [`array::Vec`] layers a logical length on top and owns the elements
//! in slots `[0, len)`, offering push, pop, insert, remove and indexed
//! access.  [`array::IntoIter`] consumes a `Vec` and yields ownership
//! of each element exactly once, from the front or the back.
//!
//! Every operation carries a contract describing exactly how it changes the
//! abstract sequence of live elements; [`laws`] states and proves the
//! container-wide properties that relate the operations to each other.

pub mod array;
pub mod laws;
pub mod raw;
