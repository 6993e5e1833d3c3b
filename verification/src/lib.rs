//! Aggregation of a learner's progress records, fetched page by page from a
//! rate-limited remote service, into one consolidated report.
//!
//! Everything here is pure: the modules decide which request comes next, how
//! the pages of a resource are put together, which subjects have to be
//! resolved and what the report holds. Sending the requests, waiting for
//! permits and decoding bodies is left to the caller.

pub mod data_processing;
