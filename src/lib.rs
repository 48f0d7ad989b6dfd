//! A gateway that runs a batch of outbound HTTP calls under one deadline and answers with
//! one outcome per call, in the order of the calls.
//!
//! `multiplexer` holds a batch to its limits, fixes its deadline, and folds the legs' ends
//! into the reply; `request` turns each leg into a request; `leg` is the state machine that
//! each leg goes through while it runs; `api` holds the data types; `routing` picks the
//! endpoint of an inbound request.
pub mod api;
pub mod request;
pub mod leg;
pub mod multiplexer;
pub mod routing;
pub mod cursor;
