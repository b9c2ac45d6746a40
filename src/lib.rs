//! Request handling for a small catalogue of printer brands and printers.
//!
//! Every handler is a pure decision procedure: given the request and the
//! answers the relational store has given so far, it names the next statement
//! to run or the response to send. The surrounding service runs the
//! statements and feeds the answers back.
mod ids;

pub mod status;
pub mod naming;
pub mod records;
pub mod store;
pub mod brand;
pub mod printer;
pub mod model;
pub mod laws;
