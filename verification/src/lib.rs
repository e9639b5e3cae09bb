//! Drives the construction of an incrementally verifiable computation: one
//! circuit, a stream of private per-step inputs, and a public input that each
//! step hands to the next.
//!
//! The library decides; its caller works. `driver` says what is to be done
//! next (generate a witness, fold a step, stop), and the caller runs the
//! witness generator and the folding engine and reports how it went.
//!
//! - `numeral`: what a string of digits denotes, and the canonical text of a
//!   number.
//! - `bignum`: radix conversion of integers of any size, by `num_bigint`.
//! - `codec`: field elements as bytes, as hexadecimal and as decimal text.
//! - `gateway`: the backends of witness generation and its failures.
//! - `wtns`: the file in which a generator hands over a witness.
//! - `instance`: the circuit's shape, a witness, the public outputs of a step.
//! - `document`: what a witness generator reads for a step.
//! - `driver`: the stages of a run and the steps between them.
//! - `error`: the kinds of failure.

pub mod bignum;
pub mod codec;
pub mod document;
pub mod driver;
pub mod error;
pub mod gateway;
pub mod instance;
pub mod numeral;
pub mod wtns;
