//! Word-sized encodings of a microkernel system-call result.
//!
//! A system call reports its outcome as a single raw 32-bit integer: `0`
//! means success, and a small closed set of consecutive positive codes names
//! the possible error conditions.  This crate realizes that contract three
//! times over, as three sibling encodings of the same domain:
//!
//! - [`union`] folds success and the errors into one flat enumeration whose
//!   member order mirrors the wire codes.
//! - [`intersection`] pairs the flat enumeration with a narrower one that
//!   excludes the success sentinel by construction, so code that has already
//!   ruled success out can hold a value that cannot express it.
//! - [`disjoint`] keeps the success view and the error view as two distinct
//!   payloads selected by an explicit tag, replacing an overlaid storage cell
//!   whose active view had to be guessed from the raw integer.
//!
//! Every encoding classifies raw codes, exposes the raw code of a value, and
//! propagates failures through an explicit short-circuit step; the proofs pin
//! each of these to the integer model of the domain.

pub mod disjoint;
pub mod intersection;
pub mod union;
