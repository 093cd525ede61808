//! Verified core of a fully-connected feedforward network trainer for
//! handwritten-digit classification: dataset decoding, the shape discipline
//! of initialization and backpropagation, the mini-batch partition of each
//! epoch, and the accuracy evaluator.

pub mod batch;
pub mod eval;
pub mod loader;
pub mod shape;
