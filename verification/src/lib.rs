//! Recording substrate for reverse-mode automatic differentiation: a Wengert
//! list (tape) of elementary-operation nodes, each holding up to two partial
//! derivatives and up to two parent indices.
//!
//! Partial derivatives are carried as the raw bit patterns of IEEE 754
//! doubles (`f64::to_bits`). The tape never interprets them numerically: it
//! only stores them and resets them to the bit pattern of `0.0`, which is `0`.

pub mod laws;
pub mod node;
pub mod tape;
