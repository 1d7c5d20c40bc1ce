//! Regular-expression building blocks: a node arena with a byte-level
//! denotation, the Unicode character-class cache built on it, and the
//! forward prefix-accelerated match drivers.

pub mod classes;
pub mod engine;
pub mod fwd;
pub mod fwd_scan;
pub mod node;
pub mod prefix;
pub mod scan;
pub mod tables;
pub mod unicode_classes;
