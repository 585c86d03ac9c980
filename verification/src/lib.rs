//! A small internal utility library: a context-propagation chain, a hashing
//! helper, generic container-transformation helpers, and the coordination
//! core of a fixed-size worker pool. Each public function carries a contract
//! stating what it returns or changes; the pool's delivery guarantees are
//! stated and proved over its submission and hand-out history.

pub mod context;
pub mod crypto;
pub mod util;
pub mod workerpool;
