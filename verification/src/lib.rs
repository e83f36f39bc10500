//! A verified model of a bridge between host-language closures and a foreign
//! runtime's native-closure calling convention.
//!
//! The `block` module holds the core: the fixed-layout closure header, the
//! per-instance descriptor, per-arity trampoline selection, typed invocation,
//! and the one-shot promotion of a stack-resident closure to a heap-resident,
//! runtime-owned handle. The `encode` and `runtime` modules model the
//! type-encoding tokens and the runtime entities (selectors, classes,
//! methods) that the `message` module's signature verification works over.
//! The `selector` module holds the compile-time selector-constant generator's
//! string processing.

pub mod block;
pub mod encode;
pub mod message;
pub mod runtime;
pub mod selector;
