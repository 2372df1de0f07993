//! A stack machine for compiled classes in the manner of the Java Virtual
//! Machine: tagged values, constant pools, classes with their methods and
//! fields, an allocate-only heap, a repository of classes, and a machine that
//! performs one instruction at a time.
//!
//! The meaning of each instruction is a function on mathematical states in
//! `semantics`; `interp` holds the machine that is proved to compute it, and
//! `invariants` what holds of every state that the machine reaches.
//!
//! Floating-point numbers are carried as bit patterns. Comparing, negating
//! and converting them is done here, on whole numbers; their arithmetic is
//! handed to the host of the machine.

pub mod arith;
pub mod bootstrap;
pub mod constant_pool;
pub mod context;
pub mod convert;
pub mod descriptor;
pub mod error;
pub mod heap;
pub mod ieee;
pub mod interp;
pub mod interp_stack;
pub mod invariants;
pub mod klass_parser;
pub mod klass_repo;
pub mod local_vars;
pub mod opcode;
pub mod otfield;
pub mod otklass;
pub mod otmethod;
pub mod semantics;
pub mod stack_ops;
pub mod value;

pub use crate::constant_pool::{CpAttr, CpEntry};
pub use crate::context::VmContext;
pub use crate::error::FatalError;
pub use crate::heap::{OtObj, SharedSimpleHeap};
pub use crate::interp::{exec_method, Frame, Machine, Step};
pub use crate::interp_stack::InterpEvalStack;
pub use crate::klass_repo::SharedKlassRepo;
pub use crate::local_vars::InterpLocalVars;
pub use crate::otfield::OtField;
pub use crate::otklass::OtKlass;
pub use crate::otmethod::OtMethod;
pub use crate::semantics::HostRequest;
pub use crate::value::JvmValue;
