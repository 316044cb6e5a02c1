//! FFI-friendly building blocks of the fimo runtime, modelled as plain values
//! and verified with Verus.
pub mod array_string;
pub mod text;
pub mod optional;
pub mod non_null_const;
pub mod span;
pub mod type_wrapper;
pub mod arc;
pub mod error;
pub mod error_info;
pub mod obj_span;
pub mod obj_str;
pub mod uuid;
pub mod ptr;
pub mod raw;
pub mod module_error;
pub mod dyn_arc;
pub mod task;
pub mod module;
pub mod obj_arc;
pub mod dependency_graph;
pub mod context;
pub mod library_cache;
