//! Build-script support for turning LLVM-IR and bitcode modules into a static archive.
//!
//! The library holds the rules of the compile-and-archive pipeline: how a module's
//! build options are chosen and rendered, which strings the backend can take, in which
//! order the backend is driven, which error each failure becomes, and which native
//! resources have to be handed back before a batch ends. The backend itself is driven
//! by the caller: [`pipeline::Pipeline::action`] says what to do next, and
//! [`pipeline::Pipeline::advance`] takes the backend's answer.
pub mod error;
pub mod laws;
pub mod model;
pub mod options;
pub mod pipeline;
pub mod protocol;
pub mod targets;
pub mod text;
