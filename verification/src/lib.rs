//! Agent orchestration and execution-repair engine for a natural-language
//! 3D-modeling service.
//!
//! The library holds the verified core: the text transforms that extract
//! code and reports from model replies, the tolerant tool-invocation
//! grammar, the bounded agent and repair loops, the request/response
//! bridge contract, and the fixed pipeline that sequences the stages.
//! The surrounding process (sockets, model calls, subprocess execution)
//! drives these components from outside.
pub mod bridge;
pub mod clarify;
pub mod engine;
pub mod errors;
pub mod extract;
pub mod invocation;
pub mod pipeline;
pub mod planner;
pub mod session;
pub mod stages;
pub mod text;
pub mod tools;
pub mod types;
