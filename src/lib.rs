//! A content-dispatch engine: inputs are classified by their leading bytes and
//! handed to configured external plugins, whose output becomes JSON records or
//! new inputs.

pub mod text;

pub mod channel;
pub mod input;
pub mod plugin;
pub mod pool;
pub mod pre_process;
pub mod record;
pub mod task;
pub mod walk;
