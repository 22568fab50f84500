//! Delegation of a coding task from an orchestrating agent to a worker process.
//!
//! The parent spawns the worker, hands it a task, and proxies the worker's
//! questions to the user. The worker runs an agent thread in a scratch git
//! worktree and hands back a summary, the diff of the worktree and the
//! commands that were run. The two talk in lines of JSON.
//!
//! The crate holds what both sides decide:
//!
//! - `ipc`, `wire`, `payload`, `codec`, `framing` and `json`: the messages,
//!   their wire form, and the lines that carry them;
//! - `ident`, `registry` and `slot`: request keys, and the registry through
//!   which an answer finds the task that waits for it;
//! - `worker`, `dispatch`, `drain`, `agent`, `prompt` and `output`: the course
//!   of a worker, what it does with its input and with its agent's events;
//! - `worktree` and `diff`: the scratch worktree and the git invocations
//!   around it;
//! - `delegate`, `apply_diff`, `handler` and `tool`: the parent's two tools;
//! - `config_layer`: the precedence of configuration layers;
//! - `text`: lines, whitespace, joining.
//!
//! Reading and writing streams, spawning processes, running git and waiting
//! are left to the caller, who reports what happened and is told what to do
//! next.

pub mod agent;
pub mod apply_diff;
pub mod codec;
pub mod config_layer;
pub mod delegate;
pub mod diff;
pub mod dispatch;
pub mod drain;
pub mod framing;
pub mod handler;
pub mod ident;
pub mod ipc;
pub mod json;
pub mod output;
pub mod payload;
pub mod prompt;
pub mod registry;
pub mod slot;
pub mod text;
pub mod tool;
pub mod wire;
pub mod worker;
pub mod worktree;
