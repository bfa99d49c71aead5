//! The instance pool's startup state machine and its dispatch rule.
//!
//! The pool is built once: the module is compiled, then one instance is
//! instantiated per worker. Only a pool whose every instance is ready
//! accepts dispatch. At dispatch, a worker identity picks the instance at
//! its index modulo the pool size.

use vstd::prelude::*;

verus! {

/// Where pool startup stands.
#[derive(Clone, Copy, Debug, PartialEq, Eq, Structural)]
pub enum PoolState {
    /// Nothing loaded yet.
    Unloaded,
    /// The module is being compiled.
    Compiling,
    /// So many of so many instances are ready.
    Instantiating(u32, u32),
    /// All instances ready; dispatch may begin.
    Ready(u32),
    /// Startup failed; the process aborts.
    Failed,
}

/// What startup observed next.
#[derive(Clone, Copy, Debug, PartialEq, Eq, Structural)]
pub enum PoolEvent {
    /// Compilation began.
    BeginCompile,
    /// The module compiled; so many instances are wanted.
    CompileOk(u32),
    /// The module did not compile.
    CompileFailed,
    /// One instance finished instantiating.
    InstanceOk,
    /// An instance failed to instantiate.
    InstanceFailed,
}

/// A state the machine can actually be in.
pub open spec fn pool_state_wf(s: PoolState) -> bool {
    match s {
        PoolState::Instantiating(done, total) => done < total,
        PoolState::Ready(total) => total > 0,
        _ => true,
    }
}

/// The startup transition relation; `None` is an event the state cannot
/// take, a programming error that aborts the process.
pub open spec fn spec_pool_step(s: PoolState, e: PoolEvent) -> Option<PoolState> {
    match (s, e) {
        (PoolState::Unloaded, PoolEvent::BeginCompile) => Some(PoolState::Compiling),
        (PoolState::Compiling, PoolEvent::CompileOk(total)) => if total > 0 {
            Some(PoolState::Instantiating(0, total))
        } else {
            None
        },
        (PoolState::Compiling, PoolEvent::CompileFailed) => Some(PoolState::Failed),
        (PoolState::Instantiating(done, total), PoolEvent::InstanceOk) => if done + 1 == total {
            Some(PoolState::Ready(total))
        } else {
            Some(PoolState::Instantiating((done + 1) as u32, total))
        },
        (PoolState::Instantiating(done, total), PoolEvent::InstanceFailed) => Some(
            PoolState::Failed,
        ),
        _ => None,
    }
}

/// Only a fully instantiated pool takes requests.
pub open spec fn accepts_dispatch(s: PoolState) -> bool {
    s is Ready
}

/// Drives the startup machine one step.
pub fn pool_step(s: PoolState, e: PoolEvent) -> (r: Option<PoolState>)
    requires
        pool_state_wf(s),
    ensures
        r == spec_pool_step(s, e),
        match r {
            Some(s2) => pool_state_wf(s2),
            None => true,
        },
{
    match (s, e) {
        (PoolState::Unloaded, PoolEvent::BeginCompile) => Some(PoolState::Compiling),
        (PoolState::Compiling, PoolEvent::CompileOk(total)) => if total > 0 {
            Some(PoolState::Instantiating(0, total))
        } else {
            None
        },
        (PoolState::Compiling, PoolEvent::CompileFailed) => Some(PoolState::Failed),
        (PoolState::Instantiating(done, total), PoolEvent::InstanceOk) => if done + 1 == total {
            Some(PoolState::Ready(total))
        } else {
            Some(PoolState::Instantiating(done + 1, total))
        },
        (PoolState::Instantiating(_, _), PoolEvent::InstanceFailed) => Some(PoolState::Failed),
        _ => None,
    }
}

/// A state that accepts dispatch is `Ready`, and startup reaches it only
/// through the full chain of instance completions.
pub proof fn lemma_ready_needs_all_instances(s: PoolState, e: PoolEvent)
    requires
        pool_state_wf(s),
        spec_pool_step(s, e) matches Some(s2) && accepts_dispatch(s2),
    ensures
        s matches PoolState::Instantiating(done, total) && done + 1 == total,
        e == PoolEvent::InstanceOk,
{
}

/// The instance a worker identity is pinned to: its index modulo the pool
/// size.
pub fn pick_index(worker: usize, pool_len: usize) -> (r: usize)
    requires
        pool_len > 0,
    ensures
        r == worker % pool_len,
        r < pool_len,
{
    worker % pool_len
}

} // verus!
