//! A cooperatively scheduled task kernel, stated and checked as a model.
//!
//! The crate models the core of a lightweight task runtime: the task cell
//! with its atomic lifecycle flags, the karx handle with identity and
//! task-local storage, the join handle, the FIFO run-loop for non-blocking
//! work, and the sizing policy of the pool that drives blocking work.
//! Everything that decides — the state machine, the queues, the counters —
//! is here, with contracts; the threads, channels and wakers that carry
//! those decisions live outside the library and drive it step by step.

mod block;
mod builder;
mod cell;
mod current;
mod fairness;
mod karx;
mod kernel;
mod lifecycle;
mod local;
mod spawn;
mod state;
mod timer;
mod yield_now;

pub use block::apply_pool_event;
pub use block::block;
pub use block::lemma_pool_always_has_sleeper;
pub use block::pool_run;
pub use block::spec_after_batch;
pub use block::spec_on_dequeue;
pub use block::spec_on_timeout;
pub use block::PoolEvent;
pub use block::PoolState;
pub use block::WorkerStep;
pub use builder::Builder;
pub use builder::Runnable;
pub use cell::detach_cell;
pub use cell::finish_cell;
pub use cell::join_cell;
pub use cell::run_start_cell;
pub use cell::JoinWait;
pub use cell::PollOutcome;
pub use cell::RunReport;
pub use cell::TaskCell;
pub use current::current;
pub use current::task_local_get;
pub use current::task_local_set;
pub use current::try_current;
pub use current::CurrentContext;
pub use fairness::completion_order;
pub use fairness::lemma_run_to_completion_is_fifo;
pub use fairness::lemma_yield_round_is_fifo;
pub use fairness::task_ids;
pub use fairness::total_polls;
pub use fairness::wf_queue;
pub use karx::issued_ids;
pub use karx::lemma_issued_ids_distinct;
pub use karx::IdCounter;
pub use karx::Inner;
pub use karx::Karx;
pub use karx::KarxId;
pub use karx::KarxRegistry;
pub use karx::MAX_KARX_ID;
pub use kernel::JoinKarx;
pub use kernel::Kernel;
pub use lifecycle::lemma_detach_never_stops_spawned_work;
pub use lifecycle::lemma_detach_preserves_scheduled_work;
pub use lifecycle::lemma_join_on_panicked_always_fails;
pub use lifecycle::lemma_panicked_task_fails_await;
pub use lifecycle::lemma_spawn_await_yields_value;
pub use local::lookup;
pub use local::AccessError;
pub use local::LocalKey;
pub use local::LocalsMap;
pub use spawn::spawn;
pub use state::lemma_wake_coalesces;
pub use state::on_handle_drop;
pub use state::on_poll_complete;
pub use state::on_poll_pending;
pub use state::on_run_start;
pub use state::on_wake;
pub use state::spec_on_handle_drop;
pub use state::spec_on_join_pending;
pub use state::spec_on_join_take;
pub use state::spec_on_poll_complete;
pub use state::spec_on_poll_pending;
pub use state::spec_on_run_start;
pub use state::spec_on_wake;
pub use state::RunStart;
pub use state::TaskState;
pub use timer::delay;
pub use timer::delay_for;
pub use timer::ms;
pub use timer::spec_ms;
pub use timer::Delay;
pub use timer::Dur;
pub use timer::Round;
pub use timer::MILLIS_PER_SEC;
pub use timer::NANOS_PER_MILLI;
pub use yield_now::yield_now;
pub use yield_now::YieldNow;
