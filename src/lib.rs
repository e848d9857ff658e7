//! Lifecycle coordination and signal framing for a native core that talks
//! to a managed host runtime.

mod shutdown;
mod signal;
mod timer;

pub use signal::{
    lemma_register_replaces, lemma_send_without_channel, lemma_sentinel_round_trip,
    lemma_web_round_trip, pack_bytes, packed, prepare_isolate_extern, restore_bytes,
    restored, send_rust_signal_real, send_rust_signal_extern, DartPost, IsolateRegistry,
    RinfError, Slot, WebPost, fresh_registry, registered, send_target, web_binary,
};
pub use shutdown::{
    after_step, after_steps, background_plan, background_steps, finalizer_plan, fresh_events,
    is_terminal, lemma_finalizer_after_return, lemma_restart_is_fresh, lemma_stop_ends_main_loop,
    lemma_stop_idempotent, keeps_stop, lemma_no_stale_core_stop, leaves_core_running, start_plan,
    start_steps, step_ready, steps_ready, stop_calls, stop_rust_logic_extern,
    ShutdownDropper, ShutdownEvents, Step,
};
pub use timer::{millis_rounded_up, next_timer, total_nanos, MAX_TIMER_MILLIS};
