//! From plans to bytecode.

pub mod expr;
pub mod machine;
pub mod program;
pub mod recursive_cte;
pub mod recursive_cte_laws;
pub mod recursive_queue_laws;
pub mod window;
pub mod window_drain_laws;
pub mod window_emit;
pub mod window_emit_laws;
pub mod window_init;
pub mod window_laws;
pub mod window_machine;
pub mod window_lookup;
pub mod window_lookup_laws;
pub mod window_plan;
pub mod window_plan_laws;
pub mod window_planned_laws;
pub mod window_rewrite;
pub mod window_rewrite_laws;
pub mod window_row_laws;
pub mod window_setup_laws;
pub mod window_step;
pub mod window_step_laws;
pub mod window_whole_laws;
