//! Verified core of the stutter tuning actions: action lifecycle model, typed
//! errors, rollback tokens and registry, the per-action validation and planning
//! rules, and the audited runner's phase machine.
pub mod text;
pub mod model;
pub mod error;
pub mod token;
pub mod rollback;
pub mod procfs;
pub mod restore;
pub mod writes;
pub mod tasks;
pub mod ioprio;
pub mod nice;
pub mod cgroup;
pub mod cgroup_verify;
pub mod cgroup_apply;
pub mod cgroup_rollback;
pub mod sysfs;
pub mod cpu_power;
pub mod gpu_power;
pub mod irq_affinity;
pub mod runner;
pub mod cpu_affinity;
pub mod factory;
