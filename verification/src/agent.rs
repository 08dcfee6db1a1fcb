//! Supervision of the worker: what each step of it decides.
pub mod absence;
pub mod apply;
pub mod apply_laws;
pub mod change_runs;
pub mod configuration;
pub mod controller;
pub mod inventory;
pub mod inventory_laws;
pub mod maintenance;
pub mod maintenance_runs;
pub mod owner;
pub mod owner_laws;
pub mod relocation;
pub mod request_laws;
pub mod review;
pub mod review_laws;
pub mod routine_runs;
pub mod routines;
pub mod saves;
pub mod seen_laws;
pub mod settings_laws;
pub mod steps;
pub mod storage_operations;
pub mod storage_saves;
pub mod tick;
pub mod tick_runs;
pub mod work;
pub mod work_laws;
