//! Rules and scripts of the end-to-end smoketest harness.

pub mod activation;
pub mod activation_laws;
pub mod bridge;
pub mod bridge_dump;
pub mod case_laws;
pub mod case_plan;
pub mod case_run;
pub mod cli;
pub mod config;
pub mod detail_laws;
pub mod display_laws;
pub mod driver;
pub mod dump;
pub mod error;
pub mod fake_flow;
pub mod focus_guard;
pub mod focus_test;
pub mod frame_laws;
pub mod frames;
pub mod fullscreen;
pub mod harness_laws;
pub mod helper_window;
pub mod hide_case;
pub mod hide_test;
pub mod judging_laws;
pub mod link_laws;
pub mod orchestrator;
pub mod place_support;
pub mod plan_laws;
pub mod proc_registry;
pub mod process;
pub mod raise_test;
pub mod repeat;
pub mod results;
pub mod run_laws;
pub mod scenario;
pub mod scenario_run;
pub mod start_laws;
pub mod timed_look;
pub mod ui_case;
pub mod walk_laws;
pub mod windows;
pub mod world_case;
