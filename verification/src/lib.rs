//! The logic of a profiler for perf recordings.
//!
//! One half turns the records of a recording into a profile: [`converter`]
//! holds the state of a conversion, [`samples`], [`threads`] and [`mappings`]
//! handle the records, [`kernel_modules`] and [`user_modules`] add mapped
//! files, and [`laws`] and [`memory_laws`] state what holds of every conversion.
//! The other half finds the files that hold the symbols of libraries:
//! [`library_info`] keeps what is known of them, [`candidates`] and [`helper`]
//! say where to look.
//!
//! What the single operations do is stated once more, in terms of their inputs
//! and results alone: [`stack_laws`], [`account_laws`], [`sample_laws`],
//! [`thread_laws`] and [`mapping_laws`] speak of the records of a recording,
//! [`file_laws`] of object files, [`symbol_laws`] of the places of symbols,
//! [`text_laws`] of paths and [`view_laws`] of the contents of values.

pub mod account_laws;
pub mod candidates;
pub mod context_switch;
pub mod converter;
pub mod dso;
pub mod file_laws;
pub mod helper;
pub mod ids;
pub mod jit;
pub mod kernel_modules;
pub mod keyed;
pub mod laws;
pub mod library_info;
pub mod mapping_laws;
pub mod mappings;
pub mod memory_laws;
pub mod modules;
pub mod object_file;
pub mod pe_mappings;
pub mod processes;
pub mod profile;
pub mod sample_laws;
pub mod samples;
pub mod stack;
pub mod stack_laws;
pub mod symbol_laws;
pub mod text;
pub mod text_laws;
pub mod thread_laws;
pub mod threads;
pub mod user_modules;
pub mod view_laws;
pub mod zstd;
