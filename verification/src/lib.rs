//! Core rules of a desktop coding assistant's backend: language toolchains,
//! the build-and-run pipeline, the shell emulator's directory handling, the
//! inference server's lifecycle and the prompt and answer formats.
//!
//! The library decides and the embedding application acts: it writes the
//! files, launches the programs and makes the requests that the returned
//! plans describe, and reports what came of them.
//!
//! - [`toolchain`]: the supported languages and their recipes
//! - [`execution`]: the session directory, executions and shell commands
//! - [`llm`]: the inference server, its files, prompts and replies
//! - [`archive`]: unpacking the server bundle
//! - [`json`]: access to JSON documents
//! - [`invocation`]: descriptions of programs to launch
//! - [`text`]: trimming, case folding and search on strings
//! - [`commands`]: values of the project and file commands

pub mod archive;
pub mod commands;
pub mod execution;
pub mod invocation;
pub mod json;
pub mod llm;
pub mod text;
pub mod toolchain;
