//! The rules of the Klave command line: scaffolding a project from a
//! template and building the applications that its manifest declares.
//!
//! The library decides and computes; it reads no file, starts no program and
//! asks no question. Its caller does these things and hands the outcome
//! back: the manifest's text to `manifest`, the answers of the user to
//! `create`, and what came of each action of a build run to `session`.

pub mod create;
pub mod failure;
pub mod git;
pub mod json;
pub mod manifest;
pub mod report;
pub mod session;
pub mod template;
pub mod text;
pub mod toolchain;
