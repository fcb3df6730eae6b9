//! Scaffolding pipeline for a minimal Vite + React + TypeScript template:
//! validates a project name, plans the fixed, ordered list of file mutations
//! that strips the template's boilerplate and installs a Tailwind setup, and
//! runs that plan against an in-memory model of the generated directory tree.

pub mod bytes;
pub mod cli;
pub mod name;
pub mod pipeline;
pub mod steps;
pub mod tree;
