//! A breadth-first crawling engine: the frontier that deduplicates URLs, the
//! decisions of the control loop and of the fetch workers, the error taxonomy
//! shared by spiders and engine, and the link logic of the bundled spiders.

mod text;
pub mod frontier;
pub mod error;
pub mod crawler;
pub mod spiders;
pub mod pages;
pub mod registry;
