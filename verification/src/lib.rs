//! Test metadata: how the tests of a project are to be run.
//!
//! A project declares, in a configuration file, the container in which its
//! tests run: the layers of its filesystem, its mounts, its environment, its
//! user and its network; and, in directives, which tests a container is for.
//! This library decodes such declarations, given as a tree of values, into
//! directives and containers, and refuses the declarations that break the
//! rules: a field set twice, a field with two sources, a replacing field
//! after its appending sibling, a mount over the root directory.
//!
//! - [`value`] is the tree of values that a declaration is loaded into.
//! - [`decode`] and [`record`] decode single values, arrays and tables.
//! - [`mount`], [`layer`], [`image`] and [`environment`] are the parts of a
//!   container, each with its decoder.
//! - [`container`] is the container specification and the builder that
//!   assembles it field by field; [`directive`] is the directive around it.
//! - [`error`] and [`message`] are the errors and their text.
//! - [`laws`] states what holds of every declaration that is accepted.
//! - [`cargo`] and [`pytest`] compute what surrounds a run of the tools
//!   that build and collect the tests.

pub mod cargo;
pub mod container;
pub mod decode;
pub mod directive;
pub mod environment;
pub mod error;
pub mod image;
pub mod laws;
pub mod layer;
pub mod message;
pub mod mount;
pub mod pytest;
pub mod record;
pub mod value;
