//! The core of an image annotation tool: an annotator steps through the images
//! of a folder, marks each one correct or incorrect, may give a reason for an
//! incorrect label, and exports the labels to a store keyed by folder.
//!
//! The crate holds the workflow state machine, the annotation store and the
//! rules for scanning a folder and accepting an image file. Windows, dialogs
//! and files belong to the shell around it: the shell hands in plain values
//! and performs the actions the state machine asks for.

mod clock;
pub mod export;
pub mod image;
pub mod message;
pub mod page;
pub mod record;
pub mod render;
pub mod scanner;
pub mod step;
pub mod steps;
pub mod store;
pub mod visualizer;
pub mod workflow;
