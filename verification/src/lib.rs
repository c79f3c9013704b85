//! The logic of a small image viewer.
//!
//! The viewer shows one picture of a list at a time, scaled so that it keeps
//! its proportions in a window of any shape, and shows it again when the
//! file behind it changes. This library holds what the viewer decides and
//! computes; the window, the graphics card and the file system are the
//! business of the program around it, which hands in what it found and
//! carries out what comes back.
//!
//! - [`aspect`]: the scale that fits a picture into a window, as exact
//!   fractions.
//! - [`signature`]: what is recorded of a file to notice that it changed.
//! - [`texture`], [`image_renderer`], [`stable_renderer`]: what is known of
//!   the picture on the graphics card and of the quad it is drawn on.
//! - [`state`], [`viewer`]: the viewer's state, and the steps it takes on
//!   keys, time, and news of the current picture's file.
//! - [`listing`]: which files of a directory are pictures.
//! - [`decimal`]: numbers in the window's title.
//! - [`shader`]: shader stages, shader objects and programs.
//! - [`error`]: what the viewer refuses.

pub mod aspect;
pub mod decimal;
pub mod error;
pub mod image_renderer;
pub mod listing;
pub mod shader;
pub mod signature;
pub mod stable_renderer;
pub mod state;
pub mod texture;
pub mod viewer;
