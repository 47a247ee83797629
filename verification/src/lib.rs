//! An image with a preview at a selectable size.
//!
//! [`preview_size`] holds the sizes a preview can have, their identifiers and
//! the steps between them. [`image`] holds the arithmetic that turns a size
//! into pixel dimensions, and the record of an image and its current preview.
//! Decoding and resampling are left to whoever owns the pixels: the library
//! says what to ask for and files what comes back.

use vstd::prelude::*;

pub mod image;
pub mod preview_size;
