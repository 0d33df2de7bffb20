//! The retained-mode render contract a backend is expected to offer.
//!
//! Nothing in the core implements it yet: it is the declared seam where
//! a drawing backend will plug in.

use vstd::prelude::*;

verus! {

/// A backend that can draw the basic widget primitives.
pub trait Renderer {
    /// Draw a run of text.
    fn render_text(&self, text: &str);

    /// Draw the image stored at `path`.
    fn render_image(&self, path: &str);

    /// Draw a button carrying `label`.
    fn render_button(&self, label: &str);
}

} // verus!
