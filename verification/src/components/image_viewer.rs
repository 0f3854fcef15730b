//! A viewer that shows one image of a list and steps through the list in a
//! circle.

use crate::text::texts;
use vstd::prelude::*;

verus! {

/// The index after `index` in a circle of `len` places.
pub open spec fn next_index_spec(index: nat, len: nat) -> nat {
    if len == 0 {
        index
    } else if index + 1 >= len {
        0
    } else {
        index + 1
    }
}

/// The index before `index` in a circle of `len` places.
pub open spec fn prev_index_spec(index: nat, len: nat) -> nat {
    if len == 0 {
        index
    } else if index == 0 {
        (len - 1) as nat
    } else {
        (index - 1) as nat
    }
}

/// Steps forward in a circle of `len` places; with no places, stays put.
pub fn next_index(index: usize, len: usize) -> (next: usize)
    requires
        len == 0 || index < len,
    ensures
        next == next_index_spec(index as nat, len as nat),
        len > 0 ==> next < len,
{
    if len == 0 {
        index
    } else if index + 1 == len {
        0
    } else {
        index + 1
    }
}

/// Steps backward in a circle of `len` places; with no places, stays put.
pub fn prev_index(index: usize, len: usize) -> (prev: usize)
    requires
        len == 0 || index < len,
    ensures
        prev == prev_index_spec(index as nat, len as nat),
        len > 0 ==> prev < len,
{
    if len == 0 {
        index
    } else if index == 0 {
        len - 1
    } else {
        index - 1
    }
}

/// Stepping forward and then backward, or backward and then forward, comes
/// back to where it started.
pub proof fn lemma_next_prev_inverse(index: nat, len: nat)
    requires
        index < len,
    ensures
        prev_index_spec(next_index_spec(index, len), len) == index,
        next_index_spec(prev_index_spec(index, len), len) == index,
{
}

/// What the viewer shows.
#[derive(Debug, Clone, PartialEq, Eq)]
pub enum ViewerContent {
    /// The image at this path.
    Image(String),
    /// A notice that there is no image to show.
    NoImageData,
}

/// A list of image paths and the place of the one on show.
#[derive(Debug, Clone, PartialEq, Eq)]
pub struct GlassImageViewer {
    images: Vec<String>,
    current_index: usize,
}

impl GlassImageViewer {
    /// The paths of the images, in order.
    pub closed spec fn paths(&self) -> Seq<Seq<char>> {
        texts(self.images@)
    }

    /// The place of the image on show.
    pub closed spec fn index(&self) -> nat {
        self.current_index as nat
    }

    /// A viewer over `images` that shows the one at `current_index`.
    pub fn new(images: Vec<String>, current_index: usize) -> (viewer: Self)
        ensures
            viewer.paths() == texts(images@),
            viewer.index() == current_index,
    {
        GlassImageViewer { images, current_index }
    }

    /// The paths of the images, in order.
    pub fn images(&self) -> (images: &Vec<String>)
        ensures
            texts(images@) == self.paths(),
    {
        &self.images
    }

    /// The place of the image on show.
    pub fn current_index(&self) -> (index: usize)
        ensures
            index == self.index(),
    {
        self.current_index
    }

    /// The image on show, or the notice that there is none where the index
    /// points past the list.
    pub fn view(&self) -> (content: ViewerContent)
        ensures
            match content {
                ViewerContent::Image(path) => self.index() < self.paths().len() && path@
                    == self.paths()[self.index() as int],
                ViewerContent::NoImageData => self.index() >= self.paths().len(),
            },
    {
        if self.current_index < self.images.len() {
            ViewerContent::Image(self.images[self.current_index].clone())
        } else {
            ViewerContent::NoImageData
        }
    }
}

} // verus!
