//! A width and a height of any one type.

use vstd::prelude::*;

verus! {

/// A width paired with a height.
pub struct Dimensions<T> {
    width: T,
    height: T,
}

impl<T> Dimensions<T> {
    /// The width held.
    pub closed spec fn width(self) -> T {
        self.width
    }

    /// The height held.
    pub closed spec fn height(self) -> T {
        self.height
    }

    /// Dimensions of the given width and height.
    pub fn new(width: T, height: T) -> (dimensions: Dimensions<T>)
        ensures
            dimensions.width() == width,
            dimensions.height() == height,
    {
        Dimensions { width: width, height: height }
    }

    /// The width, by reference.
    pub fn get_width(&self) -> (width: &T)
        ensures
            *width == self.width(),
    {
        &self.width
    }

    /// Replaces the width and leaves the height.
    pub fn set_width(&mut self, new: T)
        ensures
            final(self).width() == new,
            final(self).height() == old(self).height(),
    {
        self.width = new;
    }

    /// The height, by reference.
    pub fn get_height(&self) -> (height: &T)
        ensures
            *height == self.height(),
    {
        &self.height
    }

    /// Replaces the height and leaves the width.
    pub fn set_height(&mut self, new: T)
        ensures
            final(self).height() == new,
            final(self).width() == old(self).width(),
    {
        self.height = new;
    }
}

} // verus!
