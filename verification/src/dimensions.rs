//! The sizes that a block of text may take, by what else a notification
//! shows.

use vstd::prelude::*;

verus! {

/// A range, given by its two ends.
#[derive(Clone, Copy, Debug, PartialEq, Eq, Structural)]
pub struct MinMax {
    pub min: i32,
    pub max: i32,
}

/// The range of widths and the range of heights of a block of text. The two
/// do not depend on each other.
#[derive(Clone, Copy, Debug, PartialEq, Eq, Structural)]
pub struct TextDimensions {
    pub width: MinMax,
    pub height: MinMax,
}

/// The four sizes of a block of text, one for each combination of images
/// that a notification may carry.
#[derive(Clone, Copy, Debug, PartialEq, Eq, Structural)]
pub struct TextDimensionVariants {
    /// For a notification without an image.
    pub dimensions: TextDimensions,
    /// For a notification with a hint image only.
    pub dimensions_image_hint: TextDimensions,
    /// For a notification with an application icon only.
    pub dimensions_image_app: TextDimensions,
    /// For a notification with both.
    pub dimensions_image_both: TextDimensions,
}

/// What the choice of a size reads of a notification.
#[derive(Clone, Copy, Debug, PartialEq, Eq, Structural)]
pub struct Notification {
    /// Whether the notification carries an application icon.
    pub has_app_image: bool,
    /// Whether the notification carries a hint image.
    pub has_hint_image: bool,
}

impl Default for MinMax {
    fn default() -> (range: MinMax)
        ensures
            range == (MinMax { min: 0, max: 0 }),
    {
        MinMax { min: 0, max: 0 }
    }
}

impl Default for TextDimensions {
    fn default() -> (dimensions: TextDimensions)
        ensures
            dimensions == (TextDimensions {
                width: MinMax { min: 0, max: 0 },
                height: MinMax { min: 0, max: 0 },
            }),
    {
        TextDimensions { width: MinMax { min: 0, max: 0 }, height: MinMax { min: 0, max: 0 } }
    }
}

impl TextDimensionVariants {
    /// The size for a notification, by the images it carries. Exactly one
    /// of the four cases holds.
    pub open spec fn selected(self, has_app_image: bool, has_hint_image: bool) -> TextDimensions {
        match (has_app_image, has_hint_image) {
            (true, true) => self.dimensions_image_both,
            (true, false) => self.dimensions_image_app,
            (false, true) => self.dimensions_image_hint,
            (false, false) => self.dimensions,
        }
    }

    /// The size for `notification`.
    pub fn get_dimensions(&self, notification: &Notification) -> (dimensions: &TextDimensions)
        ensures
            *dimensions == self.selected(notification.has_app_image, notification.has_hint_image),
    {
        match (notification.has_app_image, notification.has_hint_image) {
            (true, true) => &self.dimensions_image_both,
            (true, false) => &self.dimensions_image_app,
            (false, true) => &self.dimensions_image_hint,
            (false, false) => &self.dimensions,
        }
    }
}

} // verus!
