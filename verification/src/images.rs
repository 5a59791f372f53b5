//! Images as the console shows them, and the test for an image by name.

use vstd::prelude::*;
use crate::text::text_eq;

verus! {

/// An image of the engine.
#[derive(Debug, Clone, PartialEq, Eq)]
pub struct ImageInfo {
    pub id: String,
    /// Every `repository:tag` under which the image is known.
    pub repo_tags: Vec<String>,
    /// Size in bytes.
    pub size: i64,
    /// Seconds since the epoch.
    pub created: i64,
}

/// Whether `name` is, character for character, one of the tags of `image`.
pub open spec fn is_tagged(image: ImageInfo, name: Seq<char>) -> bool {
    exists|j: int| 0 <= j < image.repo_tags@.len() && (#[trigger] image.repo_tags@[j])@ == name
}

/// Whether some image has `name`, character for character, among its tags.
pub open spec fn some_image_tagged(images: Seq<ImageInfo>, name: Seq<char>) -> bool {
    exists|i: int| 0 <= i < images.len() && is_tagged(#[trigger] images[i], name)
}

/// Whether `name` is one of the tags of `image`.
pub fn image_has_tag(image: &ImageInfo, name: &str) -> (r: bool)
    ensures
        r == is_tagged(*image, name@),
{
    let n = image.repo_tags.len();
    let mut j: usize = 0;
    while j < n
        invariant
            n == image.repo_tags.len(),
            j <= n,
            forall|k: int| 0 <= k < j ==> (#[trigger] image.repo_tags@[k])@ != name@,
        decreases n - j,
    {
        if text_eq(image.repo_tags[j].as_str(), name) {
            return true;
        }
        j += 1;
    }
    false
}

/// Whether an image named `image_name` exists: some image of the list has
/// exactly this text among its tags. A repository without its tag, or a tag
/// alone, matches nothing.
pub fn check_image_exists(images: &Vec<ImageInfo>, image_name: &str) -> (r: bool)
    ensures
        r == some_image_tagged(images@, image_name@),
{
    let n = images.len();
    let mut i: usize = 0;
    while i < n
        invariant
            n == images.len(),
            i <= n,
            forall|k: int| 0 <= k < i ==> !is_tagged(#[trigger] images@[k], image_name@),
        decreases n - i,
    {
        if image_has_tag(&images[i], image_name) {
            return true;
        }
        i += 1;
    }
    false
}

} // verus!
