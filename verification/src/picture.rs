//! A decoded picture together with the path it came from.

use crate::status::FileStatus;
use crate::store::{after_resolve, CacheStore};
use image::{DynamicImage, ImageError};
use vstd::prelude::*;

verus! {

/// `image::DynamicImage`, a decoded picture. Nothing of its pixels is
/// visible here: a picture is stored, handed on and copied, never read.
#[verifier::external_type_specification]
#[verifier::external_body]
pub struct ExDynamicImage(DynamicImage);

/// `image::ImageError`, the reason why a decode failed.
#[verifier::external_type_specification]
#[verifier::external_body]
pub struct ExImageError(ImageError);

/// `DynamicImage::clone`, which the crate derives: the copy has the same
/// variant, the same dimensions and the same samples as the picture it
/// was made from.
pub assume_specification[ <DynamicImage as Clone>::clone ](picture: &DynamicImage) -> (copy:
    DynamicImage)
    ensures
        copy == *picture,
;

/// A path and, once it has been decoded, its picture.
#[derive(Clone, PartialEq)]
pub struct ImagePair(pub String, pub Option<DynamicImage>);

impl ImagePair {
    /// The path, as text.
    pub fn path_str(&self) -> (text: &str)
        ensures
            text@ == self.0@,
    {
        self.0.as_str()
    }

    /// A copy of the picture, if there is one.
    pub fn image_clone(&self) -> (picture: Option<DynamicImage>)
        ensures
            picture == self.1,
    {
        match &self.1 {
            Some(picture) => Some(picture.clone()),
            None => None,
        }
    }

    /// A copy of the whole pair, path and picture, for a consumer to keep
    /// while the pair stays where it is.
    pub fn copied(&self) -> (copy: ImagePair)
        ensures
            copy == *self,
    {
        ImagePair(self.0.clone(), self.image_clone())
    }

    /// The picture itself, if there is one, giving up the pair.
    pub fn image(self) -> (picture: Option<DynamicImage>)
        ensures
            picture == self.1,
    {
        self.1
    }
}

/// The outcome of a decode with the reason of a failure put in words, as
/// a store takes it: the words are those that the error displays as.
pub fn describe_outcome(decoded: Result<DynamicImage, ImageError>) -> (outcome: Result<
    DynamicImage,
    String,
>)
    ensures
        decoded matches Ok(picture) ==> outcome == Ok::<DynamicImage, String>(picture),
        decoded matches Err(error) ==> outcome matches Err(words)
            && vstd::string::to_string_from_display_ensures::<ImageError>(&error, words),
{
    match decoded {
        Ok(picture) => Ok(picture),
        Err(reason) => Err(reason.to_string()),
    }
}

/// The outcome of decoding the file at `path`, as the store of a session
/// takes it: the pair of the path and the picture, or the words that the
/// error displays as.
pub fn decoded_pair(path: String, decoded: Result<DynamicImage, ImageError>) -> (outcome: Result<
    ImagePair,
    String,
>)
    ensures
        decoded matches Ok(picture) ==> outcome == Ok::<ImagePair, String>(
            ImagePair(path, Some(picture)),
        ),
        decoded matches Err(error) ==> outcome matches Err(words)
            && vstd::string::to_string_from_display_ensures::<ImageError>(&error, words),
{
    match describe_outcome(decoded) {
        Ok(picture) => Ok(ImagePair(path, Some(picture))),
        Err(words) => Err(words),
    }
}

/// Ends the read of file `idx` with what its decode gave: the slot takes
/// the picture paired with the path of that index, or the words of the
/// error. `paths` are the paths of the session, in the order of the slots.
pub fn resolve_decoded(
    store: &mut CacheStore<ImagePair>,
    paths: &Vec<String>,
    idx: usize,
    decoded: Result<DynamicImage, ImageError>,
)
    requires
        paths@.len() == old(store)@.len(),
        idx < old(store)@.len(),
        old(store)@[idx as int] is Reading,
    ensures
        decoded matches Ok(picture) ==> final(store)@ == after_resolve(
            old(store)@,
            idx as int,
            Ok(ImagePair(paths@[idx as int], Some(picture))),
        ),
        decoded matches Err(error) ==> final(store)@[idx as int] matches FileStatus::Failed(words)
            && vstd::string::to_string_from_display_ensures::<ImageError>(&error, words)
            && final(store)@ == after_resolve(old(store)@, idx as int, Err(words)),
{
    let outcome = decoded_pair(paths[idx].clone(), decoded);
    store.resolve(idx, outcome);
}

} // verus!
