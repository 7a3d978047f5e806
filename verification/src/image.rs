//! What an image's response says about the file to store it in.

use crate::errors::Error;
use crate::text::{chars_of, lowered, lowered_is, remove_all, text_of, without_all};
use vstd::prelude::*;

verus! {

/// What a content type loses before its subtype is read.
pub const MEDIA_TYPE_PREFIX: &'static str = "image/";

/// The extension of an image that came without a content type.
pub const DEFAULT_EXTENSION: &'static str = "jpg";

/// The subtype that a content type names: the content type without every
/// `image/`, in lower case. Lowering ASCII capitals is all that it takes: no
/// other character has a lower-case form that occurs in a known subtype.
pub open spec fn subtype_of(content_type: Seq<char>) -> Seq<char> {
    lowered(without_all(content_type, MEDIA_TYPE_PREFIX@))
}

/// The file extension that goes with a subtype: `jpg` for `jpeg`; `jpg`, `png`,
/// `gif`, `bmp` and `webp` for themselves; none for any other.
pub open spec fn known_extension(subtype: Seq<char>) -> Option<Seq<char>> {
    if subtype == "jpeg"@ {
        Some("jpg"@)
    } else if subtype == "jpg"@ || subtype == "png"@ || subtype == "gif"@ || subtype == "bmp"@
        || subtype == "webp"@ {
        Some(subtype)
    } else {
        None
    }
}

/// The file extension of an image that was sent under `content_type`, if it has
/// one. A missing content type stands for `DEFAULT_EXTENSION`.
pub open spec fn extension_of(content_type: Option<Seq<char>>) -> Option<Seq<char>> {
    match content_type {
        Some(ct) => known_extension(subtype_of(ct)),
        None => Some(DEFAULT_EXTENSION@),
    }
}

/// The name of the file that holds the image `pic_id` of extension `ext`.
pub open spec fn file_name_view(pic_id: Seq<char>, ext: Seq<char>) -> Seq<char> {
    pic_id + "."@ + ext
}

/// No extension is made up: whatever the content type, an image's extension is
/// one of the five that are known.
pub proof fn lemma_extension_is_known(content_type: Option<Seq<char>>)
    ensures
        extension_of(content_type) matches Some(ext) ==> ext == "jpg"@ || ext == "png"@ || ext
            == "gif"@ || ext == "bmp"@ || ext == "webp"@,
{
}

/// The file extension that goes with the subtype `subtype`, which is in any mix
/// of upper and lower case.
fn extension_for(subtype: &[char]) -> (ext: Option<String>)
    ensures
        match known_extension(lowered(subtype@)) {
            Some(e) => ext matches Some(s) && s@ == e,
            None => ext is None,
        },
{
    if lowered_is(subtype, chars_of("jpeg").as_slice()) {
        Some("jpg".to_owned())
    } else if lowered_is(subtype, chars_of("jpg").as_slice()) {
        Some("jpg".to_owned())
    } else if lowered_is(subtype, chars_of("png").as_slice()) {
        Some("png".to_owned())
    } else if lowered_is(subtype, chars_of("gif").as_slice()) {
        Some("gif".to_owned())
    } else if lowered_is(subtype, chars_of("bmp").as_slice()) {
        Some("bmp".to_owned())
    } else if lowered_is(subtype, chars_of("webp").as_slice()) {
        Some("webp".to_owned())
    } else {
        None
    }
}

/// The file extension of an image that was sent under `content_type`. A content
/// type that names no known extension is an error, never a guess.
pub fn image_extension(content_type: Option<&str>) -> (res: Result<String, Error>)
    ensures
        match extension_of(text_of(content_type)) {
            Some(e) => res matches Ok(ext) && ext@ == e,
            None => res matches Err(Error::UnrecognizedFormat(t)) && Some(t@) == text_of(
                content_type,
            ),
        },
{
    match content_type {
        Some(ct) => {
            let text = chars_of(ct);
            let prefix = chars_of(MEDIA_TYPE_PREFIX);
            let subtype = remove_all(text.as_slice(), prefix.as_slice());
            match extension_for(subtype.as_slice()) {
                Some(ext) => Ok(ext),
                None => Err(Error::UnrecognizedFormat(ct.to_owned())),
            }
        },
        None => Ok(DEFAULT_EXTENSION.to_owned()),
    }
}

/// The name of the file that holds the image `pic_id` of extension `ext`.
pub fn file_name(pic_id: &str, ext: &str) -> (name: String)
    ensures
        name@ == file_name_view(pic_id@, ext@),
{
    let mut name = pic_id.to_owned();
    name.append(".");
    name.append(ext);
    name
}

} // verus!
