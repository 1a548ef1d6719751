//! Uploaded images: stored names, paths and media types.

use vstd::prelude::*;
use vstd::string::StringExecFns;
use crate::error::AppError;
use crate::paths::{extension, extension_of, is_safe_relative, safe_relative};
use crate::text::text_eq;
use crate::token::new_token;

verus! {

/// The media type under which an image file named `name` is served.
pub open spec fn content_type_of(name: Seq<char>) -> Seq<char> {
    match extension_of(name) {
        Some(e) => if e == "jpg"@ || e == "jpeg"@ {
            "image/jpeg"@
        } else if e == "png"@ {
            "image/png"@
        } else if e == "gif"@ {
            "image/gif"@
        } else {
            "application/octet-stream"@
        },
        None => "application/octet-stream"@,
    }
}

/// The stored name of an uploaded image: its random identifier `id`, a dot,
/// and the extension of the name it was uploaded under (empty where that
/// has none).
pub open spec fn stored_image_name(id: Seq<char>, uploaded: Seq<char>) -> Seq<char> {
    id + "."@ + match extension_of(uploaded) {
        Some(e) => e,
        None => Seq::empty(),
    }
}

/// The media type under which the image file `filename` is served.
pub fn get_content_type(filename: &str) -> (r: String)
    ensures
        r@ == content_type_of(filename@),
{
    let ext = extension(filename);
    match ext {
        Some(e) => {
            let e = e.as_str();
            if text_eq(e, "jpg") || text_eq(e, "jpeg") {
                String::from_str("image/jpeg")
            } else if text_eq(e, "png") {
                String::from_str("image/png")
            } else if text_eq(e, "gif") {
                String::from_str("image/gif")
            } else {
                String::from_str("application/octet-stream")
            }
        },
        None => String::from_str("application/octet-stream"),
    }
}

/// The stored name of an image uploaded under the name `uploaded`, given
/// its random identifier `id`.
pub fn image_name(id: &str, uploaded: &str) -> (r: String)
    ensures
        r@ == stored_image_name(id@, uploaded@),
{
    let base = String::from_str(id).concat(".");
    match extension(uploaded) {
        Some(e) => base.concat(e.as_str()),
        None => {
            assert(base@ =~= base@ + Seq::<char>::empty());
            base
        },
    }
}

/// The stored name of an upload: the first form field must be `image` and
/// carry a file name; its stored name is then made of `id` and that name's
/// extension. Fails with `ParameterError` otherwise.
pub fn upload_name(field_name: &str, file_name: Option<&str>, id: &str) -> (r: Result<
    String,
    AppError,
>)
    ensures
        field_name@ != "image"@ ==> r == Err::<String, AppError>(AppError::ParameterError),
        field_name@ == "image"@ ==> match file_name {
            None => r == Err::<String, AppError>(AppError::ParameterError),
            Some(f) => r matches Ok(n) && n@ == stored_image_name(id@, f@),
        },
{
    if !text_eq(field_name, "image") {
        return Err(AppError::ParameterError);
    }
    match file_name {
        None => Err(AppError::ParameterError),
        Some(f) => Ok(image_name(id, f)),
    }
}

/// The stored name of an upload under a fresh random identifier. Fails as
/// `upload_name` does.
pub fn new_upload_name(field_name: &str, file_name: Option<&str>) -> (r: Result<String, AppError>)
    ensures
        field_name@ != "image"@ ==> r == Err::<String, AppError>(AppError::ParameterError),
        field_name@ == "image"@ ==> match file_name {
            None => r == Err::<String, AppError>(AppError::ParameterError),
            Some(f) => r matches Ok(n) && exists|id: Seq<char>| n@ == stored_image_name(id, f@),
        },
{
    let id = new_token();
    upload_name(field_name, file_name, id.as_str())
}

/// The store's path of the image file `name`. Fails with `ParameterError`
/// where `name` is not a single plain segment.
pub fn image_path(name: &str) -> (r: Result<String, AppError>)
    ensures
        is_safe_relative(name@) && !name@.contains('/') ==> (r matches Ok(p) && p@ == "images/"@
            + name@),
        !(is_safe_relative(name@) && !name@.contains('/')) ==> r == Err::<String, AppError>(
            AppError::ParameterError,
        ),
{
    if !safe_relative(name) {
        return Err(AppError::ParameterError);
    }
    match crate::paths::find_last(name, '/') {
        Some(k) => {
            proof {
                crate::paths::lemma_last_of_bounds(name@, '/');
                assert(name@[k as int] == '/');
            }
            Err(AppError::ParameterError)
        },
        None => {
            proof {
                crate::paths::lemma_last_of_bounds(name@, '/');
                assert(!name@.contains('/'));
            }
            Ok(String::from_str("images/").concat(name))
        },
    }
}

} // verus!
