use vstd::prelude::*;
use crate::error::{AppError, ErrorKind};
use crate::ids::{is_uuid_v4_text, new_id};
use crate::text::{after_last_dot, join2, lowercase, text_after_last_dot, to_lowercase};

verus! {

/// The extension a stored upload keeps: the text after the last dot of the
/// uploaded name (all of it when there is no dot), lowercased.
pub open spec fn extension_of(file_name: Seq<char>) -> Seq<char> {
    lowercase(after_last_dot(file_name))
}

/// The extension of an uploaded file name.
pub fn file_extension(file_name: &str) -> (ext: String)
    ensures
        ext@ == extension_of(file_name@),
{
    let last = text_after_last_dot(file_name);
    to_lowercase(last.as_str())
}

/// The name an upload is stored under: a fresh id, a dot, and the extension
/// of the uploaded name (of `image.jpg` when the upload has no name).
pub fn stored_file_name(file_name: Option<&str>) -> (name: String)
    ensures
        exists|id: Seq<char>|
            is_uuid_v4_text(id) && name@ == id + "."@ + extension_of(
                match file_name {
                    Some(f) => f@,
                    None => "image.jpg"@,
                },
            ),
{
    let given_name = match file_name {
        Some(f) => f,
        None => "image.jpg",
    };
    let ext = file_extension(given_name);
    let id = new_id();
    let mut name = join2(id.as_str(), ".");
    name.append(ext.as_str());
    assert(name@ == id@ + "."@ + extension_of(given_name@));
    name
}

/// The directory product images are stored in, under the upload directory.
pub fn products_dir(upload_dir: &str) -> (dir: String)
    ensures
        dir@ == upload_dir@ + "/products"@,
{
    join2(upload_dir, "/products")
}

/// The path a stored image is written to.
pub fn save_path(dir: &str, stored_name: &str) -> (path: String)
    ensures
        path@ == dir@ + "/"@ + stored_name@,
{
    let mut p = join2(dir, "/");
    p.append(stored_name);
    p
}

/// The URL a stored product image is served at.
pub fn image_url(stored_name: &str) -> (url: String)
    ensures
        url@ == "/uploads/products/"@ + stored_name@,
{
    join2("/uploads/products/", stored_name)
}

/// The URL of the uploaded image, or a refusal when the form held no file.
pub fn require_upload(url: Option<String>) -> (r: Result<String, AppError>)
    ensures
        match url {
            Some(u) => r == Ok::<String, AppError>(u),
            None => r matches Err(e) && e@ == (
                ErrorKind::BadRequest,
                "File tidak ditemukan dalam form upload"@,
            ),
        },
{
    match url {
        Some(u) => Ok(u),
        None => Err(AppError::from_text(ErrorKind::BadRequest, "File tidak ditemukan dalam form upload")),
    }
}

} // verus!
