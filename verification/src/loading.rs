//! Turning what storage hands over into shader text and decoded images.
//!
//! Opening and reading files is the caller's business. The caller reports how
//! that went as a [`RawFile`]; the functions here decide what the bytes are
//! worth and which [`ResourceLoadError`] a failure amounts to.

use vstd::prelude::*;
use vstd::utf8::decode_utf8;
use vstd::utf8::valid_utf8;

verus! {

/// The ways in which loading a resource can fail.
#[derive(Debug, Clone, Copy, PartialEq, Eq, Structural)]
pub enum ResourceLoadError {
    /// The file was opened but does not hold readable text.
    FileReadFailure,
    /// The file could not be opened.
    FileNotFound,
    /// The resource as a whole could not be made sense of.
    ParsingError,
}

/// What the storage layer reports for one path.
#[derive(Debug, PartialEq, Eq)]
pub enum RawFile {
    /// The path could not be opened.
    Unopened,
    /// The file was opened, but reading it broke off.
    Unread,
    /// The file's whole content.
    Bytes(Vec<u8>),
}

/// The text that a fetched file holds, or the reason it holds none: a file
/// that could not be opened is not found, and one that broke off or is not
/// UTF-8 is a read failure.
pub open spec fn file_text(file: RawFile) -> Result<Seq<char>, ResourceLoadError> {
    match file {
        RawFile::Unopened => Err(ResourceLoadError::FileNotFound),
        RawFile::Unread => Err(ResourceLoadError::FileReadFailure),
        RawFile::Bytes(bytes) => if valid_utf8(bytes@) {
            Ok(decode_utf8(bytes@))
        } else {
            Err(ResourceLoadError::FileReadFailure)
        },
    }
}

/// The shader pair that two fetched files hold. Whatever went wrong with
/// either file, the pair as a whole is reported as unparsable.
pub open spec fn shader_text(vertex: RawFile, fragment: RawFile) -> Result<
    (Seq<char>, Seq<char>),
    ResourceLoadError,
> {
    match (file_text(vertex), file_text(fragment)) {
        (Ok(vsrc), Ok(fsrc)) => Ok((vsrc, fsrc)),
        _ => Err(ResourceLoadError::ParsingError),
    }
}

/// `String::from_utf8` of the standard library: it hands the bytes back as a
/// string exactly when they are well-formed UTF-8, and the string then holds
/// the characters that those bytes encode.
#[verifier::external_body]
fn utf8_text(bytes: Vec<u8>) -> (text: Option<String>)
    ensures
        text is Some <==> valid_utf8(bytes@),
        text is Some ==> text->Some_0@ == decode_utf8(bytes@),
{
    match String::from_utf8(bytes) {
        Ok(text) => Some(text),
        Err(_) => None,
    }
}

/// Reads a fetched file as text.
pub fn read_file(file: RawFile) -> (text: Result<String, ResourceLoadError>)
    ensures
        file_text(file) is Ok ==> text is Ok && text->Ok_0@ == file_text(file)->Ok_0,
        file_text(file) is Err ==> text is Err && text->Err_0 == file_text(file)->Err_0,
{
    match file {
        RawFile::Unopened => Err(ResourceLoadError::FileNotFound),
        RawFile::Unread => Err(ResourceLoadError::FileReadFailure),
        RawFile::Bytes(bytes) => match utf8_text(bytes) {
            Some(text) => Ok(text),
            None => Err(ResourceLoadError::FileReadFailure),
        },
    }
}

/// Reads the two files of a shader pair as text, vertex stage first.
pub fn load_shader(vertex: RawFile, fragment: RawFile) -> (sources: Result<
    (String, String),
    ResourceLoadError,
>)
    ensures
        shader_text(vertex, fragment) is Ok ==> sources is Ok
            && sources->Ok_0.0@ == shader_text(vertex, fragment)->Ok_0.0
            && sources->Ok_0.1@ == shader_text(vertex, fragment)->Ok_0.1,
        shader_text(vertex, fragment) is Err ==> sources is Err
            && sources->Err_0 == ResourceLoadError::ParsingError,
{
    match (read_file(vertex), read_file(fragment)) {
        (Ok(vsrc), Ok(fsrc)) => Ok((vsrc, fsrc)),
        _ => Err(ResourceLoadError::ParsingError),
    }
}

/// A decoded image of the `image` crate. Nothing here looks inside one.
#[verifier::external_type_specification]
#[verifier::external_body]
pub struct ExDynamicImage(image::DynamicImage);

/// The `image` crate's account of why a format or an image was not accepted.
#[verifier::external_type_specification]
#[verifier::external_body]
pub struct ExImageError(image::ImageError);

/// One of the encodings that the `image` crate tells apart.
#[verifier::external_type_specification]
#[verifier::external_body]
pub struct ExImageFormat(image::ImageFormat);

/// The encoding that the `image` crate reads off a path's extension, or its
/// refusal where the path has no extension or one it does not know.
pub uninterp spec fn path_format(path: Seq<char>) -> Result<image::ImageFormat, image::ImageError>;

/// `ImageFormat::from_path` of the `image` crate. It looks at nothing but the
/// text of the path, so equal paths get equal answers.
#[verifier::external_body]
fn format_from_path(path: &str) -> (format: Result<image::ImageFormat, image::ImageError>)
    ensures
        format == path_format(path@),
{
    image::ImageFormat::from_path(path)
}

/// What the `image` crate's decoder makes of `bytes` read as `format`: the
/// image, or its refusal.
pub uninterp spec fn decoded_image(bytes: Seq<u8>, format: image::ImageFormat) -> Result<image::DynamicImage, image::ImageError>;

/// `image::load_from_memory_with_format` of the `image` crate. With the
/// encoding given outright it consults nothing but the bytes: no disk, no
/// registered hook, no environment, and limits that are fixed. Its PNG and
/// JPEG codecs compute in whole numbers whichever processor routines they
/// pick, so equal bytes read as the same encoding get equal answers.
#[verifier::external_body]
fn decode_as(bytes: &[u8], format: image::ImageFormat) -> (decoded: Result<
    image::DynamicImage,
    image::ImageError,
>)
    ensures
        decoded == decoded_image(bytes@, format),
{
    image::load_from_memory_with_format(bytes, format)
}

/// Keeps what a step produced and reports any failure of it as unparsable
/// input, whatever the step itself had to say about the cause.
pub fn parsed<T, E>(outcome: Result<T, E>) -> (kept: Result<T, ResourceLoadError>)
    ensures
        outcome is Ok ==> kept == Ok::<T, ResourceLoadError>(outcome->Ok_0),
        outcome is Err ==> kept == Err::<T, ResourceLoadError>(ResourceLoadError::ParsingError),
{
    match outcome {
        Ok(value) => Ok(value),
        Err(_) => Err(ResourceLoadError::ParsingError),
    }
}

/// Settles what the decoder is to be given for a fetched file: the file's
/// bytes, untouched, and the encoding that the extension of `path` names.
///
/// There is something to decode exactly when the file was fetched whole and
/// the extension names a known encoding. Either lack is reported as
/// unparsable input.
pub fn image_request(path: &str, file: RawFile) -> (request: Result<
    (Vec<u8>, image::ImageFormat),
    ResourceLoadError,
>)
    ensures
        request is Ok <==> file is Bytes && path_format(path@) is Ok,
        request is Ok ==> request->Ok_0.0@ == file->Bytes_0@,
        request is Ok ==> request->Ok_0.1 == path_format(path@)->Ok_0,
        request is Err ==> request->Err_0 == ResourceLoadError::ParsingError,
{
    match file {
        RawFile::Bytes(bytes) => match format_from_path(path) {
            Ok(format) => Ok((bytes, format)),
            Err(_) => Err(ResourceLoadError::ParsingError),
        },
        _ => Err(ResourceLoadError::ParsingError),
    }
}

/// The image that a fetched file holds under the name `path`, or the one
/// failure there is: a file that was not fetched whole, an extension that
/// names no known encoding and bytes that the decoder turns down are all
/// unparsable input.
pub open spec fn image_loaded(path: Seq<char>, file: RawFile) -> Result<
    image::DynamicImage,
    ResourceLoadError,
> {
    match file {
        RawFile::Bytes(bytes) => match path_format(path) {
            Ok(format) => match decoded_image(bytes@, format) {
                Ok(image) => Ok(image),
                Err(_) => Err(ResourceLoadError::ParsingError),
            },
            Err(_) => Err(ResourceLoadError::ParsingError),
        },
        _ => Err(ResourceLoadError::ParsingError),
    }
}

/// Decodes a fetched file as an image in the encoding that the extension of
/// `path` names.
///
/// Loading succeeds exactly when the file was fetched whole, the extension
/// names a known encoding and the decoder accepts the bytes as that
/// encoding; the image is then the decoder's. Every failure is reported as
/// unparsable input.
pub fn load_image(path: &str, file: RawFile) -> (loaded: Result<
    image::DynamicImage,
    ResourceLoadError,
>)
    ensures
        loaded == image_loaded(path@, file),
        loaded is Ok <==> file is Bytes && path_format(path@) is Ok
            && decoded_image(file->Bytes_0@, path_format(path@)->Ok_0) is Ok,
        loaded is Err ==> loaded->Err_0 == ResourceLoadError::ParsingError,
{
    match image_request(path, file) {
        Ok((bytes, format)) => parsed(decode_as(bytes.as_slice(), format)),
        Err(reason) => Err(reason),
    }
}

} // verus!
