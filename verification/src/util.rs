use base64::engine::general_purpose;
use base64::Engine;
use vstd::prelude::*;
use crate::settings::text_is;

verus! {

/// The error of `base64`'s decoders, carried through unread.
#[verifier::external_type_specification]
#[verifier::external_body]
pub struct ExDecodeError(base64::DecodeError);

/// The standard base64 text, with padding, of `bytes`.
pub uninterp spec fn standard_encoding(bytes: Seq<u8>) -> Seq<char>;

/// The bytes that the standard base64 text `text` stands for, if it is
/// well-formed.
pub uninterp spec fn standard_decoding(text: Seq<char>) -> Option<Seq<u8>>;

/// `Engine::encode_string` of `base64::engine::general_purpose::STANDARD`,
/// on an empty `String`: the result is the standard encoding of `buffer`,
/// which depends on the bytes alone.
#[verifier::external_body]
fn encode_standard(buffer: &[u8]) -> (res: String)
    ensures
        res@ == standard_encoding(buffer@),
{
    let mut buf = String::new();
    general_purpose::STANDARD.encode_string(buffer, &mut buf);
    buf
}

/// `Engine::decode` of `base64::engine::general_purpose::STANDARD`: the
/// decoded bytes for well-formed text, the decoder's error otherwise; which
/// of the two depends on the text alone.
#[verifier::external_body]
fn decode_standard(value: &str) -> (res: Result<Vec<u8>, base64::DecodeError>)
    ensures
        match res {
            Ok(bytes) => standard_decoding(value@) == Some(bytes@),
            Err(_) => standard_decoding(value@).is_none(),
        },
{
    general_purpose::STANDARD.decode(value)
}

/// The standard base64 text of `buffer`.
pub fn to_base64(buffer: &[u8]) -> (res: String)
    ensures
        res@ == standard_encoding(buffer@),
{
    encode_standard(buffer)
}

/// The bytes that `value` encodes, or `None` where `value` is not
/// well-formed standard base64.
pub fn from_base64(value: &str) -> (res: Option<Vec<u8>>)
    ensures
        match res {
            Some(bytes) => standard_decoding(value@) == Some(bytes@),
            None => standard_decoding(value@).is_none(),
        },
{
    match decode_standard(value) {
        Ok(bytes) => Some(bytes),
        Err(_) => None,
    }
}

/// Where an image comes from.
#[derive(Debug)]
pub enum ImageSource {
    /// The file at this path.
    File(String),
    /// These encoded image bytes.
    Buffer(Vec<u8>),
}

/// The source named by a request: the file where a path is given, else the
/// decoded base64 data. `None` where neither is given or the data is not
/// well-formed.
pub fn image_source(file_path: Option<String>, base64: Option<String>) -> (res: Option<
    ImageSource,
>)
    ensures
        match (file_path, base64) {
            (Some(path), _) => res matches Some(ImageSource::File(p)) && p@ == path@,
            (None, Some(text)) => match standard_decoding(text@) {
                Some(bytes) => res matches Some(ImageSource::Buffer(b)) && b@ == bytes,
                None => res.is_none(),
            },
            (None, None) => res.is_none(),
        },
{
    match file_path {
        Some(path) => Some(ImageSource::File(path)),
        None => match base64 {
            Some(text) => match from_base64(text.as_str()) {
                Some(bytes) => Some(ImageSource::Buffer(bytes)),
                None => None,
            },
            None => None,
        },
    }
}

/// Request to rotate the image at `file_path`.
#[derive(Clone, Debug)]
pub struct RotateArgs {
    pub file_path: String,
    pub orientation: i32,
    pub degree: i32,
}

/// How a rotation is carried out.
#[derive(Clone, Copy, Debug, PartialEq, Eq, Structural)]
pub enum RotatePlan {
    /// Keep the pixels and write this orientation tag.
    SetOrientation(i32),
    /// Turn the pixels by this many degrees.
    Turn(i32),
}

impl RotateArgs {
    /// A JPEG keeps its pixels and gets the orientation tag; any other file
    /// type has its pixels turned.
    pub fn plan(&self, file_type: &String) -> (res: RotatePlan)
        ensures
            res == (if file_type@ == "jpg"@ || file_type@ == "jpeg"@ {
                RotatePlan::SetOrientation(self.orientation)
            } else {
                RotatePlan::Turn(self.degree)
            }),
    {
        if text_is(file_type, "jpg") || text_is(file_type, "jpeg") {
            RotatePlan::SetOrientation(self.orientation)
        } else {
            RotatePlan::Turn(self.degree)
        }
    }
}

/// Request to resize an image to `width` by `height`.
#[derive(Clone, Debug)]
pub struct ResizeArgs {
    pub file_path: Option<String>,
    pub base64: Option<String>,
    pub width: i32,
    pub height: i32,
}

/// Request to cut a region out of an image.
#[derive(Clone, Debug)]
pub struct ClipArgs {
    pub file_path: Option<String>,
    pub base64: Option<String>,
    pub left: u32,
    pub top: u32,
    pub width: u32,
    pub height: u32,
}

/// Request to encode the image at `file_path` in `format`.
#[derive(Clone, Debug)]
pub struct ToBufferArgs {
    pub file_path: String,
    pub format: String,
}

/// An encoding that an image can be written in.
#[derive(Clone, Copy, Debug, PartialEq, Eq, Structural)]
pub enum OutputFormat {
    Png,
    Jpeg,
}

impl ToBufferArgs {
    /// `png` asks for PNG; every other value asks for JPEG.
    pub fn output_format(&self) -> (res: OutputFormat)
        ensures
            res == (if self.format@ == "png"@ {
                OutputFormat::Png
            } else {
                OutputFormat::Jpeg
            }),
    {
        if text_is(&self.format, "png") {
            OutputFormat::Png
        } else {
            OutputFormat::Jpeg
        }
    }
}

/// Request to write the image at `file_path` as an icon at `out_path`.
#[derive(Clone, Debug)]
pub struct ToIconArgs {
    pub file_path: String,
    pub out_path: String,
}

/// How the metadata of a file is read.
#[derive(Clone, Copy, Debug, PartialEq, Eq, Structural)]
pub enum MetadataPlan {
    /// The path has no extension: there is nothing to read.
    Nothing,
    /// Read the file as an icon.
    Icon,
    /// Read the file as an image.
    Image,
}

/// Whether `extension` ends in `ico`, in upper or lower case.
pub open spec fn names_icon(extension: Seq<char>) -> bool {
    let n = extension.len() as int;
    &&& n >= 3
    &&& (extension[n - 3] == 'i' || extension[n - 3] == 'I')
    &&& (extension[n - 2] == 'c' || extension[n - 2] == 'C')
    &&& (extension[n - 1] == 'o' || extension[n - 1] == 'O')
}

/// Chooses the reader for a file by the extension of its path.
pub fn metadata_plan(extension: Option<&str>) -> (res: MetadataPlan)
    ensures
        res == (match extension {
            None => MetadataPlan::Nothing,
            Some(e) => if names_icon(e@) {
                MetadataPlan::Icon
            } else {
                MetadataPlan::Image
            },
        }),
{
    match extension {
        None => MetadataPlan::Nothing,
        Some(e) => {
            let n: usize = e.unicode_len();
            if n < 3 {
                return MetadataPlan::Image;
            }
            let a = e.get_char(n - 3);
            let b = e.get_char(n - 2);
            let c = e.get_char(n - 1);
            if (a == 'i' || a == 'I') && (b == 'c' || b == 'C') && (c == 'o' || c == 'O') {
                MetadataPlan::Icon
            } else {
                MetadataPlan::Image
            }
        },
    }
}

} // verus!
