//! What one capture-and-upload cycle computes between its device and network
//! steps: the credential, the PNG bytes and the file name of the upload.

use vstd::prelude::*;
use vstd::string::StringExecFns;
use crate::clock::WallClock;
use crate::state::auth_state::AuthState;

verus! {

/// Where screenshots are uploaded to, as one multipart POST with bearer
/// authentication.
pub const UPLOAD_URL: &'static str = "http://localhost:9000/employee/upload-screenshot";

/// The name of the multipart field that carries the file.
pub const UPLOAD_FIELD: &'static str = "file";

/// The media type of the uploaded file.
pub const UPLOAD_MIME: &'static str = "image/png";

/// Bytes that one RGBA pixel takes.
pub const BYTES_PER_PIXEL: u64 = 4;

/// Why a capture-and-upload cycle failed.
#[derive(Clone, Copy, Debug, PartialEq, Eq, Structural)]
pub enum CaptureError {
    /// No bearer token is set.
    MissingToken,
    /// The screen could not be captured.
    Capture,
    /// The captured frame could not be encoded.
    Encode,
    /// The upload did not go through.
    Upload,
}

/// A captured frame: 8-bit RGBA pixels, row by row.
#[derive(Clone, Debug, PartialEq, Eq)]
pub struct Frame {
    pub width: u32,
    pub height: u32,
    pub rgba: Vec<u8>,
}

impl Frame {
    /// Whether the buffer holds fewer bytes than the frame's pixels take.
    pub open spec fn is_short(self) -> bool {
        self.rgba@.len() < BYTES_PER_PIXEL * self.width * self.height
    }
}

/// What is sent to the upload endpoint.
#[derive(Clone, Debug, PartialEq, Eq)]
pub struct UploadRequest {
    pub bearer_token: String,
    pub file_name: String,
    pub png: Vec<u8>,
}

/// The character of a decimal digit.
pub open spec fn digit_char(d: nat) -> char {
    if d == 0 {
        '0'
    } else if d == 1 {
        '1'
    } else if d == 2 {
        '2'
    } else if d == 3 {
        '3'
    } else if d == 4 {
        '4'
    } else if d == 5 {
        '5'
    } else if d == 6 {
        '6'
    } else if d == 7 {
        '7'
    } else if d == 8 {
        '8'
    } else {
        '9'
    }
}

/// The decimal digits of `n`, most significant first, without leading zeros.
pub open spec fn decimal_digits(n: nat) -> Seq<char>
    decreases n,
{
    if n < 10 {
        seq![digit_char(n)]
    } else {
        decimal_digits(n / 10).push(digit_char(n % 10))
    }
}

/// The decimal numeral of `n`, with a minus sign if it is negative.
pub open spec fn decimal(n: int) -> Seq<char> {
    if n < 0 {
        seq!['-'] + decimal_digits((-n) as nat)
    } else {
        decimal_digits(n as nat)
    }
}

/// The file name of a screenshot taken at `wall`.
pub open spec fn file_name_of(wall: WallClock) -> Seq<char> {
    "shot_"@ + decimal(wall.epoch_millis as int) + ".png"@
}

/// The PNG file that the `image` crate's encoder writes for a frame of 8-bit
/// RGBA pixels, or `None` where it writes none.
pub uninterp spec fn png_encoding(width: u32, height: u32, rgba: Seq<u8>) -> Option<Seq<u8>>;

/// Formats through std's `ToString` for `i64`, which writes the decimal numeral:
/// a minus sign for a negative number, then the digits without leading zeros.
#[verifier::external_body]
fn decimal_string(n: i64) -> (s: String)
    ensures
        s@ == decimal(n as int),
{
    n.to_string()
}

/// Encodes with the `image` crate: `RgbaImage::from_raw` takes the pixels, and
/// `write_to` with `ImageOutputFormat::Png` writes the file into memory. The
/// result is a function of the three arguments alone; `None` stands for a buffer
/// that `from_raw` refuses, as it does every buffer with fewer than four bytes
/// for each pixel, and for an error of the encoder.
#[verifier::external_body]
fn png_encode(width: u32, height: u32, rgba: Vec<u8>) -> (png: Option<Vec<u8>>)
    ensures
        match png {
            Some(bytes) => png_encoding(width, height, rgba@) == Some(bytes@),
            None => png_encoding(width, height, rgba@).is_none(),
        },
        rgba@.len() < BYTES_PER_PIXEL * width * height ==> png.is_none(),
{
    let image = image::RgbaImage::from_raw(width, height, rgba)?;
    let mut bytes = Vec::new();
    image.write_to(&mut std::io::Cursor::new(&mut bytes), image::ImageOutputFormat::Png).ok()?;
    Some(bytes)
}

/// The bearer token for the next upload; `MissingToken` exactly when none is set.
pub fn bearer_token(auth: &AuthState) -> (token: Result<String, CaptureError>)
    ensures
        match token {
            Ok(t) => auth@ == Some(t@),
            Err(e) => auth@.is_none() && e == CaptureError::MissingToken,
        },
{
    match &auth.token {
        Some(t) => Ok(t.clone()),
        None => Err(CaptureError::MissingToken),
    }
}

/// The file name of a screenshot taken at `wall`: `shot_`, the epoch
/// milliseconds in decimal, `.png`.
pub fn screenshot_file_name(wall: WallClock) -> (name: String)
    ensures
        name@ == file_name_of(wall),
{
    let mut name = String::from_str("shot_");
    let millis = decimal_string(wall.epoch_millis);
    name.append(millis.as_str());
    name.append(".png");
    name
}

/// The upload for an encoded frame taken at `wall`; `Encode` exactly when there
/// is no encoded frame.
pub fn assemble_upload(token: String, png: Option<Vec<u8>>, wall: WallClock) -> (request: Result<
    UploadRequest,
    CaptureError,
>)
    ensures
        match request {
            Ok(r) => png == Some(r.png) && r.bearer_token == token && r.file_name@
                == file_name_of(wall),
            Err(e) => png.is_none() && e == CaptureError::Encode,
        },
{
    match png {
        Some(bytes) => Ok(
            UploadRequest { bearer_token: token, file_name: screenshot_file_name(wall), png: bytes },
        ),
        None => Err(CaptureError::Encode),
    }
}

/// Encodes `frame` as PNG and assembles its upload; `Encode` exactly when the
/// encoder gives no file for the frame, as for every frame whose buffer is short.
pub fn build_upload(token: String, frame: Frame, wall: WallClock) -> (request: Result<
    UploadRequest,
    CaptureError,
>)
    ensures
        match request {
            Ok(r) => png_encoding(frame.width, frame.height, frame.rgba@) == Some(r.png@)
                && r.bearer_token == token && r.file_name@ == file_name_of(wall),
            Err(e) => png_encoding(frame.width, frame.height, frame.rgba@).is_none() && e
                == CaptureError::Encode,
        },
        frame.is_short() ==> request.is_err(),
{
    let png = png_encode(frame.width, frame.height, frame.rgba);
    assemble_upload(token, png, wall)
}

} // verus!
