//! The compression engine: lossless compression in the zstd frame format.
//!
//! A compressed blob describes itself: decompression needs nothing but the
//! blob, and gives back exactly the bytes that were compressed, the empty
//! sequence included.

use vstd::prelude::*;
use vstd::string::*;

verus! {

/// The level at which data is compressed: a moderate one, between ratio and
/// speed.
pub const COMPRESSION_LEVEL: i32 = 3;

/// A failure of the compression engine, with a describing text.
#[derive(Debug)]
pub enum CompressionError {
    /// The encoder failed; incompressible input is no such failure.
    CompressionFailed(String),
    /// The blob is not a well-formed, complete zstd frame.
    DecompressionFailed(String),
    /// An input or output operation failed.
    IoError(String),
}

/// That `text` is what `cause` reads as when it is displayed.
pub open spec fn is_text_of(cause: &std::io::Error, text: String) -> bool {
    to_string_from_display_ensures::<std::io::Error>(cause, text)
}

impl CompressionError {
    /// The describing text that this error carries.
    pub open spec fn detail(&self) -> Seq<char> {
        match self {
            CompressionError::CompressionFailed(text) => text@,
            CompressionError::DecompressionFailed(text) => text@,
            CompressionError::IoError(text) => text@,
        }
    }

    /// The words that introduce the describing text in the full message.
    pub open spec fn label(&self) -> Seq<char> {
        match self {
            CompressionError::CompressionFailed(_) => "Compression failed: "@,
            CompressionError::DecompressionFailed(_) => "Decompression failed: "@,
            CompressionError::IoError(_) => "IO error: "@,
        }
    }

    /// The error that stands for a failed input or output operation: an
    /// `IoError` whose describing text is the text of `cause`.
    pub fn from_io(cause: &std::io::Error) -> (error: CompressionError)
        ensures
            error is IoError,
            error matches CompressionError::IoError(text) ==> is_text_of(cause, text),
    {
        CompressionError::IoError(cause.to_string())
    }

    /// The full message: the label of the variant, then the describing text.
    pub fn message(&self) -> (text: String)
        ensures
            text@ == self.label() + self.detail(),
    {
        match self {
            CompressionError::CompressionFailed(detail) => String::from_str(
                "Compression failed: ",
            ).concat(detail.as_str()),
            CompressionError::DecompressionFailed(detail) => String::from_str(
                "Decompression failed: ",
            ).concat(detail.as_str()),
            CompressionError::IoError(detail) => String::from_str("IO error: ").concat(
                detail.as_str(),
            ),
        }
    }
}

/// The blob that the zstd encoder makes of `data` at `level`, or `None`
/// where the encoder reports a fault.
pub uninterp spec fn zstd_encoded(data: Seq<u8>, level: int) -> Option<Seq<u8>>;

/// The bytes that the zstd decoder reads out of `blob`, or `None` where it
/// rejects the blob as malformed, truncated or unsupported.
pub uninterp spec fn zstd_decoded(blob: Seq<u8>) -> Option<Seq<u8>>;

/// That decompressing `blob` succeeds and gives `data`.
pub open spec fn decompresses_to(blob: Seq<u8>, data: Seq<u8>) -> bool {
    zstd_decoded(blob) == Some(data)
}

/// `std::io::Error`, in which the zstd streams report every failure. It is
/// carried through unread; only its text is used.
#[verifier::external_type_specification]
#[verifier::external_body]
pub struct ExIoError(std::io::Error);

/// `zstd::stream::encode_all`: compresses the whole input into zstd frame
/// format at the given level. The encoder keeps no state between calls and
/// draws on nothing but its two arguments, so its answer, a blob or a
/// fault, depends on them alone, as long as memory lasts. A blob that it
/// returns is one that the decoder reads back as the input, compression
/// being lossless.
#[verifier::external_body]
fn encode_zstd(data: &[u8], level: i32) -> (encoded: Result<Vec<u8>, std::io::Error>)
    ensures
        encoded matches Ok(blob) ==> zstd_encoded(data@, level as int) == Some(blob@),
        encoded is Err ==> zstd_encoded(data@, level as int) is None,
        encoded matches Ok(blob) ==> zstd_decoded(blob@) == Some(data@),
{
    zstd::stream::encode_all(data, level)
}

/// `zstd::stream::decode_all`: reads the whole input as zstd frames and
/// returns what they hold. What it accepts, and what it then returns,
/// depends on the bytes of the input alone, as long as memory lasts.
#[verifier::external_body]
fn decode_zstd(blob: &[u8]) -> (decoded: Result<Vec<u8>, std::io::Error>)
    ensures
        decoded matches Ok(data) ==> zstd_decoded(blob@) == Some(data@),
        decoded is Err ==> zstd_decoded(blob@) is None,
{
    zstd::stream::decode_all(blob)
}

/// What an answer of the encoder amounts to: its blob where it succeeded,
/// `CompressionFailed` with the encoder's own words where it did not.
pub fn compressed_from(encoded: Result<Vec<u8>, std::io::Error>) -> (compressed: Result<
    Vec<u8>,
    CompressionError,
>)
    ensures
        encoded matches Ok(blob) ==> (compressed matches Ok(same) && same@ == blob@),
        encoded is Err ==> (compressed matches Err(error) && error is CompressionFailed
            && "Failed to compress: "@.is_prefix_of(error.detail())),
{
    match encoded {
        Ok(blob) => Ok(blob),
        Err(cause) => {
            let cause_text = cause.to_string();
            Err(
                CompressionError::CompressionFailed(
                    String::from_str("Failed to compress: ").concat(cause_text.as_str()),
                ),
            )
        },
    }
}

/// Compresses `data`, the empty sequence included, into a blob that
/// decompresses to exactly `data`.
///
/// The blob is the one that the encoder makes of `data` at the library's
/// level, the same for the same data. Data that does not compress is no
/// failure: the blob may then be a little longer than the input.
/// `CompressionFailed` stands for a fault inside the encoder, and for
/// nothing else.
pub fn compress_data(data: &[u8]) -> (compressed: Result<Vec<u8>, CompressionError>)
    ensures
        compressed is Ok <==> zstd_encoded(data@, COMPRESSION_LEVEL as int) is Some,
        compressed matches Ok(blob) ==> zstd_encoded(data@, COMPRESSION_LEVEL as int) == Some(
            blob@,
        ),
        compressed matches Ok(blob) ==> decompresses_to(blob@, data@),
        compressed matches Err(error) ==> error is CompressionFailed
            && "Failed to compress: "@.is_prefix_of(error.detail()),
{
    compressed_from(encode_zstd(data, COMPRESSION_LEVEL))
}

/// Decompresses a blob into the bytes it holds.
///
/// Succeeds on every blob that the decoder reads, among them every blob
/// that `compress_data` returned, and fails with `DecompressionFailed` on
/// every other input: bytes that are no frame are never turned into data.
pub fn decompress_data(compressed_data: &[u8]) -> (decompressed: Result<Vec<u8>, CompressionError>)
    ensures
        decompressed matches Ok(data) ==> decompresses_to(compressed_data@, data@),
        decompressed is Err ==> zstd_decoded(compressed_data@) is None,
        decompressed matches Err(error) ==> error is DecompressionFailed
            && "Failed to decompress: "@.is_prefix_of(error.detail()),
{
    match decode_zstd(compressed_data) {
        Ok(data) => Ok(data),
        Err(cause) => {
            let cause_text = cause.to_string();
            Err(
                CompressionError::DecompressionFailed(
                    String::from_str("Failed to decompress: ").concat(cause_text.as_str()),
                ),
            )
        },
    }
}

} // verus!
