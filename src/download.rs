//! Saving a downloaded payload: resolving the downloads directory, decoding
//! the base64 payload and naming the file to write.
use vstd::prelude::*;
use base64::Engine as _;
use crate::paths::{join, join_spec, Platform};

verus! {

#[verifier::external_type_specification]
#[verifier::external_body]
pub struct ExDecodeError(base64::DecodeError);

/// The bytes that standard, padded base64 decoding gives for `s`, or `None`
/// when `s` is not valid base64.
pub uninterp spec fn standard_decoded(s: Seq<char>) -> Option<Seq<u8>>;

/// Relies on `base64::engine::general_purpose::STANDARD.decode`: decodes
/// standard padded base64, or reports why the input is not base64.
#[verifier::external_body]
fn decode_standard(payload: &str) -> (r: Result<Vec<u8>, base64::DecodeError>)
    ensures
        match r {
            Ok(bytes) => standard_decoded(payload@) == Some(bytes@),
            Err(_) => standard_decoded(payload@) is None,
        },
{
    base64::engine::general_purpose::STANDARD.decode(payload.as_bytes())
}

/// Relies on the `Display` impl of `base64::DecodeError`: a short description
/// of what made the input invalid.
#[verifier::external_body]
fn decode_error_text(e: &base64::DecodeError) -> (r: String) {
    e.to_string()
}

/// The prefix of the error reported when the downloads directory cannot be
/// resolved.
pub open spec fn dir_error_prefix() -> Seq<char> {
    "Could not resolve downloads directory: "@
}

/// The prefix of the error reported when the payload is not base64.
pub open spec fn decode_error_prefix() -> Seq<char> {
    "Failed to decode base64: "@
}

/// The prefix of the error reported when the file cannot be written.
pub open spec fn write_error_prefix() -> Seq<char> {
    "Failed to write file to disk: "@
}

/// The downloads directory on `p`: the platform's own answer when it has
/// one, else the `Downloads` folder under the fallback home directory, else
/// an error that carries the fallback's cause.
pub fn resolve_downloads_dir(
    primary: Result<String, String>,
    fallback_home: Result<String, String>,
    p: Platform,
) -> (r: Result<String, String>)
    ensures
        match primary {
            Ok(p) => r is Ok && r->Ok_0@ == p@,
            Err(_) => match fallback_home {
                Ok(h) => r is Ok && r->Ok_0@ == join_spec(h@, "Downloads"@, p),
                Err(cause) => r is Err && r->Err_0@ == dir_error_prefix() + cause@,
            },
        },
{
    match primary {
        Ok(p) => Ok(p),
        Err(_) => match fallback_home {
            Ok(h) => Ok(join(h.as_str(), "Downloads", p)),
            Err(cause) => Err(String::from_str("Could not resolve downloads directory: ").concat(
                cause.as_str(),
            )),
        },
    }
}

/// A file to write: where, and what.
#[derive(Clone, Debug)]
pub struct DownloadFile {
    pub path: String,
    pub data: Vec<u8>,
}

/// The file for `filename` in `dir` on `p` holding `decoded`, or, when
/// decoding failed with `cause`, the decode-failure message. The path is
/// `filename` joined onto `dir`, so a self-standing `filename` (an absolute
/// path) is used as it is.
pub fn download_target(
    dir: &str,
    filename: &str,
    decoded: Result<Vec<u8>, String>,
    p: Platform,
) -> (r: Result<DownloadFile, String>)
    ensures
        match decoded {
            Ok(bytes) => r is Ok && r->Ok_0.path@ == join_spec(dir@, filename@, p) && r->Ok_0.data@
                == bytes@,
            Err(cause) => r is Err && r->Err_0@ == decode_error_prefix() + cause@,
        },
{
    match decoded {
        Ok(data) => Ok(DownloadFile { path: join(dir, filename, p), data }),
        Err(cause) => Err(String::from_str("Failed to decode base64: ").concat(cause.as_str())),
    }
}

/// The file to write for a base64 `payload` saved as `filename` in `dir` on `p`.
/// It is returned exactly when the payload is valid base64, and holds the
/// decoded bytes; otherwise the error is the decode-failure message.
pub fn prepare_download(dir: &str, filename: &str, payload: &str, p: Platform) -> (r: Result<
    DownloadFile,
    String,
>)
    ensures
        r is Ok <==> standard_decoded(payload@) is Some,
        r is Ok ==> r->Ok_0.path@ == join_spec(dir@, filename@, p) && Some(r->Ok_0.data@)
            == standard_decoded(payload@),
        r is Err ==> decode_error_prefix().is_prefix_of(r->Err_0@),
{
    let decoded = match decode_standard(payload) {
        Ok(bytes) => Ok(bytes),
        Err(e) => Err(decode_error_text(&e)),
    };
    download_target(dir, filename, decoded, p)
}

/// The message reported when writing the file failed with `cause`.
pub fn write_failure_message(cause: &str) -> (r: String)
    ensures
        r@ == write_error_prefix() + cause@,
{
    String::from_str("Failed to write file to disk: ").concat(cause)
}

} // verus!
