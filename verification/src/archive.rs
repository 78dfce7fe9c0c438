//! Taking the compression off a downloaded archive.

use std::io::Read;
use vstd::prelude::*;
use crate::install::{CompressionType, InstallFailure, InstallFailureModel};

verus! {

/// What `flate2`'s gzip decoder reads out of `bytes`: the data of the first
/// gzip member, or the decoder's words on why it cannot be read.
pub uninterp spec fn gzip_decoded(bytes: Seq<u8>) -> Result<Seq<u8>, Seq<char>>;

/// What `xz2`'s stream decoder reads out of `bytes`: the data of the xz
/// stream, or the decoder's words on why it cannot be read.
pub uninterp spec fn xz_decoded(bytes: Seq<u8>) -> Result<Seq<u8>, Seq<char>>;

/// Reads `bytes` to the end through `flate2::bufread::GzDecoder`.
///
/// The contract names the result: the bytes that the decoder hands out, or
/// the error it ends with, as that error prints.
#[verifier::external_body]
fn gunzip(bytes: &[u8]) -> (out: Result<Vec<u8>, String>)
    ensures
        match out {
            Ok(data) => gzip_decoded(bytes@) == Ok::<Seq<u8>, Seq<char>>(data@),
            Err(why) => gzip_decoded(bytes@) == Err::<Seq<u8>, Seq<char>>(why@),
        },
{
    let mut data = Vec::new();
    match flate2::bufread::GzDecoder::new(bytes).read_to_end(&mut data) {
        Ok(_) => Ok(data),
        Err(error) => Err(error.to_string()),
    }
}

/// Reads `bytes` to the end through `xz2::bufread::XzDecoder`.
///
/// The contract names the result: the bytes that the decoder hands out, or
/// the error it ends with, as that error prints.
#[verifier::external_body]
fn unxz(bytes: &[u8]) -> (out: Result<Vec<u8>, String>)
    ensures
        match out {
            Ok(data) => xz_decoded(bytes@) == Ok::<Seq<u8>, Seq<char>>(data@),
            Err(why) => xz_decoded(bytes@) == Err::<Seq<u8>, Seq<char>>(why@),
        },
{
    let mut data = Vec::new();
    match xz2::bufread::XzDecoder::new(bytes).read_to_end(&mut data) {
        Ok(_) => Ok(data),
        Err(error) => Err(error.to_string()),
    }
}

/// The archive inside `bytes`, given what a decoder made of them. Bytes of
/// an unknown compression are taken to be the archive itself.
pub open spec fn decompressed(
    kind: CompressionType,
    bytes: Seq<u8>,
    decoded: Result<Seq<u8>, Seq<char>>,
) -> Result<Seq<u8>, InstallFailureModel> {
    match kind {
        CompressionType::Unknown => Ok(bytes),
        _ => match decoded {
            Ok(data) => Ok(data),
            Err(why) => Err(InstallFailureModel::Extraction(why)),
        },
    }
}

/// What the decoder for `kind` makes of `bytes`.
pub open spec fn decoded_as(kind: CompressionType, bytes: Seq<u8>) -> Result<Seq<u8>, Seq<char>> {
    match kind {
        CompressionType::Gzip => gzip_decoded(bytes),
        CompressionType::Xz => xz_decoded(bytes),
        CompressionType::Unknown => Ok(bytes),
    }
}

/// Settles what a download of compression `kind` unpacks from, once a
/// decoder has been through it: the decoded data, or the failure to report.
pub fn archive_from(kind: CompressionType, bytes: Vec<u8>, decoded: Result<Vec<u8>, String>) -> (out:
    Result<Vec<u8>, InstallFailure>)
    ensures
        match out {
            Ok(data) => decompressed(
                kind,
                bytes@,
                match decoded {
                    Ok(d) => Ok(d@),
                    Err(why) => Err(why@),
                },
            ) == Ok::<Seq<u8>, InstallFailureModel>(data@),
            Err(failure) => decompressed(
                kind,
                bytes@,
                match decoded {
                    Ok(d) => Ok(d@),
                    Err(why) => Err(why@),
                },
            ) == Err::<Seq<u8>, InstallFailureModel>(failure@),
        },
{
    match kind {
        CompressionType::Unknown => Ok(bytes),
        _ => match decoded {
            Ok(data) => Ok(data),
            Err(why) => Err(InstallFailure::Extraction(why)),
        },
    }
}

/// Takes the compression of kind `kind` off `bytes`.
pub fn decompress(kind: CompressionType, bytes: Vec<u8>) -> (out: Result<Vec<u8>, InstallFailure>)
    ensures
        match out {
            Ok(data) => decompressed(kind, bytes@, decoded_as(kind, bytes@)) == Ok::<
                Seq<u8>,
                InstallFailureModel,
            >(data@),
            Err(failure) => decompressed(kind, bytes@, decoded_as(kind, bytes@)) == Err::<
                Seq<u8>,
                InstallFailureModel,
            >(failure@),
        },
{
    match kind {
        CompressionType::Gzip => {
            let decoded = gunzip(bytes.as_slice());
            archive_from(kind, bytes, decoded)
        },
        CompressionType::Xz => {
            let decoded = unxz(bytes.as_slice());
            archive_from(kind, bytes, decoded)
        },
        CompressionType::Unknown => Ok(bytes),
    }
}

} // verus!
