//! The layer that is built from a directory: its archive, compressed, with
//! the descriptor and the diff id that the image records for it.

use crate::digest::{sha256_digest, sha256_digest_text, Digest};
use crate::image::{layer_gzip_media_type, layer_gzip_type, Descriptor, DescriptorView};
use flate2::write::GzEncoder;
use flate2::Compression;
use std::io::Write;
use vstd::prelude::*;
use vstd::string::StringExecFns;

verus! {

/// What the encoder makes of `input` at the fastest compression level: the
/// gzip stream, or `None` where the encoder fails on `input`.
pub uninterp spec fn gzip_stream(input: Seq<u8>) -> Option<Seq<u8>>;

/// A gzip stream begins with the bytes `1f 8b`.
pub open spec fn has_gzip_magic(stream: Seq<u8>) -> bool {
    stream.len() >= 2 && stream[0] == 0x1f && stream[1] == 0x8b
}

/// The error of `std::io`. It is passed on and never looked into.
#[verifier::external_type_specification]
#[verifier::external_body]
pub struct ExIoError(std::io::Error);

/// Calls `flate2::write::GzEncoder` with `Compression::fast()` on a buffer
/// in memory: `write_all`, then `finish`. The encoder reads nothing but
/// `input` and writes to memory alone, so whether it fails, and the stream
/// that it makes, depend on `input` alone. Nothing is claimed of the inputs
/// on which it succeeds. The header, which the encoder writes first, begins
/// with `1f 8b`.
#[verifier::external_body]
fn gzip_encode(input: &[u8]) -> (res: Result<Vec<u8>, std::io::Error>)
    ensures
        (match res {
            Ok(stream) => gzip_stream(input@) == Some(stream@),
            Err(_) => gzip_stream(input@) is None,
        }),
        res matches Ok(stream) ==> has_gzip_magic(stream@),
{
    let mut encoder = GzEncoder::new(Vec::new(), Compression::fast());
    encoder.write_all(input)?;
    encoder.finish()
}

/// Why no layer could be built.
#[derive(Debug, Clone, Copy, PartialEq, Eq, Structural)]
pub enum LayerError {
    /// The encoder failed on the archive.
    Compression,
}

/// Compresses `input` with gzip at the fastest level. Gives the stream
/// that the encoder makes of `input`, which begins with the gzip magic, and
/// fails exactly where the encoder fails on `input`.
pub fn gzip(input: Vec<u8>) -> (res: Result<Vec<u8>, LayerError>)
    ensures
        (match res {
            Ok(stream) => gzip_stream(input@) == Some(stream@) && has_gzip_magic(stream@),
            Err(e) => gzip_stream(input@) is None && e == LayerError::Compression,
        }),
{
    match gzip_encode(input.as_slice()) {
        Ok(stream) => Ok(stream),
        Err(_) => Err(LayerError::Compression),
    }
}

/// A layer of the image's own: the compressed archive, its descriptor, the
/// digest of the archive before compression, and the instruction that the
/// history shows for it.
#[derive(Debug, PartialEq, Eq)]
pub struct AppLayer {
    pub contents: Vec<u8>,
    pub descriptor: Descriptor,
    pub diff_id: Digest,
    pub created_by: String,
}

/// An app layer as a plain value.
pub ghost struct AppLayerView {
    pub contents: Seq<u8>,
    pub descriptor: DescriptorView,
    pub diff_id: Seq<char>,
    pub created_by: Seq<char>,
}

impl View for AppLayer {
    type V = AppLayerView;

    open spec fn view(&self) -> AppLayerView {
        AppLayerView {
            contents: self.contents@,
            descriptor: self.descriptor@,
            diff_id: self.diff_id@,
            created_by: self.created_by@,
        }
    }
}

impl DeepView for AppLayer {
    type V = AppLayerView;

    open spec fn deep_view(&self) -> AppLayerView {
        self@
    }
}

/// The instruction recorded for a layer that copies `folder` to the root.
pub open spec fn copy_instruction(folder: Seq<char>) -> Seq<char> {
    "KLT COPY "@ + folder + "/* /"@
}

/// The descriptor of a compressed layer with the given bytes.
pub open spec fn layer_descriptor(contents: Seq<u8>) -> DescriptorView {
    DescriptorView {
        media_type: layer_gzip_type(),
        size: contents.len() as u64,
        digest: sha256_digest_text(contents),
        platform: None,
    }
}

/// The layer of `folder`, whose archive has the digest `diff_id` and is
/// stored as `contents`.
pub open spec fn app_layer_of(folder: Seq<char>, diff_id: Seq<char>, contents: Seq<u8>) -> AppLayerView {
    AppLayerView {
        contents,
        descriptor: layer_descriptor(contents),
        diff_id,
        created_by: copy_instruction(folder),
    }
}

/// The layer that is built of `folder` and its archive `archive`: the diff
/// id is the digest of the archive, the contents are the archive
/// compressed. `None` where the encoder fails on the archive.
pub open spec fn built_layer(folder: Seq<char>, archive: Seq<u8>) -> Option<AppLayerView> {
    match gzip_stream(archive) {
        Some(stream) => Some(app_layer_of(folder, sha256_digest_text(archive), stream)),
        None => None,
    }
}

impl AppLayerView {
    /// The descriptor is that of the contents: it gives their size, and
    /// their digest is the one that it names.
    pub open spec fn describes_contents(self) -> bool {
        self.descriptor == layer_descriptor(self.contents)
    }
}

impl AppLayer {
    /// The layer of `input_folder` from the digest of its archive and the
    /// compressed archive. The descriptor gives the size and the digest of
    /// the compressed bytes.
    pub fn assemble(input_folder: &str, diff_id: Digest, contents: Vec<u8>) -> (res: AppLayer)
        ensures
            res@ == app_layer_of(input_folder@, diff_id@, contents@),
            res@.describes_contents(),
    {
        let digest = sha256_digest(contents.as_slice());
        let size = contents.len() as u64;
        let descriptor = Descriptor::new(layer_gzip_media_type(), size, digest);
        let created_by = String::from_str("KLT COPY ").concat(input_folder).concat("/* /");
        AppLayer { contents, descriptor, diff_id, created_by }
    }

    /// Builds the layer of `input_folder` from `archive`, the archive of the
    /// folder's contents: the diff id is the digest of the archive, the
    /// contents are the archive compressed, and the descriptor is that of
    /// the contents. Fails exactly where the encoder fails on the archive,
    /// and then gives no layer at all.
    pub fn build_from_directory(input_folder: &str, archive: Vec<u8>) -> (res: Result<
        AppLayer,
        LayerError,
    >)
        ensures
            (match res {
                Ok(layer) => built_layer(input_folder@, archive@) == Some(layer@)
                    && has_gzip_magic(layer@.contents) && layer@.describes_contents(),
                Err(e) => built_layer(input_folder@, archive@) is None && e
                    == LayerError::Compression,
            }),
    {
        let diff_id = sha256_digest(archive.as_slice());
        match gzip(archive) {
            Ok(contents) => Ok(AppLayer::assemble(input_folder, diff_id, contents)),
            Err(e) => Err(e),
        }
    }
}

} // verus!
