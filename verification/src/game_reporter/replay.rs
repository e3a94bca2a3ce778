//! The upload of a replay: the bytes are put in a container, compressed and
//! sent with one PUT.

use vstd::prelude::*;

verus! {

/// The largest upload that the storage accepts, as it is told in a header.
pub const CONTENT_LENGTH_RANGE: &'static str = "0,10000000";

/// The gzip stream that `input` is compressed to, or `None` where the
/// encoder gives up on `input`.
pub uninterp spec fn gzip_stream(input: Seq<u8>) -> Option<Seq<u8>>;

/// What stands before the size of the raw data: the opening of the
/// container and the tag of its first element, `raw`.
pub open spec fn container_header() -> Seq<u8> {
    seq![0x7Bu8, 0x55, 0x03, 0x72, 0x61, 0x77, 0x5B, 0x24, 0x55, 0x23, 0x6C]
}

/// What stands behind the raw data: an empty element `metadata`, and the
/// end of the container.
pub open spec fn container_footer() -> Seq<u8> {
    seq![0x55u8, 0x08, 0x6D, 0x65, 0x74, 0x61, 0x64, 0x61, 0x74, 0x61, 0x7B, 0x7D, 0x7D]
}

/// The four bytes that hold the size of the raw data, highest first. A size
/// that does not fit in four bytes is cut to its lowest 32 bits.
pub open spec fn size_field(len: nat) -> Seq<u8> {
    let n = len % 0x1_0000_0000;
    seq![
        (n / 0x100_0000) as u8,
        (n / 0x1_0000 % 0x100) as u8,
        (n / 0x100 % 0x100) as u8,
        (n % 0x100) as u8,
    ]
}

/// The container that holds the raw replay `data`.
pub open spec fn replay_container(data: Seq<u8>) -> Seq<u8> {
    container_header() + size_field(data.len()) + data + container_footer()
}

/// One upload, ready to be sent with PUT.
#[derive(Debug)]
pub struct UploadRequest {
    pub url: String,
    pub content_type: &'static str,
    pub content_encoding: &'static str,
    /// The value of the header `X-Goog-Content-Length-Range`.
    pub content_length_range: &'static str,
    pub body: Vec<u8>,
}

/// Wraps raw replay data in its container.
pub fn wrap_replay_data(data: &[u8]) -> (contents: Vec<u8>)
    ensures
        contents@ == replay_container(data@),
{
    let len: u64 = data.len() as u64;
    let size: u64 = len % 0x1_0000_0000;
    let mut contents: Vec<u8> = Vec::new();
    contents.push(0x7B);
    contents.push(0x55);
    contents.push(0x03);
    contents.push(0x72);
    contents.push(0x61);
    contents.push(0x77);
    contents.push(0x5B);
    contents.push(0x24);
    contents.push(0x55);
    contents.push(0x23);
    contents.push(0x6C);
    contents.push((size / 0x100_0000) as u8);
    contents.push((size / 0x1_0000 % 0x100) as u8);
    contents.push((size / 0x100 % 0x100) as u8);
    contents.push((size % 0x100) as u8);
    assert(contents@ =~= container_header() + size_field(data@.len()));
    let ghost prefix = contents@;
    let mut i: usize = 0;
    while i < data.len()
        invariant
            i <= data@.len(),
            contents@ == prefix + data@.take(i as int),
        decreases data@.len() - i,
    {
        contents.push(data[i]);
        assert(data@.take(i + 1) =~= data@.take(i as int).push(data@[i as int]));
        assert(contents@ =~= prefix + data@.take(i + 1));
        i = i + 1;
    }
    assert(data@.take(i as int) =~= data@);
    contents.push(0x55);
    contents.push(0x08);
    contents.push(0x6D);
    contents.push(0x65);
    contents.push(0x74);
    contents.push(0x61);
    contents.push(0x64);
    contents.push(0x61);
    contents.push(0x74);
    contents.push(0x61);
    contents.push(0x7B);
    contents.push(0x7D);
    contents.push(0x7D);
    assert(contents@ =~= replay_container(data@));
    contents
}

/// `flate2::write::GzEncoder` at the default level, over a vector: what was
/// written to it, as one gzip stream, or the encoder's error. The stream's
/// header names no file, no time and no system, and a vector takes all that
/// is written to it, so whether the encoder succeeds and what it gives
/// depend on the input alone. Nothing is claimed of which inputs it
/// succeeds on, nor of the wording of its error.
#[verifier::external_body]
pub(crate) fn compress_to_gzip(input: &[u8]) -> (r: Result<Vec<u8>, String>)
    ensures
        match r {
            Ok(output) => gzip_stream(input@) == Some(output@),
            Err(_) => gzip_stream(input@).is_none(),
        },
{
    let mut encoder = flate2::write::GzEncoder::new(Vec::new(), flate2::Compression::default());
    match std::io::Write::write_all(&mut encoder, input) {
        Ok(()) => {},
        Err(error) => return Err(error.to_string()),
    }
    match encoder.finish() {
        Ok(output) => Ok(output),
        Err(error) => Err(error.to_string()),
    }
}

/// Whether `request` is the upload of `compressed` to `upload_url`.
pub open spec fn is_upload_of(request: UploadRequest, compressed: Seq<u8>, upload_url: Seq<char>) -> bool {
    &&& request.url@ == upload_url
    &&& request.content_type@ == "application/octet-stream"@
    &&& request.content_encoding@ == "gzip"@
    &&& request.content_length_range@ == CONTENT_LENGTH_RANGE@
    &&& request.body@ == compressed
}

/// Puts the upload together, given the compressed container.
pub fn upload_request(compressed: Vec<u8>, upload_url: String) -> (request: UploadRequest)
    ensures
        is_upload_of(request, compressed@, upload_url@),
{
    UploadRequest {
        url: upload_url,
        content_type: "application/octet-stream",
        content_encoding: "gzip",
        content_length_range: CONTENT_LENGTH_RANGE,
        body: compressed,
    }
}

/// Prepares the upload of replay data to `upload_url`: the data in its
/// container, compressed. There is one try: the upload is returned wherever
/// the container can be compressed; where it cannot, the encoder's error is
/// returned and nothing is to be sent.
pub fn try_upload_replay_data(data: Vec<u8>, upload_url: String) -> (r: Result<
    UploadRequest,
    String,
>)
    ensures
        r.is_ok() == gzip_stream(replay_container(data@)).is_some(),
        match r {
            Ok(request) => is_upload_of(
                request,
                gzip_stream(replay_container(data@)).unwrap(),
                upload_url@,
            ),
            Err(_) => true,
        },
{
    let contents = wrap_replay_data(data.as_slice());
    match compress_to_gzip(contents.as_slice()) {
        Ok(compressed) => Ok(upload_request(compressed, upload_url)),
        Err(error) => Err(error),
    }
}

/// The container is 28 bytes longer than the data it holds, and holds the
/// data unchanged, from its sixteenth byte on.
pub proof fn lemma_container_length(data: Seq<u8>)
    ensures
        replay_container(data).len() == data.len() + 28,
        replay_container(data).subrange(15, 15 + data.len() as int) == data,
{
    assert(replay_container(data).subrange(15, 15 + data.len() as int) =~= data);
}

} // verus!
