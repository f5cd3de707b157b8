//! Raw buffer access, binary-container dispatch, data-URI decoding and
//! image-source resolution.

use vstd::prelude::*;
use crate::{GltfError, GltfResult};

verus! {

/// Buffer data returned from an import: one byte list per source
/// buffer.
#[derive(Clone, Debug)]
pub struct GltfBuffers(pub Vec<Vec<u8>>);

impl GltfBuffers {
    /// The contents of one loaded buffer.
    pub fn buffer(&self, index: usize) -> (r: Option<&Vec<u8>>)
        ensures
            match r {
                Some(b) => index < self.0@.len() && b@ == self.0@[index as int]@,
                None => index >= self.0@.len(),
            },
    {
        if index < self.0.len() {
            Some(&self.0[index])
        } else {
            None
        }
    }

    /// The contents of one loaded buffer view: `length` bytes of the
    /// named buffer starting at `offset`, copied out.
    pub fn view(&self, index: usize, offset: usize, length: usize) -> (r: Option<Vec<u8>>)
        ensures
            match r {
                Some(b) => index < self.0@.len() && offset + length <= self.0@[
                    index as int
                ]@.len() && b@ == self.0@[index as int]@.subrange(
                    offset as int,
                    offset + length,
                ),
                None => index >= self.0@.len() || (index < self.0@.len() && offset + length
                    > self.0@[index as int]@.len()),
            },
    {
        if index >= self.0.len() {
            return None;
        }
        let data = &self.0[index];
        let dlen: usize = data.len();
        if offset > dlen || length > dlen - offset {
            return None;
        }
        let mut out: Vec<u8> = Vec::new();
        let mut k: usize = 0;
        while k < length
            invariant
                k <= length,
                dlen == data@.len(),
                offset + length <= dlen,
                out@.len() == k,
                forall|j: int| 0 <= j < k ==> out@[j] == data@[offset + j],
            decreases length - k,
        {
            out.push(data[offset + k]);
            k = k + 1;
        }
        proof {
            assert(out@ =~= data@.subrange(offset as int, offset + length));
        }
        Some(out)
    }

    /// Take the loaded buffer data.
    pub fn take(self) -> (r: Vec<Vec<u8>>)
        ensures
            r == self.0,
    {
        self.0
    }
}

/// A binary-container file starts with the four bytes of the `glTF`
/// magic; anything else is the standard JSON form.
pub open spec fn spec_is_binary_gltf(data: Seq<u8>) -> bool {
    data.len() >= 4 && data[0] == 103 && data[1] == 108 && data[2] == 84 && data[3] == 70
}

/// Decide the container kind of raw import data: binary when the
/// `glTF` magic leads, standard otherwise.
pub fn is_binary_gltf(data: &Vec<u8>) -> (r: bool)
    ensures
        r == spec_is_binary_gltf(data@),
{
    data.len() >= 4 && data[0] == 103 && data[1] == 108 && data[2] == 84 && data[3] == 70
}

/// Validate decoded buffers against their declared lengths: each buffer
/// must hold at least as many bytes as the source declares, as loading
/// requires.
pub fn validate_buffer_lengths(buffers: &GltfBuffers, declared: &Vec<usize>) -> (r: GltfResult<
    (),
>)
    ensures
        match r {
            Ok(_) => buffers.0@.len() >= declared@.len() && (forall|k: int|
                0 <= k < declared@.len() ==> (#[trigger] buffers.0@[k])@.len() >= declared@[k]),
            Err(e) => e == GltfError::InvalidReference && (buffers.0@.len() < declared@.len()
                || exists|k: int|
                0 <= k < declared@.len() && (#[trigger] buffers.0@[k])@.len() < declared@[k]),
        },
{
    if buffers.0.len() < declared.len() {
        return Err(GltfError::InvalidReference);
    }
    let mut k: usize = 0;
    while k < declared.len()
        invariant
            k <= declared@.len(),
            declared@.len() <= buffers.0@.len(),
            forall|j: int|
                0 <= j < k ==> (#[trigger] buffers.0@[j])@.len() >= declared@[j],
        decreases declared@.len() - k,
    {
        if buffers.0[k].len() < declared[k] {
            return Err(GltfError::InvalidReference);
        }
        k = k + 1;
    }
    Ok(())
}

// ---------------------------------------------------------------------------
// Base64 data URIs.
// ---------------------------------------------------------------------------

/// What `base64::decode` returns for a byte string: `Some` with the
/// decoded bytes when the input is valid standard-alphabet base64,
/// `None` otherwise.
pub uninterp spec fn b64_decoded(s: Seq<u8>) -> Option<Seq<u8>>;

#[verifier::external_type_specification]
#[verifier::external_body]
pub struct ExDecodeError(base64::DecodeError);

/// Relies on `base64::decode`: standard-alphabet base64 decoding of a
/// byte string, failing exactly on malformed input.
#[verifier::external_body]
fn decode_base64(input: &Vec<u8>) -> (r: Result<Vec<u8>, base64::DecodeError>)
    ensures
        r is Ok <==> b64_decoded(input@) is Some,
        r matches Ok(v) ==> Some(v@) == b64_decoded(input@),
{
    base64::decode(input)
}

/// The position of the first occurrence of `b` in `s` at or after
/// `from`, if any.
pub open spec fn spec_find_byte(s: Seq<u8>, b: u8, from: int) -> Option<int>
    decreases s.len() - from,
{
    if 0 <= from < s.len() {
        if s[from] == b {
            Some(from)
        } else {
            spec_find_byte(s, b, from + 1)
        }
    } else {
        None
    }
}

fn find_byte(s: &Vec<u8>, b: u8) -> (r: Option<usize>)
    ensures
        match r {
            Some(i) => Some(i as int) == spec_find_byte(s@, b, 0) && i < s@.len(),
            None => spec_find_byte(s@, b, 0) is None,
        },
{
    let mut k: usize = 0;
    while k < s.len()
        invariant
            k <= s@.len(),
            spec_find_byte(s@, b, 0) == spec_find_byte(s@, b, k as int),
        decreases s@.len() - k,
    {
        if s[k] == b {
            return Some(k);
        }
        k = k + 1;
    }
    None
}

/// The base64 payload of a data URI: everything after the first comma.
pub open spec fn spec_data_uri_payload(uri: Seq<u8>) -> Option<Seq<u8>> {
    match spec_find_byte(uri, 44, 0) {
        Some(i) => Some(uri.subrange(i + 1, uri.len() as int)),
        None => None,
    }
}

/// Decode the payload of a base64 data URI.  A URI without a comma, or
/// with a payload that is not valid base64, is a structural error.
pub fn parse_data_uri(uri: &Vec<u8>) -> (r: GltfResult<Vec<u8>>)
    ensures
        match r {
            Ok(decoded) => (match spec_data_uri_payload(uri@) {
                Some(payload) => b64_decoded(payload) == Some(decoded@),
                None => false,
            }),
            Err(e) => e == GltfError::InvalidReference && (match spec_data_uri_payload(uri@) {
                Some(payload) => b64_decoded(payload) is None,
                None => true,
            }),
        },
{
    let comma = match find_byte(uri, 44) {
        Some(i) => i,
        None => {
            return Err(GltfError::InvalidReference);
        },
    };
    let ulen: usize = uri.len();
    assert(comma < ulen);
    let mut payload: Vec<u8> = Vec::new();
    let mut k: usize = comma + 1;
    while k < uri.len()
        invariant
            comma + 1 <= k <= uri@.len(),
            payload@.len() == k - comma - 1,
            forall|j: int| 0 <= j < payload@.len() ==> payload@[j] == uri@[comma + 1 + j],
        decreases uri@.len() - k,
    {
        payload.push(uri[k]);
        k = k + 1;
    }
    proof {
        assert(payload@ =~= uri@.subrange(comma as int + 1, uri@.len() as int));
    }
    match decode_base64(&payload) {
        Ok(decoded) => Ok(decoded),
        Err(_) => Err(GltfError::InvalidReference),
    }
}

// ---------------------------------------------------------------------------
// Image sources.
// ---------------------------------------------------------------------------

#[derive(Clone, Copy, PartialEq, Eq, Structural, Debug)]
pub enum ImageFormat {
    Png,
    Jpeg,
}

/// The image format a MIME type names.
pub open spec fn spec_format_of_mime(mime: Seq<u8>) -> Option<ImageFormat> {
    if mime == "image/jpeg"@.map_values(|c: char| c as u8) {
        Some(ImageFormat::Jpeg)
    } else if mime == "image/png"@.map_values(|c: char| c as u8) {
        Some(ImageFormat::Png)
    } else {
        None
    }
}

/// Compare a byte list against the bytes of an ASCII pattern.
fn bytes_eq(s: &Vec<u8>, pat: &Vec<u8>) -> (r: bool)
    ensures
        r == (s@ == pat@),
{
    if s.len() != pat.len() {
        proof {
            assert(s@.len() != pat@.len());
        }
        return false;
    }
    let mut k: usize = 0;
    while k < s.len()
        invariant
            k <= s@.len(),
            s@.len() == pat@.len(),
            forall|j: int| 0 <= j < k ==> s@[j] == pat@[j],
        decreases s@.len() - k,
    {
        if s[k] != pat[k] {
            return false;
        }
        k = k + 1;
    }
    proof {
        assert(s@ =~= pat@);
    }
    true
}

/// The bytes of the `image/jpeg` MIME type.
fn jpeg_mime_bytes() -> (r: Vec<u8>)
    ensures
        r@ == "image/jpeg"@.map_values(|c: char| c as u8),
{
    let s = "image/jpeg";
    proof {
        reveal_strlit("image/jpeg");
    }
    let b = s.as_bytes_vec();
    proof {
        assert(b@ =~= "image/jpeg"@.map_values(|c: char| c as u8)) by {
            vstd::string::is_ascii_spec_bytes(s);
        }
    }
    b
}

/// The bytes of the `image/png` MIME type.
fn png_mime_bytes() -> (r: Vec<u8>)
    ensures
        r@ == "image/png"@.map_values(|c: char| c as u8),
{
    let s = "image/png";
    proof {
        reveal_strlit("image/png");
    }
    let b = s.as_bytes_vec();
    proof {
        assert(b@ =~= "image/png"@.map_values(|c: char| c as u8)) by {
            vstd::string::is_ascii_spec_bytes(s);
        }
    }
    b
}

impl ImageFormat {
    /// The format a known MIME type names; only the two supported image
    /// types are admitted.
    pub fn from_mime_type(mime: &Vec<u8>) -> (r: ImageFormat)
        requires
            spec_format_of_mime(mime@) is Some,
        ensures
            Some(r) == spec_format_of_mime(mime@),
    {
        let jpeg = jpeg_mime_bytes();
        if bytes_eq(mime, &jpeg) {
            ImageFormat::Jpeg
        } else {
            ImageFormat::Png
        }
    }
}

/// A decoded image source, as the source document exposes it: either a
/// buffer view's bytes with a declared MIME type, or a URI with an
/// optional MIME type.  URIs and MIME types are carried as bytes.
pub enum ImageSourceDesc {
    View { data: Vec<u8>, mime_type: Vec<u8> },
    Uri { uri: Vec<u8>, mime_type: Option<Vec<u8>> },
}

/// What resolving an image source yields without touching the file
/// system: the bytes and format when they are already in memory, or the
/// URI of the file the caller must read.
pub enum ImageDataOutcome {
    Loaded { data: Vec<u8>, format: ImageFormat },
    NeedsFile { uri: Vec<u8>, mime_type: Option<Vec<u8>> },
}

/// The MIME type embedded in a data URI: the bytes between the first
/// colon and the first semicolon or comma that follows it.
pub open spec fn spec_data_uri_mime(uri: Seq<u8>) -> Option<Seq<u8>> {
    match spec_find_byte(uri, 58, 0) {
        Some(c) => {
            let rest_end = match spec_find_byte(uri, 59, c + 1) {
                Some(s) => s,
                None => match spec_find_byte(uri, 44, c + 1) {
                    Some(m) => m,
                    None => uri.len() as int,
                },
            };
            Some(uri.subrange(c + 1, rest_end))
        },
        None => None,
    }
}

/// The URI names inline data: it starts with the five bytes of
/// `data:`.
pub open spec fn spec_is_data_uri(uri: Seq<u8>) -> bool {
    uri.len() >= 5 && uri[0] == 100 && uri[1] == 97 && uri[2] == 116 && uri[3] == 97 && uri[4]
        == 58
}

fn is_data_uri(uri: &Vec<u8>) -> (r: bool)
    ensures
        r == spec_is_data_uri(uri@),
{
    uri.len() >= 5 && uri[0] == 100 && uri[1] == 97 && uri[2] == 116 && uri[3] == 97 && uri[4]
        == 58
}

fn data_uri_mime(uri: &Vec<u8>) -> (r: Option<Vec<u8>>)
    ensures
        match (r, spec_data_uri_mime(uri@)) {
            (Some(v), Some(s)) => v@ == s,
            (None, None) => true,
            _ => false,
        },
{
    let c = match find_byte(uri, 58) {
        Some(c) => c,
        None => {
            return None;
        },
    };
    let ulen: usize = uri.len();
    assert(c < ulen);
    let rest_end: usize = match find_byte_from(uri, 59, c + 1) {
        Some(s) => s,
        None => match find_byte_from(uri, 44, c + 1) {
            Some(m) => m,
            None => uri.len(),
        },
    };
    let mut out: Vec<u8> = Vec::new();
    let mut k: usize = c + 1;
    proof {
        assert(c + 1 <= rest_end);
    }
    while k < rest_end
        invariant
            c + 1 <= k <= rest_end,
            rest_end <= uri@.len(),
            out@.len() == k - c - 1,
            forall|j: int| 0 <= j < out@.len() ==> out@[j] == uri@[c + 1 + j],
        decreases rest_end - k,
    {
        out.push(uri[k]);
        k = k + 1;
    }
    proof {
        assert(out@ =~= uri@.subrange(c as int + 1, rest_end as int));
    }
    Some(out)
}

fn find_byte_from(s: &Vec<u8>, b: u8, from: usize) -> (r: Option<usize>)
    ensures
        match r {
            Some(i) => Some(i as int) == spec_find_byte(s@, b, from as int) && from <= i
                < s@.len(),
            None => spec_find_byte(s@, b, from as int) is None,
        },
{
    let mut k: usize = from;
    if k > s.len() {
        return None;
    }
    while k < s.len()
        invariant
            from <= k,
            k <= s@.len(),
            spec_find_byte(s@, b, from as int) == spec_find_byte(s@, b, k as int),
        decreases s@.len() - k,
    {
        if s[k] == b {
            return Some(k);
        }
        k = k + 1;
    }
    None
}

/// Resolve an image source as far as in-memory data allows: a buffer
/// view yields its bytes with the declared MIME type's format; a data
/// URI is decoded and its format taken from the given or embedded MIME
/// type; any other URI is handed back for the caller to read from disk.
/// An unsupported or missing MIME type is a structural error.
pub fn get_image_data(image: &ImageSourceDesc) -> (r: GltfResult<ImageDataOutcome>)
    ensures
        match image {
            ImageSourceDesc::View { data, mime_type } => match r {
                Ok(out) => out matches ImageDataOutcome::Loaded { data: d, format } && d@ == data@
                    && Some(format) == spec_format_of_mime(mime_type@),
                Err(e) => e == GltfError::InvalidReference && spec_format_of_mime(mime_type@)
                    is None,
            },
            ImageSourceDesc::Uri { uri, mime_type } => {
                if spec_is_data_uri(uri@) {
                    match r {
                        Ok(out) => out matches ImageDataOutcome::Loaded { data: d, format }
                            && (match spec_data_uri_payload(uri@) {
                            Some(payload) => b64_decoded(payload) == Some(d@),
                            None => false,
                        }) && (match mime_type {
                            Some(mt) => Some(format) == spec_format_of_mime(mt@),
                            None => (match spec_data_uri_mime(uri@) {
                                Some(mt) => Some(format) == spec_format_of_mime(mt),
                                None => false,
                            }),
                        }),
                        Err(e) => e == GltfError::InvalidReference && ((match spec_data_uri_payload(
                            uri@,
                        ) {
                            Some(payload) => b64_decoded(payload) is None,
                            None => true,
                        }) || (match mime_type {
                            Some(mt) => spec_format_of_mime(mt@) is None,
                            None => (match spec_data_uri_mime(uri@) {
                                Some(mt) => spec_format_of_mime(mt) is None,
                                None => true,
                            }),
                        })),
                    }
                } else {
                    match r {
                        Ok(out) => out matches ImageDataOutcome::NeedsFile {
                            uri: u,
                            mime_type: mt,
                        } && u@ == uri@ && (match (mt, mime_type) {
                            (Some(a), Some(b)) => a@ == b@,
                            (None, None) => true,
                            _ => false,
                        }),
                        Err(_) => false,
                    }
                }
            },
        },
{
    match image {
        ImageSourceDesc::View { data, mime_type } => {
            let jpeg = jpeg_mime_bytes();
            let png = png_mime_bytes();
            if bytes_eq(mime_type, &jpeg) || bytes_eq(mime_type, &png) {
                let format = ImageFormat::from_mime_type(mime_type);
                Ok(ImageDataOutcome::Loaded { data: data.clone(), format })
            } else {
                Err(GltfError::InvalidReference)
            }
        },
        ImageSourceDesc::Uri { uri, mime_type } => {
            if is_data_uri(uri) {
                let decoded = match parse_data_uri(uri) {
                    Ok(d) => d,
                    Err(e) => {
                        return Err(e);
                    },
                };
                let mime: Vec<u8> = match mime_type {
                    Some(mt) => mt.clone(),
                    None => match data_uri_mime(uri) {
                        Some(mt) => mt,
                        None => {
                            return Err(GltfError::InvalidReference);
                        },
                    },
                };
                let jpeg = jpeg_mime_bytes();
                let png = png_mime_bytes();
                if bytes_eq(&mime, &jpeg) || bytes_eq(&mime, &png) {
                    let format = ImageFormat::from_mime_type(&mime);
                    Ok(ImageDataOutcome::Loaded { data: decoded, format })
                } else {
                    Err(GltfError::InvalidReference)
                }
            } else {
                let mt: Option<Vec<u8>> = match mime_type {
                    Some(b) => Some(b.clone()),
                    None => None,
                };
                Ok(ImageDataOutcome::NeedsFile { uri: uri.clone(), mime_type: mt })
            }
        },
    }
}

/// The format a lowercased file extension names, as reading a file from
/// a plain URI decides it: `jpg` and `jpeg` are JPEG, `png` is PNG,
/// anything else is a structural error.
pub open spec fn spec_format_of_extension(ext: Seq<u8>) -> Option<ImageFormat> {
    if ext == "jpg"@.map_values(|c: char| c as u8) || ext == "jpeg"@.map_values(
        |c: char| c as u8,
    ) {
        Some(ImageFormat::Jpeg)
    } else if ext == "png"@.map_values(|c: char| c as u8) {
        Some(ImageFormat::Png)
    } else {
        None
    }
}

/// Lowercase ASCII letters of a byte list.
pub open spec fn spec_ascii_lower(s: Seq<u8>) -> Seq<u8> {
    s.map_values(
        |c: u8|
            if 65 <= c <= 90 {
                (c + 32) as u8
            } else {
                c
            },
    )
}

/// The image format of a file extension, compared after ASCII
/// lowercasing.
pub fn image_format_for_extension(ext: &Vec<u8>) -> (r: GltfResult<ImageFormat>)
    ensures
        match r {
            Ok(f) => Some(f) == spec_format_of_extension(spec_ascii_lower(ext@)),
            Err(e) => e == GltfError::InvalidReference && spec_format_of_extension(
                spec_ascii_lower(ext@),
            ) is None,
        },
{
    let mut lower: Vec<u8> = Vec::new();
    let mut k: usize = 0;
    while k < ext.len()
        invariant
            k <= ext@.len(),
            lower@.len() == k,
            forall|j: int|
                0 <= j < k ==> lower@[j] == (if 65 <= ext@[j] <= 90 {
                    (ext@[j] + 32) as u8
                } else {
                    ext@[j]
                }),
        decreases ext@.len() - k,
    {
        let c = ext[k];
        if 65 <= c && c <= 90 {
            lower.push(c + 32);
        } else {
            lower.push(c);
        }
        k = k + 1;
    }
    proof {
        assert(lower@ =~= spec_ascii_lower(ext@));
    }
    let jpg = str_bytes_jpg();
    let jpeg = str_bytes_jpeg();
    let png = str_bytes_png();
    if bytes_eq(&lower, &jpg) || bytes_eq(&lower, &jpeg) {
        Ok(ImageFormat::Jpeg)
    } else if bytes_eq(&lower, &png) {
        Ok(ImageFormat::Png)
    } else {
        Err(GltfError::InvalidReference)
    }
}

fn str_bytes_jpg() -> (r: Vec<u8>)
    ensures
        r@ == "jpg"@.map_values(|c: char| c as u8),
{
    let s = "jpg";
    proof {
        reveal_strlit("jpg");
    }
    let b = s.as_bytes_vec();
    proof {
        assert(b@ =~= "jpg"@.map_values(|c: char| c as u8)) by {
            vstd::string::is_ascii_spec_bytes(s);
        }
    }
    b
}

fn str_bytes_jpeg() -> (r: Vec<u8>)
    ensures
        r@ == "jpeg"@.map_values(|c: char| c as u8),
{
    let s = "jpeg";
    proof {
        reveal_strlit("jpeg");
    }
    let b = s.as_bytes_vec();
    proof {
        assert(b@ =~= "jpeg"@.map_values(|c: char| c as u8)) by {
            vstd::string::is_ascii_spec_bytes(s);
        }
    }
    b
}

fn str_bytes_png() -> (r: Vec<u8>)
    ensures
        r@ == "png"@.map_values(|c: char| c as u8),
{
    let s = "png";
    proof {
        reveal_strlit("png");
    }
    let b = s.as_bytes_vec();
    proof {
        assert(b@ =~= "png"@.map_values(|c: char| c as u8)) by {
            vstd::string::is_ascii_spec_bytes(s);
        }
    }
    b
}

} // verus!
