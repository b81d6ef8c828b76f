use vstd::prelude::*;
use vstd::string::*;

use crate::decimal::{decimal, decimal_text};
use crate::encoding::{bare_attachment, bare_disposition, disposition_for, disposition_value};
use crate::media_type::{resolved_type, MediaType};
use crate::temp_file_reader::{error_for, BuildError, IoCause, TempFileReader, UploadStorage};

verus! {

/// The final component of a path, as `std::path::Path::file_name` finds it.
pub uninterp spec fn path_file_name(p: Seq<char>) -> Option<Seq<char>>;

/// The extension of a path, as `std::path::Path::extension` finds it.
pub uninterp spec fn path_extension(p: Seq<char>) -> Option<Seq<char>>;

/// Relies on `std::path::Path::file_name` (read lossily as text): the final
/// component of `path`, if it has one.
#[verifier::external_body]
fn file_name_of(path: &str) -> (r: Option<String>)
    ensures
        r matches Some(n) ==> path_file_name(path@) == Some(n@),
        r is None ==> path_file_name(path@) is None,
{
    std::path::Path::new(path).file_name().map(|n| n.to_string_lossy().into_owned())
}

/// Relies on `std::path::Path::extension`: the extension of the final
/// component of `path`, if it has one.
#[verifier::external_body]
fn extension_of(path: &str) -> (r: Option<String>)
    ensures
        r matches Some(e) ==> path_extension(path@) == Some(e@),
        r is None ==> path_extension(path@) is None,
{
    std::path::Path::new(path).extension().map(|e| e.to_string_lossy().into_owned())
}

/// What the filesystem reports of a path.
#[derive(Clone, Copy, Debug, PartialEq, Eq, Structural)]
pub struct FileMeta {
    pub len: u64,
    pub is_file: bool,
}

/// An upload left behind by the framework: where its bytes are, the name
/// and media type the client declared, and its size.
pub struct Upload<'o, S> {
    pub storage: UploadStorage<'o, S>,
    pub name: Option<String>,
    pub content_type: Option<MediaType>,
    pub len: u64,
}

/// Where the bytes of a response come from.
pub enum DownloadResponseData<'o, S> {
    /// Borrowed from the caller.
    Slice(&'o [u8]),
    /// Owned by the response.
    Vec(Vec<u8>),
    /// A stream, with its length when the caller knows it.
    Reader { data: S, content_length: Option<u64> },
    /// An opened file, with what the filesystem reported of its path.
    File { path: String, file: S, metadata: Result<FileMeta, IoCause> },
    /// An upload, in memory or on disk.
    TempFile(Upload<'o, S>),
}

/// A download to be sent: its bytes, and the filename and media type the
/// caller asked for, if any.
pub struct DownloadResponsePro<'o, S> {
    pub file_name: Option<String>,
    pub content_type: Option<MediaType>,
    pub data: DownloadResponseData<'o, S>,
}

/// One response header.
pub struct Header {
    pub name: String,
    pub value: String,
}

/// The stream a response body is read from.
pub enum Body<'o, S> {
    Slice(&'o [u8]),
    Vec(Vec<u8>),
    Stream(S),
    TempFile(TempFileReader<'o, S>),
}

/// How the body goes out: with its length declared up front, or chunked.
pub enum Delivery<'o, S> {
    Fixed { len: u64, body: Body<'o, S> },
    Chunked { body: Body<'o, S> },
}

/// Headers and body of a built response.
pub struct ResolvedResponse<'o, S> {
    pub headers: Vec<Header>,
    pub delivery: Delivery<'o, S>,
}

pub open spec fn content_disposition_name() -> Seq<char> {
    seq!['C', 'o', 'n', 't', 'e', 'n', 't', '-', 'D', 'i', 's', 'p', 'o', 's', 'i', 't', 'i', 'o',
        'n']
}

pub open spec fn content_type_name() -> Seq<char> {
    seq!['C', 'o', 'n', 't', 'e', 'n', 't', '-', 'T', 'y', 'p', 'e']
}

pub open spec fn content_length_name() -> Seq<char> {
    seq!['C', 'o', 'n', 't', 'e', 'n', 't', '-', 'L', 'e', 'n', 'g', 't', 'h']
}

/// Headers as name/value pairs of text.
pub open spec fn header_views(hs: Seq<Header>) -> Seq<(Seq<char>, Seq<char>)> {
    hs.map_values(|h: Header| (h.name@, h.value@))
}

/// The headers of a response: the disposition, then the media type if one
/// was resolved, then the length if it is known.
pub open spec fn expected_headers(
    disposition: Seq<char>,
    content_type: Option<Seq<char>>,
    len: Option<u64>,
) -> Seq<(Seq<char>, Seq<char>)> {
    let h = seq![(content_disposition_name(), disposition)];
    let h = match content_type {
        Some(t) => h.push((content_type_name(), t)),
        None => h,
    };
    match len {
        Some(n) => h.push((content_length_name(), decimal(n as nat))),
        None => h,
    }
}

/// The media type for a name's extension; no extension resolves as the
/// empty one.
pub open spec fn type_for_extension_of(name: Seq<char>) -> Seq<char> {
    match path_extension(name) {
        Some(e) => resolved_type(e),
        None => resolved_type(Seq::empty()),
    }
}

impl<'o, S> DownloadResponsePro<'o, S> {
    /// The filename the source itself supplies: a file's final path
    /// component, an upload's declared name.
    pub open spec fn derived_name(&self) -> Option<Seq<char>> {
        match self.data {
            DownloadResponseData::File { path, .. } => path_file_name(path@),
            DownloadResponseData::TempFile(u) => match u.name {
                Some(n) => Some(n@),
                None => None,
            },
            _ => None,
        }
    }

    /// The `Content-Disposition` value: from the explicit filename when one
    /// is given (bare when it is empty), else from the derived name, else bare.
    pub open spec fn spec_disposition(&self) -> Seq<char> {
        match self.file_name {
            Some(n) => disposition_for(n@),
            None => match self.derived_name() {
                Some(d) => disposition_for(d),
                None => bare_attachment(),
            },
        }
    }

    /// The `Content-Type` value: the explicit type; else, for files, the
    /// type of the path's extension; for uploads, the declared type or the
    /// type of the declared name's extension; for the rest, none.
    pub open spec fn spec_content_type(&self) -> Option<Seq<char>> {
        match self.content_type {
            Some(m) => Some(m@),
            None => match self.data {
                DownloadResponseData::File { path, .. } => Some(type_for_extension_of(path@)),
                DownloadResponseData::TempFile(u) => match u.content_type {
                    Some(m) => Some(m@),
                    None => match u.name {
                        Some(n) => Some(type_for_extension_of(n@)),
                        None => Some(resolved_type(Seq::empty())),
                    },
                },
                _ => None,
            },
        }
    }

    /// The declared length (`Ok(None)`: chunked), or the error the build
    /// fails with.
    pub open spec fn spec_length(&self) -> Result<Option<u64>, BuildError> {
        match self.data {
            DownloadResponseData::Slice(d) => Ok(Some(d@.len() as u64)),
            DownloadResponseData::Vec(v) => Ok(Some(v@.len() as u64)),
            DownloadResponseData::Reader { content_length, .. } => Ok(content_length),
            DownloadResponseData::File { metadata, .. } => match metadata {
                Ok(m) => if m.is_file {
                    Ok(Some(m.len))
                } else {
                    Err(BuildError::InvalidInput)
                },
                Err(cause) => Err(error_for(cause)),
            },
            DownloadResponseData::TempFile(u) => match u.storage {
                UploadStorage::OnDisk { opened: Err(cause), .. } => Err(error_for(cause)),
                _ => Ok(Some(u.len)),
            },
        }
    }

    /// Whether `body` streams this source's bytes.
    pub open spec fn carried_by(&self, body: Body<'o, S>) -> bool {
        match self.data {
            DownloadResponseData::Slice(d) => body matches Body::Slice(b) && b@ == d@,
            DownloadResponseData::Vec(v) => body matches Body::Vec(b) && b@ == v@,
            DownloadResponseData::Reader { data, .. } => body matches Body::Stream(s) && s == data,
            DownloadResponseData::File { file, .. } => body matches Body::Stream(s) && s == file,
            DownloadResponseData::TempFile(u) => body matches Body::TempFile(r) && r.wf()
                && r.streams(u.storage),
        }
    }

    /// What building from this source gives: the error of `spec_length`, or
    /// the expected headers and a delivery that carries the source's bytes,
    /// fixed-length exactly when the length is known.
    pub open spec fn responds(&self, r: Result<ResolvedResponse<'o, S>, BuildError>) -> bool {
        match self.spec_length() {
            Err(e) => r == Err::<ResolvedResponse<'o, S>, BuildError>(e),
            Ok(len) => r matches Ok(resp) && header_views(resp.headers@) == expected_headers(
                self.spec_disposition(),
                self.spec_content_type(),
                len,
            ) && match resp.delivery {
                Delivery::Fixed { len: n, body } => len == Some(n) && self.carried_by(body),
                Delivery::Chunked { body } => len is None && self.carried_by(body),
            },
        }
    }
}


fn header(name: &str, value: String) -> (r: Header)
    ensures
        r.name@ == name@,
        r.value@ == value@,
{
    Header { name: String::from_str(name), value }
}

/// Lays out the headers: disposition, then media type, then length.
fn build_headers(disposition: String, content_type: Option<MediaType>, len: Option<u64>) -> (r:
    Vec<Header>)
    ensures
        header_views(r@) == expected_headers(
            disposition@,
            match content_type {
                Some(m) => Some(m@),
                None => None,
            },
            len,
        ),
{
    let mut r: Vec<Header> = Vec::new();
    proof {
        reveal_strlit("Content-Disposition");
        reveal_strlit("Content-Type");
        reveal_strlit("Content-Length");
        assert("Content-Disposition"@ =~= content_disposition_name());
        assert("Content-Type"@ =~= content_type_name());
        assert("Content-Length"@ =~= content_length_name());
    }
    r.push(header("Content-Disposition", disposition));
    let ghost h = seq![(content_disposition_name(), disposition@)];
    assert(header_views(r@) =~= h);
    match content_type {
        Some(m) => {
            r.push(header("Content-Type", m.text));
            proof {
                h = h.push((content_type_name(), m@));
            }
            assert(header_views(r@) =~= h);
        },
        None => {},
    }
    match len {
        Some(n) => {
            r.push(header("Content-Length", decimal_text(n)));
            proof {
                h = h.push((content_length_name(), decimal(n as nat)));
            }
            assert(header_views(r@) =~= h);
        },
        None => {},
    }
    r
}

/// The media type for the extension of `name`.
fn type_for_name(name: &str) -> (r: MediaType)
    ensures
        r@ == type_for_extension_of(name@),
{
    match extension_of(name) {
        Some(e) => MediaType::from_extension(e.as_str()),
        None => {
            let e = String::new();
            MediaType::from_extension(e.as_str())
        },
    }
}

impl<'o, S> DownloadResponsePro<'o, S> {
    /// A download of bytes borrowed from the caller.
    pub fn from_slice(data: &'o [u8], file_name: Option<String>, content_type: Option<
        MediaType,
    >) -> (r: DownloadResponsePro<'o, S>)
        ensures
            r.file_name == file_name,
            r.content_type == content_type,
            r.data matches DownloadResponseData::Slice(d) && d@ == data@,
    {
        DownloadResponsePro { file_name, content_type, data: DownloadResponseData::Slice(data) }
    }

    /// A download of bytes the response owns.
    pub fn from_vec(vec: Vec<u8>, file_name: Option<String>, content_type: Option<MediaType>) -> (r:
        DownloadResponsePro<'o, S>)
        ensures
            r.file_name == file_name,
            r.content_type == content_type,
            r.data matches DownloadResponseData::Vec(v) && v@ == vec@,
    {
        DownloadResponsePro { file_name, content_type, data: DownloadResponseData::Vec(vec) }
    }

    /// A download read from a stream, of `content_length` bytes if known.
    pub fn from_reader(
        reader: S,
        file_name: Option<String>,
        content_type: Option<MediaType>,
        content_length: Option<u64>,
    ) -> (r: DownloadResponsePro<'o, S>)
        ensures
            r.file_name == file_name,
            r.content_type == content_type,
            r.data matches DownloadResponseData::Reader { data, content_length: l } && data
                == reader && l == content_length,
    {
        DownloadResponsePro {
            file_name,
            content_type,
            data: DownloadResponseData::Reader { data: reader, content_length },
        }
    }

    /// A download of the file at `path`, opened as `file`, with what the
    /// filesystem reported of the path.
    pub fn from_file(
        path: String,
        file: S,
        metadata: Result<FileMeta, IoCause>,
        file_name: Option<String>,
        content_type: Option<MediaType>,
    ) -> (r: DownloadResponsePro<'o, S>)
        ensures
            r.file_name == file_name,
            r.content_type == content_type,
            r.data matches DownloadResponseData::File { path: p, file: f, metadata: m } && p@
                == path@ && f == file && m == metadata,
    {
        DownloadResponsePro {
            file_name,
            content_type,
            data: DownloadResponseData::File { path, file, metadata },
        }
    }

    /// A download of an upload.
    pub fn from_temp_file(
        temp_file: Upload<'o, S>,
        file_name: Option<String>,
        content_type: Option<MediaType>,
    ) -> (r: DownloadResponsePro<'o, S>)
        ensures
            r.file_name == file_name,
            r.content_type == content_type,
            r.data matches DownloadResponseData::TempFile(u) && u == temp_file,
    {
        DownloadResponsePro {
            file_name,
            content_type,
            data: DownloadResponseData::TempFile(temp_file),
        }
    }

    /// The `Content-Disposition` value.
    pub fn disposition(&self) -> (r: String)
        ensures
            r@ == self.spec_disposition(),
    {
        match &self.file_name {
            Some(n) => disposition_value(n.as_str()),
            None => match &self.data {
                DownloadResponseData::File { path, .. } => match file_name_of(path.as_str()) {
                    Some(d) => disposition_value(d.as_str()),
                    None => bare_disposition(),
                },
                DownloadResponseData::TempFile(u) => match &u.name {
                    Some(n) => disposition_value(n.as_str()),
                    None => bare_disposition(),
                },
                _ => bare_disposition(),
            },
        }
    }

    /// The `Content-Type` value, if one is resolved.
    pub fn media_type(&self) -> (r: Option<MediaType>)
        ensures
            match r {
                Some(m) => self.spec_content_type() == Some(m@),
                None => self.spec_content_type() is None,
            },
    {
        match &self.content_type {
            Some(m) => Some(MediaType { text: m.text.clone() }),
            None => match &self.data {
                DownloadResponseData::File { path, .. } => Some(type_for_name(path.as_str())),
                DownloadResponseData::TempFile(u) => match &u.content_type {
                    Some(m) => Some(MediaType { text: m.text.clone() }),
                    None => match &u.name {
                        Some(n) => Some(type_for_name(n.as_str())),
                        None => {
                            let e = String::new();
                            Some(MediaType::from_extension(e.as_str()))
                        },
                    },
                },
                _ => None,
            },
        }
    }

    /// Builds the response: headers, and the body with its delivery mode;
    /// fails when a file's metadata or an upload's file could not be had.
    pub fn respond_to(self) -> (r: Result<ResolvedResponse<'o, S>, BuildError>)
        ensures
            self.responds(r),
    {
        let disposition = self.disposition();
        let content_type = self.media_type();
        match self.data {
            DownloadResponseData::Slice(d) => {
                let len = d.len() as u64;
                let headers = build_headers(disposition, content_type, Some(len));
                Ok(
                    ResolvedResponse {
                        headers,
                        delivery: Delivery::Fixed { len, body: Body::Slice(d) },
                    },
                )
            },
            DownloadResponseData::Vec(v) => {
                let len = v.len() as u64;
                let headers = build_headers(disposition, content_type, Some(len));
                Ok(ResolvedResponse { headers, delivery: Delivery::Fixed { len, body: Body::Vec(v) } })
            },
            DownloadResponseData::Reader { data, content_length } => {
                let headers = build_headers(disposition, content_type, content_length);
                match content_length {
                    Some(len) => Ok(
                        ResolvedResponse {
                            headers,
                            delivery: Delivery::Fixed { len, body: Body::Stream(data) },
                        },
                    ),
                    None => Ok(
                        ResolvedResponse {
                            headers,
                            delivery: Delivery::Chunked { body: Body::Stream(data) },
                        },
                    ),
                }
            },
            DownloadResponseData::File { file, metadata, .. } => match metadata {
                Ok(m) => {
                    if m.is_file {
                        let headers = build_headers(disposition, content_type, Some(m.len));
                        Ok(
                            ResolvedResponse {
                                headers,
                                delivery: Delivery::Fixed { len: m.len, body: Body::Stream(file) },
                            },
                        )
                    } else {
                        Err(BuildError::InvalidInput)
                    }
                },
                Err(cause) => Err(BuildError::from_cause(cause)),
            },
            DownloadResponseData::TempFile(u) => {
                let len = u.len;
                match TempFileReader::from(u.storage) {
                    Ok(reader) => {
                        let headers = build_headers(disposition, content_type, Some(len));
                        Ok(
                            ResolvedResponse {
                                headers,
                                delivery: Delivery::Fixed { len, body: Body::TempFile(reader) },
                            },
                        )
                    },
                    Err(e) => Err(e),
                }
            },
        }
    }
}


/// The text of an optional string.
pub open spec fn text_of(o: Option<String>) -> Option<Seq<char>> {
    match o {
        Some(s) => Some(s@),
        None => None,
    }
}

/// The text of an optional media type.
pub open spec fn media_text_of(o: Option<MediaType>) -> Option<Seq<char>> {
    match o {
        Some(m) => Some(m@),
        None => None,
    }
}

/// Building from an owned buffer of N bytes always succeeds, declares
/// `Content-Length: N` as the last header, and delivers with fixed length N
/// a body of exactly those bytes in their order.
pub proof fn owned_buffer_round_trip<'o, S>(
    src: DownloadResponsePro<'o, S>,
    bytes: Seq<u8>,
    r: Result<ResolvedResponse<'o, S>, BuildError>,
)
    requires
        src.data matches DownloadResponseData::Vec(v) && v@ == bytes,
        bytes.len() <= u64::MAX,
        src.responds(r),
    ensures
        match r {
            Ok(resp) => {
                &&& header_views(resp.headers@).last() == (
                    content_length_name(),
                    decimal(bytes.len()),
                )
                &&& resp.delivery matches Delivery::Fixed { len, body }
                &&& len == bytes.len()
                &&& body matches Body::Vec(b)
                &&& b@ == bytes
            },
            Err(_) => false,
        },
{
}

/// Two builds from file sources that agree on path, filesystem metadata,
/// explicit filename and explicit media type end alike: both fail with the
/// same error, or both succeed with the same headers.
pub proof fn file_build_is_stable<'o, S>(
    a: DownloadResponsePro<'o, S>,
    b: DownloadResponsePro<'o, S>,
    ra: Result<ResolvedResponse<'o, S>, BuildError>,
    rb: Result<ResolvedResponse<'o, S>, BuildError>,
)
    requires
        a.data matches DownloadResponseData::File { path: pa, metadata: ma, .. }
            && b.data matches DownloadResponseData::File { path: pb, metadata: mb, .. } && pa@
            == pb@ && ma == mb,
        text_of(a.file_name) == text_of(b.file_name),
        media_text_of(a.content_type) == media_text_of(b.content_type),
        a.responds(ra),
        b.responds(rb),
    ensures
        ra matches Err(e) ==> rb == Err::<ResolvedResponse<'o, S>, BuildError>(e),
        ra matches Ok(x) ==> rb matches Ok(y) && header_views(x.headers@) == header_views(
            y.headers@,
        ),
{
}

} // verus!
