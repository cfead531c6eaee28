//! How an agent answers a request for a file, whole or in part.
//!
//! A request may ask for one range of the file with a `Range` header. A
//! header that cannot be read as ranges is ignored and the whole file is
//! served; a header that asks for more than one range is refused.

use vstd::prelude::*;
use vstd::string::*;
use crate::config::{join_path, joined};
use crate::text::{append_decimal, decimal, opt_view};

verus! {

/// Status of a served file.
pub const OK: u16 = 200;

/// Status of an answer to a request for more than one range.
pub const BAD_REQUEST: u16 = 400;

/// A range of a file: `length` bytes from `start` on.
#[derive(Debug, Clone, Copy, PartialEq, Eq, Structural)]
pub struct HttpRange {
    pub start: u64,
    pub length: u64,
}

/// Why a `Range` header holds no ranges.
#[derive(Debug, Clone, Copy, PartialEq, Eq, Structural)]
pub enum HttpRangeParseError {
    /// The header is not well formed.
    InvalidRange,
    /// Every range of the header begins behind the end of the file.
    NoOverlap,
}

/// The ranges that a `Range` header asks for in a file of `size` bytes.
pub uninterp spec fn parsed_ranges(header: Seq<char>, size: u64) -> Result<
    Seq<HttpRange>,
    HttpRangeParseError,
>;

/// What a parse of a `Range` header returns, as a mathematical value.
pub open spec fn ranges_view(r: Result<Vec<HttpRange>, HttpRangeParseError>) -> Result<
    Seq<HttpRange>,
    HttpRangeParseError,
> {
    match r {
        Ok(v) => Ok(v@),
        Err(e) => Err(e),
    }
}

/// Whether every range lies within a file of `size` bytes.
pub open spec fn ranges_within(ranges: Seq<HttpRange>, size: u64) -> bool {
    forall|i: int| 0 <= i < ranges.len() ==> (#[trigger] ranges[i]).start + ranges[i].length <= size
}

/// Calls `http_range::HttpRange::parse`. The result is a function of the
/// header and the size. Each range that it returns is cut to the file: it
/// starts before the end, or is a suffix of the file, so that its start and
/// length together do not exceed the size.
#[verifier::external_body]
fn parse_range(header: &str, size: u64) -> (r: Result<Vec<HttpRange>, HttpRangeParseError>)
    ensures
        ranges_view(r) == parsed_ranges(header@, size),
        r matches Ok(v) ==> ranges_within(v@, size),
{
    match http_range::HttpRange::parse(header, size) {
        Ok(v) => Ok(v.into_iter().map(|r| HttpRange { start: r.start, length: r.length }).collect()),
        Err(http_range::HttpRangeParseError::InvalidRange) => Err(
            HttpRangeParseError::InvalidRange,
        ),
        Err(http_range::HttpRangeParseError::NoOverlap) => Err(HttpRangeParseError::NoOverlap),
    }
}

/// The content type that goes with a path, by its extension.
pub uninterp spec fn guessed_mime(path: Seq<char>) -> Seq<char>;

/// Calls `mime_guess::from_path` and takes the first guess, or
/// `application/octet-stream` where there is none. No file is looked at: the
/// result is a function of the path.
#[verifier::external_body]
fn guess_mime(path: &str) -> (r: String)
    ensures
        r@ == guessed_mime(path@),
{
    mime_guess::from_path(path).first_or_octet_stream().to_string()
}

/// The content type to serve a file with.
pub fn content_type(path: &str) -> (r: String)
    ensures
        r@ == guessed_mime(path@),
{
    guess_mime(path)
}

/// `bytes <first>-<last>/<size>`.
pub open spec fn content_range_text(range: HttpRange, size: u64) -> Seq<char> {
    "bytes "@ + decimal(range.start as nat) + "-"@ + decimal(
        (range.start + range.length - 1) as nat,
    ) + "/"@ + decimal(size as nat)
}

/// The value of `Content-Range` for a range of a file of `size` bytes. The
/// range must hold a byte and lie within the file.
pub fn content_range(range: HttpRange, size: u64) -> (r: String)
    requires
        range.length >= 1,
        range.start + range.length <= size,
    ensures
        r@ == content_range_text(range, size),
{
    let mut r = "bytes ".to_owned();
    append_decimal(&mut r, range.start);
    r.append("-");
    append_decimal(&mut r, range.start + range.length - 1);
    r.append("/");
    append_decimal(&mut r, size);
    r
}

/// What is served of a file.
#[derive(Debug)]
pub enum Served {
    /// The whole file.
    Full,
    /// `length` bytes from `start` on, announced in `Content-Range`.
    Partial { start: u64, length: u64, content_range: String },
}

/// What is served of a file, as a mathematical value.
pub enum ServedView {
    Full,
    Partial { start: u64, length: u64, content_range: Seq<char> },
}

impl View for Served {
    type V = ServedView;

    open spec fn view(&self) -> ServedView {
        match self {
            Served::Full => ServedView::Full,
            Served::Partial { start, length, content_range } => ServedView::Partial {
                start: *start,
                length: *length,
                content_range: content_range@,
            },
        }
    }
}

/// The head of an answer that serves a file.
#[derive(Debug)]
pub struct Download {
    pub status: u16,
    pub content_length: u64,
    pub served: Served,
}

/// The head of an answer, as a mathematical value.
pub struct DownloadView {
    pub status: u16,
    pub content_length: u64,
    pub served: ServedView,
}

impl View for Download {
    type V = DownloadView;

    open spec fn view(&self) -> DownloadView {
        DownloadView {
            status: self.status,
            content_length: self.content_length,
            served: self.served@,
        }
    }
}

/// What a download view of a result is.
pub open spec fn download_view(r: Result<Download, u16>) -> Result<DownloadView, u16> {
    match r {
        Ok(d) => Ok(d@),
        Err(e) => Err(e),
    }
}

/// How a file of `file_size` bytes is served, given the ranges that the
/// request asks for, if any could be read: with none, the whole file; with
/// one that holds a byte, that range; with more than one, not at all. A
/// single range that holds no byte serves the whole file.
pub open spec fn served_for(ranges: Option<Seq<HttpRange>>, file_size: u64) -> Result<
    DownloadView,
    u16,
> {
    match ranges {
        Some(v) => if v.len() > 1 {
            Err(BAD_REQUEST)
        } else if v.len() == 1 && v[0].length >= 1 {
            Ok(
                DownloadView {
                    status: OK,
                    content_length: v[0].length,
                    served: ServedView::Partial {
                        start: v[0].start,
                        length: v[0].length,
                        content_range: content_range_text(v[0], file_size),
                    },
                },
            )
        } else {
            Ok(DownloadView { status: OK, content_length: file_size, served: ServedView::Full })
        },
        None => Ok(DownloadView { status: OK, content_length: file_size, served: ServedView::Full }),
    }
}

/// Decides how a file is served from the ranges that were read from the
/// request. The ranges must lie within the file.
pub fn select_range(ranges: Option<Vec<HttpRange>>, file_size: u64) -> (r: Result<Download, u16>)
    requires
        ranges matches Some(v) ==> ranges_within(v@, file_size),
    ensures
        download_view(r) == served_for(
            match ranges {
                Some(v) => Some(v@),
                None => None,
            },
            file_size,
        ),
{
    match ranges {
        Some(v) => {
            if v.len() > 1 {
                Err(BAD_REQUEST)
            } else if v.len() == 1 && v[0].length >= 1 {
                let range = v[0];
                Ok(
                    Download {
                        status: OK,
                        content_length: range.length,
                        served: Served::Partial {
                            start: range.start,
                            length: range.length,
                            content_range: content_range(range, file_size),
                        },
                    },
                )
            } else {
                Ok(Download { status: OK, content_length: file_size, served: Served::Full })
            }
        },
        None => Ok(Download { status: OK, content_length: file_size, served: Served::Full }),
    }
}

/// The ranges that a request asks for, where its header reads as ranges.
pub open spec fn requested_ranges(range_header: Option<Seq<char>>, file_size: u64) -> Option<
    Seq<HttpRange>,
> {
    match range_header {
        Some(h) => match parsed_ranges(h, file_size) {
            Ok(v) => Some(v),
            Err(_) => None,
        },
        None => None,
    }
}

/// Decides how a file of `file_size` bytes is served to a request.
/// `range_header` is the request's `Range` header where it is there and
/// readable.
pub fn download_range_file(range_header: Option<&str>, file_size: u64) -> (r: Result<
    Download,
    u16,
>)
    ensures
        download_view(r) == served_for(requested_ranges(opt_view(range_header), file_size), file_size),
{
    let ranges = match range_header {
        Some(h) => match parse_range(h, file_size) {
            Ok(v) => Some(v),
            Err(_) => None,
        },
        None => None,
    };
    select_range(ranges, file_size)
}

/// Where an uploaded file is written: below the agent's data path, in the
/// directory that the request names, under the name that it gives.
pub open spec fn upload_path(data_path: Seq<char>, file_base: Option<Seq<char>>, file: Seq<char>) -> Seq<
    char,
> {
    joined(
        match file_base {
            Some(b) => joined(data_path, b),
            None => data_path,
        },
        file,
    )
}

/// Where an upload goes.
#[derive(Debug)]
pub struct UploadTarget {
    /// The directory, which is made where it is missing.
    pub dir: String,
    /// The file.
    pub path: String,
}

/// Decides where an uploaded file is written.
pub fn upload_file(data_path: &str, file_base: Option<&str>, file_name: &str) -> (r: UploadTarget)
    ensures
        r.path@ == upload_path(data_path@, opt_view(file_base), file_name@),
        r.dir@ == (match file_base {
            Some(b) => joined(data_path@, b@),
            None => data_path@,
        }),
{
    let dir = match file_base {
        Some(b) => join_path(data_path, b),
        None => data_path.to_owned(),
    };
    let path = join_path(dir.as_str(), file_name);
    UploadTarget { dir, path }
}

} // verus!
