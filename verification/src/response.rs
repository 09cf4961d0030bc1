//! The response model: status, headers in order, and a byte body. The
//! binary translates a value of this model into its HTTP engine's
//! response type; everything about its content is decided and proved
//! here.

use vstd::prelude::*;
use vstd::string::*;
use vstd::utf8::encode_utf8;
use crate::state::{OriginPath, ProcessingState};
use crate::text::{
    dec_digits, spec_find, spec_lower, spec_split, dec_string, find_char, split_string,
    eq_ignore_case,
};

verus! {

/// An HTTP response: the status code, the headers in emission order, and
/// the body bytes.
pub struct HttpResponse {
    pub status: u16,
    pub headers: Vec<(String, String)>,
    pub body: Vec<u8>,
}

/// The default error document for status `e`.
pub open spec fn spec_error_message(e: u16) -> Seq<char> {
    "Error "@ + dec_digits(e as nat) + ": That's all we know"@
}

/// The shape of a bare error response: status `e`, a plain-text body
/// holding the default error document, and its exact length.
pub open spec fn is_error_response(e: u16, r: HttpResponse) -> bool {
    &&& r.status == e
    &&& r.body@ == encode_utf8(spec_error_message(e))
    &&& r.headers@.len() == 2
    &&& r.headers@[0].0@ == "Content-Type"@
    &&& r.headers@[0].1@ == "text/plain; charset=us-ascii"@
    &&& r.headers@[1].0@ == "Content-Length"@
    &&& r.headers@[1].1@ == dec_digits(r.body@.len() as nat)
}

/// Builds the bare error response for status `e`:
/// `Error <e>: That's all we know`.
pub fn error_response(e: u16) -> (r: HttpResponse)
    ensures
        is_error_response(e, r),
{
    let mut msg = String::from_str("Error ");
    let num = dec_string(e as u64);
    msg.append(num.as_str());
    msg.append(": That's all we know");
    let body = msg.as_str().as_bytes_vec();
    let len_str = dec_string(body.len() as u64);
    let mut headers: Vec<(String, String)> = Vec::new();
    headers.push(
        (String::from_str("Content-Type"), String::from_str("text/plain; charset=us-ascii")),
    );
    headers.push((String::from_str("Content-Length"), len_str));
    HttpResponse { status: e, headers, body }
}

/// What the binary observed while materialising a static terminal:
/// either the file's bytes together with the detected media type, or the
/// failure it ran into (each carrying the underlying error's text).
pub enum StaticRead {
    Content { data: Vec<u8>, mime: String },
    RewindFailed(String),
    ReadFailed(String),
    MimeFailed(String),
}

/// The shape of a static-file response: the carried status, the body
/// read from the file, its media type and exact length.
pub open spec fn is_static_response(
    status: u16,
    mime: Seq<char>,
    data: Seq<u8>,
    r: HttpResponse,
) -> bool {
    &&& r.status == status
    &&& r.body@ == data
    &&& r.headers@.len() == 2
    &&& r.headers@[0].0@ == "Content-Type"@
    &&& r.headers@[0].1@ == mime
    &&& r.headers@[1].0@ == "Content-Length"@
    &&& r.headers@[1].1@ == dec_digits(data.len() as nat)
}

/// Resolves a static terminal: on content, the response carries the
/// bytes, the media type and the status; on any failure, resolution
/// re-enters with an internal error naming the failure.
pub fn static_response<F, C>(status: u16, origin: &OriginPath, io: StaticRead) -> (r: Result<
    HttpResponse,
    ProcessingState<F, C>,
>)
    ensures
        match io {
            StaticRead::Content { data, mime } => r matches Ok(resp) && is_static_response(
                status,
                mime@,
                data@,
                resp,
            ),
            StaticRead::RewindFailed(e) => r matches Err(s) && (
            s matches ProcessingState::InternalError(c, m) && c == 500 && m@
                == "Unable to rewind to start of file while resolving to response: "@ + e@),
            StaticRead::ReadFailed(e) => r matches Err(s) && (
            s matches ProcessingState::InternalError(c, m) && c == 500 && m@
                == "Couldn't read file "@ + origin.text@ + ": "@ + e@),
            StaticRead::MimeFailed(e) => r matches Err(s) && (
            s matches ProcessingState::InternalError(c, m) && c == 500 && m@
                == "Error getting mimetype of "@ + origin.text@ + ": "@ + e@),
        },
{
    match io {
        StaticRead::Content { data, mime } => {
            let len_str = dec_string(data.len() as u64);
            let mut headers: Vec<(String, String)> = Vec::new();
            headers.push((String::from_str("Content-Type"), mime));
            headers.push((String::from_str("Content-Length"), len_str));
            Ok(HttpResponse { status, headers, body: data })
        },
        StaticRead::RewindFailed(e) => {
            let mut m = String::from_str(
                "Unable to rewind to start of file while resolving to response: ",
            );
            m.append(e.as_str());
            Err(ProcessingState::InternalError(500, m))
        },
        StaticRead::ReadFailed(e) => {
            let mut m = String::from_str("Couldn't read file ");
            m.append(origin.text.as_str());
            m.append(": ");
            m.append(e.as_str());
            Err(ProcessingState::InternalError(500, m))
        },
        StaticRead::MimeFailed(e) => {
            let mut m = String::from_str("Error getting mimetype of ");
            m.append(origin.text.as_str());
            m.append(": ");
            m.append(e.as_str());
            Err(ProcessingState::InternalError(500, m))
        },
    }
}

/// A stderr line contributes a header when it contains `=`: the name is
/// what stands before the first `=`, the value everything after it.
pub open spec fn spec_split_header(line: Seq<char>) -> Option<(Seq<char>, Seq<char>)> {
    match spec_find(line, '=') {
        None => None,
        Some(i) => Some((line.take(i), line.skip(i + 1))),
    }
}

/// The headers contributed by a sequence of stderr lines, in order.
pub open spec fn spec_header_pairs_of(lines: Seq<Seq<char>>) -> Seq<(Seq<char>, Seq<char>)>
    decreases lines.len(),
{
    if lines.len() == 0 {
        Seq::empty()
    } else {
        let r = spec_header_pairs_of(lines.drop_last());
        match spec_split_header(lines.last()) {
            None => r,
            Some(p) => r.push(p),
        }
    }
}

/// The headers a stage's stderr stream stands for: its lines split on
/// newlines, each line with a `=` contributing one `name=value` pair.
pub open spec fn spec_header_pairs(stderr: Seq<char>) -> Seq<(Seq<char>, Seq<char>)> {
    spec_header_pairs_of(spec_split(stderr, '\n'))
}

/// Splits one stderr line into a header pair at the first `=`.
pub fn split_header(line: &String) -> (r: Option<(String, String)>)
    ensures
        match r {
            Some(p) => spec_split_header(line@) == Some((p.0@, p.1@)),
            None => spec_split_header(line@) is None,
        },
{
    let s = line.as_str();
    match find_char(s, '=') {
        None => None,
        Some(i) => {
            let n = s.unicode_len();
            let k = s.substring_char(0, i).to_owned();
            let v = s.substring_char(i + 1, n).to_owned();
            proof {
                assert(s@.subrange(0, i as int) =~= s@.take(i as int));
                assert(s@.subrange(i + 1, n as int) =~= s@.skip(i + 1));
            }
            Some((k, v))
        },
    }
}

/// The shape of a successful chain response: the chain's status, the
/// last stage's stdout as body, the headers its stderr declared in
/// order, and the exact body length appended last.
pub open spec fn is_chain_response(
    status: u16,
    stderr: Seq<char>,
    stdout: Seq<u8>,
    r: HttpResponse,
) -> bool {
    &&& r.status == status
    &&& r.body@ == stdout
    &&& r.headers@.len() == spec_header_pairs(stderr).len() + 1
    &&& forall|i: int|
        0 <= i < spec_header_pairs(stderr).len() ==> (#[trigger] r.headers@[i]).0@
            == spec_header_pairs(stderr)[i].0 && r.headers@[i].1@ == spec_header_pairs(
            stderr,
        )[i].1
    &&& r.headers@.last().0@ == "Content-Length"@
    &&& r.headers@.last().1@ == dec_digits(stdout.len() as nat)
}

/// Finishes a chain whose every stage succeeded: the last stage's stderr
/// (when it was valid text) becomes the response headers, its stdout the
/// body. A stderr stream that was not valid text re-enters resolution as
/// an internal error carrying the decoding failure.
pub fn chain_response<F, C>(status: u16, stderr: Result<String, String>, stdout: Vec<u8>) -> (r:
    Result<HttpResponse, ProcessingState<F, C>>)
    ensures
        match stderr {
            Ok(text) => r matches Ok(resp) && is_chain_response(status, text@, stdout@, resp),
            Err(e) => r matches Err(s) && (
            s matches ProcessingState::InternalError(c, m) && c == 500 && m@
                == "Error reading utf-8 from header output: "@ + e@),
        },
{
    match stderr {
        Err(e) => {
            let mut m = String::from_str("Error reading utf-8 from header output: ");
            m.append(e.as_str());
            Err(ProcessingState::InternalError(500, m))
        },
        Ok(text) => {
            let lines = split_string(text.as_str(), '\n');
            let mut headers: Vec<(String, String)> = Vec::new();
            let mut i: usize = 0;
            let n = lines.len();
            while i < n
                invariant
                    i <= n,
                    n == lines@.len(),
                    lines.deep_view().len() == n,
                    forall|j: int| 0 <= j < n ==> lines.deep_view()[j] == lines@[j]@,
                    lines.deep_view() == spec_split(text@, '\n'),
                    headers.deep_view() =~= spec_header_pairs_of(
                        lines.deep_view().take(i as int),
                    ),
                decreases n - i,
            {
                proof {
                    assert(lines.deep_view().take(i + 1).drop_last() =~= lines.deep_view().take(
                        i as int,
                    ));
                    assert(lines.deep_view().take(i + 1).last() == lines.deep_view()[i as int]);
                }
                match split_header(&lines[i]) {
                    Some(p) => {
                        headers.push(p);
                        proof {
                            assert(headers.deep_view() =~= spec_header_pairs_of(
                                lines.deep_view().take(i + 1),
                            ));
                        }
                    },
                    None => (),
                }
                i += 1;
            }
            proof {
                assert(lines.deep_view().take(n as int) =~= lines.deep_view());
            }
            let len_str = dec_string(stdout.len() as u64);
            headers.push((String::from_str("Content-Length"), len_str));
            Ok(HttpResponse { status, headers, body: stdout })
        },
    }
}

/// Whether a header name is `Content-Length`, compared up to ASCII case
/// as the HTTP engine would.
pub open spec fn is_content_length_name(name: Seq<char>) -> bool {
    spec_lower(name) == spec_lower("Content-Length"@)
}

/// The headers with every `Content-Length` entry removed, in order.
pub open spec fn spec_strip_cl(hs: Seq<(String, String)>) -> Seq<(String, String)>
    decreases hs.len(),
{
    if hs.len() == 0 {
        Seq::empty()
    } else {
        let r = spec_strip_cl(hs.drop_last());
        if is_content_length_name(hs.last().0@) {
            r
        } else {
            r.push(hs.last())
        }
    }
}

/// Overwrites the response's `Content-Length` with the exact body
/// length: any prior entry for it is removed and a single exact one
/// appended; everything else is untouched.
pub fn finalize_content_length(resp: &mut HttpResponse)
    ensures
        final(resp).status == old(resp).status,
        final(resp).body == old(resp).body,
        final(resp).headers@.len() == spec_strip_cl(old(resp).headers@).len() + 1,
        final(resp).headers@.drop_last() == spec_strip_cl(old(resp).headers@),
        final(resp).headers@.last().0@ == "Content-Length"@,
        final(resp).headers@.last().1@ == dec_digits(final(resp).body@.len() as nat),
{
    let mut kept: Vec<(String, String)> = Vec::new();
    let mut i: usize = 0;
    let n = resp.headers.len();
    while i < n
        invariant
            i <= n,
            n == resp.headers@.len(),
            kept@ =~= spec_strip_cl(resp.headers@.take(i as int)),
        decreases n - i,
    {
        proof {
            assert(resp.headers@.take(i + 1).drop_last() =~= resp.headers@.take(i as int));
            assert(resp.headers@.take(i + 1).last() == resp.headers@[i as int]);
        }
        let k = resp.headers[i].0.clone();
        let v = resp.headers[i].1.clone();
        if !eq_ignore_case(k.as_str(), "Content-Length") {
            kept.push((k, v));
            proof {
                assert((k, v) == resp.headers@[i as int]);
                assert(kept@ =~= spec_strip_cl(resp.headers@.take(i + 1)));
            }
        }
        i += 1;
    }
    proof {
        assert(resp.headers@.take(n as int) =~= resp.headers@);
    }
    let len_str = dec_string(resp.body.len() as u64);
    kept.push((String::from_str("Content-Length"), len_str));
    resp.headers = kept;
    proof {
        assert(final(resp).headers@.drop_last() =~= spec_strip_cl(old(resp).headers@));
    }
}

/// Responses are functions of what produced them: two responses of the
/// same bare-error shape agree on status, headers and body, byte for
/// byte. With pure stages this is what makes two identical requests
/// yield identical responses.
pub proof fn lemma_error_response_functional(e: u16, r1: HttpResponse, r2: HttpResponse)
    requires
        is_error_response(e, r1),
        is_error_response(e, r2),
    ensures
        r1.status == r2.status,
        r1.body@ == r2.body@,
        r1.headers.deep_view() == r2.headers.deep_view(),
{
    assert(r1.headers.deep_view() =~~= r2.headers.deep_view());
}

/// As `lemma_error_response_functional`, for static-file responses.
pub proof fn lemma_static_response_functional(
    status: u16,
    mime: Seq<char>,
    data: Seq<u8>,
    r1: HttpResponse,
    r2: HttpResponse,
)
    requires
        is_static_response(status, mime, data, r1),
        is_static_response(status, mime, data, r2),
    ensures
        r1.status == r2.status,
        r1.body@ == r2.body@,
        r1.headers.deep_view() == r2.headers.deep_view(),
{
    assert(r1.headers.deep_view() =~~= r2.headers.deep_view());
}

/// As `lemma_error_response_functional`, for finished chains: the same
/// status, stderr text and stdout bytes admit only observably equal
/// responses.
pub proof fn lemma_chain_response_functional(
    status: u16,
    stderr: Seq<char>,
    stdout: Seq<u8>,
    r1: HttpResponse,
    r2: HttpResponse,
)
    requires
        is_chain_response(status, stderr, stdout, r1),
        is_chain_response(status, stderr, stdout, r2),
    ensures
        r1.status == r2.status,
        r1.body@ == r2.body@,
        r1.headers.deep_view() == r2.headers.deep_view(),
{
    assert(r1.headers.deep_view() =~~= r2.headers.deep_view());
}

} // verus!
