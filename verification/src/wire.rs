//! The harness's wire format: a request names the resource path on one
//! CRLF-terminated line; a response is a one-byte status indicator followed
//! by the body, whose end the transport's end-of-stream signals.  The body
//! is sent in bounded-size chunks.

use vstd::prelude::*;

verus! {

/// Status indicator of a served response ('O').
pub const STATUS_OK: u8 = 79;

/// Status indicator of a not-found response ('N').
pub const STATUS_NOT_FOUND: u8 = 78;

/// Largest number of body bytes sent in one chunk.
pub const CHUNK_SIZE: usize = 40960;

/// Most bytes a request line may hold; the server reads no more than this
/// from a request stream.
pub const MAX_REQUEST_BYTES: usize = 8192;

/// A parsed request line.
#[derive(Debug)]
pub enum RequestParse {
    /// A GET for this resource path.
    GetPath(Vec<u8>),
    /// A well-formed line naming a method this harness does not serve.
    OtherMethod,
    /// Not a request line.
    Malformed,
}

/// The mathematical value of a parsed request line.
pub enum RequestParseView {
    GetPath(Seq<u8>),
    OtherMethod,
    Malformed,
}

impl View for RequestParse {
    type V = RequestParseView;

    open spec fn view(&self) -> RequestParseView {
        match self {
            RequestParse::GetPath(p) => RequestParseView::GetPath(p@),
            RequestParse::OtherMethod => RequestParseView::OtherMethod,
            RequestParse::Malformed => RequestParseView::Malformed,
        }
    }
}

/// A parsed response.
#[derive(Debug)]
pub enum ResponseParse {
    /// The resource was served; here is its body.
    Body(Vec<u8>),
    /// The peer answered that the resource does not exist.
    NotFound,
    /// Not a response of this harness.
    Malformed,
}

/// The mathematical value of a parsed response.
pub enum ResponseParseView {
    Body(Seq<u8>),
    NotFound,
    Malformed,
}

impl View for ResponseParse {
    type V = ResponseParseView;

    open spec fn view(&self) -> ResponseParseView {
        match self {
            ResponseParse::Body(b) => ResponseParseView::Body(b@),
            ResponseParse::NotFound => ResponseParseView::NotFound,
            ResponseParse::Malformed => ResponseParseView::Malformed,
        }
    }
}

/// The bytes of the method token that this harness serves: "GET ".
pub open spec fn spec_get_prefix() -> Seq<u8> {
    seq![71u8, 69u8, 84u8, 32u8]
}

/// The framed request for a resource path: "GET ", the path, CRLF.
pub open spec fn spec_frame_request(path: Seq<u8>) -> Seq<u8> {
    spec_get_prefix() + path + seq![13u8, 10u8]
}

/// Whether the bytes end in CRLF.
pub open spec fn spec_crlf_terminated(req: Seq<u8>) -> bool {
    req.len() >= 2 && req[req.len() - 2] == 13u8 && req[req.len() - 1] == 10u8
}

/// Index of the first space in a line, or the line's length if it has none.
pub open spec fn spec_first_space(line: Seq<u8>) -> int
    decreases line.len(),
{
    if line.len() == 0 {
        0
    } else if line[0] == 32u8 {
        0
    } else {
        1 + spec_first_space(line.skip(1))
    }
}

/// What a received request parses to.  A request must be one CRLF-terminated
/// line.  A line opening with "GET " asks for the path that fills the rest
/// of the line; any other line with a method token before a space is a
/// request this harness answers with an empty reply; everything else is
/// malformed.
pub open spec fn spec_parse_request(req: Seq<u8>) -> RequestParseView {
    if !spec_crlf_terminated(req) {
        RequestParseView::Malformed
    } else {
        let line = req.take(req.len() - 2);
        if line.len() >= 4 && line.take(4) == spec_get_prefix() {
            RequestParseView::GetPath(line.skip(4))
        } else {
            let i = spec_first_space(line);
            if 0 < i < line.len() {
                RequestParseView::OtherMethod
            } else {
                RequestParseView::Malformed
            }
        }
    }
}

/// The framed response: the status indicator, then the body of a served
/// resource (a not-found reply carries no body).
pub open spec fn spec_frame_response(found: bool, body: Seq<u8>) -> Seq<u8> {
    if found {
        seq![STATUS_OK] + body
    } else {
        seq![STATUS_NOT_FOUND]
    }
}

/// What a received response parses to.
pub open spec fn spec_parse_response(resp: Seq<u8>) -> ResponseParseView {
    if resp.len() == 0 {
        ResponseParseView::Malformed
    } else if resp[0] == STATUS_OK {
        ResponseParseView::Body(resp.skip(1))
    } else if resp[0] == STATUS_NOT_FOUND && resp.len() == 1 {
        ResponseParseView::NotFound
    } else {
        ResponseParseView::Malformed
    }
}

/// Frames the request line for a resource path.
pub fn frame_request(path: &Vec<u8>) -> (r: Vec<u8>)
    ensures
        r@ == spec_frame_request(path@),
{
    let mut r: Vec<u8> = Vec::new();
    r.push(71u8);
    r.push(69u8);
    r.push(84u8);
    r.push(32u8);
    let mut i: usize = 0;
    while i < path.len()
        invariant
            i <= path.len(),
            r@ == spec_get_prefix() + path@.take(i as int),
        decreases path.len() - i,
    {
        r.push(path[i]);
        proof {
            assert(r@ =~= spec_get_prefix() + path@.take(i + 1));
        }
        i = i + 1;
    }
    r.push(13u8);
    r.push(10u8);
    proof {
        assert(path@.take(path@.len() as int) =~= path@);
        assert(r@ =~= spec_frame_request(path@));
    }
    r
}

/// A scan that saw no space up to `i`, and a space (or the end) at `i`,
/// found the first space.
proof fn lemma_first_space_at(line: Seq<u8>, i: int)
    requires
        0 <= i <= line.len(),
        forall|j: int| 0 <= j < i ==> line[j] != 32u8,
        i == line.len() || line[i] == 32u8,
    ensures
        spec_first_space(line) == i,
    decreases i,
{
    if i == 0 {
    } else {
        lemma_first_space_at(line.skip(1), i - 1);
    }
}

/// Parses a received request against the harness grammar.
pub fn parse_request(req: &Vec<u8>) -> (r: RequestParse)
    ensures
        r@ == spec_parse_request(req@),
{
    if req.len() < 2 || req[req.len() - 1] != 10u8 || req[req.len() - 2] != 13u8 {
        return RequestParse::Malformed;
    }
    let line_len = req.len() - 2;
    let ghost line = req@.take(line_len as int);
    if line_len >= 4 && req[0] == 71u8 && req[1] == 69u8 && req[2] == 84u8 && req[3] == 32u8 {
        proof {
            assert(line.take(4) =~= spec_get_prefix());
        }
        let mut p: Vec<u8> = Vec::new();
        let mut i: usize = 4;
        while i < line_len
            invariant
                4 <= i <= line_len <= req@.len(),
                p@ == req@.subrange(4, i as int),
            decreases line_len - i,
        {
            p.push(req[i]);
            proof {
                assert(p@ =~= req@.subrange(4, i + 1));
            }
            i = i + 1;
        }
        proof {
            assert(p@ =~= line.skip(4));
        }
        return RequestParse::GetPath(p);
    }
    proof {
        if line.len() >= 4 && line.take(4) == spec_get_prefix() {
            assert(line.take(4)[0] == 71u8 && line.take(4)[1] == 69u8 && line.take(4)[2] == 84u8
                && line.take(4)[3] == 32u8);
            assert(false);
        }
    }
    let mut i: usize = 0;
    while i < line_len && req[i] != 32u8
        invariant
            0 <= i <= line_len <= req@.len(),
            forall|j: int| 0 <= j < i ==> req@[j] != 32u8,
        decreases line_len - i,
    {
        i = i + 1;
    }
    proof {
        lemma_first_space_at(line, i as int);
    }
    if 0 < i && i < line_len {
        RequestParse::OtherMethod
    } else {
        RequestParse::Malformed
    }
}

/// Builds the one-byte status indicator that opens a response.
pub fn response_header(found: bool) -> (h: Vec<u8>)
    ensures
        h@ == seq![if found {
            STATUS_OK
        } else {
            STATUS_NOT_FOUND
        }],
{
    let mut h: Vec<u8> = Vec::new();
    if found {
        h.push(STATUS_OK);
    } else {
        h.push(STATUS_NOT_FOUND);
    }
    proof {
        assert(h@ =~= seq![if found {
            STATUS_OK
        } else {
            STATUS_NOT_FOUND
        }]);
    }
    h
}

/// Parses a received response: the status indicator, then the body.
pub fn parse_response(resp: &Vec<u8>) -> (r: ResponseParse)
    ensures
        r@ == spec_parse_response(resp@),
{
    if resp.len() == 0 {
        return ResponseParse::Malformed;
    }
    if resp[0] == STATUS_OK {
        let mut b: Vec<u8> = Vec::new();
        let mut i: usize = 1;
        while i < resp.len()
            invariant
                1 <= i <= resp@.len(),
                b@ == resp@.subrange(1, i as int),
            decreases resp.len() - i,
        {
            b.push(resp[i]);
            proof {
                assert(b@ =~= resp@.subrange(1, i + 1));
            }
            i = i + 1;
        }
        proof {
            assert(b@ =~= resp@.skip(1));
        }
        ResponseParse::Body(b)
    } else if resp[0] == STATUS_NOT_FOUND && resp.len() == 1 {
        ResponseParse::NotFound
    } else {
        ResponseParse::Malformed
    }
}

/// The mathematical value of a chunk list.
pub open spec fn chunks_view(cs: Seq<Vec<u8>>) -> Seq<Seq<u8>> {
    cs.map_values(|c: Vec<u8>| c@)
}

/// Splits a body into send chunks: every chunk is non-empty and at most
/// `CHUNK_SIZE` bytes, every chunk but the last is exactly `CHUNK_SIZE`
/// bytes, and the chunks concatenate back to the body.
pub fn chunk_payload(data: &Vec<u8>) -> (chunks: Vec<Vec<u8>>)
    ensures
        chunks_view(chunks@).flatten() == data@,
        forall|j: int|
            0 <= j < chunks@.len() ==> 0 < #[trigger] chunks@[j]@.len() <= CHUNK_SIZE,
        forall|j: int|
            0 <= j < chunks@.len() - 1 ==> #[trigger] chunks@[j]@.len() == CHUNK_SIZE,
{
    broadcast use Seq::lemma_flatten_push;

    let mut chunks: Vec<Vec<u8>> = Vec::new();
    let mut i: usize = 0;
    proof {
        assert(chunks_view(chunks@).flatten() =~= data@.take(0));
    }
    while i < data.len()
        invariant
            i <= data@.len(),
            chunks_view(chunks@).flatten() == data@.take(i as int),
            forall|j: int|
                0 <= j < chunks@.len() ==> 0 < #[trigger] chunks@[j]@.len() <= CHUNK_SIZE,
            forall|j: int|
                0 <= j < chunks@.len() ==> (#[trigger] chunks@[j]@.len() == CHUNK_SIZE || (j
                    == chunks@.len() - 1 && i == data@.len())),
        decreases data@.len() - i,
    {
        let end = if data.len() - i > CHUNK_SIZE {
            i + CHUNK_SIZE
        } else {
            data.len()
        };
        let mut c: Vec<u8> = Vec::new();
        let mut j: usize = i;
        while j < end
            invariant
                i <= j <= end <= data@.len(),
                c@ == data@.subrange(i as int, j as int),
            decreases end - j,
        {
            c.push(data[j]);
            proof {
                assert(c@ =~= data@.subrange(i as int, j + 1));
            }
            j = j + 1;
        }
        let ghost prev = chunks@;
        chunks.push(c);
        proof {
            assert(chunks_view(chunks@) =~= chunks_view(prev).push(c@));
            chunks_view(prev).lemma_flatten_push(c@);
            assert(data@.take(i as int) + data@.subrange(i as int, end as int) =~= data@.take(
                end as int,
            ));
        }
        i = end;
    }
    proof {
        assert(data@.take(data@.len() as int) =~= data@);
    }
    chunks
}

/// Law: framing a request and parsing it back yields exactly the framed
/// path, whatever bytes the path holds.
pub proof fn lemma_request_round_trip(path: Seq<u8>)
    ensures
        spec_parse_request(spec_frame_request(path)) == RequestParseView::GetPath(path),
{
    let req = spec_frame_request(path);
    assert(spec_crlf_terminated(req));
    let line = req.take(req.len() - 2);
    assert(line =~= spec_get_prefix() + path);
    assert(line.take(4) =~= spec_get_prefix());
    assert(line.skip(4) =~= path);
}

/// Law: a served response parses back to exactly the served body, and a
/// not-found response parses back to the not-found reply.
pub proof fn lemma_response_round_trip(body: Seq<u8>)
    ensures
        spec_parse_response(spec_frame_response(true, body)) == ResponseParseView::Body(body),
        spec_parse_response(spec_frame_response(false, body))
            == ResponseParseView::NotFound,
{
    assert(spec_frame_response(true, body).skip(1) =~= body);
}

} // verus!
