//! Accumulating and classifying the proxy's reply to a CONNECT request.
//!
//! The proxy's bytes arrive in chunks of arbitrary size. A [`Handshake`]
//! value accumulates them and after every chunk re-parses the whole
//! accumulation as an HTTP response head. Parsing is a pure function of
//! the accumulated bytes, so the verdict — and the leftover bytes past
//! the header block, which belong to the tunneled session — never depend
//! on how the reply was split into reads.

use vstd::prelude::*;

verus! {

/// Verdict of parsing a byte sequence as an HTTP response head, as the
/// `httparse` parser defines it when its header table is never too small:
/// either the head is complete at byte offset `end` with the given status
/// code, or more bytes are needed, or the bytes are not a response head.
pub enum HeadParse {
    Complete { end: int, code: Option<u16> },
    Partial,
    Malformed,
}

/// What `httparse::Response::parse` decides for a byte sequence, with an
/// unbounded header table. The verdict is a function of the bytes alone.
pub uninterp spec fn head_parse_of(bytes: Seq<u8>) -> HeadParse;

/// What one `httparse::Response::parse` call reports when given a header
/// table of a fixed size.
enum RawParse {
    Complete(usize, Option<u16>),
    Partial,
    TooManyHeaders,
    Malformed,
}

/// Relies on `httparse::Response::parse` called with `slots` header
/// slots. Any verdict other than `TooManyHeaders` is the one the parser
/// gives with an arbitrarily large table: the parser only reports
/// `TooManyHeaders` after it has filled every slot with a complete header
/// line, each of which spans more than two input bytes, and on any other
/// path the table size never enters the decision. A complete verdict is
/// reached without looking past the reported end offset, so it stands
/// whatever bytes follow.
#[verifier::external_body]
fn parse_head_raw(bytes: &Vec<u8>, slots: usize) -> (r: RawParse)
    ensures
        (r matches RawParse::Complete(end, code) ==> {
            &&& end <= bytes@.len()
            &&& head_parse_of(bytes@) == (HeadParse::Complete { end: end as int, code })
            &&& forall|tail: Seq<u8>|
                head_parse_of(bytes@ + tail) == (HeadParse::Complete { end: end as int, code })
        }),
        (r is Partial ==> head_parse_of(bytes@) is Partial),
        (r is Malformed ==> head_parse_of(bytes@) is Malformed),
        (r is TooManyHeaders ==> 2 * (slots as int) <= bytes@.len()),
{
    let mut table = vec![httparse::EMPTY_HEADER; slots];
    let mut resp = httparse::Response::new(&mut table);
    match resp.parse(bytes.as_slice()) {
        Ok(httparse::Status::Complete(end)) => RawParse::Complete(end, resp.code),
        Ok(httparse::Status::Partial) => RawParse::Partial,
        Err(httparse::Error::TooManyHeaders) => RawParse::TooManyHeaders,
        Err(_) => RawParse::Malformed,
    }
}

/// Verdict of one re-parse of the accumulated bytes.
pub enum HeadVerdict {
    Complete { end: usize, code: Option<u16> },
    Incomplete,
    Malformed,
}

/// Parses the accumulated bytes as a response head, starting from a
/// sixteen-slot header table and growing it by sixteen slots whenever the
/// parser asks for more. The growth is a pure re-parse of the same bytes,
/// so the verdict is the one an unbounded table would give.
pub fn parse_head(bytes: &Vec<u8>) -> (r: HeadVerdict)
    ensures
        (r matches HeadVerdict::Complete { end, code } ==> {
            &&& end <= bytes@.len()
            &&& head_parse_of(bytes@) == (HeadParse::Complete { end: end as int, code })
            &&& forall|tail: Seq<u8>|
                head_parse_of(bytes@ + tail) == (HeadParse::Complete { end: end as int, code })
        }),
        r is Complete <==> head_parse_of(bytes@) is Complete,
        r is Incomplete <==> head_parse_of(bytes@) is Partial,
        r is Malformed <==> head_parse_of(bytes@) is Malformed,
{
    let n = bytes.len();
    let mut slots: usize = 16;
    loop
        invariant
            n == bytes@.len(),
            16 <= slots <= n + 16,
        decreases n + 16 - slots,
    {
        match parse_head_raw(bytes, slots) {
            RawParse::Complete(end, code) => {
                return HeadVerdict::Complete { end, code };
            },
            RawParse::Partial => {
                return HeadVerdict::Incomplete;
            },
            RawParse::Malformed => {
                return HeadVerdict::Malformed;
            },
            RawParse::TooManyHeaders => {
                slots = slots + 16;
            },
        }
    }
}

/// True when a proxy status code counts as an accepted handshake: any
/// code up to and including 407. A missing status code is a rejection.
pub open spec fn spec_accepted(code: Option<u16>) -> bool {
    match code {
        Some(c) => c <= 407,
        None => false,
    }
}

/// Classifies a parsed status code as handshake success or rejection.
pub fn accepted(code: Option<u16>) -> (r: bool)
    ensures
        r == spec_accepted(code),
{
    match code {
        Some(c) => c <= 407,
        None => false,
    }
}

/// How the handshake ends: the classification of the proxy's answer,
/// together with any bytes that arrived past the header block. Those
/// belong to the tunneled session and must reach local output first.
pub struct HandshakeOutcome {
    pub success: bool,
    pub leftover: Vec<u8>,
}

/// Why the handshake cannot go on: the connection closed before a full
/// header block arrived, or the bytes are not an HTTP response at all.
#[derive(PartialEq, Eq, Structural)]
pub enum HandshakeError {
    ClosedBeforeHeader,
    MalformedResponse,
}

/// What [`Handshake::feed`] decides after a chunk: read more, done with
/// an outcome, or failed.
pub enum FeedResult {
    NeedMore,
    Done(HandshakeOutcome),
    Failed(HandshakeError),
}

/// The machine's verdict as a function of the bytes consumed so far:
/// what any run that accumulated exactly `all` concludes, however `all`
/// was split into reads.
pub enum SpecVerdict {
    NeedMore,
    Done { success: bool, leftover: Seq<u8> },
    Failed(HandshakeError),
}

/// The verdict the machine owes after accumulating `all`.
pub open spec fn response_verdict(all: Seq<u8>) -> SpecVerdict {
    match head_parse_of(all) {
        HeadParse::Complete { end, code } => SpecVerdict::Done {
            success: spec_accepted(code),
            leftover: all.subrange(end, all.len() as int),
        },
        HeadParse::Partial => SpecVerdict::NeedMore,
        HeadParse::Malformed => SpecVerdict::Failed(HandshakeError::MalformedResponse),
    }
}

/// However a response is split into reads, the verdict after consuming a
/// given byte sequence is a function of that sequence alone: two runs
/// whose chunks concatenate to the same bytes conclude alike.
pub proof fn lemma_verdict_chunk_invariant(chunks_a: Seq<Seq<u8>>, chunks_b: Seq<Seq<u8>>)
    requires
        chunks_a.flatten() == chunks_b.flatten(),
    ensures
        response_verdict(chunks_a.flatten()) == response_verdict(chunks_b.flatten()),
{
}

/// The response accumulator: the bytes read from the proxy so far, and
/// how many more bytes the next read may bring. Room for reading starts
/// at 4096 bytes and grows by 4096 exactly when a read fills it without
/// completing the header block.
pub struct Handshake {
    buf: Vec<u8>,
    space: usize,
    finished: bool,
}

impl Handshake {
    /// The bytes accumulated so far.
    pub closed spec fn consumed(self) -> Seq<u8> {
        self.buf@
    }

    /// How many bytes the next read may deliver.
    pub closed spec fn space_left(self) -> nat {
        self.space as nat
    }

    /// Whether the machine still wants input.
    pub closed spec fn in_progress(self) -> bool {
        !self.finished
    }

    /// While input is still wanted there is room for at least one byte.
    pub closed spec fn wf(self) -> bool {
        self.finished || 1 <= self.space
    }

    /// How many bytes the next read may deliver.
    pub fn space(&self) -> (n: usize)
        ensures
            n == self.space_left(),
    {
        self.space
    }

    /// A fresh accumulator with room for one 4096-byte read.
    pub fn new() -> (h: Handshake)
        ensures
            h.wf(),
            h.in_progress(),
            h.consumed() == Seq::<u8>::empty(),
            h.space_left() == 4096,
    {
        Handshake { buf: Vec::new(), space: 4096, finished: false }
    }

    /// Consumes one read from the proxy. An empty chunk means the
    /// connection closed, which before a complete header block is a
    /// transport failure. Otherwise the whole accumulation is re-parsed:
    /// a complete head is classified and split from the leftover bytes,
    /// an incomplete one asks for more input (growing the read room by
    /// 4096 when the read filled it), and anything else is a protocol
    /// failure. The verdict is `response_verdict` of the accumulated
    /// bytes, so it does not depend on how they were chunked; once
    /// complete, it would stay the same whatever bytes followed.
    pub fn feed(&mut self, chunk: &Vec<u8>) -> (r: FeedResult)
        requires
            old(self).wf(),
            old(self).in_progress(),
            chunk@.len() <= old(self).space_left(),
        ensures
            final(self).wf(),
            chunk@.len() == 0 ==> {
                &&& r == FeedResult::Failed(HandshakeError::ClosedBeforeHeader)
                &&& !final(self).in_progress()
            },
            chunk@.len() > 0 ==> ({
                let all = old(self).consumed() + chunk@;
                &&& (response_verdict(all) matches SpecVerdict::Done { success, leftover } ==> {
                    &&& r matches FeedResult::Done(o)
                    &&& o.success == success
                    &&& o.leftover@ == leftover
                    &&& !final(self).in_progress()
                    &&& forall|tail: Seq<u8>| head_parse_of(all + tail) == head_parse_of(all)
                })
                &&& (response_verdict(all) is NeedMore ==> {
                    &&& r is NeedMore
                    &&& final(self).in_progress()
                    &&& final(self).consumed() == all
                    &&& final(self).space_left() == (if chunk@.len() == old(self).space_left() {
                        4096 as nat
                    } else {
                        (old(self).space_left() - chunk@.len()) as nat
                    })
                })
                &&& (response_verdict(all) matches SpecVerdict::Failed(e) ==> {
                    &&& r == FeedResult::Failed(e)
                    &&& !final(self).in_progress()
                })
            }),
    {
        if chunk.len() == 0 {
            self.finished = true;
            return FeedResult::Failed(HandshakeError::ClosedBeforeHeader);
        }
        let filled = chunk.len() == self.space;
        self.space = self.space - chunk.len();
        self.buf.extend_from_slice(chunk.as_slice());
        proof {
            assert(self.buf@ =~= old(self).buf@ + chunk@);
        }
        match parse_head(&self.buf) {
            HeadVerdict::Complete { end, code } => {
                self.finished = true;
                let leftover = self.buf.split_off(end);
                proof {
                    let all = old(self).consumed() + chunk@;
                    assert(leftover@ =~= all.subrange(end as int, all.len() as int));
                }
                let success = accepted(code);
                FeedResult::Done(HandshakeOutcome { success, leftover })
            },
            HeadVerdict::Incomplete => {
                if filled {
                    self.space = 4096;
                }
                FeedResult::NeedMore
            },
            HeadVerdict::Malformed => {
                self.finished = true;
                FeedResult::Failed(HandshakeError::MalformedResponse)
            },
        }
    }
}

} // verus!
