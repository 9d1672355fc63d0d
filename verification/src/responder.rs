//! The per-connection protocol of the liveness responder.
//!
//! A connection is read once into a bounded buffer and then, irrespective of
//! what was read or whether the read succeeded, answered with one fixed,
//! complete HTTP-shaped response and closed. The responder is a liveness
//! probe, not a real handler: callers never see an internal error surfaced as
//! an error response. The host performs the socket work; this module decides
//! what every connection is owed.

use vstd::prelude::*;

verus! {

/// How many bytes the single read on a connection may fill. Bytes beyond the
/// buffer are simply not read; the response does not depend on them.
pub const READ_BUFFER_LEN: usize = 4096;

/// What the single read on an accepted connection yielded: some bytes —
/// possibly none, possibly truncated, possibly not valid UTF-8 — or a
/// transport error. Either way the connection is still answered.
pub enum ReadEvent {
    /// The bytes the read placed into the buffer.
    Data(Vec<u8>),
    /// The read itself failed; the failure is logged by the host and does not
    /// prevent the write step from being attempted.
    TransportError,
}

/// The one fixed text every connection is answered with: a status line,
/// a minimal header, a blank line, and the body. There is no Content-Length
/// header and no keep-alive handling: one request, one response, then close.
pub open spec fn fixed_response_text() -> Seq<char> {
    "HTTP/1.1 200 OK\r\nContent-Type: text/html; charset=UTF-8\r\n\r\n<html><body>Hello world</body></html>\r\n"@
}

/// The response a connection is owed once its read has ended in `event`:
/// always the fixed text, whatever the read yielded.
pub open spec fn spec_response_for(event: ReadEvent) -> Seq<char> {
    fixed_response_text()
}

/// Choose the response for a connection whose read ended in `event`. The
/// result is the complete fixed response for every possible `event`; the host
/// writes its bytes and then closes the connection.
pub fn response_for(event: &ReadEvent) -> (r: &'static str)
    ensures
        r@ == spec_response_for(*event),
        r@ == fixed_response_text(),
{
    "HTTP/1.1 200 OK\r\nContent-Type: text/html; charset=UTF-8\r\n\r\n<html><body>Hello world</body></html>\r\n"
}

/// Law: whatever byte sequence a connection sends — empty, truncated, not
/// UTF-8, or larger than the read buffer — and even when the read fails
/// outright, the connection is owed the same complete fixed response.
pub proof fn lemma_response_ignores_request(a: ReadEvent, b: ReadEvent)
    ensures
        spec_response_for(a) == spec_response_for(b),
        spec_response_for(a) == fixed_response_text(),
{
}

/// Law: two connections handled at the same time are independent — each is
/// owed the full fixed response, and neither's response depends on the
/// other's bytes. There is no shared mutable buffer: `response_for` reads
/// only its own connection's event and mutates nothing.
pub proof fn lemma_connections_independent(a: ReadEvent, b: ReadEvent)
    ensures
        spec_response_for(a) == fixed_response_text(),
        spec_response_for(b) == fixed_response_text(),
{
}

} // verus!
