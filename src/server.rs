//! The synthetic stream server's decisions: which requests get the endless
//! stream, and the one buffer that the stream repeats.

use vstd::prelude::*;
use crate::text::same_text;

verus! {

/// Port the server listens on unless told otherwise.
pub const DEFAULT_PORT: u16 = 6969;

/// Length of the buffer that the endless stream repeats.
pub const CHUNK_LEN: usize = 1_048_576;

/// The byte that fills that buffer.
pub const CHUNK_BYTE: u8 = 42;

/// How the server answers a request.
#[derive(Clone, Copy, Debug, PartialEq, Eq, Structural)]
pub enum Route {
    /// An endless body: the chunk repeated without end.
    Stream,
    /// A short fixed body.
    Fixed,
}

/// Whether a request with this method and path gets the endless stream.
pub open spec fn is_stream_request(method: Seq<char>, path: Seq<char>) -> bool {
    &&& method == seq!['G', 'E', 'T']
    &&& (path == seq!['/'] || path == seq!['/', 's', 'p', 'e', 'e', 'd', 't', 'e', 's', 't'])
}

/// Routes a request: `GET /` and `GET /speedtest` stream, all else is
/// answered with the fixed body.
pub fn route(method: &str, path: &str) -> (r: Route)
    ensures
        r == (if is_stream_request(method@, path@) {
            Route::Stream
        } else {
            Route::Fixed
        }),
{
    proof {
        reveal_strlit("GET");
        reveal_strlit("/");
        reveal_strlit("/speedtest");
        assert("GET"@ =~= seq!['G', 'E', 'T']);
        assert("/"@ =~= seq!['/']);
        assert("/speedtest"@ =~= seq!['/', 's', 'p', 'e', 'e', 'd', 't', 'e', 's', 't']);
    }
    if same_text(method, "GET") && (same_text(path, "/") || same_text(path, "/speedtest")) {
        Route::Stream
    } else {
        Route::Fixed
    }
}

/// The body of every request that does not get the stream.
pub fn fixed_body() -> (r: &'static str)
    ensures
        r@ == seq!['h', 'i'],
{
    proof {
        reveal_strlit("hi");
    }
    "hi"
}

/// The buffer that the endless stream repeats: `CHUNK_LEN` bytes, each
/// `CHUNK_BYTE`. It is built once and shared, read-only, by every stream.
pub fn synthetic_chunk() -> (r: Vec<u8>)
    ensures
        r@.len() == CHUNK_LEN,
        forall|i: int| 0 <= i < r@.len() ==> r@[i] == CHUNK_BYTE,
{
    let mut chunk: Vec<u8> = Vec::with_capacity(CHUNK_LEN);
    while chunk.len() < CHUNK_LEN
        invariant
            chunk@.len() <= CHUNK_LEN,
            forall|i: int| 0 <= i < chunk@.len() ==> chunk@[i] == CHUNK_BYTE,
        decreases CHUNK_LEN - chunk@.len(),
    {
        chunk.push(CHUNK_BYTE);
    }
    chunk
}

} // verus!
