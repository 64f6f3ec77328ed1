//! The deliberately incomplete HTTP request written right after connecting.

use crate::random::random_platform;
use vstd::prelude::*;

verus! {

pub const CR: u8 = 13;

pub const LF: u8 = 10;

/// The minor version in the request line `HTTP/1.x`; `0` and `1` both serve,
/// as no response is ever read.
pub const HTTP_MINOR_VERSION: u8 = 0;

/// The bytes before the client identity: `GET / HTTP/1.x\r\nUser-Agent: `,
/// where `x` is `HTTP_MINOR_VERSION`.
pub open spec fn request_head() -> Seq<u8> {
    seq![
        71, 69, 84, 32, 47, 32, 72, 84, 84, 80, 47, 49, 46, (48 + HTTP_MINOR_VERSION) as u8,
        CR, LF,
        85, 115, 101, 114, 45, 65, 103, 101, 110, 116, 58, 32,
    ]
}

/// The bytes after the client identity: `\r\nX-a: `, a header line that is
/// never finished.
pub open spec fn request_tail() -> Seq<u8> {
    seq![CR, LF, 88, 45, 97, 58, 32]
}

/// The partial request for a given client identity.
pub open spec fn partial_request_spec(agent: Seq<u8>) -> Seq<u8> {
    request_head() + agent + request_tail()
}

/// A header value may hold neither carriage return nor line feed.
pub open spec fn is_header_value(s: Seq<u8>) -> bool {
    forall|i: int| 0 <= i < s.len() ==> s[i] != CR && s[i] != LF
}

/// Whether `s` holds the blank line `\r\n\r\n` that ends an HTTP header block.
pub open spec fn has_header_end(s: Seq<u8>) -> bool {
    exists|i: int|
        0 <= i && i + 3 < s.len() && #[trigger] s[i] == CR && s[i + 1] == LF && s[i + 2] == CR
            && s[i + 3] == LF
}

/// Builds the partial request: the request line, one `User-Agent` header
/// carrying `agent`, and the start of one more header that is left open.
pub fn partial_request(agent: &[u8]) -> (r: Vec<u8>)
    ensures
        r@ == partial_request_spec(agent@),
{
    let mut r: Vec<u8> = vec![
        71, 69, 84, 32, 47, 32, 72, 84, 84, 80, 47, 49, 46, 48 + HTTP_MINOR_VERSION,
        CR, LF,
        85, 115, 101, 114, 45, 65, 103, 101, 110, 116, 58, 32,
    ];
    assert(r@ =~= request_head());
    let mut i: usize = 0;
    while i < agent.len()
        invariant
            i <= agent@.len(),
            r@ == request_head() + agent@.subrange(0, i as int),
        decreases agent@.len() - i,
    {
        r.push(agent[i]);
        i = i + 1;
        assert(r@ =~= request_head() + agent@.subrange(0, i as int));
    }
    assert(agent@.subrange(0, agent@.len() as int) =~= agent@);
    r.push(CR);
    r.push(LF);
    r.push(88);
    r.push(45);
    r.push(97);
    r.push(58);
    r.push(32);
    assert(r@ =~= partial_request_spec(agent@));
    r
}

/// The request to write on a fresh connection, carrying a randomized client
/// identity so that connections look like distinct browsers. Whatever identity
/// was drawn, the request is left open.
pub fn opening_request() -> (r: Vec<u8>)
    ensures
        exists|agent: Seq<u8>|
            is_header_value(agent) && agent.len() > 0 && r@ == partial_request_spec(agent),
        !has_header_end(r@),
{
    let agent = random_platform();
    let r = partial_request(agent.as_slice());
    proof {
        lemma_partial_request_stays_open(agent@);
    }
    r
}

/// Where the partial request holds a carriage return: once at the end of the
/// request line and once at the start of the open header, nowhere else.
proof fn lemma_cr_positions(agent: Seq<u8>, k: int)
    requires
        is_header_value(agent),
        0 <= k < partial_request_spec(agent).len(),
        partial_request_spec(agent)[k] == CR,
    ensures
        k == 14 || k == 28 + agent.len(),
{
    let s = partial_request_spec(agent);
    let n = agent.len() as int;
    if k < 28 {
        assert(s[k] == request_head()[k]);
    } else if k < 28 + n {
        assert(s[k] == agent[k - 28]);
    } else {
        assert(s[k] == request_tail()[k - 28 - n]);
    }
}

/// The partial request never holds the blank line that would end the header
/// block, whatever client identity it carries, as long as that identity is a
/// valid header value.
pub proof fn lemma_partial_request_stays_open(agent: Seq<u8>)
    requires
        is_header_value(agent),
    ensures
        !has_header_end(partial_request_spec(agent)),
{
    let s = partial_request_spec(agent);
    if has_header_end(s) {
        let i = choose|i: int|
            0 <= i && i + 3 < s.len() && #[trigger] s[i] == CR && s[i + 1] == LF && s[i + 2]
                == CR && s[i + 3] == LF;
        lemma_cr_positions(agent, i);
        lemma_cr_positions(agent, i + 2);
    }
}

} // verus!
