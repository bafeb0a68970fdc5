use vstd::prelude::*;
use vstd::endian::{endianness, Endian};
use vstd::utf8::{decode_utf8, valid_utf8};
use crate::text::{decode_lossy, utf8_lossy};

verus! {

/// The size of the status packet that the console plugin sends.
pub const GAME_PACKET_LEN: usize = 146;

/// The value that opens every valid status packet.
pub const GAME_PACKET_MAGIC: u32 = 0xCAFECAFE;

/// The little-endian 32-bit number at `at` in `b`.
pub open spec fn le_u32(b: Seq<u8>, at: int) -> int {
    b[at] + 256 * b[at + 1] + 65536 * b[at + 2] + 16777216 * b[at + 3]
}

/// The big-endian 32-bit number at `at` in `b`.
pub open spec fn be_u32(b: Seq<u8>, at: int) -> int {
    16777216 * b[at] + 65536 * b[at + 1] + 256 * b[at + 2] + b[at + 3]
}

/// The 32-bit number at `at` in `b`, in the byte order of the machine.
pub open spec fn ne_u32(b: Seq<u8>, at: int) -> int {
    match endianness() {
        Endian::Little => le_u32(b, at),
        Endian::Big => be_u32(b, at),
    }
}

/// Reads four bytes as a number in the machine's byte order, with `u32::from_ne_bytes`.
#[verifier::external_body]
fn u32_from_ne_bytes(bytes: [u8; 4]) -> (r: u32)
    ensures
        r == ne_u32(bytes@, 0),
{
    u32::from_ne_bytes(bytes)
}

/// The bytes of a NUL-terminated field: those before the first NUL, or all of them.
pub open spec fn until_nul(b: Seq<u8>) -> Seq<u8>
    decreases b.len(),
{
    if b.len() == 0 {
        b
    } else if b[0] == 0 {
        Seq::empty()
    } else {
        seq![b[0]] + until_nul(b.drop_first())
    }
}

/// The text of a packet field, decoded as `String::from_utf8_lossy` does.
pub open spec fn field_text(b: Seq<u8>) -> Seq<char> {
    utf8_lossy(until_nul(b))
}

/// A text, or `default` when the text is empty.
pub open spec fn or_default(s: Seq<char>, default: Seq<char>) -> Seq<char> {
    if s.len() == 0 {
        default
    } else {
        s
    }
}

/// The title id a status packet reports: the home screen when the field is empty.
pub open spec fn packet_titleid(b: Seq<u8>) -> Seq<char> {
    or_default(field_text(b.subrange(8, 18)), "livearea"@)
}

/// The title a status packet reports: the home screen when the field is empty.
pub open spec fn packet_title(b: Seq<u8>) -> Seq<char> {
    or_default(field_text(b.subrange(18, 146)), "Live Area"@)
}

proof fn lemma_until_nul(b: Seq<u8>, i: int)
    requires
        0 <= i <= b.len(),
        forall|j: int| 0 <= j < i ==> b[j] != 0,
        i == b.len() || b[i] == 0,
    ensures
        until_nul(b) == b.take(i),
    decreases i,
{
    if i == 0 {
        if b.len() == 0 {
            assert(b.take(0) =~= b);
        } else {
            assert(b.take(0) =~= Seq::<u8>::empty());
        }
    } else {
        lemma_until_nul(b.drop_first(), i - 1);
        assert(seq![b[0]] + b.drop_first().take(i - 1) =~= b.take(i));
    }
}

/// The text of a NUL-terminated field.
pub fn field_string(b: &[u8]) -> (r: String)
    ensures
        r@ == field_text(b@),
        valid_utf8(until_nul(b@)) ==> r@ == decode_utf8(until_nul(b@)),
{
    let mut n: usize = 0;
    while n < b.len() && b[n] != 0
        invariant
            n <= b@.len(),
            forall|j: int| 0 <= j < n ==> b@[j] != 0,
        decreases b@.len() - n,
    {
        n = n + 1;
    }
    proof {
        lemma_until_nul(b@, n as int);
    }
    let bytes = &b[0..n];
    assert(bytes@ =~= b@.take(n as int));
    decode_lossy(bytes)
}

/// A text, or `default` when it is empty.
pub fn string_or(s: String, default: &str) -> (r: String)
    ensures
        r@ == or_default(s@, default@),
{
    if s.as_str().is_empty() {
        String::from_str(default)
    } else {
        s
    }
}

/// Reads a status packet: `None` for a packet that does not start with
/// `GAME_PACKET_MAGIC` (read in the byte order of the machine, as the packet's
/// memory layout gives it), else the title id and the title it reports.
/// The packet is the magic, a 32-bit index (unused here), a 10-byte title id
/// and a 128-byte title, the last two NUL-terminated.
pub fn decode_game_packet(buf: &[u8]) -> (r: Option<(String, String)>)
    requires
        buf@.len() == GAME_PACKET_LEN,
    ensures
        r is Some <==> ne_u32(buf@, 0) == GAME_PACKET_MAGIC,
        r matches Some((titleid, title)) ==> titleid@ == packet_titleid(buf@) && title@ == packet_title(buf@),
        r matches Some((titleid, title)) ==> (valid_utf8(until_nul(buf@.subrange(8, 18))) ==> titleid@
            == or_default(decode_utf8(until_nul(buf@.subrange(8, 18))), "livearea"@)),
        r matches Some((titleid, title)) ==> (valid_utf8(until_nul(buf@.subrange(18, 146))) ==> title@
            == or_default(decode_utf8(until_nul(buf@.subrange(18, 146))), "Live Area"@)),
{
    let head = [buf[0], buf[1], buf[2], buf[3]];
    assert(head@ =~= buf@.take(4));
    let magic = u32_from_ne_bytes(head);
    if magic != GAME_PACKET_MAGIC {
        return None;
    }
    let titleid = string_or(field_string(&buf[8..18]), "livearea");
    let title = string_or(field_string(&buf[18..146]), "Live Area");
    Some((titleid, title))
}

/// The title of a status packet is read from the whole 128-byte title field
/// (bytes 18 to 146): when its first NUL is at offset `n`, the title is the
/// decoding of the `n` bytes before it, or the home screen when that is empty.
pub proof fn law_packet_title_field(b: Seq<u8>, n: int)
    requires
        b.len() == GAME_PACKET_LEN,
        0 <= n < 128,
        forall|j: int| 18 <= j < 18 + n ==> b[j] != 0,
        b[18 + n] == 0,
    ensures
        packet_title(b) == or_default(utf8_lossy(b.subrange(18, 18 + n)), "Live Area"@),
        until_nul(b.subrange(18, 146)) == b.subrange(18, 18 + n),
{
    let f = b.subrange(18, 146);
    assert forall|j: int| 0 <= j < n implies f[j] != 0 by {
        assert(f[j] == b[18 + j]);
    }
    assert(f[n] == b[18 + n]);
    lemma_until_nul(f, n);
    assert(f.take(n) =~= b.subrange(18, 18 + n));
}

/// The title id of a status packet is read from the whole 10-byte title-id
/// field (bytes 8 to 18): the bytes before its first NUL, all ten when it has
/// none, decoded, or the home screen when that is empty.
pub proof fn law_packet_titleid_field(b: Seq<u8>, n: int)
    requires
        b.len() == GAME_PACKET_LEN,
        0 <= n <= 10,
        forall|j: int| 8 <= j < 8 + n ==> b[j] != 0,
        n < 10 ==> b[8 + n] == 0,
    ensures
        packet_titleid(b) == or_default(utf8_lossy(b.subrange(8, 8 + n)), "livearea"@),
        until_nul(b.subrange(8, 18)) == b.subrange(8, 8 + n),
{
    let f = b.subrange(8, 18);
    assert forall|j: int| 0 <= j < n implies f[j] != 0 by {
        assert(f[j] == b[8 + j]);
    }
    if n < 10 {
        assert(f[n] == b[8 + n]);
    }
    lemma_until_nul(f, n);
    assert(f.take(n) =~= b.subrange(8, 8 + n));
}

} // verus!
