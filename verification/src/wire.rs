//! The framing of commands and answers on a byte stream: four bytes, most significant
//! first, that give the length of the body, and then the body.

use vstd::prelude::*;

verus! {

/// The four bytes, most significant first, of a number below 2^32.
pub open spec fn be_bytes(n: int) -> Seq<u8> {
    seq![
        (n / 0x100_0000) as u8,
        (n / 0x1_0000 % 0x100) as u8,
        (n / 0x100 % 0x100) as u8,
        (n % 0x100) as u8,
    ]
}

/// The number that four bytes, most significant first, stand for.
pub open spec fn be_value(b: Seq<u8>) -> int {
    b[0] * 0x100_0000 + b[1] * 0x1_0000 + b[2] * 0x100 + b[3]
}

/// The frame of `body`: the low 32 bits of its length, then the body itself.
pub open spec fn framed(body: Seq<u8>) -> Seq<u8> {
    be_bytes(body.len() as int % 0x1_0000_0000) + body
}

/// Puts `body` in a frame.
pub fn frame(body: &Vec<u8>) -> (r: Vec<u8>)
    ensures
        r@ == framed(body@),
{
    let len: u64 = (body.len() as u64) % 0x1_0000_0000;
    let mut r: Vec<u8> = Vec::new();
    r.push((len / 0x100_0000) as u8);
    r.push((len / 0x1_0000 % 0x100) as u8);
    r.push((len / 0x100 % 0x100) as u8);
    r.push((len % 0x100) as u8);
    let n: usize = body.len();
    let mut i: usize = 0;
    while i < n
        invariant
            n == body@.len(),
            i <= n,
            r@ =~= be_bytes(body@.len() as int % 0x1_0000_0000) + body@.take(i as int),
        decreases n - i,
    {
        r.push(body[i]);
        i = i + 1;
    }
    assert(body@.take(n as int) =~= body@);
    r
}

/// The length of the body that follows the frame header `header`.
pub fn frame_len(header: [u8; 4]) -> (len: usize)
    ensures
        len == be_value(header@),
{
    let len: u32 = (header[0] as u32) * 0x100_0000 + (header[1] as u32) * 0x1_0000 + (
    header[2] as u32) * 0x100 + (header[3] as u32);
    len as usize
}

/// Law: what is framed can be read back. The header of a frame gives the length of its
/// body, and the rest of the frame is that body.
pub proof fn law_frame_round_trip(body: Seq<u8>)
    requires
        body.len() < 0x1_0000_0000,
    ensures
        framed(body).len() == 4 + body.len(),
        be_value(framed(body).take(4)) == body.len(),
        framed(body).skip(4) == body,
{
    assert(framed(body).skip(4) =~= body);
    assert(framed(body).take(4) =~= be_bytes(body.len() as int));
    let n = body.len() as int;
    assert(n / 0x100_0000 < 0x100);
    assert(n == (n / 0x100_0000) * 0x100_0000 + (n / 0x1_0000 % 0x100) * 0x1_0000 + (n / 0x100
        % 0x100) * 0x100 + n % 0x100);
}

/// Law: no two headers stand for the same length.
pub proof fn law_header_injective(a: Seq<u8>, b: Seq<u8>)
    requires
        a.len() == 4,
        b.len() == 4,
        be_value(a) == be_value(b),
    ensures
        a == b,
{
    assert(a[3] == be_value(a) % 0x100);
    assert(b[3] == be_value(b) % 0x100);
    assert(a[2] == be_value(a) / 0x100 % 0x100);
    assert(b[2] == be_value(b) / 0x100 % 0x100);
    assert(a[1] == be_value(a) / 0x1_0000 % 0x100);
    assert(b[1] == be_value(b) / 0x1_0000 % 0x100);
    assert(a[0] == be_value(a) / 0x100_0000);
    assert(b[0] == be_value(b) / 0x100_0000);
    assert(a =~= b);
}

/// Law: a frame is its body behind four bytes, and these four bytes, the most significant first,
/// are the low 32 bits of the body's length. The header is read back as just that number.
pub proof fn law_frame_layout(body: Seq<u8>)
    ensures
        framed(body).len() == 4 + body.len(),
        forall|i: int| 0 <= i < body.len() ==> #[trigger] framed(body)[4 + i] == body[i],
        ({
            let f = framed(body);
            let low = body.len() as int % 0x1_0000_0000;
            &&& 256 * (256 * (256 * f[0] + f[1]) + f[2]) + f[3] == low
            &&& be_value(f.take(4)) == low
        }),
{
    let n = body.len() as int % 0x1_0000_0000;
    assert(0 <= n < 0x1_0000_0000);
    assert(n / 0x100_0000 < 0x100);
    assert(n == (n / 0x100_0000) * 0x100_0000 + (n / 0x1_0000 % 0x100) * 0x1_0000 + (n / 0x100
        % 0x100) * 0x100 + n % 0x100);
    assert(framed(body).take(4) =~= be_bytes(n));
}

/// Law: the bytes of a header are the digits of its number to the base 256.
pub proof fn law_header_value(b: Seq<u8>)
    requires
        b.len() == 4,
    ensures
        be_value(b) == 256 * (256 * (256 * b[0] + b[1]) + b[2]) + b[3],
{
}

} // verus!
