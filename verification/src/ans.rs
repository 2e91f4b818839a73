//! Serialization of a block list to the legacy ANSI escape-code byte stream
//! with its 129-byte SAUCE trailer.

use vstd::prelude::*;
use crate::blocks::Block;
use crate::font::{font_name_spec, Font};

verus! {

/// The decimal ASCII digits of `n` (one to three bytes).
pub open spec fn dec_bytes(n: u8) -> Seq<u8> {
    if n < 10 {
        seq![(n + 48) as u8]
    } else if n < 100 {
        seq![((n / 10) + 48) as u8, ((n % 10) + 48) as u8]
    } else {
        seq![((n / 100) + 48) as u8, (((n / 10) % 10) + 48) as u8, ((n % 10) + 48) as u8]
    }
}

/// The CGA colour-select part for a foreground index: `1;3xm` for bright
/// entries, `3xm` for dark ones.
pub open spec fn fg_sgr_bytes(cga_fg: u8) -> Seq<u8> {
    if cga_fg >= 8 {
        seq![49u8, 59u8] + dec_bytes((30 + cga_fg % 8) as u8) + seq![109u8]
    } else {
        dec_bytes((30 + cga_fg) as u8) + seq![109u8]
    }
}

/// The CGA colour-select part for a background index: `5;4x;` for bright
/// entries, `4x;` for dark ones.
pub open spec fn bg_sgr_bytes(cga_bg: u8) -> Seq<u8> {
    if cga_bg >= 8 {
        seq![53u8, 59u8] + dec_bytes((40 + cga_bg % 8) as u8) + seq![59u8]
    } else {
        dec_bytes((40 + cga_bg) as u8) + seq![59u8]
    }
}

/// A truecolor escape `ESC [ lead ; R ; G ; B t` for one colour.
pub open spec fn truecolor_bytes(lead: u8, c: [u8; 4]) -> Seq<u8> {
    seq![27u8, 91u8] + dec_bytes(lead) + seq![59u8] + dec_bytes(c@[0]) + seq![59u8] + dec_bytes(
        c@[1],
    ) + seq![59u8] + dec_bytes(c@[2]) + seq![116u8]
}

/// All bytes emitted for one block: the `ESC [ 0 ;` prefix, the optional CGA
/// background, the CGA foreground, the optional truecolor pair, and the raw
/// codepoint byte.
pub open spec fn block_bytes(b: Block, truecolor: bool) -> Seq<u8> {
    let head = seq![27u8, 91u8, 48u8, 59u8] + (match b.cga_bg {
        Option::Some(bg) => bg_sgr_bytes(bg),
        Option::None => Seq::empty(),
    }) + fg_sgr_bytes(b.cga_fg);
    let tc = if truecolor {
        (match b.bg {
            Option::Some(bgc) => truecolor_bytes(0u8, bgc),
            Option::None => Seq::empty(),
        }) + truecolor_bytes(1u8, b.fg)
    } else {
        Seq::empty()
    };
    head + tc + seq![b.codepoint]
}

/// The concatenated bytes of the first `n` blocks.
pub open spec fn ans_body(blocks: Seq<Block>, truecolor: bool, n: int) -> Seq<u8>
    decreases n,
{
    if n <= 0 {
        Seq::empty()
    } else {
        ans_body(blocks, truecolor, n - 1) + block_bytes(blocks[n - 1], truecolor)
    }
}

/// Byte `i` of the 129-byte SAUCE trailer: an EOF byte, the `SAUCE00`
/// signature, the stream length, column and row counts in little-endian
/// form, a data type and file type of one, and the font name; every other
/// byte is zero.
pub open spec fn sauce_byte(ans_len: u32, columns: u16, rows: u16, name: Seq<u8>, i: int) -> u8 {
    if i == 0 {
        26u8
    } else if i == 1 {
        83u8
    } else if i == 2 {
        65u8
    } else if i == 3 {
        85u8
    } else if i == 4 {
        67u8
    } else if i == 5 {
        69u8
    } else if i == 6 {
        48u8
    } else if i == 7 {
        48u8
    } else if i == 91 {
        (ans_len & 0xFF) as u8
    } else if i == 92 {
        ((ans_len >> 8u32) & 0xFF) as u8
    } else if i == 93 {
        ((ans_len >> 16u32) & 0xFF) as u8
    } else if i == 94 {
        ((ans_len >> 24u32) & 0xFF) as u8
    } else if i == 95 {
        1u8
    } else if i == 96 {
        1u8
    } else if i == 97 {
        (columns & 0xFF) as u8
    } else if i == 98 {
        ((columns >> 8u16) & 0xFF) as u8
    } else if i == 99 {
        (rows & 0xFF) as u8
    } else if i == 100 {
        ((rows >> 8u16) & 0xFF) as u8
    } else if 107 <= i < 107 + name.len() && i < 129 {
        name[i - 107]
    } else {
        0u8
    }
}

/// The whole SAUCE trailer.
pub open spec fn sauce_bytes(ans_len: u32, columns: u16, rows: u16, name: Seq<u8>) -> Seq<u8> {
    Seq::new(129nat, |i: int| sauce_byte(ans_len, columns, rows, name, i))
}

/// Appends the decimal ASCII digits of `n`.
fn push_dec(out: &mut Vec<u8>, n: u8)
    ensures
        final(out)@ == old(out)@ + dec_bytes(n),
{
    if n < 10 {
        out.push(n + 48);
    } else if n < 100 {
        out.push(n / 10 + 48);
        out.push(n % 10 + 48);
    } else {
        out.push(n / 100 + 48);
        out.push((n / 10) % 10 + 48);
        out.push(n % 10 + 48);
    }
    proof {
        assert(out@ =~= old(out)@ + dec_bytes(n));
    }
}

/// Appends the CGA background colour-select part.
fn push_bg_sgr(out: &mut Vec<u8>, bg: u8)
    ensures
        final(out)@ == old(out)@ + bg_sgr_bytes(bg),
{
    if bg >= 8 {
        out.push(53);
        out.push(59);
        push_dec(out, 40 + bg % 8);
    } else {
        push_dec(out, 40 + bg);
    }
    out.push(59);
    proof {
        assert(out@ =~= old(out)@ + bg_sgr_bytes(bg));
    }
}

/// Appends the CGA foreground colour-select part.
fn push_fg_sgr(out: &mut Vec<u8>, fg: u8)
    ensures
        final(out)@ == old(out)@ + fg_sgr_bytes(fg),
{
    if fg >= 8 {
        out.push(49);
        out.push(59);
        push_dec(out, 30 + fg % 8);
    } else {
        push_dec(out, 30 + fg);
    }
    out.push(109);
    proof {
        assert(out@ =~= old(out)@ + fg_sgr_bytes(fg));
    }
}

/// Appends one truecolor escape.
#[verifier::rlimit(60)]
fn push_truecolor(out: &mut Vec<u8>, lead: u8, c: [u8; 4])
    ensures
        final(out)@ == old(out)@ + truecolor_bytes(lead, c),
{
    out.push(27);
    out.push(91);
    push_dec(out, lead);
    out.push(59);
    push_dec(out, c[0]);
    out.push(59);
    push_dec(out, c[1]);
    out.push(59);
    push_dec(out, c[2]);
    out.push(116);
    proof {
        assert(out@ =~= old(out)@ + truecolor_bytes(lead, c));
    }
}

/// Appends the bytes of one block.
#[verifier::rlimit(100)]
fn push_block_bytes(out: &mut Vec<u8>, b: &Block, truecolor: bool)
    ensures
        final(out)@ == old(out)@ + block_bytes(*b, truecolor),
{
    out.push(27);
    out.push(91);
    out.push(48);
    out.push(59);
    match b.cga_bg {
        Option::Some(bg) => {
            push_bg_sgr(out, bg);
        },
        Option::None => {},
    }
    push_fg_sgr(out, b.cga_fg);
    if truecolor {
        match b.bg {
            Option::Some(bgc) => {
                push_truecolor(out, 0, bgc);
            },
            Option::None => {},
        }
        push_truecolor(out, 1, b.fg);
    }
    out.push(b.codepoint);
    proof {
        assert(out@ =~= old(out)@ + block_bytes(*b, truecolor));
    }
}

/// No block emits more than sixty bytes.
#[verifier::rlimit(60)]
proof fn lemma_block_bytes_len(b: Block, truecolor: bool)
    ensures
        block_bytes(b, truecolor).len() <= 60,
{
}

/// The body of `n` blocks is at most sixty bytes per block.
proof fn lemma_ans_body_len(blocks: Seq<Block>, truecolor: bool, n: int)
    requires
        0 <= n,
    ensures
        ans_body(blocks, truecolor, n).len() <= 60 * n,
    decreases n,
{
    if n > 0 {
        lemma_ans_body_len(blocks, truecolor, n - 1);
        lemma_block_bytes_len(blocks[n - 1], truecolor);
    }
}

/// Serializes a block list: the colour escape codes and codepoint byte of
/// every block in order, followed by the SAUCE trailer carrying the stream
/// length, the column and row counts, and the font name.
pub fn convert_blocks_to_ans(blocks: &Vec<Block>, font: &Font, columns: u32, truecolor: bool) -> (
    r: Vec<u8>)
    requires
        1 <= columns <= 0xFFFF,
        blocks@.len() <= 0xFFFFFF,
        (blocks@.len() as int) / (columns as int) <= 0xFFFF,
    ensures
        ({
            let body = ans_body(blocks@, truecolor, blocks@.len() as int);
            let rows = (blocks@.len() as int) / (columns as int);
            r@ == body + sauce_bytes(
                body.len() as u32,
                columns as u16,
                rows as u16,
                font_name_spec(font.font_type),
            )
        }),
{
    let mut ans: Vec<u8> = Vec::new();
    let mut i: usize = 0;
    while i < blocks.len()
        invariant
            i <= blocks@.len(),
            blocks@.len() <= 0xFFFFFF,
            ans@ == ans_body(blocks@, truecolor, i as int),
        decreases blocks@.len() - i,
    {
        push_block_bytes(&mut ans, &blocks[i], truecolor);
        i = i + 1;
    }
    proof {
        lemma_ans_body_len(blocks@, truecolor, blocks@.len() as int);
    }
    let ans_len: u32 = ans.len() as u32;
    let rows: u32 = (blocks.len() / (columns as usize)) as u32;
    let name = font.name_bytes();
    let ghost nm = font_name_spec(font.font_type);
    let mut sauce: Vec<u8> = Vec::new();
    let mut z: usize = 0;
    while z < 129
        invariant
            z <= 129,
            sauce@.len() == z,
            forall|t: int| 0 <= t < z ==> sauce@[t] == 0u8,
        decreases 129 - z,
    {
        sauce.push(0);
        z = z + 1;
    }
    sauce[0] = 26;
    sauce[1] = 83;
    sauce[2] = 65;
    sauce[3] = 85;
    sauce[4] = 67;
    sauce[5] = 69;
    sauce[6] = 48;
    sauce[7] = 48;
    sauce[91] = (ans_len & 0xFF) as u8;
    sauce[92] = ((ans_len >> 8u32) & 0xFF) as u8;
    sauce[93] = ((ans_len >> 16u32) & 0xFF) as u8;
    sauce[94] = ((ans_len >> 24u32) & 0xFF) as u8;
    sauce[95] = 1;
    sauce[96] = 1;
    sauce[97] = ((columns as u16) & 0xFF) as u8;
    sauce[98] = (((columns as u16) >> 8u16) & 0xFF) as u8;
    sauce[99] = ((rows as u16) & 0xFF) as u8;
    sauce[100] = (((rows as u16) >> 8u16) & 0xFF) as u8;
    let ghost base = sauce@;
    let mut t: usize = 0;
    while t < name.len()
        invariant
            t <= nm.len(),
            name@ == nm,
            nm.len() <= 22,
            sauce@.len() == 129,
            base.len() == 129,
            forall|u: int| 0 <= u < 129 ==> sauce@[u] == (if 107 <= u < 107 + t {
                nm[u - 107]
            } else {
                base[u]
            }),
        decreases nm.len() - t,
    {
        sauce[107 + t] = name[t];
        t = t + 1;
    }
    proof {
        assert(sauce@ =~= sauce_bytes(ans_len, columns as u16, rows as u16, nm));
    }
    let mut out = ans;
    let mut s: usize = 0;
    while s < sauce.len()
        invariant
            s <= sauce@.len(),
            out@ == ans_body(blocks@, truecolor, blocks@.len() as int) + sauce@.take(s as int),
        decreases sauce@.len() - s,
    {
        let byte = sauce[s];
        out.push(byte);
        proof {
            assert(out@ =~= ans_body(blocks@, truecolor, blocks@.len() as int) + sauce@.take(
                s as int + 1,
            ));
        }
        s = s + 1;
    }
    out
}

} // verus!
