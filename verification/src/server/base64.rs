//! Standard base64 (with `=` padding), as the teacher server wraps binary
//! broadcasts in text.
use vstd::prelude::*;
use vstd::utf8::{encode_utf8, is_ascii_chars};
use crate::text::push_char;

verus! {

/// The symbol for a six-bit value: `A`-`Z`, `a`-`z`, `0`-`9`, `+`, `/`.
pub open spec fn b64_symbol(v: int) -> u8 {
    if v < 26 {
        (65 + v) as u8
    } else if v < 52 {
        (71 + v) as u8
    } else if v < 62 {
        (v - 4) as u8
    } else if v == 62 {
        43
    } else {
        47
    }
}

/// The six-bit value of a base64 symbol, or -1 for any other ASCII byte.
pub open spec fn b64_value(b: u8) -> int {
    if 65 <= b <= 90 {
        b - 65
    } else if 97 <= b <= 122 {
        b - 71
    } else if 48 <= b <= 57 {
        b + 4
    } else if b == 43 {
        62
    } else if b == 47 {
        63
    } else {
        -1
    }
}

/// The padding byte `=`.
pub open spec fn pad() -> u8 {
    61
}

/// The four symbols for a group of one to three bytes, padded with `=`.
pub open spec fn encode_group(d: Seq<u8>) -> Seq<u8> {
    let b0 = d[0] as int;
    let b1: int = if d.len() > 1 {
        d[1] as int
    } else {
        0
    };
    let b2: int = if d.len() > 2 {
        d[2] as int
    } else {
        0
    };
    seq![
        b64_symbol(b0 / 4),
        b64_symbol((b0 % 4) * 16 + b1 / 16),
        if d.len() > 1 {
            b64_symbol((b1 % 16) * 4 + b2 / 64)
        } else {
            pad()
        },
        if d.len() > 2 {
            b64_symbol(b2 % 64)
        } else {
            pad()
        },
    ]
}

/// The base64 bytes of `d`: one group of four symbols per three bytes.
pub open spec fn base64_bytes(d: Seq<u8>) -> Seq<u8>
    decreases d.len(),
{
    if d.len() == 0 {
        Seq::empty()
    } else if d.len() <= 3 {
        encode_group(d)
    } else {
        encode_group(d.take(3)) + base64_bytes(d.skip(3))
    }
}

/// ASCII bytes read as characters.
pub open spec fn ascii_text(b: Seq<u8>) -> Seq<char> {
    b.map_values(|x: u8| x as char)
}

/// `b` with its line feeds and carriage returns removed.
pub open spec fn without_line_breaks(b: Seq<u8>) -> Seq<u8>
    decreases b.len(),
{
    if b.len() == 0 {
        b
    } else if b.last() == 10 || b.last() == 13 {
        without_line_breaks(b.drop_last())
    } else {
        without_line_breaks(b.drop_last()).push(b.last())
    }
}

/// The bytes a chunk of up to four symbols decodes to.  A chunk shorter
/// than two, or whose first two symbols are not base64, gives nothing; a
/// third or fourth symbol that is `=` or not base64 gives nothing for itself.
pub open spec fn decode_chunk(c: Seq<u8>) -> Seq<u8> {
    if c.len() < 2 {
        Seq::empty()
    } else {
        let v0 = b64_value(c[0]);
        let v1 = b64_value(c[1]);
        if v0 < 0 || v1 < 0 {
            Seq::empty()
        } else {
            let first = seq![((v0 * 4 + v1 / 16) % 256) as u8];
            let second = if c.len() > 2 && c[2] != pad() && b64_value(c[2]) >= 0 {
                seq![((v1 * 16 + b64_value(c[2]) / 4) % 256) as u8]
            } else {
                Seq::empty()
            };
            let third = if c.len() > 3 && c[3] != pad() && b64_value(c[2]) >= 0 && b64_value(c[3])
                >= 0 {
                seq![((b64_value(c[2]) * 64 + b64_value(c[3])) % 256) as u8]
            } else {
                Seq::empty()
            };
            first + second + third
        }
    }
}

/// Whether the symbols of a chunk that the decoder looks up are ASCII.
pub open spec fn chunk_readable(c: Seq<u8>) -> bool {
    c.len() >= 2 ==> {
        &&& c[0] < 128
        &&& c[1] < 128
        &&& (b64_value(c[0]) >= 0 && b64_value(c[1]) >= 0) ==> {
            &&& (c.len() > 2 && c[2] != pad()) ==> c[2] < 128
            &&& (c.len() > 3 && c[3] != pad()) ==> c[2] < 128 && c[3] < 128
        }
    }
}

/// The bytes of a symbol sequence, decoded four symbols at a time.
pub open spec fn decode_chunks(b: Seq<u8>) -> Seq<u8>
    decreases b.len(),
{
    if b.len() == 0 {
        Seq::empty()
    } else if b.len() <= 4 {
        decode_chunk(b)
    } else {
        decode_chunk(b.take(4)) + decode_chunks(b.skip(4))
    }
}

/// Whether every chunk of a symbol sequence is readable.
pub open spec fn chunks_readable(b: Seq<u8>) -> bool
    decreases b.len(),
{
    if b.len() == 0 {
        true
    } else if b.len() <= 4 {
        chunk_readable(b)
    } else {
        chunk_readable(b.take(4)) && chunks_readable(b.skip(4))
    }
}

/// The bytes a base64 text decodes to, line breaks ignored.
pub open spec fn spec_base64_decode(s: Seq<char>) -> Seq<u8> {
    decode_chunks(without_line_breaks(encode_utf8(s)))
}

/// Whether a text can be decoded without looking up a non-ASCII byte.
pub open spec fn base64_readable(s: Seq<char>) -> bool {
    chunks_readable(without_line_breaks(encode_utf8(s)))
}

/// The symbol for a six-bit value.
fn symbol(v: u32) -> (c: char)
    requires
        v < 64,
    ensures
        c == b64_symbol(v as int) as char,
{
    if v < 26 {
        ((65 + v) as u8) as char
    } else if v < 52 {
        ((71 + v) as u8) as char
    } else if v < 62 {
        ((v - 4) as u8) as char
    } else if v == 62 {
        '+'
    } else {
        '/'
    }
}

/// The six-bit value of an ASCII byte's symbol, or -1.
fn value(b: u8) -> (v: i32)
    ensures
        v == b64_value(b),
{
    if 65 <= b && b <= 90 {
        b as i32 - 65
    } else if 97 <= b && b <= 122 {
        b as i32 - 71
    } else if 48 <= b && b <= 57 {
        b as i32 + 4
    } else if b == 43 {
        62
    } else if b == 47 {
        63
    } else {
        -1
    }
}

/// The base64 text of `data`.
pub fn base64_encode(data: &[u8]) -> (r: String)
    ensures
        r@ == ascii_text(base64_bytes(data@)),
{
    let mut result = String::new();
    let n = data.len();
    let mut i: usize = 0;
    assert(data@.skip(0) =~= data@);
    while i < n
        invariant
            n == data@.len(),
            i <= n,
            result@ + ascii_text(base64_bytes(data@.skip(i as int))) == ascii_text(
                base64_bytes(data@),
            ),
        decreases n - i,
    {
        let ghost rest = data@.skip(i as int);
        let ghost before = result@;
        let len = if n - i < 3 {
            n - i
        } else {
            3
        };
        let b0 = data[i] as u32;
        let b1: u32 = if len > 1 {
            data[i + 1] as u32
        } else {
            0
        };
        let b2: u32 = if len > 2 {
            data[i + 2] as u32
        } else {
            0
        };
        let ghost group = if rest.len() <= 3 {
            rest
        } else {
            rest.take(3)
        };
        proof {
            assert(group.len() == len);
            assert(group[0] == data@[i as int]);
            if len > 1 {
                assert(group[1] == data@[i + 1]);
            }
            if len > 2 {
                assert(group[2] == data@[i + 2]);
            }
        }
        push_char(&mut result, symbol(b0 / 4));
        push_char(&mut result, symbol((b0 % 4) * 16 + b1 / 16));
        if len > 1 {
            push_char(&mut result, symbol((b1 % 16) * 4 + b2 / 64));
        } else {
            push_char(&mut result, '=');
        }
        if len > 2 {
            push_char(&mut result, symbol(b2 % 64));
        } else {
            push_char(&mut result, '=');
        }
        proof {
            assert(result@ =~= before + ascii_text(encode_group(group)));
            if rest.len() > 3 {
                assert(rest.skip(3) =~= data@.skip(i + 3));
                assert(ascii_text(encode_group(group) + base64_bytes(rest.skip(3))) =~= ascii_text(
                    encode_group(group),
                ) + ascii_text(base64_bytes(rest.skip(3))));
                assert(before + ascii_text(base64_bytes(rest)) =~= result@ + ascii_text(
                    base64_bytes(data@.skip(i + len)),
                ));
            } else {
                assert(data@.skip(i + len) =~= Seq::<u8>::empty());
                assert(result@ + ascii_text(base64_bytes(data@.skip(i + len))) =~= result@);
            }
        }
        i = i + len;
    }
    assert(data@.skip(n as int) =~= Seq::<u8>::empty());
    assert(result@ + ascii_text(base64_bytes(data@.skip(n as int))) =~= result@);
    result
}

/// The bytes one chunk `c[from..from + len]` decodes to.
fn decode_one(c: &Vec<u8>, from: usize, len: usize, out: &mut Vec<u8>)
    requires
        1 <= len <= 4,
        from + len <= c@.len() <= usize::MAX,
    ensures
        final(out)@ == old(out)@ + decode_chunk(c@.subrange(from as int, from + len)),
{
    let ghost ch = c@.subrange(from as int, from + len);
    if len < 2 {
        assert(decode_chunk(ch) =~= Seq::<u8>::empty());
        assert(old(out)@ + Seq::<u8>::empty() =~= old(out)@);
        return;
    }
    let v0 = value(c[from]);
    let v1 = value(c[from + 1]);
    assert(ch[0] == c@[from as int] && ch[1] == c@[from + 1]);
    if v0 < 0 || v1 < 0 {
        assert(decode_chunk(ch) =~= Seq::<u8>::empty());
        assert(old(out)@ + Seq::<u8>::empty() =~= old(out)@);
        return;
    }
    let ghost start = out@;
    out.push(((v0 * 4 + v1 / 16) % 256) as u8);
    let ghost after_first = out@;
    if len > 2 && c[from + 2] != 61 {
        let v2 = value(c[from + 2]);
        if v2 >= 0 {
            out.push(((v1 * 16 + v2 / 4) % 256) as u8);
        }
    }
    let ghost after_second = out@;
    if len > 3 && c[from + 3] != 61 {
        let v2 = value(c[from + 2]);
        let v3 = value(c[from + 3]);
        if v2 >= 0 && v3 >= 0 {
            out.push(((v2 * 64 + v3) % 256) as u8);
        }
    }
    proof {
        if len > 2 {
            assert(ch[2] == c@[from + 2]);
        }
        if len > 3 {
            assert(ch[3] == c@[from + 3]);
        }
        let v0i = b64_value(ch[0]);
        let v1i = b64_value(ch[1]);
        let first = seq![((v0i * 4 + v1i / 16) % 256) as u8];
        let second = if ch.len() > 2 && ch[2] != pad() && b64_value(ch[2]) >= 0 {
            seq![((v1i * 16 + b64_value(ch[2]) / 4) % 256) as u8]
        } else {
            Seq::empty()
        };
        let third = if ch.len() > 3 && ch[3] != pad() && b64_value(ch[2]) >= 0 && b64_value(ch[3])
            >= 0 {
            seq![((b64_value(ch[2]) * 64 + b64_value(ch[3])) % 256) as u8]
        } else {
            Seq::empty()
        };
        assert(after_first =~= start + first);
        assert(after_second =~= after_first + second);
        assert(out@ =~= after_second + third);
        assert(decode_chunk(ch) == first + second + third);
        assert(out@ =~= start + (first + second + third));
    }
}

/// The bytes a base64 text decodes to, line breaks ignored.  (The text
/// must be readable: the decoder looks symbols up in an ASCII table.)
pub fn base64_decode(s: &str) -> (r: Result<Vec<u8>, String>)
    requires
        base64_readable(s@),
    ensures
        r matches Ok(v) && v@ == spec_base64_decode(s@),
{
    let raw = s.as_bytes();
    let mut bytes: Vec<u8> = Vec::new();
    let mut k: usize = 0;
    assert(raw@.take(0) =~= Seq::<u8>::empty());
    while k < raw.len()
        invariant
            k <= raw@.len(),
            bytes@ == without_line_breaks(raw@.take(k as int)),
        decreases raw@.len() - k,
    {
        assert(raw@.take(k + 1).drop_last() =~= raw@.take(k as int));
        if raw[k] != 10 && raw[k] != 13 {
            bytes.push(raw[k]);
        }
        k += 1;
    }
    assert(raw@.take(raw@.len() as int) =~= raw@);
    let n = bytes.len();
    let mut out: Vec<u8> = Vec::new();
    let mut i: usize = 0;
    assert(bytes@.skip(0) =~= bytes@);
    while i < n
        invariant
            n == bytes@.len(),
            i <= n,
            out@ + decode_chunks(bytes@.skip(i as int)) == decode_chunks(bytes@),
        decreases n - i,
    {
        let ghost rest = bytes@.skip(i as int);
        let ghost before = out@;
        let len = if n - i < 4 {
            n - i
        } else {
            4
        };
        decode_one(&bytes, i, len, &mut out);
        proof {
            if rest.len() <= 4 {
                assert(bytes@.subrange(i as int, i + len) =~= rest);
                assert(bytes@.skip(i + len) =~= Seq::<u8>::empty());
                assert(out@ + decode_chunks(bytes@.skip(i + len)) =~= out@);
            } else {
                assert(bytes@.subrange(i as int, i + len) =~= rest.take(4));
                assert(rest.skip(4) =~= bytes@.skip(i + len));
                assert(before + (decode_chunk(rest.take(4)) + decode_chunks(rest.skip(4))) =~= out@
                    + decode_chunks(bytes@.skip(i + len)));
            }
        }
        i = i + len;
    }
    assert(bytes@.skip(n as int) =~= Seq::<u8>::empty());
    assert(out@ + decode_chunks(bytes@.skip(n as int)) =~= out@);
    Ok(out)
}

/// A six-bit value's symbol is an ASCII base64 symbol, not padding or a
/// line break, and decodes back to the value.
proof fn lemma_symbol_value(v: int)
    requires
        0 <= v < 64,
    ensures
        b64_value(b64_symbol(v)) == v,
        b64_symbol(v) != pad(),
        b64_symbol(v) != 10,
        b64_symbol(v) != 13,
        b64_symbol(v) < 128,
{
}

/// A group of one to three bytes decodes back from its four symbols.
proof fn lemma_group_round_trip(d: Seq<u8>)
    requires
        1 <= d.len() <= 3,
    ensures
        encode_group(d).len() == 4,
        decode_chunk(encode_group(d)) == d,
        chunk_readable(encode_group(d)),
        forall|i: int|
            0 <= i < 4 ==> #[trigger] encode_group(d)[i] < 128 && encode_group(d)[i] != 10
                && encode_group(d)[i] != 13,
{
    let b0 = d[0] as int;
    let b1: int = if d.len() > 1 {
        d[1] as int
    } else {
        0
    };
    let b2: int = if d.len() > 2 {
        d[2] as int
    } else {
        0
    };
    let s0 = b0 / 4;
    let s1 = (b0 % 4) * 16 + b1 / 16;
    let s2 = (b1 % 16) * 4 + b2 / 64;
    let s3 = b2 % 64;
    assert(0 <= s0 < 64 && 0 <= s1 < 64 && 0 <= s2 < 64 && 0 <= s3 < 64) by (nonlinear_arith)
        requires
            0 <= b0 < 256,
            0 <= b1 < 256,
            0 <= b2 < 256,
            s0 == b0 / 4,
            s1 == (b0 % 4) * 16 + b1 / 16,
            s2 == (b1 % 16) * 4 + b2 / 64,
            s3 == b2 % 64,
    ;
    lemma_symbol_value(s0);
    lemma_symbol_value(s1);
    lemma_symbol_value(s2);
    lemma_symbol_value(s3);
    assert((s0 * 4 + s1 / 16) % 256 == b0) by (nonlinear_arith)
        requires
            0 <= b0 < 256,
            0 <= b1 < 256,
            s0 == b0 / 4,
            s1 == (b0 % 4) * 16 + b1 / 16,
    ;
    assert((s1 * 16 + s2 / 4) % 256 == b1) by (nonlinear_arith)
        requires
            0 <= b0 < 256,
            0 <= b1 < 256,
            0 <= b2 < 256,
            s1 == (b0 % 4) * 16 + b1 / 16,
            s2 == (b1 % 16) * 4 + b2 / 64,
    ;
    assert((s2 * 64 + s3) % 256 == b2) by (nonlinear_arith)
        requires
            0 <= b1 < 256,
            0 <= b2 < 256,
            s2 == (b1 % 16) * 4 + b2 / 64,
            s3 == b2 % 64,
    ;
    let e = encode_group(d);
    assert(e[0] == b64_symbol(s0) && e[1] == b64_symbol(s1));
    assert(decode_chunk(e) =~= d);
}

/// Every byte of a base64 text is an ASCII symbol or padding, never a line break.
proof fn lemma_encoded_bytes(d: Seq<u8>)
    ensures
        forall|i: int|
            0 <= i < base64_bytes(d).len() ==> #[trigger] base64_bytes(d)[i] < 128
                && base64_bytes(d)[i] != 10 && base64_bytes(d)[i] != 13,
        d.len() > 0 ==> base64_bytes(d).len() >= 4,
    decreases d.len(),
{
    if d.len() == 0 {
    } else if d.len() <= 3 {
        lemma_group_round_trip(d);
    } else {
        lemma_group_round_trip(d.take(3));
        lemma_encoded_bytes(d.skip(3));
        let g = encode_group(d.take(3));
        let r = base64_bytes(d.skip(3));
        assert forall|i: int| 0 <= i < (g + r).len() implies #[trigger] (g + r)[i] < 128 && (g
            + r)[i] != 10 && (g + r)[i] != 13 by {
            if i < 4 {
                assert((g + r)[i] == g[i]);
            } else {
                assert((g + r)[i] == r[i - 4]);
            }
        }
    }
}

/// Removing line breaks from text without any changes nothing.
proof fn lemma_no_line_breaks(b: Seq<u8>)
    requires
        forall|i: int| 0 <= i < b.len() ==> #[trigger] b[i] != 10 && b[i] != 13,
    ensures
        without_line_breaks(b) == b,
    decreases b.len(),
{
    if b.len() > 0 {
        lemma_no_line_breaks(b.drop_last());
        assert(b.drop_last().push(b.last()) =~= b);
    }
}

/// The symbols of `d` decode back to `d`, and the decoder can read them.
proof fn lemma_decode_encoded(d: Seq<u8>)
    ensures
        decode_chunks(base64_bytes(d)) == d,
        chunks_readable(base64_bytes(d)),
    decreases d.len(),
{
    if d.len() == 0 {
    } else if d.len() <= 3 {
        lemma_group_round_trip(d);
    } else {
        lemma_group_round_trip(d.take(3));
        lemma_decode_encoded(d.skip(3));
        lemma_encoded_bytes(d.skip(3));
        let g = encode_group(d.take(3));
        let r = base64_bytes(d.skip(3));
        let e = g + r;
        assert(e.take(4) =~= g);
        assert(e.skip(4) =~= r);
        assert(d.take(3) + d.skip(3) =~= d);
    }
}

/// Decoding the base64 text of any bytes gives those bytes back, and the
/// text can always be decoded.
pub proof fn lemma_base64_round_trip(d: Seq<u8>)
    ensures
        base64_readable(ascii_text(base64_bytes(d))),
        spec_base64_decode(ascii_text(base64_bytes(d))) == d,
{
    let b = base64_bytes(d);
    let t = ascii_text(b);
    lemma_encoded_bytes(d);
    assert(is_ascii_chars(t));
    vstd::utf8::is_ascii_chars_encode_utf8(t);
    assert forall|i: int| 0 <= i < b.len() implies encode_utf8(t)[i] == b[i] by {
        assert(t[i] == b[i] as char);
    }
    assert(encode_utf8(t) =~= b);
    lemma_no_line_breaks(b);
    lemma_decode_encoded(d);
}

} // verus!
