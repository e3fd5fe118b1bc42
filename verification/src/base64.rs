//! Strict decoding of standard base64 (RFC 4648 alphabet, `=` padding
//! required, no whitespace, unused trailing bits zero), the text form in
//! which transaction XDR travels.

use vstd::prelude::*;

verus! {

/// The six-bit value of a base64 alphabet character.
pub open spec fn sextet(c: char) -> Option<nat> {
    if 'A' <= c && c <= 'Z' {
        Some((c as int - 'A' as int) as nat)
    } else if 'a' <= c && c <= 'z' {
        Some((c as int - 'a' as int + 26) as nat)
    } else if '0' <= c && c <= '9' {
        Some((c as int - '0' as int + 52) as nat)
    } else if c == '+' {
        Some(62)
    } else if c == '/' {
        Some(63)
    } else {
        None
    }
}

/// The three bytes that four sextets encode.
pub open spec fn bytes_of(a: nat, b: nat, c: nat, d: nat) -> Seq<u8> {
    seq![(a * 4 + b / 16) as u8, ((b % 16) * 16 + c / 4) as u8, ((c % 4) * 64 + d) as u8]
}

/// A group of four characters with no padding.
pub open spec fn decode_full_quantum(q: Seq<char>) -> Option<Seq<u8>> {
    match (sextet(q[0]), sextet(q[1]), sextet(q[2]), sextet(q[3])) {
        (Some(a), Some(b), Some(c), Some(d)) => Some(bytes_of(a, b, c, d)),
        _ => None,
    }
}

/// The last group of four characters, which may end in one or two `=`.
pub open spec fn decode_last_quantum(q: Seq<char>) -> Option<Seq<u8>> {
    if q[2] == '=' && q[3] == '=' {
        match (sextet(q[0]), sextet(q[1])) {
            (Some(a), Some(b)) => if b % 16 == 0 {
                Some(bytes_of(a, b, 0, 0).take(1))
            } else {
                None
            },
            _ => None,
        }
    } else if q[3] == '=' {
        match (sextet(q[0]), sextet(q[1]), sextet(q[2])) {
            (Some(a), Some(b), Some(c)) => if c % 4 == 0 {
                Some(bytes_of(a, b, c, 0).take(2))
            } else {
                None
            },
            _ => None,
        }
    } else {
        decode_full_quantum(q)
    }
}

/// The bytes that a base64 text encodes, or `None` where it is not valid.
pub open spec fn decode_base64(s: Seq<char>) -> Option<Seq<u8>>
    decreases s.len(),
{
    if s.len() == 0 {
        Some(Seq::empty())
    } else if s.len() < 4 {
        None
    } else if s.len() == 4 {
        decode_last_quantum(s)
    } else {
        match (decode_full_quantum(s.take(4)), decode_base64(s.skip(4))) {
            (Some(x), Some(y)) => Some(x + y),
            _ => None,
        }
    }
}

fn sextet_exec(c: char) -> (r: Option<u32>)
    ensures
        match sextet(c) {
            Some(v) => r is Some && r->0 == v,
            None => r is None,
        },
{
    if 'A' <= c && c <= 'Z' {
        Some(c as u32 - 65)
    } else if 'a' <= c && c <= 'z' {
        Some(c as u32 - 97 + 26)
    } else if '0' <= c && c <= '9' {
        Some(c as u32 - 48 + 52)
    } else if c == '+' {
        Some(62)
    } else if c == '/' {
        Some(63)
    } else {
        None
    }
}

fn push_quantum_bytes(out: &mut Vec<u8>, a: u32, b: u32, c: u32, d: u32, count: usize)
    requires
        a < 64,
        b < 64,
        c < 64,
        d < 64,
        1 <= count <= 3,
    ensures
        final(out)@ == old(out)@ + bytes_of(a as nat, b as nat, c as nat, d as nat).take(count as int),
{
    let ghost full = bytes_of(a as nat, b as nat, c as nat, d as nat);
    out.push((a * 4 + b / 16) as u8);
    if count >= 2 {
        out.push(((b % 16) * 16 + c / 4) as u8);
    }
    if count >= 3 {
        out.push(((c % 4) * 64 + d) as u8);
    }
    assert(final(out)@ =~= old(out)@ + full.take(count as int)) by {
        assert(full.take(count as int).len() == count);
    }
}

/// Decodes standard base64 text.
pub fn decode_base64_str(s: &str) -> (r: Option<Vec<u8>>)
    ensures
        match decode_base64(s@) {
            Some(b) => r is Some && r->0@ == b,
            None => r is None,
        },
{
    let cs = crate::text::chars_of(s);
    let n = cs.len();
    let mut out: Vec<u8> = Vec::new();
    let mut i: usize = 0;
    if n % 4 != 0 {
        proof {
            lemma_decode_needs_quanta(cs@);
        }
        return None;
    }
    proof {
        assert(cs@.skip(0) =~= cs@);
        if let Some(y) = decode_base64(cs@) {
            assert(out@ + y =~= y);
        }
    }
    while i < n
        invariant
            i <= n == cs@.len(),
            n % 4 == 0,
            i % 4 == 0,
            cs@ == s@,
            decode_base64(cs@) == (match decode_base64(cs@.skip(i as int)) {
                Some(y) => Some(out@ + y),
                None => None,
            }),
        decreases n - i,
    {
        let ghost rest = cs@.skip(i as int);
        let ghost q = rest.take(4);
        assert(q[0] == cs@[i as int] && q[1] == cs@[i + 1] && q[2] == cs@[i + 2] && q[3] == cs@[i + 3]);
        let va = sextet_exec(cs[i]);
        let vb = sextet_exec(cs[i + 1]);
        let last = i + 4 == n;
        if last && cs[i + 2] == '=' && cs[i + 3] == '=' {
            assert(rest =~= q);
            match (va, vb) {
                (Some(a), Some(b)) => {
                    if b % 16 != 0 {
                        return None;
                    }
                    push_quantum_bytes(&mut out, a, b, 0, 0, 1);
                    assert(cs@.skip(i + 4).len() == 0);
                    assert(out@ =~= out@ + Seq::<u8>::empty());
                },
                _ => {
                    return None;
                },
            }
        } else if last && cs[i + 3] == '=' {
            assert(rest =~= q);
            let vc = sextet_exec(cs[i + 2]);
            match (va, vb, vc) {
                (Some(a), Some(b), Some(c)) => {
                    if c % 4 != 0 {
                        return None;
                    }
                    push_quantum_bytes(&mut out, a, b, c, 0, 2);
                    assert(cs@.skip(i + 4).len() == 0);
                    assert(out@ =~= out@ + Seq::<u8>::empty());
                },
                _ => {
                    return None;
                },
            }
        } else {
            let vc = sextet_exec(cs[i + 2]);
            let vd = sextet_exec(cs[i + 3]);
            if last {
                assert(rest =~= q);
            } else {
                assert(rest.skip(4) =~= cs@.skip(i + 4));
            }
            match (va, vb, vc, vd) {
                (Some(a), Some(b), Some(c), Some(d)) => {
                    let ghost before = out@;
                    push_quantum_bytes(&mut out, a, b, c, d, 3);
                    assert(bytes_of(a as nat, b as nat, c as nat, d as nat).take(3) =~= bytes_of(
                        a as nat,
                        b as nat,
                        c as nat,
                        d as nat,
                    ));
                    if last {
                        assert(cs@.skip(i + 4).len() == 0);
                        assert(out@ =~= out@ + Seq::<u8>::empty());
                    } else {
                        proof {
                            if let Some(y) = decode_base64(cs@.skip(i + 4)) {
                                assert(before + (bytes_of(a as nat, b as nat, c as nat, d as nat) + y)
                                    =~= out@ + y);
                            }
                        }
                    }
                },
                _ => {
                    return None;
                },
            }
        }
        i = i + 4;
    }
    assert(cs@.skip(i as int).len() == 0);
    assert(out@ + Seq::<u8>::empty() =~= out@);
    Some(out)
}

/// Valid base64 text comes in whole groups of four characters.
proof fn lemma_decode_needs_quanta(s: Seq<char>)
    ensures
        decode_base64(s) is Some ==> s.len() % 4 == 0,
    decreases s.len(),
{
    if s.len() > 4 {
        lemma_decode_needs_quanta(s.skip(4));
    }
}

/// The number of bytes that valid base64 text decodes to: three for every
/// group of four characters, less one for each `=` of padding.
pub proof fn law_decoded_length(s: Seq<char>)
    ensures
        decode_base64(s) matches Some(b) ==> b.len() == s.len() / 4 * 3 - (if s.len() > 0 && s[s.len()
            - 1] == '=' {
            if s[s.len() - 2] == '=' {
                2int
            } else {
                1int
            }
        } else {
            0int
        }),
    decreases s.len(),
{
    if s.len() > 4 && decode_base64(s) is Some {
        lemma_decode_needs_quanta(s);
        law_decoded_length(s.skip(4));
        assert(s.skip(4)[s.skip(4).len() - 1] == s[s.len() - 1]);
        assert(s.skip(4)[s.skip(4).len() - 2] == s[s.len() - 2]);
    }
}

/// The base64 alphabet character of a six-bit value.
pub open spec fn alphabet(v: nat) -> char {
    if v < 26 {
        ('A' as int + v) as char
    } else if v < 52 {
        ('a' as int + (v - 26)) as char
    } else if v < 62 {
        ('0' as int + (v - 52)) as char
    } else if v == 62 {
        '+'
    } else {
        '/'
    }
}

/// The standard base64 text of bytes: each three bytes as four characters,
/// and the last one or two bytes as a group padded with `=`.
pub open spec fn encode_base64(b: Seq<u8>) -> Seq<char>
    decreases b.len(),
{
    if b.len() == 0 {
        Seq::empty()
    } else if b.len() == 1 {
        seq![alphabet(b[0] as nat / 4), alphabet((b[0] as nat % 4) * 16), '=', '=']
    } else if b.len() == 2 {
        seq![
            alphabet(b[0] as nat / 4),
            alphabet((b[0] as nat % 4) * 16 + b[1] as nat / 16),
            alphabet((b[1] as nat % 16) * 4),
            '=',
        ]
    } else {
        seq![
            alphabet(b[0] as nat / 4),
            alphabet((b[0] as nat % 4) * 16 + b[1] as nat / 16),
            alphabet((b[1] as nat % 16) * 4 + b[2] as nat / 64),
            alphabet(b[2] as nat % 64),
        ] + encode_base64(b.skip(3))
    }
}

proof fn lemma_alphabet(v: nat)
    requires
        v < 64,
    ensures
        sextet(alphabet(v)) == Some(v),
        alphabet(v) != '=',
{
}

proof fn lemma_bytes_round_trip(x: u8, y: u8, z: u8)
    ensures
        bytes_of(
            x as nat / 4,
            (x as nat % 4) * 16 + y as nat / 16,
            (y as nat % 16) * 4 + z as nat / 64,
            z as nat % 64,
        ) == seq![x, y, z],
{
    let a = x as nat / 4;
    let b = (x as nat % 4) * 16 + y as nat / 16;
    let c = (y as nat % 16) * 4 + z as nat / 64;
    let d = z as nat % 64;
    assert(a * 4 + b / 16 == x) by (nonlinear_arith)
        requires
            a == x as nat / 4,
            b == (x as nat % 4) * 16 + y as nat / 16,
            x < 256,
            y < 256,
    ;
    assert((b % 16) * 16 + c / 4 == y) by (nonlinear_arith)
        requires
            b == (x as nat % 4) * 16 + y as nat / 16,
            c == (y as nat % 16) * 4 + z as nat / 64,
            x < 256,
            y < 256,
            z < 256,
    ;
    assert((c % 4) * 64 + d == z) by (nonlinear_arith)
        requires
            c == (y as nat % 16) * 4 + z as nat / 64,
            d == z as nat % 64,
            y < 256,
            z < 256,
    ;
    assert(bytes_of(a, b, c, d) =~= seq![x, y, z]);
}

proof fn lemma_round_trip_one(b: Seq<u8>)
    requires
        b.len() == 1,
    ensures
        decode_base64(encode_base64(b)) == Some(b),
{
    let x = b[0];
    let a = x as nat / 4;
    let bb = (x as nat % 4) * 16;
    lemma_alphabet(a);
    lemma_alphabet(bb);
    lemma_bytes_round_trip(x, 0, 0);
    let q = encode_base64(b);
    assert(q == seq![alphabet(a), alphabet(bb), '=', '=']);
    assert(bb % 16 == 0);
    assert(decode_last_quantum(q) == Some(bytes_of(a, bb, 0, 0).take(1)));
    assert(bytes_of(a, bb, 0, 0).take(1) =~= b);
}

proof fn lemma_round_trip_two(b: Seq<u8>)
    requires
        b.len() == 2,
    ensures
        decode_base64(encode_base64(b)) == Some(b),
{
    let x = b[0];
    let y = b[1];
    let a = x as nat / 4;
    let bb = (x as nat % 4) * 16 + y as nat / 16;
    let c = (y as nat % 16) * 4;
    lemma_alphabet(a);
    lemma_alphabet(bb);
    lemma_alphabet(c);
    lemma_bytes_round_trip(x, y, 0);
    let q = encode_base64(b);
    assert(q == seq![alphabet(a), alphabet(bb), alphabet(c), '=']);
    assert(c % 4 == 0);
    assert(decode_last_quantum(q) == Some(bytes_of(a, bb, c, 0).take(2)));
    assert(bytes_of(a, bb, c, 0).take(2) =~= b);
}

proof fn lemma_round_trip_head(x: u8, y: u8, z: u8)
    ensures
        ({
            let head = seq![
                alphabet(x as nat / 4),
                alphabet((x as nat % 4) * 16 + y as nat / 16),
                alphabet((y as nat % 16) * 4 + z as nat / 64),
                alphabet(z as nat % 64),
            ];
            &&& decode_full_quantum(head) == Some(seq![x, y, z])
            &&& decode_last_quantum(head) == Some(seq![x, y, z])
        }),
{
    let a = x as nat / 4;
    let b = (x as nat % 4) * 16 + y as nat / 16;
    let c = (y as nat % 16) * 4 + z as nat / 64;
    let d = z as nat % 64;
    lemma_alphabet(a);
    lemma_alphabet(b);
    lemma_alphabet(c);
    lemma_alphabet(d);
    lemma_bytes_round_trip(x, y, z);
}

/// Decoding undoes encoding: the standard base64 text of any bytes decodes
/// to exactly those bytes, however many there are.
pub proof fn law_base64_round_trip(b: Seq<u8>)
    ensures
        decode_base64(encode_base64(b)) == Some(b),
    decreases b.len(),
{
    if b.len() == 1 {
        lemma_round_trip_one(b);
    } else if b.len() == 2 {
        lemma_round_trip_two(b);
    } else if b.len() >= 3 {
        let x = b[0];
        let y = b[1];
        let z = b[2];
        let head = seq![
            alphabet(x as nat / 4),
            alphabet((x as nat % 4) * 16 + y as nat / 16),
            alphabet((y as nat % 16) * 4 + z as nat / 64),
            alphabet(z as nat % 64),
        ];
        let rest = b.skip(3);
        let s = encode_base64(b);
        lemma_round_trip_head(x, y, z);
        law_base64_round_trip(rest);
        assert(s == head + encode_base64(rest));
        assert(seq![x, y, z] + rest =~= b);
        if rest.len() == 0 {
            assert(s =~= head);
        } else {
            lemma_encode_nonempty(rest);
            assert(s.take(4) =~= head);
            assert(s.skip(4) =~= encode_base64(rest));
        }
    }
}

proof fn lemma_encode_nonempty(b: Seq<u8>)
    requires
        b.len() > 0,
    ensures
        encode_base64(b).len() >= 4,
{
}

proof fn lemma_alphabet_inverse(c: char)
    requires
        sextet(c) is Some,
    ensures
        sextet(c)->0 < 64,
        alphabet(sextet(c)->0) == c,
{
}

proof fn lemma_quantum_inverse(a: nat, b: nat, c: nat, d: nat)
    requires
        a < 64,
        b < 64,
        c < 64,
        d < 64,
    ensures
        ({
            let q = bytes_of(a, b, c, d);
            &&& q[0] as nat / 4 == a
            &&& (q[0] as nat % 4) * 16 + q[1] as nat / 16 == b
            &&& (q[1] as nat % 16) * 4 + q[2] as nat / 64 == c
            &&& q[2] as nat % 64 == d
            &&& (b % 16 == 0 ==> (q[0] as nat % 4) * 16 == b)
            &&& (c % 4 == 0 ==> (q[1] as nat % 16) * 4 == c)
        }),
{
    let x = a * 4 + b / 16;
    let y = (b % 16) * 16 + c / 4;
    let z = (c % 4) * 64 + d;
    assert(x < 256 && y < 256 && z < 256) by (nonlinear_arith)
        requires
            a < 64,
            b < 64,
            c < 64,
            d < 64,
            x == a * 4 + b / 16,
            y == (b % 16) * 16 + c / 4,
            z == (c % 4) * 64 + d,
    ;
    let q = bytes_of(a, b, c, d);
    assert(q[0] as nat == x && q[1] as nat == y && q[2] as nat == z);
    assert(x / 4 == a && (x % 4) * 16 + y / 16 == b && (y % 16) * 4 + z / 64 == c && z % 64 == d
        && (b % 16 == 0 ==> (x % 4) * 16 == b) && (c % 4 == 0 ==> (y % 16) * 4 == c))
        by (nonlinear_arith)
        requires
            a < 64,
            b < 64,
            c < 64,
            d < 64,
            x == a * 4 + b / 16,
            y == (b % 16) * 16 + c / 4,
            z == (c % 4) * 64 + d,
    ;
}

proof fn lemma_canonical_last(q: Seq<char>)
    requires
        q.len() == 4,
        decode_last_quantum(q) is Some,
    ensures
        encode_base64(decode_last_quantum(q)->0) == q,
{
    let b = decode_last_quantum(q)->0;
    if q[2] == '=' && q[3] == '=' {
        lemma_alphabet_inverse(q[0]);
        lemma_alphabet_inverse(q[1]);
        let a = sextet(q[0])->0;
        let bb = sextet(q[1])->0;
        lemma_quantum_inverse(a, bb, 0, 0);
        assert(b.len() == 1);
        assert(b[0] == bytes_of(a, bb, 0, 0)[0]);
        assert(encode_base64(b) =~= q);
    } else if q[3] == '=' {
        lemma_alphabet_inverse(q[0]);
        lemma_alphabet_inverse(q[1]);
        lemma_alphabet_inverse(q[2]);
        let a = sextet(q[0])->0;
        let bb = sextet(q[1])->0;
        let c = sextet(q[2])->0;
        lemma_quantum_inverse(a, bb, c, 0);
        assert(b.len() == 2);
        assert(b[0] == bytes_of(a, bb, c, 0)[0] && b[1] == bytes_of(a, bb, c, 0)[1]);
        assert(encode_base64(b) =~= q);
    } else {
        lemma_canonical_full(q);
        assert(b == decode_full_quantum(q)->0);
        assert(b.skip(3) =~= Seq::<u8>::empty());
        assert(encode_base64(b.skip(3)) == Seq::<char>::empty());
        let head = seq![
            alphabet(b[0] as nat / 4),
            alphabet((b[0] as nat % 4) * 16 + b[1] as nat / 16),
            alphabet((b[1] as nat % 16) * 4 + b[2] as nat / 64),
            alphabet(b[2] as nat % 64),
        ];
        assert(encode_base64(b) == head + encode_base64(b.skip(3)));
        assert(encode_base64(b) =~= q);
    }
}

proof fn lemma_canonical_full(q: Seq<char>)
    requires
        q.len() == 4,
        decode_full_quantum(q) is Some,
    ensures
        ({
            let b = decode_full_quantum(q)->0;
            &&& b.len() == 3
            &&& seq![
                alphabet(b[0] as nat / 4),
                alphabet((b[0] as nat % 4) * 16 + b[1] as nat / 16),
                alphabet((b[1] as nat % 16) * 4 + b[2] as nat / 64),
                alphabet(b[2] as nat % 64),
            ] == q
        }),
{
    lemma_alphabet_inverse(q[0]);
    lemma_alphabet_inverse(q[1]);
    lemma_alphabet_inverse(q[2]);
    lemma_alphabet_inverse(q[3]);
    let a = sextet(q[0])->0;
    let b = sextet(q[1])->0;
    let c = sextet(q[2])->0;
    let d = sextet(q[3])->0;
    lemma_quantum_inverse(a, b, c, d);
    let bs = decode_full_quantum(q)->0;
    assert(bs == bytes_of(a, b, c, d));
    assert(seq![
        alphabet(bs[0] as nat / 4),
        alphabet((bs[0] as nat % 4) * 16 + bs[1] as nat / 16),
        alphabet((bs[1] as nat % 16) * 4 + bs[2] as nat / 64),
        alphabet(bs[2] as nat % 64),
    ] =~= q);
}

/// Decoding is strict: the only text that decodes to some bytes is their
/// standard base64 encoding, so text that is not one (a character outside
/// the alphabet, misplaced or missing padding, nonzero unused bits) is
/// refused.
pub proof fn law_base64_only_canonical(s: Seq<char>)
    ensures
        decode_base64(s) matches Some(b) ==> encode_base64(b) == s,
    decreases s.len(),
{
    if s.len() == 4 && decode_base64(s) is Some {
        lemma_canonical_last(s);
    } else if s.len() > 4 && decode_base64(s) is Some {
        let q = s.take(4);
        let rest = s.skip(4);
        let x = decode_full_quantum(q)->0;
        let y = decode_base64(rest)->0;
        let b = x + y;
        lemma_canonical_full(q);
        law_base64_only_canonical(rest);
        assert(b.skip(3) =~= y);
        assert(b[0] == x[0] && b[1] == x[1] && b[2] == x[2]);
        if y.len() == 0 {
            assert(encode_base64(y).len() == 0);
        }
        assert(b.len() >= 4);
        assert(encode_base64(b) == q + encode_base64(y));
        assert(s =~= q + rest);
    }
}

} // verus!
