//! `prism decode`: arguments, and the local decoding of raw XDR input.

use vstd::prelude::*;

use crate::base64::{decode_base64, decode_base64_str};
use crate::report::{DiagnosticReport, Severity};
use crate::text::{decimal, decimal_string};

verus! {

/// Arguments for the decode command.
#[derive(Debug, Clone)]
pub struct DecodeArgs {
    /// Transaction hash to decode, or a raw error string with --raw.
    pub tx_hash: String,
    /// Decode a raw error string instead of fetching by TX hash.
    pub raw: bool,
    /// Show short one-line summary only.
    pub short: bool,
}

/// What a decode command line says: the input and the two switches.
#[verifier::ext_equal]
pub struct DecodeArgsView {
    pub tx_hash: Seq<char>,
    pub raw: bool,
    pub short: bool,
}

impl View for DecodeArgs {
    type V = DecodeArgsView;

    open spec fn view(&self) -> DecodeArgsView {
        DecodeArgsView { tx_hash: self.tx_hash@, raw: self.raw, short: self.short }
    }
}


/// Why raw input could not be decoded.
#[derive(Debug, Clone, Copy, PartialEq, Eq, Structural)]
pub enum RawDecodeError {
    /// The input is not valid standard base64.
    InvalidBase64,
}

/// The explanation in the report of raw input that decodes to `n` bytes.
pub open spec fn raw_explanation(n: nat) -> Seq<char> {
    "The --raw input is valid base64 and decodes to "@ + decimal(n) + " bytes of XDR; it was decoded locally, without fetching a transaction."@
}

/// Builds the report for raw base64 XDR input given with `--raw`: it names
/// the input's category and size. Input that is not valid base64 is refused.
pub fn build_raw_xdr_report(input: &str) -> (r: Result<DiagnosticReport, RawDecodeError>)
    ensures
        match decode_base64(input@) {
            None => r == Err::<DiagnosticReport, RawDecodeError>(RawDecodeError::InvalidBase64),
            Some(bytes) => r is Ok && {
                let rep = r->Ok_0;
                &&& rep.error_category@ == "raw-xdr"@
                &&& rep.error_code == 0
                &&& rep.error_name@ == "RawXdr"@
                &&& rep.summary@ == "Decoded raw XDR input from --raw"@
                &&& rep.detailed_explanation@ == raw_explanation(bytes.len())
                &&& rep.severity == Severity::Info
                &&& rep.root_causes@.len() == 0
                &&& rep.suggested_fixes@.len() == 0
                &&& rep.related_errors@.len() == 0
            },
        },
{
    let bytes = match decode_base64_str(input) {
        Some(b) => b,
        None => {
            return Err(RawDecodeError::InvalidBase64);
        },
    };
    let mut explanation = "The --raw input is valid base64 and decodes to ".to_owned();
    let count = decimal_string(bytes.len() as u64);
    explanation.append(count.as_str());
    explanation.append(" bytes of XDR; it was decoded locally, without fetching a transaction.");
    Ok(
        DiagnosticReport {
            error_category: "raw-xdr".to_owned(),
            error_code: 0,
            error_name: "RawXdr".to_owned(),
            summary: "Decoded raw XDR input from --raw".to_owned(),
            detailed_explanation: explanation,
            severity: Severity::Info,
            root_causes: Vec::new(),
            suggested_fixes: Vec::new(),
            related_errors: Vec::new(),
        },
    )
}

/// The output format that a decode renders in: `short` with `--short`,
/// the global `--output` format otherwise.
pub fn effective_output_format(short: bool, output_format: &str) -> (r: String)
    ensures
        r@ == (if short {
            "short"@
        } else {
            output_format@
        }),
{
    if short {
        "short".to_owned()
    } else {
        output_format.to_owned()
    }
}

/// The number of bytes that UTF-8 takes for a character.
pub open spec fn utf8_width(c: char) -> nat {
    if (c as u32) < 0x80 {
        1
    } else if (c as u32) < 0x800 {
        2
    } else if (c as u32) < 0x10000 {
        3
    } else {
        4
    }
}

/// The number of UTF-8 bytes of a character sequence.
pub open spec fn utf8_len(s: Seq<char>) -> nat
    decreases s.len(),
{
    if s.len() == 0 {
        0
    } else {
        utf8_len(s.drop_last()) + utf8_width(s.last())
    }
}

/// The longest prefix of `s` that takes at most `limit` UTF-8 bytes.
pub open spec fn byte_prefix(s: Seq<char>, limit: nat) -> Seq<char>
    decreases s.len(),
{
    if s.len() == 0 || utf8_len(s) <= limit {
        s
    } else {
        byte_prefix(s.drop_last(), limit)
    }
}

/// Whether the first `limit` bytes of `s` end on a character boundary (or
/// `s` is shorter): slicing them out does not panic.
pub open spec fn ends_on_char(s: Seq<char>, limit: nat) -> bool {
    utf8_len(s) <= limit || utf8_len(byte_prefix(s, limit)) == limit
}

proof fn lemma_utf8_len_push(s: Seq<char>, c: char)
    ensures
        utf8_len(s.push(c)) == utf8_len(s) + utf8_width(c),
{
    assert(s.push(c).drop_last() =~= s);
}

proof fn lemma_byte_prefix_of_take(s: Seq<char>, k: int, limit: nat)
    requires
        0 <= k <= s.len(),
        utf8_len(s.take(k)) <= limit,
        k == s.len() || utf8_len(s.take(k + 1)) > limit,
    ensures
        byte_prefix(s, limit) == s.take(k),
    decreases s.len(),
{
    if k < s.len() {
        lemma_utf8_len_monotone(s, k + 1);
        assert(s.drop_last().take(k) =~= s.take(k));
        if k + 1 <= s.len() - 1 {
            assert(s.drop_last().take(k + 1) =~= s.take(k + 1));
        }
        lemma_byte_prefix_of_take(s.drop_last(), k, limit);
    } else {
        assert(s.take(k) =~= s);
    }
}

/// A sequence takes at least as many bytes as each of its prefixes.
proof fn lemma_utf8_len_monotone(s: Seq<char>, k: int)
    requires
        0 <= k <= s.len(),
    ensures
        utf8_len(s.take(k)) <= utf8_len(s),
    decreases s.len(),
{
    if k < s.len() {
        assert(s.drop_last().take(k) =~= s.take(k));
        lemma_utf8_len_monotone(s.drop_last(), k);
    } else {
        assert(s.take(k) =~= s);
    }
}

/// Why a transaction hash is refused before it is fetched.
#[derive(Debug, Clone, Copy, PartialEq, Eq, Structural)]
pub enum TxHashError {
    /// The eighth byte of the hash falls inside a character, so its first
    /// eight bytes cannot be shown.
    SplitCharacter,
}

/// The spinner message shown while a transaction is fetched: the first
/// (at most) eight bytes of the hash. A hash whose eighth byte falls inside
/// a character is malformed and refused.
pub fn fetch_message(tx_hash: &str) -> (r: Result<String, TxHashError>)
    ensures
        ends_on_char(tx_hash@, 8) ==> (r is Ok && r->Ok_0@ == "Fetching transaction "@ + byte_prefix(
            tx_hash@,
            8,
        ) + "..."@),
        !ends_on_char(tx_hash@, 8) ==> r == Err::<String, TxHashError>(TxHashError::SplitCharacter),
{
    let cs = crate::text::chars_of(tx_hash);
    let mut k: usize = 0;
    let mut used: u32 = 0;
    let mut full = false;
    while k < cs.len() && !full
        invariant
            k <= cs.len(),
            cs@ == tx_hash@,
            used == utf8_len(cs@.take(k as int)),
            used <= 8,
            full ==> k < cs.len() && utf8_len(cs@.take(k + 1)) > 8,
        decreases cs.len() - k + (if full { 0int } else { 1int }),
    {
        let c = cs[k];
        let w: u32 = if (c as u32) < 0x80 {
            1
        } else if (c as u32) < 0x800 {
            2
        } else if (c as u32) < 0x10000 {
            3
        } else {
            4
        };
        proof {
            assert(cs@.take(k + 1) =~= cs@.take(k as int).push(c));
            lemma_utf8_len_push(cs@.take(k as int), c);
        }
        if used + w > 8 {
            full = true;
        } else {
            used = used + w;
            k = k + 1;
        }
    }
    proof {
        lemma_byte_prefix_of_take(cs@, k as int, 8);
        if full {
            lemma_utf8_len_monotone(cs@, k + 1);
        } else {
            assert(cs@.take(k as int) =~= cs@);
        }
    }
    if full && used != 8 {
        return Err(TxHashError::SplitCharacter);
    }
    let mut prefix: Vec<char> = Vec::new();
    let mut j: usize = 0;
    while j < k
        invariant
            j <= k <= cs.len(),
            prefix@ == cs@.take(j as int),
        decreases k - j,
    {
        prefix.push(cs[j]);
        j = j + 1;
        assert(prefix@ =~= cs@.take(j as int));
    }
    let mut msg = "Fetching transaction ".to_owned();
    crate::text::push_chars(&mut msg, &prefix);
    msg.append("...");
    Ok(msg)
}


proof fn lemma_ascii_utf8_len(s: Seq<char>)
    requires
        forall|i: int| 0 <= i < s.len() ==> (#[trigger] s[i] as u32) < 0x80,
    ensures
        utf8_len(s) == s.len(),
    decreases s.len(),
{
    if s.len() > 0 {
        let t = s.drop_last();
        assert forall|i: int| 0 <= i < t.len() implies (#[trigger] t[i] as u32) < 0x80 by {
            assert(t[i] == s[i]);
        }
        lemma_ascii_utf8_len(t);
        assert((s[s.len() - 1] as u32) < 0x80);
    }
}

/// For an ASCII hash (as transaction hashes are), slicing out eight bytes
/// never splits a character, and the spinner shows the first eight
/// characters (all of them, for a shorter hash).
pub proof fn law_ascii_hash_prefix(s: Seq<char>)
    requires
        forall|i: int| 0 <= i < s.len() ==> (#[trigger] s[i] as u32) < 0x80,
    ensures
        ends_on_char(s, 8),
        byte_prefix(s, 8) == s.take(if s.len() < 8 { s.len() as int } else { 8 }),
{
    let k: int = if s.len() < 8 { s.len() as int } else { 8 };
    assert forall|j: int| 0 <= j <= s.len() implies utf8_len(#[trigger] s.take(j)) == j by {
        let t = s.take(j);
        assert forall|i: int| 0 <= i < t.len() implies (#[trigger] t[i] as u32) < 0x80 by {
            assert(t[i] == s[i]);
        }
        lemma_ascii_utf8_len(t);
    }
    assert(utf8_len(s.take(k)) == k);
    if k < s.len() {
        assert(utf8_len(s.take(k + 1)) == k + 1);
    }
    lemma_byte_prefix_of_take(s, k, 8);
    assert(s.take(s.len() as int) =~= s);
}

} // verus!
