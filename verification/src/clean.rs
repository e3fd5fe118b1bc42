//! `prism clean`: arguments, and what the command computes and reports.

use vstd::prelude::*;

use crate::text::{decimal, digit_char, push_decimal, string_from_chars};

verus! {

/// Arguments for the clean command (it takes none).
#[derive(Debug, Clone, Copy)]
pub struct CleanArgs;

/// A byte count in tenths of a mebibyte, rounded half up.
pub open spec fn mb_tenths(bytes: nat) -> nat {
    (bytes * 10 + 524288) / 1048576
}

/// A byte count as mebibytes rounded to one decimal, written without a
/// trailing `.0`: `0` for no bytes, `1` for one mebibyte, `1.5`, `0.1`...
pub open spec fn mb_text(bytes: nat) -> Seq<char> {
    let t = mb_tenths(bytes);
    if bytes == 0 || t % 10 == 0 {
        decimal(t / 10)
    } else {
        decimal(t / 10).push('.').push(digit_char(t % 10))
    }
}

/// Formats a byte count as mebibytes with at most one decimal.
pub fn format_mb(bytes: u64) -> (r: String)
    ensures
        r@ == mb_text(bytes as nat),
{
    if bytes == 0 {
        assert(mb_tenths(0) == 0) by (nonlinear_arith);
        proof {
            reveal_strlit("0");
            assert(decimal(0) =~= seq!['0']);
        }
        return "0".to_owned();
    }
    let wide: u128 = bytes as u128 * 10 + 524288;
    let tenths: u128 = wide / 1048576;
    assert(tenths == mb_tenths(bytes as nat));
    assert(tenths <= u64::MAX) by (nonlinear_arith)
        requires
            tenths == (bytes as int * 10 + 524288) / 1048576,
            bytes <= u64::MAX,
    ;
    let t: u64 = tenths as u64;
    let mut v: Vec<char> = Vec::new();
    push_decimal(&mut v, t / 10);
    assert(v@ =~= decimal((t / 10) as nat));
    if t % 10 != 0 {
        v.push('.');
        let d: u64 = t % 10;
        let c: char = if d == 1 { '1' } else if d == 2 { '2' } else if d == 3 { '3' } else if d == 4 {
            '4'
        } else if d == 5 { '5' } else if d == 6 { '6' } else if d == 7 { '7' } else if d == 8 {
            '8'
        } else { '9' };
        assert(c == digit_char(d as nat));
        v.push(c);
    }
    string_from_chars(&v)
}

/// What `prism clean` reports: the size of the cache it cleared, or
/// zero where there was no cache directory.
pub open spec fn clean_message(existed: bool, total_bytes: nat) -> Seq<char> {
    "Successfully cleared "@ + (if existed {
        mb_text(total_bytes)
    } else {
        "0"@
    }) + "MB of cache data"@
}

/// The message that `prism clean` prints once done.
pub fn clean_summary(existed: bool, total_bytes: u64) -> (r: String)
    ensures
        r@ == clean_message(existed, total_bytes as nat),
{
    let mut msg = "Successfully cleared ".to_owned();
    if existed {
        let mb = format_mb(total_bytes);
        msg.append(mb.as_str());
    } else {
        msg.append("0");
    }
    msg.append("MB of cache data");
    msg
}

/// Finding no cache directory reports the same as clearing an empty one.
pub proof fn law_missing_cache_reports_zero(total_bytes: nat)
    ensures
        clean_message(false, total_bytes) == clean_message(true, 0),
{
    reveal_strlit("0");
    assert(decimal(0) =~= seq!['0']);
}

/// The sum of a sequence of sizes.
pub open spec fn total(sizes: Seq<u64>) -> nat
    decreases sizes.len(),
{
    if sizes.len() == 0 {
        0
    } else {
        total(sizes.drop_last()) + sizes.last() as nat
    }
}

/// Adds up the sizes of the entries of a directory, saturating: the result
/// is the true sum, or `u64::MAX` where the sum does not fit.
pub fn saturating_total(sizes: &Vec<u64>) -> (r: u64)
    ensures
        r == (if total(sizes@) > u64::MAX {
            u64::MAX as nat
        } else {
            total(sizes@)
        }),
{
    let mut sum: u64 = 0;
    let mut i: usize = 0;
    while i < sizes.len()
        invariant
            i <= sizes.len(),
            sum == (if total(sizes@.take(i as int)) > u64::MAX {
                u64::MAX as nat
            } else {
                total(sizes@.take(i as int))
            }),
        decreases sizes.len() - i,
    {
        assert(sizes@.take(i + 1).drop_last() =~= sizes@.take(i as int));
        sum = sum.saturating_add(sizes[i]);
        i = i + 1;
    }
    assert(sizes@.take(sizes.len() as int) =~= sizes@);
    sum
}

/// The home directory that the cache lives under: `HOME` where it is set,
/// `USERPROFILE` otherwise, and none where neither is.
pub fn choose_home_dir<T>(home: Option<T>, user_profile: Option<T>) -> (r: Option<T>)
    ensures
        r == (match home {
            Some(h) => Some(h),
            None => user_profile,
        }),
{
    match home {
        Some(h) => Some(h),
        None => user_profile,
    }
}


/// The size `format_mb` writes never decreases as the byte count grows:
/// `mb_text(b)` writes the number `mb_tenths(b) / 10`, and `mb_tenths` is
/// monotone.
pub proof fn law_format_mb_monotone(b1: nat, b2: nat)
    requires
        b1 <= b2,
    ensures
        mb_tenths(b1) <= mb_tenths(b2),
{
    assert(b1 * 10 + 524288 <= b2 * 10 + 524288);
    vstd::arithmetic::div_mod::lemma_div_is_ordered(
        (b1 * 10 + 524288) as int,
        (b2 * 10 + 524288) as int,
        1048576,
    );
}

} // verus!
