//! The flat-file texts the harness reads and writes itself: latency log
//! lines (a decimal millisecond count and a newline) and the persisted
//! user identifier (a bare decimal number).  Printing and parsing round
//! trip, so every line the driver appends parses back as the number it
//! recorded.

use vstd::prelude::*;

verus! {

/// The decimal digit bytes of `n`, most significant first.
pub open spec fn decimal_digits(n: nat) -> Seq<u8>
    decreases n,
{
    if n < 10 {
        seq![(48 + n) as u8]
    } else {
        decimal_digits(n / 10).push((48 + n % 10) as u8)
    }
}

pub open spec fn is_decimal_digit(b: u8) -> bool {
    48 <= b <= 57
}

pub open spec fn all_digits(s: Seq<u8>) -> bool {
    forall|i: int| 0 <= i < s.len() ==> is_decimal_digit(s[i])
}

/// The number an all-digit byte string denotes.
pub open spec fn decimal_value(s: Seq<u8>) -> nat
    decreases s.len(),
{
    if s.len() == 0 {
        0
    } else {
        decimal_value(s.drop_last()) * 10 + (if s.last() >= 48 {
            (s.last() - 48) as nat
        } else {
            0
        })
    }
}

/// The digit bytes of `n`.
pub fn u64_decimal(n: u64) -> (v: Vec<u8>)
    ensures
        v@ == decimal_digits(n as nat),
    decreases n,
{
    if n < 10 {
        let mut v: Vec<u8> = Vec::new();
        v.push(48 + n as u8);
        proof {
            assert(v@ =~= decimal_digits(n as nat));
        }
        v
    } else {
        let mut v = u64_decimal(n / 10);
        v.push(48 + (n % 10) as u8);
        proof {
            assert(v@ =~= decimal_digits(n as nat));
        }
        v
    }
}

/// One latency log line: the elapsed milliseconds in decimal, then a
/// newline, exactly as the driver appends it.
pub fn latency_line(elapsed_ms: u64) -> (v: Vec<u8>)
    ensures
        v@ == decimal_digits(elapsed_ms as nat).push(10u8),
        v@.len() > 0,
        v@.last() == 10u8,
        v@.subrange(0, v@.len() - 1) == decimal_digits(elapsed_ms as nat),
{
    let mut v = u64_decimal(elapsed_ms);
    v.push(10);
    proof {
        assert(v@.subrange(0, v@.len() - 1) =~= decimal_digits(elapsed_ms as nat));
    }
    v
}

/// Parse the decimal text the harness itself writes: accepted exactly on
/// a nonempty all-digit string whose value fits 64 bits, yielding that
/// value.
pub fn parse_u64_decimal(s: &Vec<u8>) -> (r: Option<u64>)
    ensures
        r matches Some(v) ==> s@.len() > 0 && all_digits(s@) && decimal_value(s@) == v,
        r is None ==> s@.len() == 0 || !all_digits(s@) || decimal_value(s@) > u64::MAX,
{
    if s.len() == 0 {
        return None;
    }
    let ghost sq = s@;
    let mut acc: u64 = 0;
    let mut i: usize = 0;
    while i < s.len()
        invariant
            0 <= i <= sq.len(),
            s@ == sq,
            all_digits(sq.take(i as int)),
            acc == decimal_value(sq.take(i as int)),
        decreases sq.len() - i,
    {
        let b = s[i];
        proof {
            assert(sq.take(i as int + 1).drop_last() =~= sq.take(i as int));
            assert(sq.take(i as int + 1).last() == sq[i as int]);
        }
        if b < 48 || b > 57 {
            proof {
                assert(!is_decimal_digit(sq[i as int]));
            }
            return None;
        }
        let d = (b - 48) as u64;
        let scaled = match acc.checked_mul(10) {
            Some(x) => x,
            None => {
                proof {
                    lemma_decimal_value_prefix_le(sq, i as int + 1, sq.len() as int);
                    assert(sq.take(sq.len() as int) =~= sq);
                }
                return None;
            },
        };
        acc = match scaled.checked_add(d) {
            Some(x) => x,
            None => {
                proof {
                    lemma_decimal_value_prefix_le(sq, i as int + 1, sq.len() as int);
                    assert(sq.take(sq.len() as int) =~= sq);
                }
                return None;
            },
        };
        i = i + 1;
    }
    proof {
        assert(sq.take(sq.len() as int) =~= sq);
    }
    Some(acc)
}

/// A longer prefix of a byte string never denotes a smaller number.
proof fn lemma_decimal_value_prefix_le(s: Seq<u8>, i: int, j: int)
    requires
        0 <= i <= j <= s.len(),
    ensures
        decimal_value(s.take(i)) <= decimal_value(s.take(j)),
    decreases j - i,
{
    if i < j {
        lemma_decimal_value_prefix_le(s, i, j - 1);
        assert(s.take(j).drop_last() =~= s.take(j - 1));
    }
}

proof fn lemma_decimal_digits_all_digits(n: nat)
    ensures
        all_digits(decimal_digits(n)),
        decimal_digits(n).len() > 0,
    decreases n,
{
    if n >= 10 {
        lemma_decimal_digits_all_digits(n / 10);
        let prefix = decimal_digits(n / 10);
        let whole = decimal_digits(n);
        assert forall|i: int| 0 <= i < whole.len() implies is_decimal_digit(whole[i]) by {
            if i < prefix.len() {
                assert(is_decimal_digit(prefix[i]));
            }
        }
    }
}

proof fn lemma_decimal_digits_value(n: nat)
    ensures
        decimal_value(decimal_digits(n)) == n,
    decreases n,
{
    if n < 10 {
        let d = decimal_digits(n);
        assert(d.len() == 1);
        assert(d.last() == (48 + n) as u8);
        assert(d.drop_last() =~= Seq::<u8>::empty());
        assert(decimal_value(d.drop_last()) == 0);
        assert((48 + n) as u8 == 48 + n);
        assert(decimal_value(d) == ((48 + n) as u8 - 48) as nat);
    } else {
        lemma_decimal_digits_value(n / 10);
        assert(decimal_digits(n).drop_last() =~= decimal_digits(n / 10));
        assert(n % 10 < 10);
        assert((48 + n % 10) as u8 == 48 + n % 10);
        assert(decimal_value(decimal_digits(n)) == (n / 10) * 10 + n % 10);
    }
}

/// How many newline bytes — and so how many lines — a file's text holds.
pub open spec fn count_newlines(bytes: Seq<u8>) -> nat
    decreases bytes.len(),
{
    if bytes.len() == 0 {
        0
    } else {
        count_newlines(bytes.drop_last()) + if bytes.last() == 10u8 {
            1nat
        } else {
            0nat
        }
    }
}

/// The text of a log file holding the given entries: one latency line —
/// decimal digits and a newline — per entry, in order.
pub open spec fn log_file_bytes(entries: Seq<u64>) -> Seq<u8>
    decreases entries.len(),
{
    if entries.len() == 0 {
        Seq::empty()
    } else {
        log_file_bytes(entries.drop_last()) + decimal_digits(entries.last() as nat).push(10u8)
    }
}

proof fn lemma_count_newlines_concat(a: Seq<u8>, b: Seq<u8>)
    ensures
        count_newlines(a + b) == count_newlines(a) + count_newlines(b),
    decreases b.len(),
{
    if b.len() == 0 {
        assert(a + b =~= a);
    } else {
        lemma_count_newlines_concat(a, b.drop_last());
        assert((a + b).drop_last() =~= a + b.drop_last());
        assert((a + b).last() == b.last());
    }
}

proof fn lemma_digits_have_no_newline(s: Seq<u8>)
    requires
        all_digits(s),
    ensures
        count_newlines(s) == 0,
    decreases s.len(),
{
    if s.len() > 0 {
        assert forall|i: int| 0 <= i < s.drop_last().len() implies is_decimal_digit(
            s.drop_last()[i],
        ) by {
            assert(s.drop_last()[i] == s[i]);
        }
        lemma_digits_have_no_newline(s.drop_last());
        assert(is_decimal_digit(s.last()));
    }
}

/// One line per entry: the log file's text holds exactly one newline —
/// hence exactly one line — per recorded measurement, since the digits
/// of a measurement never contain one.
pub proof fn lemma_one_line_per_entry(entries: Seq<u64>)
    ensures
        count_newlines(log_file_bytes(entries)) == entries.len(),
    decreases entries.len(),
{
    if entries.len() > 0 {
        lemma_one_line_per_entry(entries.drop_last());
        let digits = decimal_digits(entries.last() as nat);
        lemma_decimal_digits_all_digits(entries.last() as nat);
        lemma_digits_have_no_newline(digits);
        lemma_count_newlines_concat(log_file_bytes(entries.drop_last()), digits.push(10u8));
        assert(digits.push(10u8).drop_last() =~= digits);
    }
}

/// Appending one measurement appends exactly its latency line to the log
/// file's text, and nothing else.
pub proof fn lemma_file_grows_by_one_line(entries: Seq<u64>, elapsed_ms: u64)
    ensures
        log_file_bytes(entries.push(elapsed_ms)) == log_file_bytes(entries) + decimal_digits(
            elapsed_ms as nat,
        ).push(10u8),
{
    assert(entries.push(elapsed_ms).drop_last() =~= entries);
}

/// Round trip: what the harness prints is a nonempty digit string that
/// parses back to exactly the printed number; in particular every
/// latency line's digits denote the recorded measurement.
pub proof fn lemma_decimal_round_trip(n: u64)
    ensures
        all_digits(decimal_digits(n as nat)),
        decimal_digits(n as nat).len() > 0,
        decimal_value(decimal_digits(n as nat)) == n,
{
    lemma_decimal_digits_all_digits(n as nat);
    lemma_decimal_digits_value(n as nat);
}

} // verus!
