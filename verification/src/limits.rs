//! The limits within which a filter pattern is handed to `wax`.
//!
//! `wax` turns a glob into a regular expression and treats every failure of
//! the regular-expression compiler but an oversized program as a bug of its
//! own. Three things in a pattern can bring such a failure about, or
//! overflow the sizes that `wax` computes while it checks the pattern: a
//! repetition bound that does not fit 32 bits, repetition counts whose
//! product grows past the machine word, and groups nested deeper than the
//! regular-expression parser allows. A pattern within the limits of this
//! module can do none of them.
//!
//! Why the limits suffice: a repetition bound is a run of digits right after
//! a `:` (the lower bound, or the one count) or right after a `,` (the upper
//! bound). `wax` sizes an expression at no more than four times its bytes
//! times the product of its repetition counts, which within the limits
//! stays below 2^31. A group is opened by `{` or `<` alone, so no group
//! nests deeper than there are such bytes, and each level of nesting adds
//! only a few levels to the regular expression, whose parser allows 250.
//!
//! The limits are stated over the UTF-8 bytes of the pattern. Every byte
//! they speak of is an ASCII character, and no ASCII byte occurs inside the
//! encoding of another character.

use vstd::prelude::*;
use vstd::utf8::encode_utf8;

verus! {

/// The most bytes a pattern may have.
pub const PATTERN_MAX_BYTES: usize = 1024;

/// The most `{` and `<` a pattern may have; no group nests deeper.
pub const PATTERN_MAX_GROUPS: usize = 32;

/// The largest number that may follow a `,`: the largest repetition bound
/// that the regular-expression parser reads.
pub const PATTERN_MAX_BOUND: u64 = 4294967295;

/// The largest product of the numbers that follow a `:`, the repetition
/// counts, each taken as at least 1.
pub const PATTERN_MAX_REPEAT: u64 = 262144;

/// Whether a byte is an ASCII decimal digit.
pub open spec fn is_digit(byte: u8) -> bool {
    48 <= byte <= 57
}

/// Whether a byte opens a group: `{` opens alternatives, `<` a repetition.
pub open spec fn opens_group(byte: u8) -> bool {
    byte == 123 || byte == 60
}

/// What is known of a pattern after its first bytes were read.
pub struct PatternScan {
    /// The number of `{` and `<` read.
    pub groups: nat,
    /// Whether the last byte read was a digit: a number is being read.
    pub in_number: bool,
    /// The byte before the number being read, or the last byte read when no
    /// number is being read; 0 at the start.
    pub lead: u8,
    /// The value of the number being read, as far as it was read.
    pub number: nat,
    /// The product of the numbers read in full that follow a `:`, each
    /// taken as at least 1.
    pub repeat: nat,
    /// Whether every number read in full that follows a `,` is at most
    /// `PATTERN_MAX_BOUND`.
    pub bounds_fit: bool,
}

/// The scan before any byte was read.
pub open spec fn spec_scan_start() -> PatternScan {
    PatternScan { groups: 0, in_number: false, lead: 0, number: 0, repeat: 1, bounds_fit: true }
}

/// The scan once the number being read, if any, has ended: a number after a
/// `:` (58) enters the product of repetition counts, a number after a `,`
/// (44) is held against the largest bound.
pub open spec fn spec_scan_close(scan: PatternScan) -> PatternScan {
    if scan.in_number && scan.lead == 58 {
        PatternScan {
            in_number: false,
            number: 0,
            repeat: scan.repeat * (if scan.number == 0 {
                1
            } else {
                scan.number
            }),
            ..scan
        }
    } else if scan.in_number && scan.lead == 44 {
        PatternScan {
            in_number: false,
            number: 0,
            bounds_fit: scan.bounds_fit && scan.number <= PATTERN_MAX_BOUND,
            ..scan
        }
    } else {
        PatternScan { in_number: false, number: 0, ..scan }
    }
}

/// The scan after one more byte.
pub open spec fn spec_scan_step(scan: PatternScan, byte: u8) -> PatternScan {
    if is_digit(byte) {
        PatternScan { in_number: true, number: (scan.number * 10 + (byte - 48)) as nat, ..scan }
    } else {
        let closed = spec_scan_close(scan);
        PatternScan {
            lead: byte,
            groups: closed.groups + (if opens_group(byte) {
                1nat
            } else {
                0nat
            }),
            ..closed
        }
    }
}

/// The scan after all of `bytes`, read from left to right.
pub open spec fn spec_scan(bytes: Seq<u8>) -> PatternScan
    decreases bytes.len(),
{
    if bytes.len() == 0 {
        spec_scan_start()
    } else {
        spec_scan_step(spec_scan(bytes.drop_last()), bytes.last())
    }
}

/// Whether the bytes of a pattern are within the limits: at most
/// `PATTERN_MAX_BYTES` bytes, at most `PATTERN_MAX_GROUPS` opening `{` and
/// `<`, every run of digits after a `,` at most `PATTERN_MAX_BOUND`, and
/// the product of the runs of digits after a `:` at most
/// `PATTERN_MAX_REPEAT`.
pub open spec fn spec_bytes_in_limits(bytes: Seq<u8>) -> bool {
    let scan = spec_scan_close(spec_scan(bytes));
    &&& bytes.len() <= PATTERN_MAX_BYTES
    &&& scan.groups <= PATTERN_MAX_GROUPS
    &&& scan.bounds_fit
    &&& scan.repeat <= PATTERN_MAX_REPEAT
}

/// Whether a pattern is within the limits.
pub open spec fn spec_pattern_in_limits(pattern: Seq<char>) -> bool {
    spec_bytes_in_limits(encode_utf8(pattern))
}

/// The exact values of a scan where they are small, and a ceiling where
/// they are not.
struct CappedScan {
    groups: usize,
    in_number: bool,
    lead: u8,
    number: u64,
    repeat: u64,
    bounds_fit: bool,
}

/// No number is followed further once it has passed this ceiling.
spec fn number_cap() -> nat {
    4294967296
}

/// No product is followed further once it has passed this ceiling.
spec fn repeat_cap() -> nat {
    262145
}

/// The smaller of two numbers.
spec fn least(a: nat, b: nat) -> nat {
    if a <= b {
        a
    } else {
        b
    }
}

impl CappedScan {
    /// Whether the capped scan stands for `scan`.
    spec fn stands_for(&self, scan: PatternScan) -> bool {
        &&& self.groups == scan.groups
        &&& self.in_number == scan.in_number
        &&& self.lead == scan.lead
        &&& self.number == least(scan.number, number_cap())
        &&& self.repeat == least(scan.repeat, repeat_cap())
        &&& scan.repeat >= 1
        &&& self.bounds_fit == scan.bounds_fit
    }
}

/// Ends the number being read, if any.
fn close_number(scan: CappedScan, Ghost(full): Ghost<PatternScan>) -> (closed: CappedScan)
    requires
        scan.stands_for(full),
    ensures
        closed.stands_for(spec_scan_close(full)),
{
    if scan.in_number && scan.lead == 58 {
        let count: u64 = if scan.number == 0 {
            1
        } else {
            scan.number
        };
        let ghost full_count: nat = if full.number == 0 {
            1
        } else {
            full.number
        };
        assert(scan.repeat * count <= 262145 * 4294967296) by (nonlinear_arith)
            requires
                scan.repeat <= 262145,
                count <= 4294967296,
        ;
        let product: u64 = scan.repeat * count;
        let repeat: u64 = if product > 262145 {
            262145
        } else {
            product
        };
        assert(repeat == least(full.repeat * full_count, repeat_cap())) by (nonlinear_arith)
            requires
                product == scan.repeat * count,
                repeat == (if product > 262145 {
                    262145
                } else {
                    product as int
                }),
                scan.repeat == least(full.repeat, repeat_cap()),
                count == least(full_count, number_cap()),
                full.repeat >= 1,
                full_count >= 1,
        ;
        assert(full.repeat * full_count >= 1) by (nonlinear_arith)
            requires
                full.repeat >= 1,
                full_count >= 1,
        ;
        CappedScan { in_number: false, number: 0, repeat, ..scan }
    } else if scan.in_number && scan.lead == 44 {
        CappedScan {
            in_number: false,
            number: 0,
            bounds_fit: scan.bounds_fit && scan.number <= PATTERN_MAX_BOUND,
            ..scan
        }
    } else {
        CappedScan { in_number: false, number: 0, ..scan }
    }
}

/// Tests whether a pattern is within the limits.
pub fn pattern_in_limits(pattern: &str) -> (fits: bool)
    ensures
        fits == spec_pattern_in_limits(pattern@),
{
    let bytes = pattern.as_bytes();
    if bytes.len() > PATTERN_MAX_BYTES {
        return false;
    }
    let mut scan = CappedScan {
        groups: 0,
        in_number: false,
        lead: 0,
        number: 0,
        repeat: 1,
        bounds_fit: true,
    };
    let mut i: usize = 0;
    while i < bytes.len()
        invariant
            i <= bytes.len(),
            bytes.len() <= PATTERN_MAX_BYTES,
            scan.stands_for(spec_scan(bytes@.take(i as int))),
            scan.groups <= i,
        decreases bytes.len() - i,
    {
        let byte = bytes[i];
        let ghost before = spec_scan(bytes@.take(i as int));
        proof {
            assert(bytes@.take(i + 1).drop_last() =~= bytes@.take(i as int));
            assert(bytes@.take(i + 1).last() == byte);
        }
        if byte >= 48 && byte <= 57 {
            let digit: u64 = (byte - 48) as u64;
            let grown: u64 = scan.number * 10 + digit;
            scan.number = if grown > 4294967296 {
                4294967296
            } else {
                grown
            };
            scan.in_number = true;
        } else {
            scan = close_number(scan, Ghost(before));
            scan.lead = byte;
            if byte == 123 || byte == 60 {
                scan.groups = scan.groups + 1;
            }
        }
        i += 1;
    }
    proof {
        assert(bytes@.take(i as int) =~= bytes@);
    }
    let last = close_number(scan, Ghost(spec_scan(bytes@)));
    last.groups <= PATTERN_MAX_GROUPS && last.bounds_fit && last.repeat <= PATTERN_MAX_REPEAT
}

} // verus!
