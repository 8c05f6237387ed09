//! Decimal parsing on fixed-point values.

use vstd::prelude::*;
use vstd::string::StringSliceAdditionalSpecFns;

verus! {

/// Whether a byte is an ASCII decimal digit.
pub open spec fn is_digit(b: u8) -> bool {
    48 <= b <= 57
}

/// Whether every byte of a string is an ASCII decimal digit.
pub open spec fn all_digits(s: Seq<u8>) -> bool {
    forall|i: int| 0 <= i < s.len() ==> is_digit(#[trigger] s[i])
}

/// The value of a string of decimal digits.
pub open spec fn digits_value(s: Seq<u8>) -> int
    decreases s.len(),
{
    if s.len() == 0 {
        0
    } else {
        digits_value(s.drop_last()) * 10 + (s.last() - 48)
    }
}

/// The value of a digit string is non-negative and below ten to its
/// length's power.
pub proof fn lemma_digits_value_bound(s: Seq<u8>)
    requires
        all_digits(s),
    ensures
        0 <= digits_value(s),
        digits_value(s) < pow10(s.len() as int),
    decreases s.len(),
{
    if s.len() > 0 {
        assert(all_digits(s.drop_last())) by {
            assert(forall|i: int| 0 <= i < s.len() - 1 ==> s.drop_last()[i] == s[i]);
        }
        lemma_digits_value_bound(s.drop_last());
        assert(digits_value(s.drop_last()) * 10 + 9 < pow10(s.len() - 1) * 10) by (nonlinear_arith)
            requires
                digits_value(s.drop_last()) < pow10(s.len() - 1),
        ;
    }
}

/// A digit string's value never falls below the value of one of its
/// prefixes.
pub proof fn lemma_digits_value_prefix(s: Seq<u8>, i: int)
    requires
        all_digits(s),
        0 <= i <= s.len(),
    ensures
        digits_value(s) >= digits_value(s.take(i)),
    decreases s.len() - i,
{
    if i == s.len() {
        assert(s.take(i) =~= s);
    } else {
        lemma_digits_value_prefix(s, i + 1);
        assert(s.take(i + 1).drop_last() =~= s.take(i));
        assert(s.take(i + 1).last() == s[i]);
        assert(all_digits(s.take(i))) by {
            assert(forall|j: int| 0 <= j < i ==> s.take(i)[j] == #[trigger] s[j]);
        }
        lemma_digits_value_bound(s.take(i));
    }
}

/// Ten to a small power.
pub open spec fn pow10(k: int) -> int
    decreases k,
{
    if k <= 0 {
        1
    } else {
        10 * pow10(k - 1)
    }
}

/// The first position of a byte in a string, or -1 when it is absent.
pub open spec fn find_byte_spec(s: Seq<u8>, b: u8) -> int
    decreases s.len(),
{
    if s.len() == 0 {
        -1
    } else if s[0] == b {
        0
    } else {
        let tail = find_byte_spec(s.drop_first(), b);
        if tail == -1 {
            -1
        } else {
            tail + 1
        }
    }
}

/// `find_byte_spec` finds the first occurrence, if one exists.
pub proof fn lemma_find_byte(s: Seq<u8>, b: u8)
    ensures
        find_byte_spec(s, b) == -1 ==> forall|i: int| 0 <= i < s.len() ==> s[i] != b,
        find_byte_spec(s, b) != -1 ==> 0 <= find_byte_spec(s, b) < s.len() && s[find_byte_spec(
            s,
            b,
        )] == b && forall|i: int| 0 <= i < find_byte_spec(s, b) ==> s[i] != b,
    decreases s.len(),
{
    if s.len() > 0 && s[0] != b {
        lemma_find_byte(s.drop_first(), b);
        let tail = find_byte_spec(s.drop_first(), b);
        if tail == -1 {
            assert forall|i: int| 0 <= i < s.len() implies s[i] != b by {
                if i > 0 {
                    assert(s.drop_first()[i - 1] == s[i]);
                }
            }
        } else {
            assert(s.drop_first()[tail] == s[tail + 1]);
            assert forall|i: int| 0 <= i < tail + 1 implies s[i] != b by {
                if i > 0 {
                    assert(s.drop_first()[i - 1] == s[i]);
                }
            }
        }
    }
}

/// The first position of a byte, scanning left to right.
pub fn find_byte(bytes: &[u8], b: u8) -> (r: Option<usize>)
    ensures
        r is Some ==> r.unwrap() == find_byte_spec(bytes@, b),
        r is None ==> find_byte_spec(bytes@, b) == -1,
{
    proof {
        lemma_find_byte(bytes@, b);
    }
    let mut i: usize = 0;
    while i < bytes.len()
        invariant
            0 <= i <= bytes@.len(),
            forall|j: int| 0 <= j < i ==> bytes@[j] != b,
            find_byte_spec(bytes@, b) == -1 ==> forall|j: int| 0 <= j < bytes@.len() ==> bytes@[j]
                != b,
            find_byte_spec(bytes@, b) != -1 ==> 0 <= find_byte_spec(bytes@, b) < bytes@.len()
                && bytes@[find_byte_spec(bytes@, b)] == b && forall|j: int|
                0 <= j < find_byte_spec(bytes@, b) ==> bytes@[j] != b,
        decreases bytes@.len() - i,
    {
        if bytes[i] == b {
            return Some(i);
        }
        i = i + 1;
    }
    None
}

/// The first position at or after `start` holding the byte, or the end
/// of the string when it is absent.
pub fn find_byte_from(bytes: &[u8], start: usize, b: u8) -> (r: usize)
    requires
        start <= bytes@.len(),
    ensures
        start <= r <= bytes@.len(),
        r < bytes@.len() ==> bytes@[r as int] == b,
        forall|k: int| start <= k < r ==> bytes@[k] != b,
{
    let mut i: usize = start;
    while i < bytes.len()
        invariant
            start <= i <= bytes@.len(),
            forall|k: int| start <= k < i ==> bytes@[k] != b,
        decreases bytes@.len() - i,
    {
        if bytes[i] == b {
            return i;
        }
        i = i + 1;
    }
    i
}

/// Parses the decimal digits of `bytes[start..end]` into their value.
/// Succeeds exactly when the window is all digits and its value fits an
/// `i32`; an empty window parses as zero.
pub fn parse_int_range(bytes: &[u8], start: usize, end: usize) -> (r: Option<i32>)
    requires
        start <= end <= bytes@.len(),
    ensures
        (r is Some) <==> (all_digits(bytes@.subrange(start as int, end as int)) && digits_value(
            bytes@.subrange(start as int, end as int),
        ) <= i32::MAX),
        r is Some ==> r.unwrap() == digits_value(bytes@.subrange(start as int, end as int)),
{
    let ghost whole = bytes@.subrange(start as int, end as int);
    let mut value: i64 = 0;
    let mut i: usize = start;
    while i < end
        invariant
            start <= i <= end <= bytes@.len(),
            whole == bytes@.subrange(start as int, end as int),
            all_digits(bytes@.subrange(start as int, i as int)),
            value == digits_value(bytes@.subrange(start as int, i as int)),
            0 <= value <= i32::MAX,
        decreases end - i,
    {
        let b = bytes[i];
        proof {
            assert(bytes@.subrange(start as int, i as int + 1).drop_last() =~= bytes@.subrange(
                start as int,
                i as int,
            ));
            assert(bytes@.subrange(start as int, i as int + 1).last() == bytes@[i as int]);
        }
        if b < 48 || b > 57 {
            proof {
                assert(whole[i - start] == bytes@[i as int]);
            }
            return None;
        }
        value = value * 10 + ((b - 48) as i64);
        if value > 2147483647 {
            proof {
                let prefix = bytes@.subrange(start as int, i as int + 1);
                if all_digits(whole) && digits_value(whole) <= i32::MAX {
                    assert(forall|j: int|
                        0 <= j < prefix.len() ==> prefix[j] == #[trigger] whole[j]);
                    assert(prefix =~= whole.take(i + 1 - start));
                    lemma_digits_value_prefix(whole, i + 1 - start);
                }
            }
            return None;
        }
        i = i + 1;
    }
    proof {
        assert(bytes@.subrange(start as int, i as int) =~= whole);
    }
    Some(value as i32)
}

/// Parses a string of decimal digits.  Succeeds exactly when the string
/// is all digits and its value fits; the empty string parses as zero.
pub fn parse_int(int_str: &str) -> (r: Option<i32>)
    ensures
        (r is Some) <==> (all_digits(int_str.spec_bytes()) && digits_value(int_str.spec_bytes())
            <= i32::MAX),
        r is Some ==> r.unwrap() == digits_value(int_str.spec_bytes()),
{
    let bytes = int_str.as_bytes();
    let r = parse_int_range(bytes, 0, bytes.len());
    proof {
        assert(bytes@.subrange(0, bytes@.len() as int) =~= int_str.spec_bytes());
    }
    r
}

/// The scale factor that positions `used` fractional digits at millionths.
pub open spec fn frac_multiplier(used: int) -> int {
    if used <= 0 {
        1_000_000
    } else if used == 1 {
        100_000
    } else if used == 2 {
        10_000
    } else if used == 3 {
        1_000
    } else if used == 4 {
        100
    } else if used == 5 {
        10
    } else {
        1
    }
}

/// What `parse_float` yields on a byte string: an optional minus sign
/// (which, as in the transcription it keeps faith with, may stand
/// anywhere and always costs the first byte), a run of digits, and an
/// optional dot followed by digits, of which the first six give the
/// fractional part in millionths.
pub open spec fn parse_float_spec(bytes: Seq<u8>) -> Option<int> {
    let negative = bytes.contains(45u8);
    let start: int = if negative {
        1
    } else {
        0
    };
    let dot = find_byte_spec(bytes, 46);
    if start > bytes.len() || (dot != -1 && dot < start) {
        None
    } else {
        let int_end = if dot == -1 {
            bytes.len() as int
        } else {
            dot
        };
        let int_part = bytes.subrange(start, int_end);
        if !(all_digits(int_part) && digits_value(int_part) <= i32::MAX) {
            None
        } else if dot == -1 {
            let magnitude = digits_value(int_part) * 1_000_000;
            Some(
                if negative {
                    -magnitude
                } else {
                    magnitude
                },
            )
        } else {
            let frac = bytes.subrange(dot + 1, bytes.len() as int);
            if !all_digits(frac) {
                None
            } else {
                let used: int = if frac.len() > 6 {
                    6
                } else {
                    frac.len() as int
                };
                let magnitude = digits_value(int_part) * 1_000_000 + digits_value(frac.take(used))
                    * frac_multiplier(used);
                Some(
                    if negative {
                        -magnitude
                    } else {
                        magnitude
                    },
                )
            }
        }
    }
}

/// Parses a decimal fraction string into millionths.  Succeeds exactly
/// when the digits parse; fractional digits past the sixth are truncated
/// away.
#[verifier::loop_isolation(false)]
pub fn parse_float(float_str: &str) -> (r: Option<i64>)
    ensures
        (r is Some) <==> (parse_float_spec(float_str.spec_bytes()) is Some),
        r is Some ==> r.unwrap() == parse_float_spec(float_str.spec_bytes()).unwrap(),
        r is Some ==> -2_149_000_000_000_000 <= r.unwrap() <= 2_149_000_000_000_000,
{
    let bytes = float_str.as_bytes();
    let negative = match find_byte(bytes, 45) {
        Some(_) => true,
        None => false,
    };
    proof {
        lemma_find_byte(bytes@, 45);
        if find_byte_spec(bytes@, 45) != -1 {
            assert(bytes@.contains(45u8));
        }
        if bytes@.contains(45u8) {
            let witness = choose|i: int| 0 <= i < bytes@.len() && bytes@[i] == 45u8;
            assert(bytes@[witness] == 45u8);
        }
    }
    let start: usize = if negative {
        1
    } else {
        0
    };
    if start > bytes.len() {
        return None;
    }
    let dot = find_byte(bytes, 46);
    proof {
        lemma_find_byte(bytes@, 46);
    }
    let int_end: usize = match dot {
        Some(d) => {
            if d < start {
                return None;
            }
            d
        },
        None => bytes.len(),
    };
    let int_part = match parse_int_range(bytes, start, int_end) {
        Some(v) => v as i64,
        None => {
            return None;
        },
    };
    let magnitude: i64 = match dot {
        None => int_part * 1_000_000,
        Some(d) => {
            let ghost frac = bytes@.subrange(d + 1, bytes@.len() as int);
            let mut i: usize = d + 1;
            let mut fraction: i64 = 0;
            let used: usize = if bytes.len() - (d + 1) > 6 {
                6
            } else {
                bytes.len() - (d + 1)
            };
            while i < bytes.len()
                invariant
                    d + 1 <= i <= bytes@.len(),
                    frac == bytes@.subrange(d + 1, bytes@.len() as int),
                    used == if frac.len() > 6 {
                        6int
                    } else {
                        frac.len() as int
                    },
                    all_digits(frac.take(i - (d + 1))),
                    fraction == digits_value(
                        frac.take(if i - (d + 1) <= used {
                            i - (d + 1)
                        } else {
                            used as int
                        }),
                    ),
                    0 <= fraction < 1_000_000,
                decreases bytes@.len() - i,
            {
                let b = bytes[i];
                proof {
                    assert(frac[i - (d + 1)] == bytes@[i as int]);
                    assert(frac.take(i - (d + 1) + 1).drop_last() =~= frac.take(i - (d + 1)));
                    assert(frac.take(i - (d + 1) + 1).last() == frac[i - (d + 1)]);
                }
                if b < 48 || b > 57 {
                    proof {
                        assert(!is_digit(frac[i - (d + 1)]));
                        assert(!all_digits(bytes@.subrange(d + 1, bytes@.len() as int)));
                    }
                    return None;
                }
                if i - (d + 1) < used {
                    fraction = fraction * 10 + ((b - 48) as i64);
                    proof {
                        let k = i - (d + 1) + 1;
                        assert(all_digits(frac.take(k))) by {
                            assert(forall|j: int|
                                0 <= j < k ==> frac.take(k)[j] == #[trigger] frac[j]);
                        }
                        lemma_digits_value_bound(frac.take(k));
                        assert(pow10(k) <= 1_000_000) by {
                            reveal_with_fuel(pow10, 8);
                        }
                    }
                }
                i = i + 1;
            }
            proof {
                assert(all_digits(frac)) by {
                    assert(frac.take(frac.len() as int) =~= frac);
                }
                let k: int = if frac.len() > 6 {
                    6
                } else {
                    frac.len() as int
                };
                assert(all_digits(frac.take(k))) by {
                    assert(forall|j: int| 0 <= j < k ==> frac.take(k)[j] == #[trigger] frac[j]);
                }
                lemma_digits_value_bound(frac.take(k));
                assert(pow10(k) <= 1_000_000) by {
                    reveal_with_fuel(pow10, 8);
                }
            }
            let multiplier: i64 = if used == 0 {
                1_000_000
            } else if used == 1 {
                100_000
            } else if used == 2 {
                10_000
            } else if used == 3 {
                1_000
            } else if used == 4 {
                100
            } else if used == 5 {
                10
            } else {
                1
            };
            int_part * 1_000_000 + fraction * multiplier
        },
    };
    if negative {
        Some(-magnitude)
    } else {
        Some(magnitude)
    }
}

} // verus!
