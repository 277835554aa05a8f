//! Stable 128-bit identifiers: parsing the canonical hyphenated text form,
//! and generating fresh random identifiers.

use vstd::prelude::*;

use vstd::arithmetic::power::{lemma_pow0, lemma_pow1, lemma_pow_adds, lemma_pow_increases, pow};
use vstd::string::StrSliceExecFns;

verus! {

/// The positions of the four hyphens in the canonical 36-character form.
pub open spec fn is_hyphen_pos(i: int) -> bool {
    i == 8 || i == 13 || i == 18 || i == 23
}

/// Whether a character is a hexadecimal digit.
pub open spec fn is_hex_digit(c: char) -> bool {
    ('0' <= c && c <= '9') || ('a' <= c && c <= 'f') || ('A' <= c && c <= 'F')
}

/// The value of one hexadecimal digit.
pub open spec fn hex_digit_val(c: char) -> int {
    if '0' <= c && c <= '9' {
        c as int - '0' as int
    } else if 'a' <= c && c <= 'f' {
        c as int - 'a' as int + 10
    } else {
        c as int - 'A' as int + 10
    }
}

/// The canonical text form of an identifier: 36 characters, hyphens at the
/// four fixed positions, hexadecimal digits everywhere else.
pub open spec fn valid_uuid(s: Seq<char>) -> bool {
    s.len() == 36 && forall|i: int|
        0 <= i < 36 ==> (if is_hyphen_pos(i) {
            #[trigger] s[i] == '-'
        } else {
            is_hex_digit(s[i])
        })
}

/// The value of the first `n` characters, hyphens skipped: each digit
/// shifts the value one hexadecimal place.
pub open spec fn uuid_prefix_val(s: Seq<char>, n: int) -> int
    decreases n,
{
    if n <= 0 {
        0
    } else if s[n - 1] == '-' {
        uuid_prefix_val(s, n - 1)
    } else {
        16 * uuid_prefix_val(s, n - 1) + hex_digit_val(s[n - 1])
    }
}

/// How many of the first `n` characters are digits (not hyphens).
pub open spec fn hex_count(s: Seq<char>, n: int) -> int
    decreases n,
{
    if n <= 0 {
        0
    } else {
        hex_count(s, n - 1) + if s[n - 1] == '-' {
            0int
        } else {
            1int
        }
    }
}

/// The identifier a canonical text form denotes.
pub open spec fn uuid_value(s: Seq<char>) -> int {
    uuid_prefix_val(s, 36)
}

/// Over a prefix laid out canonically, the digit count equals the length
/// minus the hyphens passed, and the accumulated value stays below
/// `16^digits`.
proof fn lemma_prefix_invariants(s: Seq<char>, n: int)
    requires
        0 <= n <= 36,
        s.len() == 36,
        forall|i: int|
            0 <= i < n ==> (if is_hyphen_pos(i) {
                #[trigger] s[i] == '-'
            } else {
                is_hex_digit(s[i])
            }),
    ensures
        hex_count(s, n) == n - (if n > 8 {
            1int
        } else {
            0int
        }) - (if n > 13 {
            1int
        } else {
            0int
        }) - (if n > 18 {
            1int
        } else {
            0int
        }) - (if n > 23 {
            1int
        } else {
            0int
        }),
        0 <= uuid_prefix_val(s, n),
        uuid_prefix_val(s, n) < pow(16, hex_count(s, n) as nat),
    decreases n,
{
    if n <= 0 {
        lemma_pow0(16);
    } else {
        lemma_prefix_invariants(s, n - 1);
        if s[n - 1] != '-' {
            assert(0 <= hex_count(s, n - 1));
            lemma_pow_adds(16, hex_count(s, n - 1) as nat, 1);
            lemma_pow1(16);
            assert(pow(16, (hex_count(s, n - 1) + 1) as nat) == 16 * pow(
                16,
                hex_count(s, n - 1) as nat,
            ));
            assert(0 <= hex_digit_val(s[n - 1]) < 16);
        }
    }
}

/// The one concrete power this module needs: `16^32` is the number of
/// 128-bit values.
proof fn lemma_pow16_32()
    ensures
        pow(16, 32) == 0x1_00000000_00000000_00000000_00000000,
{
    reveal_with_fuel(pow, 33);
}

/// The value of one hexadecimal digit character, or `None` for any other
/// character.
fn hex_val_of(c: char) -> (r: Option<u8>)
    ensures
        r is Some <==> is_hex_digit(c),
        (r matches Some(d) ==> d as int == hex_digit_val(c)),
{
    if c >= '0' && c <= '9' {
        Some(c as u8 - 48)
    } else if c >= 'a' && c <= 'f' {
        Some(c as u8 - 97 + 10)
    } else if c >= 'A' && c <= 'F' {
        Some(c as u8 - 65 + 10)
    } else {
        None
    }
}

/// Parses an identifier from its canonical hyphenated text form.  Returns
/// the identifier exactly when the text is well formed, and nothing
/// otherwise.
pub fn parse_uuid(s: &str) -> (r: Option<u128>)
    ensures
        r is Some <==> valid_uuid(s@),
        (r matches Some(v) ==> v as int == uuid_value(s@)),
{
    let len = s.unicode_len();
    if len != 36 {
        return None;
    }
    let mut acc: u128 = 0;
    let mut k: usize = 0;
    let mut i: usize = 0;
    proof {
        lemma_pow0(16);
    }
    while i < 36
        invariant
            s@.len() == 36,
            i <= 36,
            k == hex_count(s@, i as int),
            k <= 32,
            acc as int == uuid_prefix_val(s@, i as int),
            acc < pow(16, k as nat),
            forall|j: int|
                0 <= j < i ==> (if is_hyphen_pos(j) {
                    #[trigger] s@[j] == '-'
                } else {
                    is_hex_digit(s@[j])
                }),
        decreases 36 - i,
    {
        let c = s.get_char(i);
        let hyphen_expected = i == 8 || i == 13 || i == 18 || i == 23;
        if hyphen_expected {
            if c != '-' {
                proof {
                    assert(!valid_uuid(s@)) by {
                        if valid_uuid(s@) {
                            assert(s@[i as int] == '-');
                        }
                    }
                }
                return None;
            }
        } else {
            match hex_val_of(c) {
                None => {
                    proof {
                        assert(!valid_uuid(s@)) by {
                            if valid_uuid(s@) {
                                assert(is_hex_digit(s@[i as int]));
                            }
                        }
                    }
                    return None;
                },
                Some(d) => {
                    proof {
                        lemma_prefix_invariants(s@, i + 1);
                        lemma_pow_increases(16, (k + 1) as nat, 32);
                        lemma_pow16_32();
                        lemma_pow_adds(16, k as nat, 1);
                        lemma_pow1(16);
                        assert(pow(16, (k + 1) as nat) == 16 * pow(16, k as nat));
                    }
                    acc = acc * 16 + (d as u128);
                    k = k + 1;
                },
            }
        }
        i = i + 1;
    }
    Some(acc)
}

/// Relies on `uuid::Uuid::new_v4` and `Uuid::as_u128`: a freshly generated
/// random identifier, with the version field set to 4 and the variant
/// field to the standard binary form, as the crate documents.  Nothing
/// more is promised of the value: it is random, and two calls may differ.
#[verifier::external_body]
pub fn generate_v4_id() -> (r: u128)
    ensures
        (r >> 76) & 0xf == 4,
        (r >> 62) & 0x3 == 2,
{
    uuid::Uuid::new_v4().as_u128()
}

} // verus!
