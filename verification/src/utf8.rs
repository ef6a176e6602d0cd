//! Verified UTF-8 validation for boundary strings.
//!
//! Malformed UTF-8 in a caller-supplied string is a boundary error: it is
//! detected synchronously, before any request is built or any worker is
//! involved.  The checker below decides vstd's byte-level definition of
//! UTF-8 validity exactly: leading/continuation byte shapes, overlong
//! encodings, the surrogate range, and the scalar ceiling.

use vstd::prelude::*;
use vstd::utf8::*;

verus! {

/// Whether `s` is valid UTF-8, decided byte by byte against the full
/// definition of validity.
#[verifier::loop_isolation(false)]
pub fn is_utf8(s: &[u8]) -> (r: bool)
    ensures
        r == valid_utf8(s@),
{
    let n = s.len();
    let mut i: usize = 0;
    proof {
        assert(s@.skip(0) =~= s@);
    }
    while i < n
        invariant
            0 <= i <= n,
            valid_utf8(s@) <==> valid_utf8(s@.skip(i as int)),
        decreases n - i,
    {
        let ghost t = s@.skip(i as int);
        proof {
            assert(t.len() == n - i);
        }
        let b0 = s[i];
        proof {
            assert(t[0] == b0);
        }
        if b0 <= 0x7f {
            // One-byte scalar: always valid.
            proof {
                assert((b0 & 0x7f) == b0) by (bit_vector)
                    requires
                        b0 <= 0x7f,
                ;
                assert(decode_first_codepoint(t) == (b0 & 0x7f) as u32);
                assert(valid_first_scalar(t));
                assert(pop_first_scalar(t) =~= s@.skip(i as int + 1));
            }
            i = i + 1;
        } else if 0xc0 <= b0 && b0 <= 0xdf {
            if n - i < 2 || !(0x80 <= s[i + 1] && s[i + 1] <= 0xbf) {
                proof {
                    if i + 1 < n {
                        assert(t[1] == s@[i as int + 1]);
                    }
                    assert(!valid_leading_and_continuation_bytes_first_codepoint(t));
                }
                return false;
            }
            let b1 = s[i + 1];
            proof {
                assert(t[1] == b1);
            }
            let cp: u32 = (((b0 & 0x1f) as u32) << 6) | ((b1 & 0x3f) as u32);
            proof {
                assert(decode_first_codepoint(t) == cp);
                assert(length_of_first_codepoint(t) == 2);
            }
            if cp < 0x80 {
                // Overlong two-byte encoding.
                proof {
                    assert(!valid_first_scalar(t));
                }
                return false;
            }
            // A two-byte codepoint cannot reach the surrogate range, but the
            // defining predicate is decided as stated.
            if 0xd800 <= cp && cp <= 0xdfff {
                proof {
                    assert(!valid_first_scalar(t));
                }
                return false;
            }
            proof {
                assert(valid_first_scalar(t));
                assert(pop_first_scalar(t) =~= s@.skip(i as int + 2));
            }
            i = i + 2;
        } else if 0xe0 <= b0 && b0 <= 0xef {
            if n - i < 3 || !(0x80 <= s[i + 1] && s[i + 1] <= 0xbf) || !(0x80 <= s[i + 2]
                && s[i + 2] <= 0xbf) {
                proof {
                    if i + 1 < n {
                        assert(t[1] == s@[i as int + 1]);
                    }
                    if i + 2 < n {
                        assert(t[2] == s@[i as int + 2]);
                    }
                    assert(!valid_leading_and_continuation_bytes_first_codepoint(t));
                }
                return false;
            }
            let b1 = s[i + 1];
            let b2 = s[i + 2];
            proof {
                assert(t[1] == b1 && t[2] == b2);
            }
            let cp: u32 = (((b0 & 0x0f) as u32) << 12) | (((b1 & 0x3f) as u32) << 6) | ((b2
                & 0x3f) as u32);
            proof {
                assert(decode_first_codepoint(t) == cp);
                assert(length_of_first_codepoint(t) == 3);
            }
            if cp < 0x800 {
                // Overlong three-byte encoding.
                proof {
                    assert(!valid_first_scalar(t));
                }
                return false;
            }
            if 0xd800 <= cp && cp <= 0xdfff {
                proof {
                    assert(!valid_first_scalar(t));
                }
                return false;
            }
            proof {
                assert(valid_first_scalar(t));
                assert(pop_first_scalar(t) =~= s@.skip(i as int + 3));
            }
            i = i + 3;
        } else if 0xf0 <= b0 && b0 <= 0xf7 {
            if n - i < 4 || !(0x80 <= s[i + 1] && s[i + 1] <= 0xbf) || !(0x80 <= s[i + 2]
                && s[i + 2] <= 0xbf) || !(0x80 <= s[i + 3] && s[i + 3] <= 0xbf) {
                proof {
                    if i + 1 < n {
                        assert(t[1] == s@[i as int + 1]);
                    }
                    if i + 2 < n {
                        assert(t[2] == s@[i as int + 2]);
                    }
                    if i + 3 < n {
                        assert(t[3] == s@[i as int + 3]);
                    }
                    assert(!valid_leading_and_continuation_bytes_first_codepoint(t));
                }
                return false;
            }
            let b1 = s[i + 1];
            let b2 = s[i + 2];
            let b3 = s[i + 3];
            proof {
                assert(t[1] == b1 && t[2] == b2 && t[3] == b3);
            }
            let cp: u32 = (((b0 & 0x07) as u32) << 18) | (((b1 & 0x3f) as u32) << 12) | (((b2
                & 0x3f) as u32) << 6) | ((b3 & 0x3f) as u32);
            proof {
                assert(decode_first_codepoint(t) == cp);
                assert(length_of_first_codepoint(t) == 4);
            }
            if cp < 0x10000 || cp > 0x10ffff {
                // Overlong four-byte encoding, or beyond the last scalar.
                proof {
                    assert(!valid_first_scalar(t));
                }
                return false;
            }
            proof {
                assert(not_surrogate(cp));
                assert(valid_first_scalar(t));
                assert(pop_first_scalar(t) =~= s@.skip(i as int + 4));
            }
            i = i + 4;
        } else {
            // A stray continuation byte (0x80..=0xbf) or an impossible
            // leading byte (0xf8..=0xff).
            proof {
                assert(!valid_leading_and_continuation_bytes_first_codepoint(t));
            }
            return false;
        }
    }
    proof {
        assert(s@.skip(n as int) =~= Seq::<u8>::empty());
    }
    true
}

} // verus!
