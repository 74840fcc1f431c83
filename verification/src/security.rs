//! Redaction of stream keys and credential tokens from text that is about
//! to be logged or shown. Encryption of secrets stays with the platform
//! credential store and is not part of this module.

use vstd::prelude::*;
use crate::text::{
    contains, lemma_find_absent, lemma_replace_absent, lemma_replace_whole, occurs_at,
    byte_len, byte_offset, char_width_exec, chars_of, find_first, find_first_exec,
    lemma_byte_offset_step, lemma_byte_offset_strict, lemma_char_width_bounds, push_char,
    replace_all, replace_str, string_from_chars,
};
use vstd::utf8::encode_utf8;

verus! {

/// The text that replaces a known stream key.
pub open spec fn stream_key_mask() -> Seq<char> {
    "[REDACTED_STREAM_KEY]"@
}

/// The marker that starts a generic live token.
pub open spec fn live_marker() -> Seq<char> {
    "live_"@
}

/// The text that replaces the first twenty bytes of a live token.
pub open spec fn live_mask() -> Seq<char> {
    "live_****************"@
}

/// The view of an optional string slice.
pub open spec fn opt_view(o: Option<&str>) -> Option<Seq<char>> {
    match o {
        Some(s) => Some(s@),
        None => None,
    }
}

/// `text` with every occurrence of the known secret masked, when the
/// secret is at least four bytes long; otherwise `text` itself.
pub open spec fn secret_masked(text: Seq<char>, secret: Option<Seq<char>>) -> Seq<char> {
    match secret {
        Some(k) => if byte_len(k) >= 4 { replace_all(text, k, stream_key_mask()) } else { text },
        None => text,
    }
}

/// There is a character position of `t` whose byte offset is `b`.
pub open spec fn is_boundary(t: Seq<char>, b: int) -> bool {
    exists|j: int| 0 <= j <= t.len() && byte_len(t.take(j)) == b
}

/// The character position of `t` whose byte offset is `b`.
pub open spec fn boundary_position(t: Seq<char>, b: int) -> int {
    choose|j: int| 0 <= j <= t.len() && byte_len(t.take(j)) == b
}

/// The byte range that the live-token mask would overwrite: it starts at
/// the first `live_` and spans twenty bytes, when that fits in `t`.
pub open spec fn live_range_start(t: Seq<char>) -> Option<int> {
    match find_first(t, live_marker()) {
        Some(k) => if byte_len(t.take(k)) + 20 <= byte_len(t) { Some(k) } else { None },
        None => None,
    }
}

/// Masking the live token does not cut a character in two.
pub open spec fn live_mask_fits(t: Seq<char>) -> bool {
    match live_range_start(t) {
        Some(k) => is_boundary(t, (byte_len(t.take(k)) + 20) as int),
        None => true,
    }
}

/// `t` with the twenty bytes that start at its first `live_` replaced by
/// the live mask, when they fit in `t`; otherwise `t` itself.
pub open spec fn live_token_masked(t: Seq<char>) -> Seq<char> {
    match live_range_start(t) {
        Some(k) => t.take(k) + live_mask() + t.skip(boundary_position(t, (byte_len(t.take(k)) + 20) as int)),
        None => t,
    }
}

/// What `SecureVault::redact` makes of `text`.
pub open spec fn redacted(text: Seq<char>, secret: Option<Seq<char>>) -> Seq<char> {
    live_token_masked(secret_masked(text, secret))
}

/// The credential vault; here only its redaction of secrets from text.
pub struct SecureVault;

/// The number of UTF-8 bytes of `v`.
fn byte_count(v: &Vec<char>) -> (b: u128)
    ensures
        b == byte_len(v@),
{
    assert(v@.take(v.len() as int) =~= v@);
    byte_offset(v, v.len())
}

/// Whether masking the live token of `t` keeps whole characters.
fn live_mask_fits_exec(t: &Vec<char>) -> (b: bool)
    ensures
        b == live_mask_fits(t@),
{
    let marker = chars_of("live_");
    match find_first_exec(t, &marker) {
        None => true,
        Some(k) => {
            let start = byte_offset(t, k);
            let total = byte_count(t);
            if start + 20 > total {
                return true;
            }
            let target = start + 20;
            let mut j: usize = k;
            let mut off: u128 = start;
            while off < target && j < t.len()
                invariant
                    k <= j <= t.len(),
                    off == byte_len(t@.take(j as int)),
                    off <= 4 * j,
                    start == byte_len(t@.take(k as int)),
                    target == start + 20,
                    j > k ==> byte_len(t@.take(j - 1)) < target,
                decreases t.len() - j,
            {
                proof {
                    lemma_byte_offset_step(t@, j as int);
                    lemma_char_width_bounds(t@[j as int]);
                }
                off = off + char_width_exec(t[j]);
                j = j + 1;
            }
            if off == target {
                assert(is_boundary(t@, target as int));
                true
            } else {
                proof {
                    if is_boundary(t@, target as int) {
                        let jj = boundary_position(t@, target as int);
                        assert(t@.take(t.len() as int) =~= t@);
                        if jj < j {
                            if j > k {
                                if jj < j - 1 {
                                    lemma_byte_offset_strict(t@, jj, j - 1);
                                }
                            } else {
                                lemma_byte_offset_strict(t@, jj, k as int);
                            }
                        } else if jj > j {
                            lemma_byte_offset_strict(t@, j as int, jj);
                            if off < target {
                                assert(j == t.len());
                            }
                        }
                        assert(false);
                    }
                }
                false
            }
        },
    }
}

/// Replaces the twenty bytes from the first `live_` by the live mask.
fn mask_live_token(t: &Vec<char>) -> (out: String)
    requires
        live_mask_fits(t@),
    ensures
        out@ == live_token_masked(t@),
{
    let marker = chars_of("live_");
    match find_first_exec(t, &marker) {
        None => string_from_chars(t),
        Some(k) => {
            let start = byte_offset(t, k);
            let total = byte_count(t);
            if start + 20 > total {
                return string_from_chars(t);
            }
            let target = start + 20;
            let mut j: usize = k;
            let mut off: u128 = start;
            while off < target && j < t.len()
                invariant
                    k <= j <= t.len(),
                    off == byte_len(t@.take(j as int)),
                    off <= 4 * j,
                    start == byte_len(t@.take(k as int)),
                    target == start + 20,
                    j > k ==> byte_len(t@.take(j - 1)) < target,
                decreases t.len() - j,
            {
                proof {
                    lemma_byte_offset_step(t@, j as int);
                    lemma_char_width_bounds(t@[j as int]);
                }
                off = off + char_width_exec(t[j]);
                j = j + 1;
            }
            proof {
                let jj = boundary_position(t@, target as int);
                assert(t@.take(t.len() as int) =~= t@);
                if jj < j {
                    if j > k {
                        if jj < j - 1 {
                            lemma_byte_offset_strict(t@, jj, j - 1);
                        }
                    } else {
                        lemma_byte_offset_strict(t@, jj, k as int);
                    }
                } else if jj > j {
                    lemma_byte_offset_strict(t@, j as int, jj);
                    if off < target {
                        assert(j == t.len());
                    }
                }
                assert(jj == j);
            }
            let mask = chars_of("live_****************");
            let mut out = String::new();
            let mut i: usize = 0;
            while i < k
                invariant
                    i <= k <= t.len(),
                    out@ == t@.take(i as int),
                decreases k - i,
            {
                push_char(&mut out, t[i]);
                i = i + 1;
                assert(out@ =~= t@.take(i as int));
            }
            let mut m: usize = 0;
            while m < mask.len()
                invariant
                    m <= mask.len(),
                    out@ == t@.take(k as int) + mask@.take(m as int),
                decreases mask.len() - m,
            {
                push_char(&mut out, mask[m]);
                m = m + 1;
                assert(out@ =~= t@.take(k as int) + mask@.take(m as int));
            }
            assert(mask@.take(mask.len() as int) =~= mask@);
            let mut r: usize = j;
            while r < t.len()
                invariant
                    j <= r <= t.len(),
                    out@ == t@.take(k as int) + mask@ + t@.subrange(j as int, r as int),
                decreases t.len() - r,
            {
                push_char(&mut out, t[r]);
                r = r + 1;
                assert(out@ =~= t@.take(k as int) + mask@ + t@.subrange(j as int, r as int));
            }
            assert(t@.subrange(j as int, t.len() as int) =~= t@.skip(j as int));
            out
        },
    }
}

impl SecureVault {
    /// Whether `redact` can mask `text`: masking its `live_` token after the
    /// known secret is masked does not cut a character in two.
    pub fn redaction_fits(text: &str, known_secret: Option<&str>) -> (b: bool)
        ensures
            b == live_mask_fits(secret_masked(text@, opt_view(known_secret))),
    {
        let mut masked = String::from_str(text);
        match known_secret {
            Some(secret) => {
                let sv = chars_of(secret);
                if byte_count(&sv) >= 4 {
                    masked = replace_str(text, secret, "[REDACTED_STREAM_KEY]");
                }
            },
            None => {},
        }
        let mv = chars_of(masked.as_str());
        live_mask_fits_exec(&mv)
    }

    /// Masks a known stream key (when it is at least four bytes long) and the
    /// first generic `live_` token in `text`.
    pub fn redact(text: &str, known_secret: Option<&str>) -> (out: String)
        requires
            live_mask_fits(secret_masked(text@, opt_view(known_secret))),
        ensures
            out@ == redacted(text@, opt_view(known_secret)),
    {
        let mut result = String::from_str(text);
        match known_secret {
            Some(secret) => {
                let sv = chars_of(secret);
                if byte_count(&sv) >= 4 {
                    proof {
                        lemma_char_width_bounds(sv@[0]);
                        if sv@.len() == 0 {
                            assert(encode_utf8(sv@) =~= Seq::<u8>::empty());
                        }
                    }
                    result = replace_str(text, secret, "[REDACTED_STREAM_KEY]");
                }
            },
            None => {},
        }
        let rv = chars_of(result.as_str());
        mask_live_token(&rv)
    }
}


/// Law of redaction: a text in which the known secret does not occur (or
/// whose secret is too short to be masked) and that holds no `live_` token
/// comes back unchanged.
pub proof fn law_redact_leaves_clean_text(text: Seq<char>, secret: Option<Seq<char>>)
    requires
        secret matches Some(k) ==> !contains(text, k),
        !contains(text, live_marker()),
    ensures
        live_mask_fits(secret_masked(text, secret)),
        redacted(text, secret) == text,
{
    match secret {
        Some(k) => {
            lemma_replace_absent(text, k, stream_key_mask());
        },
        None => {},
    }
    assert(secret_masked(text, secret) == text);
    lemma_find_absent(text, live_marker(), 0);
}

/// Law of redaction: a text that is exactly the known secret, at least
/// four bytes long, is replaced by the stream-key mask as a whole.
pub proof fn law_redact_whole_secret(k: Seq<char>)
    requires
        byte_len(k) >= 4,
    ensures
        live_mask_fits(secret_masked(k, Some(k))),
        redacted(k, Some(k)) == stream_key_mask(),
{
    if k.len() == 0 {
        assert(encode_utf8(k) =~= Seq::<u8>::empty());
    }
    lemma_replace_whole(k, stream_key_mask());
    reveal_strlit("[REDACTED_STREAM_KEY]");
    reveal_strlit("live_");
    let m = stream_key_mask();
    assert(!contains(m, live_marker())) by {
        if contains(m, live_marker()) {
            let j = choose|j: int| occurs_at(m, live_marker(), j);
            assert(m.subrange(j, j + 5)[0] == 'l');
            assert(m[j] == 'l');
        }
    }
    lemma_find_absent(m, live_marker(), 0);
}

} // verus!
