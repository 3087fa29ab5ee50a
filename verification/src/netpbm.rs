//! Whitespace tokenizer shared by the text-header image formats.
//!
//! [`Lines`] splits a byte stream into whitespace-delimited tokens. A token
//! ends at the first whitespace byte (tab, line feed, vertical tab, form
//! feed, carriage return, or space) or at end-of-stream. When the delimiter
//! is a line feed immediately followed by a carriage return (or the other
//! way around), the pair counts as one terminator; otherwise the lookahead
//! byte is left for the next token. The reader knows nothing of comments:
//! a token beginning with `#` is returned verbatim, and skipping such
//! tokens is the business of [`read_value`].

use crate::source::Source;
use vstd::prelude::*;

verus! {

/// Whether `b` is one of the whitespace bytes that delimit tokens.
pub open spec fn is_space(b: u8) -> bool {
    b == 9 || b == 10 || b == 11 || b == 12 || b == 13 || b == 32
}

/// The index of the first whitespace byte at or after `p`, or the length of
/// `s` if none follows.
pub open spec fn token_end(s: Seq<u8>, p: int) -> int
    decreases s.len() - p when 0 <= p <= s.len()
{
    if p >= s.len() {
        s.len() as int
    } else if is_space(s[p]) {
        p
    } else {
        token_end(s, p + 1)
    }
}

/// The token that starts at `p`: the maximal run of non-whitespace bytes.
pub open spec fn token_at(s: Seq<u8>, p: int) -> Seq<u8> {
    s.subrange(p, token_end(s, p))
}

/// The cursor position after reading the token at `p`: past the delimiting
/// whitespace byte, and past its partner when a line-feed/carriage-return
/// pair forms one terminator.
pub open spec fn next_pos(s: Seq<u8>, p: int) -> int {
    let q = token_end(s, p);
    if q >= s.len() {
        s.len() as int
    } else if s[q] == 10 && q + 1 < s.len() && s[q + 1] == 13 {
        q + 2
    } else if s[q] == 13 && q + 1 < s.len() && s[q + 1] == 10 {
        q + 2
    } else {
        q + 1
    }
}

pub proof fn lemma_token_end_bounds(s: Seq<u8>, p: int)
    requires
        0 <= p <= s.len(),
    ensures
        p <= token_end(s, p) <= s.len(),
    decreases s.len() - p,
{
    if p < s.len() && !is_space(s[p]) {
        lemma_token_end_bounds(s, p + 1);
    }
}

/// A run of non-whitespace bytes from `p` up to `q`, delimited at `q`,
/// is exactly the token at `p`.
pub proof fn lemma_token_end_run(s: Seq<u8>, p: int, q: int)
    requires
        0 <= p <= q <= s.len(),
        forall|i: int| p <= i < q ==> !is_space(s[i]),
        q == s.len() || is_space(s[q]),
    ensures
        token_end(s, p) == q,
    decreases q - p,
{
    if p < q {
        lemma_token_end_run(s, p + 1, q);
    }
}

pub proof fn lemma_next_pos_bounds(s: Seq<u8>, p: int)
    requires
        0 <= p <= s.len(),
    ensures
        p <= next_pos(s, p) <= s.len(),
        p < s.len() ==> p < next_pos(s, p),
        token_end(s, p) <= next_pos(s, p),
    decreases s.len() - p,
{
    lemma_token_end_bounds(s, p);
}

/// A byte stream viewed as a lazy sequence of whitespace-delimited tokens.
///
/// The sequence is not restartable: reading a token consumes bytes from the
/// underlying handle, and only an external seek can rewind it.
#[derive(Debug, Clone, PartialEq, Eq)]
pub struct Lines {
    pub handle: Source,
}

impl Lines {
    /// Reads the next token. Returns `None` when the token under the cursor
    /// is empty: either the stream is exhausted, or a whitespace byte sits
    /// directly under the cursor (that byte, with its terminator partner,
    /// is still consumed).
    pub fn next(&mut self) -> (r: Option<Vec<u8>>)
        requires
            old(self).handle.pos <= old(self).handle.bytes@.len(),
        ensures
            final(self).handle.bytes@ == old(self).handle.bytes@,
            final(self).handle.pos == next_pos(
                old(self).handle.bytes@,
                old(self).handle.pos as int,
            ),
            match r {
                Some(v) => {
                    &&& v@ == token_at(old(self).handle.bytes@, old(self).handle.pos as int)
                    &&& token_end(old(self).handle.bytes@, old(self).handle.pos as int)
                        > old(self).handle.pos
                },
                None => token_end(old(self).handle.bytes@, old(self).handle.pos as int)
                    == old(self).handle.pos,
            },
    {
        let ghost s = self.handle.bytes@;
        let ghost p0 = self.handle.pos as int;
        let mut line: Vec<u8> = Vec::new();
        loop
            invariant
                s == old(self).handle.bytes@,
                p0 == old(self).handle.pos as int,
                self.handle.bytes@ == s,
                p0 <= self.handle.pos <= s.len(),
                line@ == s.subrange(p0, self.handle.pos as int),
                forall|i: int| p0 <= i < self.handle.pos ==> !is_space(s[i]),
            decreases s.len() - self.handle.pos,
        {
            let q = self.handle.pos;
            match self.handle.read_byte() {
                None => {
                    proof {
                        lemma_token_end_run(s, p0, q as int);
                    }
                    return if line.len() > 0 {
                        Some(line)
                    } else {
                        None
                    };
                },
                Some(b) => {
                    if b == 9 || b == 10 || b == 11 || b == 12 || b == 13 || b == 32 {
                        proof {
                            lemma_token_end_run(s, p0, q as int);
                        }
                        if b == 10 {
                            match self.handle.peek_byte() {
                                Some(c) => if c == 13 {
                                    self.handle.skip_byte();
                                },
                                None => {},
                            }
                        } else if b == 13 {
                            match self.handle.peek_byte() {
                                Some(c) => if c == 10 {
                                    self.handle.skip_byte();
                                },
                                None => {},
                            }
                        }
                        return if line.len() > 0 {
                            Some(line)
                        } else {
                            None
                        };
                    } else {
                        line.push(b);
                        proof {
                            assert(s.subrange(p0, q + 1) =~= s.subrange(p0, q as int).push(
                                s[q as int],
                            ));
                        }
                    }
                },
            }
        }
    }
}

/// Whether every byte of `t` is a (seven-bit) ASCII byte.
pub open spec fn all_ascii(t: Seq<u8>) -> bool {
    forall|i: int| 0 <= i < t.len() ==> t[i] < 128
}

/// The header-value scan starting at position `p`: the result of reading
/// tokens until one does not begin with `#`, then demanding that it be
/// ASCII. The pair holds the value found (if any) and the cursor position
/// after the scan.
pub open spec fn value_scan(s: Seq<u8>, p: int) -> (Option<Seq<u8>>, int)
    decreases s.len() - p when 0 <= p <= s.len()
    via value_scan_dec
{
    let q = token_end(s, p);
    let p2 = next_pos(s, p);
    if q == p {
        (None, p2)
    } else if s[p] == 35 {
        value_scan(s, p2)
    } else if all_ascii(s.subrange(p, q)) {
        (Some(s.subrange(p, q)), p2)
    } else {
        (None, p2)
    }
}

#[via_fn]
proof fn value_scan_dec(s: Seq<u8>, p: int) {
    lemma_token_end_bounds(s, p);
    lemma_next_pos_bounds(s, p);
}

/// The position after the scan stays within the stream, and a scan that
/// yields a value makes progress.
pub proof fn lemma_value_scan_bounds(s: Seq<u8>, p: int)
    requires
        0 <= p <= s.len(),
    ensures
        p <= value_scan(s, p).1 <= s.len(),
        value_scan(s, p).0 is Some ==> p < value_scan(s, p).1,
    decreases s.len() - p,
{
    lemma_token_end_bounds(s, p);
    lemma_next_pos_bounds(s, p);
    if token_end(s, p) != p && s[p] == 35 {
        lemma_value_scan_bounds(s, next_pos(s, p));
    }
}

/// Reads the next header value: tokens beginning with `#` (comment lines)
/// are skipped, and a token with a non-ASCII byte ends the scan with `None`.
pub fn read_value(lines: &mut Lines) -> (r: Option<Vec<u8>>)
    requires
        old(lines).handle.pos <= old(lines).handle.bytes@.len(),
    ensures
        final(lines).handle.bytes@ == old(lines).handle.bytes@,
        final(lines).handle.pos == value_scan(
            old(lines).handle.bytes@,
            old(lines).handle.pos as int,
        ).1,
        match r {
            Some(v) => value_scan(old(lines).handle.bytes@, old(lines).handle.pos as int).0
                == Some(v@),
            None => value_scan(old(lines).handle.bytes@, old(lines).handle.pos as int).0
                is None,
        },
{
    let ghost s = lines.handle.bytes@;
    let ghost p0 = lines.handle.pos as int;
    loop
        invariant
            s == old(lines).handle.bytes@,
            p0 == old(lines).handle.pos as int,
            0 <= p0 <= s.len(),
            lines.handle.bytes@ == s,
            0 <= lines.handle.pos <= s.len(),
            value_scan(s, lines.handle.pos as int) == value_scan(s, p0),
        decreases s.len() - lines.handle.pos,
    {
        let ghost pc = lines.handle.pos as int;
        proof {
            lemma_token_end_bounds(s, pc);
            lemma_next_pos_bounds(s, pc);
        }
        match lines.next() {
            None => {
                return None;
            },
            Some(line) => {
                if line[0] == 35 {
                    // comment line: scan again from the new position
                } else if all_bytes_ascii(&line) {
                    return Some(line);
                } else {
                    return None;
                }
            },
        }
    }
}

/// Reads the two-byte signature token that both text-header grammars
/// begin with: seeks to offset 0, reads one token, and demands that it be
/// exactly two bytes long. Its value is not inspected.
pub fn read_signature_token(lines: &mut Lines) -> (r: Option<[u8; 2]>)
    ensures
        final(lines).handle.bytes@ == old(lines).handle.bytes@,
        final(lines).handle.pos <= final(lines).handle.bytes@.len(),
        ({
            let s = old(lines).handle.bytes@;
            if token_end(s, 0) == 2 {
                &&& r matches Some(sig) && sig@ == s.subrange(0, 2)
                &&& final(lines).handle.pos == next_pos(s, 0)
            } else {
                r is None
            }
        }),
{
    let ghost s = lines.handle.bytes@;
    lines.handle.seek_start();
    proof {
        lemma_next_pos_bounds(s, 0);
    }
    match lines.next() {
        Some(line) => {
            if line.len() == 2 {
                let sig: [u8; 2] = [line[0], line[1]];
                proof {
                    assert(line@.len() == token_end(s, 0));
                    assert(sig@ =~= line@);
                }
                Some(sig)
            } else {
                proof {
                    assert(line@.len() == token_end(s, 0));
                }
                None
            }
        },
        None => None,
    }
}

/// Whether every byte of `v` is ASCII, decided by a scan.
pub fn all_bytes_ascii(v: &Vec<u8>) -> (r: bool)
    ensures
        r == all_ascii(v@),
{
    let mut i: usize = 0;
    while i < v.len()
        invariant
            i <= v@.len(),
            forall|j: int| 0 <= j < i ==> v@[j] < 128,
        decreases v@.len() - i,
    {
        if v[i] >= 128 {
            return false;
        }
        i = i + 1;
    }
    true
}

/// Whether two byte buffers hold the same bytes.
pub fn bytes_eq(a: &Vec<u8>, b: &Vec<u8>) -> (r: bool)
    ensures
        r == (a@ == b@),
{
    if a.len() != b.len() {
        return false;
    }
    let mut i: usize = 0;
    while i < a.len()
        invariant
            a@.len() == b@.len(),
            i <= a@.len(),
            forall|j: int| 0 <= j < i ==> a@[j] == b@[j],
        decreases a@.len() - i,
    {
        if a[i] != b[i] {
            return false;
        }
        i = i + 1;
    }
    proof {
        assert(a@ =~= b@);
    }
    true
}

/// Whether `b` is an ASCII decimal digit.
pub open spec fn is_digit(b: u8) -> bool {
    48 <= b && b <= 57
}

/// Whether `t` consists of decimal digits only.
pub open spec fn all_digits(t: Seq<u8>) -> bool {
    forall|i: int| 0 <= i < t.len() ==> is_digit(t[i])
}

/// The numeric value of a run of decimal digits.
pub open spec fn digits_value(t: Seq<u8>) -> int
    decreases t.len(),
{
    if t.len() == 0 {
        0
    } else {
        digits_value(t.drop_last()) * 10 + (t.last() - 48)
    }
}

/// The value of a token read as an unsigned decimal integer: an optional
/// leading `+`, then at least one digit. `None` when the token does not
/// have that shape.
pub open spec fn uint_token_value(t: Seq<u8>) -> Option<int> {
    let d = if t.len() > 0 && t[0] == 43 {
        t.subrange(1, t.len() as int)
    } else {
        t
    };
    if d.len() > 0 && all_digits(d) {
        Some(digits_value(d))
    } else {
        None
    }
}

pub proof fn lemma_digits_value_nonneg(t: Seq<u8>)
    requires
        all_digits(t),
    ensures
        digits_value(t) >= 0,
    decreases t.len(),
{
    if t.len() > 0 {
        assert(all_digits(t.drop_last()));
        lemma_digits_value_nonneg(t.drop_last());
    }
}

/// Reading more digits can only grow the value.
pub proof fn lemma_digits_value_mono(t: Seq<u8>, k: int)
    requires
        all_digits(t),
        0 <= k <= t.len(),
    ensures
        digits_value(t.subrange(0, k)) <= digits_value(t),
    decreases t.len(),
{
    if k == t.len() {
        assert(t.subrange(0, k) =~= t);
    } else {
        assert(all_digits(t.drop_last()));
        assert(t.subrange(0, k) =~= t.drop_last().subrange(0, k));
        lemma_digits_value_mono(t.drop_last(), k);
        lemma_digits_value_nonneg(t.drop_last());
    }
}

/// Parses a token as an unsigned decimal integer of at most `max`.
/// The token may carry one leading `+`; a malformed token, or a value
/// above `max`, yields `None`.
pub fn parse_uint(t: &Vec<u8>, max: u64) -> (r: Option<u64>)
    ensures
        match uint_token_value(t@) {
            Some(v) => if v <= max {
                r == Some(v as u64)
            } else {
                r is None
            },
            None => r is None,
        },
        uint_token_value(t@) matches Some(v) ==> v >= 0,
{
    proof {
        if uint_token_value(t@) is Some {
            let d0 = if t@.len() > 0 && t@[0] == 43 {
                t@.subrange(1, t@.len() as int)
            } else {
                t@
            };
            lemma_digits_value_nonneg(d0);
        }
    }
    let n = t.len();
    if n == 0 {
        return None;
    }
    let start: usize = if t[0] == 43 {
        1
    } else {
        0
    };
    if start >= n {
        return None;
    }
    let ghost d = if t@[0] == 43 {
        t@.subrange(1, t@.len() as int)
    } else {
        t@
    };
    let mut acc: u64 = 0;
    let mut i: usize = start;
    while i < n
        invariant
            n == t@.len(),
            start <= i <= n,
            start < n,
            start == 1 || start == 0,
            (start == 1) <==> (t@.len() > 0 && t@[0] == 43),
            d == (if t@.len() > 0 && t@[0] == 43 {
                t@.subrange(1, t@.len() as int)
            } else {
                t@
            }),
            d.len() == n - start,
            forall|j: int| 0 <= j < i - start ==> is_digit(d[j]),
            acc == digits_value(d.subrange(0, i - start)),
            acc <= max,
        decreases n - i,
    {
        let b = t[i];
        proof {
            assert(d[i - start] == t@[i as int]);
        }
        if b < 48 || b > 57 {
            // a non-digit byte: the token has no integer value
            proof {
                assert(!is_digit(d[i - start]));
            }
            return None;
        }
        let dig = (b - 48) as u64;
        let ghost next_prefix = d.subrange(0, i + 1 - start);
        proof {
            assert(next_prefix.drop_last() =~= d.subrange(0, i - start));
            assert(next_prefix.last() == d[i - start]);
            assert(digits_value(next_prefix) == acc * 10 + dig);
            assert(all_digits(next_prefix));
        }
        let overflowed: bool = match acc.checked_mul(10) {
            None => true,
            Some(m) => match m.checked_add(dig) {
                None => true,
                Some(v2) => {
                    if v2 > max {
                        true
                    } else {
                        acc = v2;
                        false
                    }
                },
            },
        };
        if overflowed {
            // the digits read so far already exceed `max`
            proof {
                if uint_token_value(t@) is Some {
                    lemma_digits_value_mono(d, i + 1 - start);
                }
            }
            return None;
        }
        i = i + 1;
    }
    proof {
        assert(d.subrange(0, n - start) =~= d);
    }
    Some(acc)
}

} // verus!

