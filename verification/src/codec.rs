//! Byte-level framing for the wire protocol: each frame is a
//! `Content-Length: <N>` header line, an empty line, and exactly `N` raw
//! bytes of message body.  Encoding and parsing are verified against the
//! spec-level `frame_bytes` / `spec_parse_frame` model, and a round-trip
//! law ties the two together.

use vstd::prelude::*;

verus! {

// ---------------------------------------------------------------------------
// Byte classes
// ---------------------------------------------------------------------------

/// ASCII whitespace, as the header tokenizer understands it.
pub open spec fn is_ws_byte(b: u8) -> bool {
    b == 32 || b == 9 || b == 10 || b == 13 || b == 12
}

pub open spec fn is_digit_byte(b: u8) -> bool {
    48 <= b && b <= 57
}

pub open spec fn all_digit_bytes(s: Seq<u8>) -> bool {
    forall|i: int| 0 <= i < s.len() ==> is_digit_byte(#[trigger] s[i])
}

pub open spec fn no_ws_bytes(s: Seq<u8>) -> bool {
    forall|i: int| 0 <= i < s.len() ==> !is_ws_byte(#[trigger] s[i])
}

fn is_ws_b(b: u8) -> (r: bool)
    ensures
        r == is_ws_byte(b),
{
    b == 32 || b == 9 || b == 10 || b == 13 || b == 12
}

// ---------------------------------------------------------------------------
// Decimal representation of lengths
// ---------------------------------------------------------------------------

/// The canonical decimal digit string of `n`, most significant digit first.
pub open spec fn dec_rep(n: nat) -> Seq<u8>
    decreases n,
{
    if n < 10 {
        seq![(48 + n) as u8]
    } else {
        dec_rep(n / 10) + seq![(48 + n % 10) as u8]
    }
}

pub open spec fn digit_val(b: u8) -> nat {
    if b >= 48 {
        (b - 48) as nat
    } else {
        0
    }
}

/// The numeric value of a digit string.
pub open spec fn dec_val(s: Seq<u8>) -> nat
    decreases s.len(),
{
    if s.len() == 0 {
        0
    } else {
        dec_val(s.drop_last()) * 10 + digit_val(s.last())
    }
}

pub proof fn lemma_dec_rep_digits(n: nat)
    ensures
        dec_rep(n).len() >= 1,
        all_digit_bytes(dec_rep(n)),
    decreases n,
{
    if n < 10 {
        assert(is_digit_byte(dec_rep(n)[0]));
    } else {
        lemma_dec_rep_digits(n / 10);
        assert(n % 10 < 10) by (nonlinear_arith);
        let s = dec_rep(n);
        let p = dec_rep(n / 10);
        assert forall|i: int| 0 <= i < s.len() implies is_digit_byte(#[trigger] s[i]) by {
            if i < p.len() {
                assert(s[i] == p[i]);
            } else {
                assert(s[i] == (48 + n % 10) as u8);
            }
        }
    }
}

pub proof fn lemma_dec_val_dec_rep(n: nat)
    ensures
        dec_val(dec_rep(n)) == n,
    decreases n,
{
    if n < 10 {
        let s = dec_rep(n);
        assert(s.drop_last() =~= Seq::<u8>::empty());
        assert(dec_val(Seq::<u8>::empty()) == 0);
        assert(s.last() == (48 + n) as u8);
        assert(digit_val((48 + n) as u8) == n);
    } else {
        lemma_dec_val_dec_rep(n / 10);
        assert(n % 10 < 10) by (nonlinear_arith);
        let s = dec_rep(n);
        assert(s.drop_last() =~= dec_rep(n / 10));
        assert(s.last() == (48 + n % 10) as u8);
        assert(digit_val((48 + n % 10) as u8) == n % 10);
        assert(n / 10 * 10 + n % 10 == n) by (nonlinear_arith);
    }
}

/// The value of a digit-string prefix never exceeds the value of the whole.
pub proof fn lemma_dec_val_prefix_le(t: Seq<u8>, j: int)
    requires
        0 <= j <= t.len(),
    ensures
        dec_val(t.subrange(0, j)) <= dec_val(t),
    decreases t.len(),
{
    if j == t.len() {
        assert(t.subrange(0, j) =~= t);
    } else {
        let p = t.drop_last();
        lemma_dec_val_prefix_le(p, j);
        assert(p.subrange(0, j) =~= t.subrange(0, j));
        assert(dec_val(p) * 10 >= dec_val(p)) by (nonlinear_arith);
    }
}

// ---------------------------------------------------------------------------
// Header tokenization (split on ASCII whitespace)
// ---------------------------------------------------------------------------

pub open spec fn skip_ws(s: Seq<u8>) -> Seq<u8>
    decreases s.len(),
{
    if s.len() > 0 && is_ws_byte(s.first()) {
        skip_ws(s.drop_first())
    } else {
        s
    }
}

pub open spec fn take_tok(s: Seq<u8>) -> Seq<u8>
    decreases s.len(),
{
    if s.len() > 0 && !is_ws_byte(s.first()) {
        seq![s.first()] + take_tok(s.drop_first())
    } else {
        Seq::empty()
    }
}

pub open spec fn drop_tok(s: Seq<u8>) -> Seq<u8>
    decreases s.len(),
{
    if s.len() > 0 && !is_ws_byte(s.first()) {
        drop_tok(s.drop_first())
    } else {
        s
    }
}

/// The second whitespace-separated token of a header line; empty if there
/// is no such token.
pub open spec fn second_token(s: Seq<u8>) -> Seq<u8> {
    take_tok(skip_ws(drop_tok(skip_ws(s))))
}

/// The numeric value of a length token: an optional leading `+`, then at
/// least one decimal digit, and the value must fit in a `usize`.
pub open spec fn parse_len_token(t: Seq<u8>) -> Option<usize> {
    let d = if t.len() > 0 && t[0] == 43 {
        t.drop_first()
    } else {
        t
    };
    if d.len() > 0 && all_digit_bytes(d) && dec_val(d) <= usize::MAX {
        Some(dec_val(d) as usize)
    } else {
        None
    }
}

/// What a `Content-Length` header line declares: the second token of the
/// line, read as a decimal number.
pub open spec fn spec_content_len(s: Seq<u8>) -> Option<usize> {
    parse_len_token(second_token(s))
}

proof fn lemma_skip_ws_step(s: Seq<u8>, i: int)
    requires
        0 <= i < s.len(),
        is_ws_byte(s[i]),
    ensures
        skip_ws(s.subrange(i, s.len() as int)) == skip_ws(s.subrange(i + 1, s.len() as int)),
{
    let t = s.subrange(i, s.len() as int);
    assert(t.first() == s[i]);
    assert(t.drop_first() =~= s.subrange(i + 1, s.len() as int));
}

proof fn lemma_tok_step(s: Seq<u8>, i: int)
    requires
        0 <= i < s.len(),
        !is_ws_byte(s[i]),
    ensures
        take_tok(s.subrange(i, s.len() as int)) == seq![s[i]] + take_tok(
            s.subrange(i + 1, s.len() as int),
        ),
        drop_tok(s.subrange(i, s.len() as int)) == drop_tok(s.subrange(i + 1, s.len() as int)),
{
    let t = s.subrange(i, s.len() as int);
    assert(t.first() == s[i]);
    assert(t.drop_first() =~= s.subrange(i + 1, s.len() as int));
}

/// Index just past the leading whitespace, starting at `from`.
fn skip_ws_idx(s: &[u8], from: usize) -> (j: usize)
    requires
        from <= s@.len(),
    ensures
        from <= j <= s@.len(),
        skip_ws(s@.subrange(from as int, s@.len() as int)) == s@.subrange(
            j as int,
            s@.len() as int,
        ),
{
    let slen = s.len();
    let mut j: usize = from;
    while j < slen && is_ws_b(s[j])
        invariant
            from <= j <= slen,
            slen == s@.len(),
            skip_ws(s@.subrange(from as int, slen as int)) == skip_ws(
                s@.subrange(j as int, slen as int),
            ),
        decreases slen - j,
    {
        proof {
            lemma_skip_ws_step(s@, j as int);
        }
        j = j + 1;
    }
    proof {
        let t = s@.subrange(j as int, slen as int);
        if j < slen {
            assert(t.first() == s@[j as int]);
        }
        assert(skip_ws(t) == t);
    }
    j
}

/// Index just past the token that starts at `from`.
fn tok_end_idx(s: &[u8], from: usize) -> (j: usize)
    requires
        from <= s@.len(),
    ensures
        from <= j <= s@.len(),
        take_tok(s@.subrange(from as int, s@.len() as int)) == s@.subrange(from as int, j as int),
        drop_tok(s@.subrange(from as int, s@.len() as int)) == s@.subrange(
            j as int,
            s@.len() as int,
        ),
{
    let slen = s.len();
    let mut j: usize = from;
    while j < slen && !is_ws_b(s[j])
        invariant
            from <= j <= slen,
            slen == s@.len(),
            take_tok(s@.subrange(from as int, slen as int)) == s@.subrange(from as int, j as int)
                + take_tok(s@.subrange(j as int, slen as int)),
            drop_tok(s@.subrange(from as int, slen as int)) == drop_tok(
                s@.subrange(j as int, slen as int),
            ),
        decreases slen - j,
    {
        proof {
            lemma_tok_step(s@, j as int);
            assert(s@.subrange(from as int, j as int) + seq![s@[j as int]] =~= s@.subrange(
                from as int,
                j + 1,
            ));
            assert(s@.subrange(from as int, j as int) + (seq![s@[j as int]] + take_tok(
                s@.subrange(j + 1, slen as int),
            )) =~= s@.subrange(from as int, j + 1) + take_tok(s@.subrange(j + 1, slen as int)));
        }
        j = j + 1;
    }
    proof {
        let t = s@.subrange(j as int, slen as int);
        if j < slen {
            assert(t.first() == s@[j as int]);
        }
        assert(take_tok(t) == Seq::<u8>::empty());
        assert(drop_tok(t) == t);
        assert(s@.subrange(from as int, j as int) + Seq::<u8>::empty() =~= s@.subrange(
            from as int,
            j as int,
        ));
    }
    j
}

/// Parses the digit run `s[start..end]` (with optional leading `+`) as a
/// `usize`, exactly as `parse_len_token` describes.
#[verifier::loop_isolation(false)]
fn parse_len_digits(s: &[u8], start: usize, end: usize) -> (r: Option<usize>)
    requires
        start <= end <= s@.len(),
    ensures
        r == parse_len_token(s@.subrange(start as int, end as int)),
{
    let ghost tok = s@.subrange(start as int, end as int);
    let mut k: usize = start;
    if start < end && s[start] == 43 {
        k = start + 1;
        proof {
            assert(tok.drop_first() =~= s@.subrange(start + 1, end as int));
        }
    }
    let ghost dpart = s@.subrange(k as int, end as int);
    proof {
        if tok.len() > 0 {
            assert(tok[0] == s@[start as int]);
        }
        assert(dpart =~= (if tok.len() > 0 && tok[0] == 43 {
            tok.drop_first()
        } else {
            tok
        }));
    }
    if k == end {
        return None;
    }
    let mut acc: usize = 0;
    let mut i: usize = k;
    proof {
        assert(s@.subrange(k as int, k as int) =~= Seq::<u8>::empty());
        assert(dec_val(Seq::<u8>::empty()) == 0);
    }
    while i < end
        invariant
            k <= i <= end <= s@.len(),
            dpart == s@.subrange(k as int, end as int),
            all_digit_bytes(s@.subrange(k as int, i as int)),
            acc as nat == dec_val(s@.subrange(k as int, i as int)),
        decreases end - i,
    {
        let b = s[i];
        if !(48 <= b && b <= 57) {
            proof {
                assert(dpart[i - k] == b);
                assert(!all_digit_bytes(dpart));
            }
            return None;
        }
        let d = (b - 48) as usize;
        if acc > (usize::MAX - d) / 10 {
            // The declared length cannot fit in a usize.
            proof {
                assert(acc * 10 + d > usize::MAX) by (nonlinear_arith)
                    requires
                        acc > (usize::MAX - d) / 10,
                        d <= 9,
                ;
                if all_digit_bytes(dpart) {
                    let pre = s@.subrange(k as int, i + 1);
                    assert(pre.drop_last() =~= s@.subrange(k as int, i as int));
                    assert(pre.last() == b);
                    assert(dec_val(pre) == acc * 10 + d);
                    assert(pre =~= dpart.subrange(0, i + 1 - k));
                    lemma_dec_val_prefix_le(dpart, i + 1 - k);
                }
            }
            return None;
        }
        proof {
            assert(acc * 10 + d <= usize::MAX) by (nonlinear_arith)
                requires
                    acc <= (usize::MAX - d) / 10,
                    d <= 9,
            ;
            let pre = s@.subrange(k as int, i + 1);
            assert(pre.drop_last() =~= s@.subrange(k as int, i as int));
            assert(pre.last() == b);
            assert forall|m: int| 0 <= m < pre.len() implies is_digit_byte(#[trigger] pre[m]) by {
                if m < i - k {
                    assert(pre[m] == s@.subrange(k as int, i as int)[m]);
                }
            }
        }
        acc = acc * 10 + d;
        i = i + 1;
    }
    proof {
        assert(s@.subrange(k as int, i as int) =~= dpart);
    }
    Some(acc)
}

/// Reads the `Content-Length` value out of a header line: the second
/// whitespace-separated token, parsed as a decimal number.  Returns `None`
/// when the line has no such token or the token is not a number.
pub fn get_content_len(header: &[u8]) -> (r: Option<usize>)
    ensures
        r == spec_content_len(header@),
{
    let a = skip_ws_idx(header, 0);
    let b = tok_end_idx(header, a);
    let c = skip_ws_idx(header, b);
    let d = tok_end_idx(header, c);
    proof {
        assert(header@.subrange(0, header@.len() as int) =~= header@);
    }
    parse_len_digits(header, c, d)
}

// ---------------------------------------------------------------------------
// Frame encoding
// ---------------------------------------------------------------------------

/// The bytes of `"Content-Length: "`.
pub open spec fn header_prefix() -> Seq<u8> {
    seq![67u8, 111u8, 110u8, 116u8, 101u8, 110u8, 116u8, 45u8, 76u8, 101u8, 110u8, 103u8, 116u8, 104u8, 58u8, 32u8]
}

/// Carriage return, line feed, twice: end of header line plus empty line.
pub open spec fn crlf2() -> Seq<u8> {
    seq![13u8, 10u8, 13u8, 10u8]
}

/// The full wire frame that carries `body`.
pub open spec fn frame_bytes(body: Seq<u8>) -> Seq<u8> {
    header_prefix() + dec_rep(body.len()) + crlf2() + body
}

fn dec_digits(n: usize) -> (v: Vec<u8>)
    ensures
        v@ == dec_rep(n as nat),
    decreases n,
{
    if n < 10 {
        let mut v: Vec<u8> = Vec::new();
        v.push((48 + n) as u8);
        proof {
            assert(v@ =~= dec_rep(n as nat));
        }
        v
    } else {
        let mut v = dec_digits(n / 10);
        v.push((48 + n % 10) as u8);
        proof {
            assert(n % 10 < 10) by (nonlinear_arith);
            assert(v@ =~= dec_rep(n as nat));
        }
        v
    }
}

/// Builds the frame for one message body: header line, empty line, body.
pub fn encode_frame(body: &[u8]) -> (r: Vec<u8>)
    ensures
        r@ == frame_bytes(body@),
{
    let mut v: Vec<u8> = Vec::new();
    v.push(67);
    v.push(111);
    v.push(110);
    v.push(116);
    v.push(101);
    v.push(110);
    v.push(116);
    v.push(45);
    v.push(76);
    v.push(101);
    v.push(110);
    v.push(103);
    v.push(116);
    v.push(104);
    v.push(58);
    v.push(32);
    proof {
        assert(v@ =~= header_prefix());
    }
    let mut digits = dec_digits(body.len());
    v.append(&mut digits);
    v.push(13);
    v.push(10);
    v.push(13);
    v.push(10);
    v.extend_from_slice(body);
    proof {
        assert(v@ =~= frame_bytes(body@));
    }
    v
}

/// Serializes one outgoing message body into a frame and advances the
/// caller's sequence counter.  The counter is the caller's: this function
/// only reports the value the counter must take once the frame has
/// actually been written out.
pub fn send_data(raw_data: &[u8], seq: i64) -> (r: (Vec<u8>, i64))
    requires
        seq < i64::MAX,
    ensures
        r.0@ == frame_bytes(raw_data@),
        r.1 == seq + 1,
{
    (encode_frame(raw_data), seq + 1)
}

// ---------------------------------------------------------------------------
// Frame parsing
// ---------------------------------------------------------------------------

/// Index of the first line feed in `s`, if any.
pub open spec fn find_lf(s: Seq<u8>) -> Option<nat>
    decreases s.len(),
{
    if s.len() == 0 {
        None
    } else if s[0] == 10 {
        Some(0)
    } else {
        match find_lf(s.drop_first()) {
            Some(i) => Some(i + 1),
            None => None,
        }
    }
}

/// What parsing one frame from the front of `s` yields: the body bytes and
/// the number of bytes consumed.  `None` when no full frame is present.
pub open spec fn spec_parse_frame(s: Seq<u8>) -> Option<(Seq<u8>, nat)> {
    match find_lf(s) {
        None => None,
        Some(h) => {
            let rest = s.subrange((h + 1) as int, s.len() as int);
            match find_lf(rest) {
                None => None,
                Some(e) => {
                    match spec_content_len(s.subrange(0, h as int)) {
                        None => None,
                        Some(n) => {
                            let bstart = h + 1 + e + 1;
                            if s.len() >= bstart + n {
                                Some(
                                    (
                                        s.subrange(bstart as int, (bstart + n) as int),
                                        (bstart + n) as nat,
                                    ),
                                )
                            } else {
                                None
                            }
                        },
                    }
                },
            }
        },
    }
}

proof fn lemma_find_lf_step(s: Seq<u8>, i: int)
    requires
        0 <= i < s.len(),
        s[i] != 10,
    ensures
        find_lf(s.subrange(i, s.len() as int)) == match find_lf(
            s.subrange(i + 1, s.len() as int),
        ) {
            Some(j) => Some((j + 1) as nat),
            None => None::<nat>,
        },
{
    let t = s.subrange(i, s.len() as int);
    assert(t[0] == s[i]);
    assert(t.drop_first() =~= s.subrange(i + 1, s.len() as int));
}

/// Index of the first line feed at or after `from`.
fn find_lf_idx(s: &[u8], from: usize) -> (r: Option<usize>)
    requires
        from <= s@.len(),
    ensures
        match r {
            Some(j) => from <= j < s@.len() && find_lf(s@.subrange(from as int, s@.len() as int))
                == Some((j - from) as nat),
            None => find_lf(s@.subrange(from as int, s@.len() as int)) is None,
        },
{
    let slen = s.len();
    let mut j: usize = from;
    while j < slen && s[j] != 10
        invariant
            from <= j <= slen,
            slen == s@.len(),
            find_lf(s@.subrange(from as int, slen as int)) == match find_lf(
                s@.subrange(j as int, slen as int),
            ) {
                Some(k) => Some((k + j - from) as nat),
                None => None::<nat>,
            },
        decreases slen - j,
    {
        proof {
            lemma_find_lf_step(s@, j as int);
        }
        j = j + 1;
    }
    if j < slen {
        proof {
            let t = s@.subrange(j as int, slen as int);
            assert(t[0] == s@[j as int]);
            assert(find_lf(t) == Some(0nat));
        }
        Some(j)
    } else {
        proof {
            let t = s@.subrange(j as int, slen as int);
            assert(t.len() == 0);
        }
        None
    }
}

/// Parses one frame from the front of `data`.  On success returns the body
/// bytes and how many bytes of `data` the frame occupied; returns `None`
/// when the header is malformed or `data` holds fewer body bytes than the
/// header declares.
pub fn parse_frame(data: &[u8]) -> (r: Option<(Vec<u8>, usize)>)
    ensures
        match r {
            Some(p) => spec_parse_frame(data@) == Some((p.0@, p.1 as nat)),
            None => spec_parse_frame(data@) is None,
        },
{
    let dlen = data.len();
    proof {
        assert(data@.subrange(0, data@.len() as int) =~= data@);
    }
    let h = match find_lf_idx(data, 0) {
        Some(h) => h,
        None => {
            return None;
        },
    };
    proof {
        assert(h < dlen);
    }
    let e = match find_lf_idx(data, h + 1) {
        Some(e) => e,
        None => {
            return None;
        },
    };
    proof {
        assert(data@.subrange(h + 1, data@.len() as int) =~= data@.subrange(
            h + 1,
            data@.len() as int,
        ));
    }
    let header_end = h;
    let n = match get_content_len_range(data, header_end) {
        Some(n) => n,
        None => {
            return None;
        },
    };
    proof {
        assert(e < dlen);
    }
    let bstart = e + 1;
    if data.len() - bstart < n {
        return None;
    }
    let body_slice = vstd::slice::slice_subrange(data, bstart, bstart + n);
    let body = vstd::slice::slice_to_vec(body_slice);
    Some((body, bstart + n))
}

/// `get_content_len` on the prefix `data[0..end]`.
fn get_content_len_range(data: &[u8], end: usize) -> (r: Option<usize>)
    requires
        end <= data@.len(),
    ensures
        r == spec_content_len(data@.subrange(0, end as int)),
{
    let header_slice = vstd::slice::slice_subrange(data, 0, end);
    get_content_len(header_slice)
}

// ---------------------------------------------------------------------------
// Round trip
// ---------------------------------------------------------------------------

proof fn lemma_find_lf_concat(s: Seq<u8>, t: Seq<u8>)
    requires
        forall|i: int| 0 <= i < s.len() ==> s[i] != 10,
    ensures
        find_lf(s + t) == match find_lf(t) {
            Some(j) => Some((j + s.len()) as nat),
            None => None::<nat>,
        },
    decreases s.len(),
{
    if s.len() == 0 {
        assert(s + t =~= t);
    } else {
        assert((s + t)[0] == s[0]);
        assert((s + t).drop_first() =~= s.drop_first() + t);
        lemma_find_lf_concat(s.drop_first(), t);
    }
}

proof fn lemma_drop_tok_concat(s: Seq<u8>, t: Seq<u8>)
    requires
        no_ws_bytes(s),
    ensures
        drop_tok(s + t) == drop_tok(t),
    decreases s.len(),
{
    if s.len() == 0 {
        assert(s + t =~= t);
    } else {
        assert((s + t).first() == s[0]);
        assert((s + t).drop_first() =~= s.drop_first() + t);
        lemma_drop_tok_concat(s.drop_first(), t);
    }
}

proof fn lemma_take_tok_concat(s: Seq<u8>, t: Seq<u8>)
    requires
        no_ws_bytes(s),
    ensures
        take_tok(s + t) == s + take_tok(t),
    decreases s.len(),
{
    if s.len() == 0 {
        assert(s + t =~= t);
        assert(s + take_tok(t) =~= take_tok(t));
    } else {
        assert((s + t).first() == s[0]);
        assert((s + t).drop_first() =~= s.drop_first() + t);
        lemma_take_tok_concat(s.drop_first(), t);
        assert(seq![s[0]] + (s.drop_first() + take_tok(t)) =~= s + take_tok(t));
    }
}

/// The header line of an encoded frame declares exactly the body length.
proof fn lemma_header_content_len(n: nat)
    requires
        n <= usize::MAX,
    ensures
        spec_content_len(header_prefix() + dec_rep(n) + seq![13u8]) == Some(n as usize),
{
    lemma_dec_rep_digits(n);
    lemma_dec_val_dec_rep(n);
    let digits = dec_rep(n);
    let header = header_prefix() + digits + seq![13u8];
    let word = header_prefix().subrange(0, 15);
    let rest = seq![32u8] + digits + seq![13u8];
    assert(header =~= word + rest);
    assert(no_ws_bytes(word));
    // First token: the header name, which contains no whitespace.
    assert(header.first() == 67);
    assert(skip_ws(header) == header);
    lemma_drop_tok_concat(word, rest);
    assert(drop_tok(rest) == rest);
    // The single space, then the digit token, then the carriage return.
    assert(rest.drop_first() =~= digits + seq![13u8]);
    assert(skip_ws(rest) == skip_ws(digits + seq![13u8]));
    assert((digits + seq![13u8]).first() == digits[0]);
    assert(!is_ws_byte(digits[0]));
    assert(skip_ws(digits + seq![13u8]) == digits + seq![13u8]);
    lemma_take_tok_concat(digits, seq![13u8]);
    assert(take_tok(seq![13u8]) == Seq::<u8>::empty());
    assert(digits + Seq::<u8>::empty() =~= digits);
    assert(second_token(header) == digits);
    assert(digits[0] != 43);
    assert(parse_len_token(digits) == Some(n as usize));
}

/// Round-trip law: parsing an encoded frame yields the original body and
/// consumes the whole frame.
pub proof fn lemma_frame_round_trip(body: Seq<u8>)
    requires
        body.len() <= usize::MAX,
    ensures
        spec_parse_frame(frame_bytes(body)) == Some((body, frame_bytes(body).len() as nat)),
{
    lemma_dec_rep_digits(body.len());
    let digits = dec_rep(body.len());
    let d = digits.len() as int;
    let frame = frame_bytes(body);
    let head = header_prefix() + digits + seq![13u8];
    let tail = seq![10u8, 13u8, 10u8] + body;
    assert(frame =~= head + tail);
    assert forall|i: int| 0 <= i < head.len() implies head[i] != 10 by {
        if i < 16 {
            assert(head[i] == header_prefix()[i]);
        } else if i < 16 + d {
            assert(head[i] == digits[i - 16]);
            assert(is_digit_byte(digits[i - 16]));
        } else {
            assert(head[i] == 13);
        }
    }
    lemma_find_lf_concat(head, tail);
    assert(tail[0] == 10);
    assert(find_lf(tail) == Some(0nat));
    let h = head.len() as int;
    assert(find_lf(frame) == Some(h as nat));
    assert(frame.subrange(0, h) =~= head);
    let rest = frame.subrange(h + 1, frame.len() as int);
    assert(rest =~= seq![13u8, 10u8] + body);
    lemma_find_lf_concat(seq![13u8], seq![10u8] + body);
    assert(seq![13u8] + (seq![10u8] + body) =~= rest);
    assert((seq![10u8] + body)[0] == 10);
    assert(find_lf(seq![10u8] + body) == Some(0nat));
    assert(find_lf(rest) == Some(1nat));
    lemma_header_content_len(body.len());
    assert(spec_content_len(frame.subrange(0, h)) == Some(body.len() as usize));
    let bstart = h + 1 + 1 + 1;
    assert(frame.len() == bstart + body.len());
    assert(frame.subrange(bstart, bstart + body.len() as int) =~= body);
}

} // verus!
