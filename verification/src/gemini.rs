//! The Gemini response format: the first CRLF splits header from body, the
//! header splits on whitespace into a two-digit status code and free meta
//! text, and the code's leading digit decides whether the body is content or
//! the response is a protocol-level failure.

use vstd::prelude::*;
use vstd::slice::slice_subrange;
use vstd::string::StringExecFns;

use crate::text::all_ascii;
use crate::text::chars_of_bytes;
use crate::text::decoded;
use crate::text::lossy_decode;

verus! {

/// A whitespace byte of a status line: space or horizontal tab.
pub open spec fn is_ws(b: u8) -> bool {
    b == 32 || b == 9
}

/// An ASCII decimal digit.
pub open spec fn is_digit(b: u8) -> bool {
    48 <= b <= 57
}

/// The position of the first CRLF pair at or after `i`, if any.
pub open spec fn first_crlf_from(b: Seq<u8>, i: int) -> Option<int>
    decreases b.len() - i,
{
    if i < 0 || i + 1 >= b.len() {
        Option::None
    } else if b[i] == 13 && b[i + 1] == 10 {
        Option::Some(i)
    } else {
        first_crlf_from(b, i + 1)
    }
}

proof fn lemma_first_crlf_bounds(b: Seq<u8>, i: int)
    requires
        0 <= i,
        first_crlf_from(b, i) is Some,
    ensures
        i <= first_crlf_from(b, i)->Some_0,
        first_crlf_from(b, i)->Some_0 + 2 <= b.len(),
    decreases b.len() - i,
{
    if i + 1 < b.len() && !(b[i] == 13 && b[i + 1] == 10) {
        lemma_first_crlf_bounds(b, i + 1);
    }
}

/// The header line of a raw response: everything before the first CRLF, or
/// nothing when no CRLF occurs.
pub open spec fn resp_header(b: Seq<u8>) -> Seq<u8> {
    match first_crlf_from(b, 0) {
        Option::Some(i) => b.take(i),
        Option::None => Seq::empty(),
    }
}

/// The body of a raw response: everything after the first CRLF, or the whole
/// payload when no CRLF occurs.
pub open spec fn resp_body(b: Seq<u8>) -> Seq<u8> {
    match first_crlf_from(b, 0) {
        Option::Some(i) => b.skip(i + 2),
        Option::None => b,
    }
}

/// The end of the run of non-whitespace bytes that starts at `i`.
pub open spec fn run_end(b: Seq<u8>, i: int) -> int
    decreases b.len() - i,
{
    if i < 0 || i >= b.len() || is_ws(b[i]) {
        i
    } else {
        run_end(b, i + 1)
    }
}

proof fn lemma_run_end_bounds(b: Seq<u8>, i: int)
    requires
        0 <= i <= b.len(),
    ensures
        i <= run_end(b, i) <= b.len(),
    decreases b.len() - i,
{
    if i < b.len() && !is_ws(b[i]) {
        lemma_run_end_bounds(b, i + 1);
    }
}

/// The whitespace-separated tokens of the bytes from position `i` on.
pub open spec fn tokens_from(b: Seq<u8>, i: int) -> Seq<Seq<u8>>
    decreases b.len() - i,
        when 0 <= i <= b.len()
        via tokens_from_decreases
{
    if i >= b.len() {
        Seq::empty()
    } else if is_ws(b[i]) {
        tokens_from(b, i + 1)
    } else {
        seq![b.subrange(i, run_end(b, i))] + tokens_from(b, run_end(b, i))
    }
}

#[via_fn]
proof fn tokens_from_decreases(b: Seq<u8>, i: int) {
    if 0 <= i < b.len() && !is_ws(b[i]) {
        lemma_run_end_bounds(b, i + 1);
    }
}

/// The whitespace-separated tokens of a header line.
pub open spec fn tokens(b: Seq<u8>) -> Seq<Seq<u8>> {
    tokens_from(b, 0)
}

/// The tokens joined back together with single spaces.
pub open spec fn join_sp(ts: Seq<Seq<u8>>) -> Seq<u8>
    decreases ts.len(),
{
    if ts.len() == 0 {
        Seq::empty()
    } else if ts.len() == 1 {
        ts[0]
    } else {
        join_sp(ts.drop_last()) + seq![32u8] + ts.last()
    }
}

/// The category a status code falls in, by its leading digit; anything that
/// is not exactly two ASCII digits counts as unknown.
pub enum StatusClass {
    Success,
    Redirect,
    TempFail,
    PermFail,
    CertNeeded,
    Unknown,
}

/// The classification of a status-code token.
pub open spec fn classify(code: Seq<u8>) -> StatusClass {
    if code.len() == 2 && is_digit(code[0]) && is_digit(code[1]) {
        if code[0] == 50 {
            StatusClass::Success
        } else if code[0] == 51 {
            StatusClass::Redirect
        } else if code[0] == 52 {
            StatusClass::TempFail
        } else if code[0] == 53 {
            StatusClass::PermFail
        } else if code[0] == 54 {
            StatusClass::CertNeeded
        } else {
            StatusClass::Unknown
        }
    } else {
        StatusClass::Unknown
    }
}

/// The failure message reported for a non-success status, from its class,
/// its code and its meta text.
pub open spec fn failure_text(c: StatusClass, code: Seq<char>, meta: Seq<char>) -> Seq<char> {
    match c {
        StatusClass::Redirect => "Redirect ("@ + code + "): "@ + meta,
        StatusClass::TempFail => "Temporary failure ("@ + code + "): "@ + meta,
        StatusClass::PermFail => "Permanent failure ("@ + code + "): "@ + meta,
        StatusClass::CertNeeded => "Client certificate required ("@ + code + "): "@ + meta,
        _ => "Unknown status code: "@ + code + " - "@ + meta,
    }
}

/// A successfully parsed Gemini response: the two-digit status code, the
/// meta text, and the lossy-decoded body.
pub struct GeminiSuccess {
    pub status: String,
    pub meta: String,
    pub body: String,
}

/// What parsing a raw Gemini response yields: content exactly when the
/// status line carries at least two tokens and its code's leading digit is
/// `2`, and otherwise the one failure message the format prescribes.
pub open spec fn gemini_parse_post(raw: Seq<u8>, r: Result<GeminiSuccess, String>) -> bool {
    let ts = tokens(resp_header(raw));
    if ts.len() < 2 {
        r matches Result::Err(m) && m@ == "Invalid status line format"@
    } else {
        match classify(ts[0]) {
            StatusClass::Success => r matches Result::Ok(g) && {
                &&& g.status@ == chars_of_bytes(ts[0])
                &&& g.meta@ == decoded(join_sp(ts.skip(1)))
                &&& g.body@ == decoded(resp_body(raw))
            },
            c => r matches Result::Err(m) && m@ == failure_text(
                c,
                decoded(ts[0]),
                decoded(join_sp(ts.skip(1))),
            ),
        }
    }
}

/// The index of the first CRLF pair of the byte slice, if any.
fn find_crlf(raw: &[u8]) -> (r: Option<usize>)
    ensures
        match r {
            Option::Some(i) => first_crlf_from(raw@, 0) == Option::Some(i as int),
            Option::None => first_crlf_from(raw@, 0) is None,
        },
{
    let n = raw.len();
    if n < 2 {
        return Option::None;
    }
    let mut i: usize = 0;
    while i + 1 < n
        invariant
            n == raw@.len(),
            2 <= n,
            i < n,
            first_crlf_from(raw@, 0) == first_crlf_from(raw@, i as int),
        decreases n - i,
    {
        if raw[i] == 13 && raw[i + 1] == 10 {
            return Option::Some(i);
        }
        i += 1;
    }
    Option::None
}

/// The views of a sequence of byte vectors, element by element.
pub open spec fn views_of(ts: Seq<Vec<u8>>) -> Seq<Seq<u8>> {
    Seq::new(ts.len(), |i: int| ts[i]@)
}

/// The whitespace-separated tokens of a header line, each as its own vector.
fn split_ws(h: &[u8]) -> (ts: Vec<Vec<u8>>)
    ensures
        views_of(ts@) == tokens(h@),
{
    let n = h.len();
    let mut ts: Vec<Vec<u8>> = Vec::new();
    let mut i: usize = 0;
    proof {
        assert(views_of(ts@) + tokens_from(h@, 0) =~= tokens(h@));
    }
    while i < n
        invariant
            n == h@.len(),
            i <= n,
            tokens(h@) == views_of(ts@) + tokens_from(h@, i as int),
        decreases n - i,
    {
        if h[i] == 32 || h[i] == 9 {
            i += 1;
        } else {
            let ghost start = i as int;
            let mut tok: Vec<u8> = Vec::new();
            proof {
                assert(tok@ =~= h@.subrange(start, start));
            }
            while i < n && h[i] != 32 && h[i] != 9
                invariant
                    n == h@.len(),
                    0 <= start <= i <= n,
                    start < n,
                    !is_ws(h@[start]),
                    run_end(h@, start) == run_end(h@, i as int),
                    tok@ == h@.subrange(start, i as int),
                decreases n - i,
            {
                tok.push(h[i]);
                proof {
                    assert(tok@ =~= h@.subrange(start, i + 1));
                }
                i += 1;
            }
            proof {
                assert(run_end(h@, i as int) == i as int);
                assert(tok@ == h@.subrange(start, run_end(h@, start)));
                assert(tokens_from(h@, start) == seq![tok@] + tokens_from(h@, i as int));
            }
            let ghost old_views = views_of(ts@);
            ts.push(tok);
            proof {
                assert(views_of(ts@) =~= old_views + seq![tok@]);
                assert(old_views + (seq![tok@] + tokens_from(h@, i as int)) =~= (old_views
                    + seq![tok@]) + tokens_from(h@, i as int));
            }
        }
    }
    proof {
        assert(views_of(ts@) + tokens_from(h@, n as int) =~= views_of(ts@));
    }
    ts
}

/// The classification of a status-code token, computed.
fn classify_code(code: &Vec<u8>) -> (c: StatusClass)
    ensures
        c == classify(code@),
{
    if code.len() == 2 && 48 <= code[0] && code[0] <= 57 && 48 <= code[1] && code[1] <= 57 {
        if code[0] == 50 {
            StatusClass::Success
        } else if code[0] == 51 {
            StatusClass::Redirect
        } else if code[0] == 52 {
            StatusClass::TempFail
        } else if code[0] == 53 {
            StatusClass::PermFail
        } else if code[0] == 54 {
            StatusClass::CertNeeded
        } else {
            StatusClass::Unknown
        }
    } else {
        StatusClass::Unknown
    }
}

/// The meta text's bytes: every token after the first, joined with single
/// spaces.
fn join_meta(ts: &Vec<Vec<u8>>) -> (meta: Vec<u8>)
    requires
        ts@.len() >= 1,
    ensures
        meta@ == join_sp(views_of(ts@).skip(1)),
{
    let n = ts.len();
    let mut meta: Vec<u8> = Vec::new();
    proof {
        assert(meta@ =~= join_sp(views_of(ts@).subrange(1, 1)));
    }
    let mut k: usize = 1;
    while k < n
        invariant
            n == ts@.len(),
            1 <= k <= n,
            meta@ == join_sp(views_of(ts@).subrange(1, k as int)),
        decreases n - k,
    {
        let ghost before = meta@;
        if k > 1 {
            meta.push(32);
        }
        let tok = &ts[k];
        let m = tok.len();
        let mut j: usize = 0;
        proof {
            assert(tok@.subrange(0, 0) =~= Seq::<u8>::empty());
            assert(meta@ =~= (if k > 1 {
                before + seq![32u8]
            } else {
                before
            }) + tok@.subrange(0, 0));
        }
        while j < m
            invariant
                m == tok@.len(),
                j <= m,
                1 <= k < n,
                n == ts@.len(),
                tok@ == views_of(ts@)[k as int],
                before == join_sp(views_of(ts@).subrange(1, k as int)),
                meta@ == (if k > 1 {
                    before + seq![32u8]
                } else {
                    before
                }) + tok@.subrange(0, j as int),
            decreases m - j,
        {
            meta.push(tok[j]);
            proof {
                assert(meta@ =~= (if k > 1 {
                    before + seq![32u8]
                } else {
                    before
                }) + tok@.subrange(0, j + 1));
            }
            j += 1;
        }
        proof {
            let dv = views_of(ts@);
            assert(tok@.subrange(0, m as int) =~= dv[k as int]);
            assert(dv.subrange(1, k + 1).drop_last() =~= dv.subrange(1, k as int));
            assert(dv.subrange(1, k + 1).last() == dv[k as int]);
            if k > 1 {
                assert(dv.subrange(1, k + 1).len() > 1);
                assert(meta@ =~= join_sp(dv.subrange(1, k + 1)));
            } else {
                assert(dv.subrange(1, 2).len() == 1);
                assert(dv.subrange(1, 2)[0] == dv[1]);
                assert(meta@ =~= dv[1]);
                assert(meta@ =~= join_sp(dv.subrange(1, k + 1)));
            }
        }
        k += 1;
    }
    proof {
        assert(views_of(ts@).subrange(1, n as int) =~= views_of(ts@).skip(1));
    }
    meta
}

/// Parse a raw Gemini response: split header from body at the first CRLF,
/// read the status line as whitespace-separated tokens, and classify the
/// two-digit status code by its leading digit.
pub fn parse_gemini_response(raw: &[u8]) -> (r: Result<GeminiSuccess, String>)
    ensures
        gemini_parse_post(raw@, r),
{
    let n = raw.len();
    let crlf = find_crlf(raw);
    proof {
        if first_crlf_from(raw@, 0) is Some {
            lemma_first_crlf_bounds(raw@, 0);
        }
    }
    let header: &[u8] = match crlf {
        Option::Some(i) => slice_subrange(raw, 0, i),
        Option::None => slice_subrange(raw, 0, 0),
    };
    proof {
        assert(raw@.subrange(0, 0) =~= Seq::<u8>::empty());
        match first_crlf_from(raw@, 0) {
            Option::Some(i) => {
                assert(raw@.subrange(0, i) =~= raw@.take(i));
            },
            Option::None => {},
        }
        assert(header@ == resp_header(raw@));
    }
    let ts = split_ws(header);
    if ts.len() < 2 {
        let msg: String = "Invalid status line format".to_owned();
        return Result::Err(msg);
    }
    let class = classify_code(&ts[0]);
    let meta_bytes = join_meta(&ts);
    let code_str = lossy_decode(ts[0].as_slice());
    let meta_str = lossy_decode(meta_bytes.as_slice());
    let ghost code = views_of(ts@)[0];
    match class {
        StatusClass::Success => {
            let body: &[u8] = match crlf {
                Option::Some(i) => slice_subrange(raw, i + 2, n),
                Option::None => raw,
            };
            proof {
                match first_crlf_from(raw@, 0) {
                    Option::Some(i) => {
                        assert(raw@.subrange(i + 2, n as int) =~= raw@.skip(i + 2));
                    },
                    Option::None => {},
                }
                assert(body@ == resp_body(raw@));
                assert(all_ascii(code));
                assert(code_str@ == chars_of_bytes(code));
            }
            let body_str = lossy_decode(body);
            Result::Ok(GeminiSuccess { status: code_str, meta: meta_str, body: body_str })
        },
        StatusClass::Redirect => Result::Err(status_message("Redirect (", code_str, "): ", meta_str)),
        StatusClass::TempFail => Result::Err(
            status_message("Temporary failure (", code_str, "): ", meta_str),
        ),
        StatusClass::PermFail => Result::Err(
            status_message("Permanent failure (", code_str, "): ", meta_str),
        ),
        StatusClass::CertNeeded => Result::Err(
            status_message("Client certificate required (", code_str, "): ", meta_str),
        ),
        StatusClass::Unknown => Result::Err(
            status_message("Unknown status code: ", code_str, " - ", meta_str),
        ),
    }
}

/// A failure message assembled from its four parts.
fn status_message(head: &str, code: String, mid: &str, meta: String) -> (r: String)
    ensures
        r@ == head@ + code@ + mid@ + meta@,
{
    let mut m: String = head.to_owned();
    m.append(code.as_str());
    m.append(mid);
    m.append(meta.as_str());
    m
}

/// A status line that holds a single token, or none at all, is reported as a
/// malformed header, never as content.
pub proof fn lemma_single_token_is_invalid(raw: Seq<u8>, r: Result<GeminiSuccess, String>)
    requires
        gemini_parse_post(raw, r),
        tokens(resp_header(raw)).len() <= 1,
    ensures
        r matches Result::Err(m) && m@ == "Invalid status line format"@,
{
}

} // verus!
