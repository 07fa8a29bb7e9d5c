//! The simulator child's control plane, as far as it is decisions: port
//! allocation, the spawn options and errors, and reading the status and
//! body of the control plane's HTTP/1.1 replies.

use vstd::prelude::*;
use vstd::utf8::{decode_utf8, valid_utf8};
use crate::text::{chars_of, push_char};

verus! {

/// Errors surfaced from spawn, health check, fault injection and
/// shutdown. Outside errors are carried as their display text, paths as
/// their display form and durations in milliseconds.
#[derive(Clone, Debug)]
pub enum SimChildError {
    BinaryNotFound(String),
    Spawn(String),
    HealthTimeout(u64),
    HealthFailed(String),
    NoFreePort { start: u16, end: u16 },
    TokenRead { path: String, err: String },
    PidWrite { path: String, err: String },
    HttpFailed(String),
    HttpStatus { status: u16, body: String },
    Shutdown(String),
}

/// Spawn options, mirroring the fields of the `SpawnSim` command.
#[derive(Clone, Debug)]
pub struct SpawnOptions {
    pub tws_port: u16,
    pub control_port: u16,
    pub scenario: Option<String>,
    pub seed: Option<u64>,
}

/// First port of the fallback scan.
pub const PORT_SCAN_START: u16 = 7498;

/// End (exclusive) of the fallback scan.
pub const PORT_SCAN_END: u16 = 7600;

/// Allocate a TWS port for the sim: `preferred` when it is non-zero and
/// the probe reports it free, else the first port of `7498..7600` the
/// probe reports free. The probe is asked about each candidate in that
/// order and the first port it reports free is taken; when none is,
/// the error names the scanned range.
pub fn allocate_sim_port<F: Fn(u16) -> bool>(preferred: u16, port_is_free: F) -> (r: Result<
    u16,
    SimChildError,
>)
    requires
        forall|p: u16| #[trigger] port_is_free.requires((p,)),
    ensures
        match r {
            Ok(p) => {
                ||| (p == preferred && preferred != 0 && port_is_free.ensures((p,), true))
                ||| (PORT_SCAN_START <= p < PORT_SCAN_END && port_is_free.ensures((p,), true)
                    && (preferred == 0 || port_is_free.ensures((preferred,), false)) && forall|
                    q: u16,
                |
                    PORT_SCAN_START <= q < p ==> #[trigger] port_is_free.ensures((q,), false))
            },
            Err(SimChildError::NoFreePort { start, end }) => {
                &&& preferred == 0 || port_is_free.ensures((preferred,), false)
                &&& start == PORT_SCAN_START
                &&& end == PORT_SCAN_END
                &&& forall|q: u16|
                    PORT_SCAN_START <= q < PORT_SCAN_END ==> #[trigger] port_is_free.ensures(
                        (q,),
                        false,
                    )
            },
            Err(_) => false,
        },
{
    if preferred != 0 && port_is_free(preferred) {
        return Ok(preferred);
    }
    let mut p: u16 = PORT_SCAN_START;
    while p < PORT_SCAN_END
        invariant
            PORT_SCAN_START <= p <= PORT_SCAN_END,
            preferred == 0 || port_is_free.ensures((preferred,), false),
            forall|q: u16| #[trigger] port_is_free.requires((q,)),
            forall|q: u16| PORT_SCAN_START <= q < p ==> #[trigger] port_is_free.ensures((q,), false),
        decreases PORT_SCAN_END - p,
    {
        let free = port_is_free(p);
        if free {
            return Ok(p);
        }
        p = p + 1;
    }
    Err(SimChildError::NoFreePort { start: PORT_SCAN_START, end: PORT_SCAN_END })
}

/// Reads bytes as UTF-8 text with `std::str::from_utf8`, which the
/// standard library documents as succeeding exactly on valid UTF-8 and
/// then viewing the same bytes as text.
#[verifier::external_body]
fn utf8_str(b: &[u8]) -> (r: Option<&str>)
    ensures
        r is Some <==> valid_utf8(b@),
        r matches Some(s) ==> s@ == decode_utf8(b@),
{
    std::str::from_utf8(b).ok()
}

/// Unicode `White_Space`, as `char::is_whitespace` reads it.
pub open spec fn is_ws(c: char) -> bool {
    let u = c as u32;
    ||| (0x9 <= u && u <= 0xd)
    ||| u == 0x20
    ||| u == 0x85
    ||| u == 0xa0
    ||| u == 0x1680
    ||| (0x2000 <= u && u <= 0x200a)
    ||| u == 0x2028
    ||| u == 0x2029
    ||| u == 0x202f
    ||| u == 0x205f
    ||| u == 0x3000
}

fn is_ws_exec(c: char) -> (r: bool)
    ensures
        r == is_ws(c),
{
    let u = c as u32;
    (0x9 <= u && u <= 0xd) || u == 0x20 || u == 0x85 || u == 0xa0 || u == 0x1680 || (0x2000 <= u
        && u <= 0x200a) || u == 0x2028 || u == 0x2029 || u == 0x202f || u == 0x205f || u == 0x3000
}

/// First index at or after `i` where `pat` occurs in `t`.
pub open spec fn find_from(t: Seq<char>, pat: Seq<char>, i: int) -> Option<int>
    decreases t.len() + 1 - i,
{
    if i < 0 || i + pat.len() > t.len() {
        None
    } else if t.subrange(i, i + pat.len()) == pat {
        Some(i)
    } else {
        find_from(t, pat, i + 1)
    }
}

/// First index at or after `i` that holds no whitespace (or the end).
pub open spec fn skip_ws_from(t: Seq<char>, i: int) -> int
    decreases t.len() - i,
{
    if i < 0 || i >= t.len() || !is_ws(t[i]) {
        i
    } else {
        skip_ws_from(t, i + 1)
    }
}

/// First index at or after `i` that holds whitespace (or the end).
pub open spec fn token_end(t: Seq<char>, i: int) -> int
    decreases t.len() - i,
{
    if i < 0 || i >= t.len() || is_ws(t[i]) {
        i
    } else {
        token_end(t, i + 1)
    }
}

/// End of the text once trailing whitespace is cut, scanning down from `j`.
pub open spec fn trim_end_from(t: Seq<char>, j: int) -> int
    decreases j,
{
    if j <= 0 || j > t.len() || !is_ws(t[j - 1]) {
        j
    } else {
        trim_end_from(t, j - 1)
    }
}

/// A text without leading and trailing whitespace, as `str::trim` cuts it.
pub open spec fn trim(t: Seq<char>) -> Seq<char> {
    let a = skip_ws_from(t, 0);
    let b = trim_end_from(t, t.len() as int);
    if a < b {
        t.subrange(a, b)
    } else {
        Seq::empty()
    }
}

/// The first line of a text: everything before the first `\r\n`.
pub open spec fn first_line(t: Seq<char>) -> Seq<char> {
    match find_from(t, seq!['\r', '\n'], 0) {
        Some(i) => t.take(i),
        None => t,
    }
}

/// The second whitespace-separated word of a line.
pub open spec fn second_word(line: Seq<char>) -> Option<Seq<char>> {
    let a = skip_ws_from(line, 0);
    let b = token_end(line, a);
    let c = skip_ws_from(line, b);
    let d = token_end(line, c);
    if a >= line.len() || c >= line.len() {
        None
    } else {
        Some(line.subrange(c, d))
    }
}

/// Whether a character is an ASCII decimal digit.
pub open spec fn is_digit(c: char) -> bool {
    '0' <= c && c <= '9'
}

/// The value of a run of decimal digits.
pub open spec fn digits_value(s: Seq<char>) -> int
    decreases s.len(),
{
    if s.len() == 0 {
        0
    } else {
        digits_value(s.drop_last()) * 10 + ((s.last() as int) - ('0' as int))
    }
}

/// The digits of a number text: the text after an optional leading `+`.
pub open spec fn unsigned_digits(s: Seq<char>) -> Seq<char> {
    if s.len() > 0 && s[0] == '+' {
        s.drop_first()
    } else {
        s
    }
}

/// Whether every character of a text is a decimal digit.
pub open spec fn all_digits(d: Seq<char>) -> bool {
    forall|i: int| 0 <= i < d.len() ==> #[trigger] is_digit(d[i])
}

/// A `u16` written in decimal with an optional `+`, as `str::parse`
/// reads it.
pub open spec fn parse_u16_spec(s: Seq<char>) -> Option<u16> {
    let d = unsigned_digits(s);
    if d.len() > 0 && all_digits(d) && digits_value(d) <= 65535 {
        Some(digits_value(d) as u16)
    } else {
        None
    }
}

/// Status code of an HTTP reply: the second word of its first line, for
/// a reply that is valid UTF-8.
pub open spec fn status_code(resp: Seq<u8>) -> Option<u16> {
    if valid_utf8(resp) {
        match second_word(first_line(decode_utf8(resp))) {
            Some(w) => parse_u16_spec(w),
            None => None,
        }
    } else {
        None
    }
}

/// Body of an HTTP reply: what follows the blank line ending the
/// headers, trimmed.
pub open spec fn reply_body(resp: Seq<u8>) -> Option<Seq<char>> {
    if valid_utf8(resp) {
        let t = decode_utf8(resp);
        match find_from(t, seq!['\r', '\n', '\r', '\n'], 0) {
            Some(i) => Some(trim(t.skip(i + 4))),
            None => None,
        }
    } else {
        None
    }
}

fn find_seq(t: &Vec<char>, pat: &Vec<char>) -> (r: Option<usize>)
    ensures
        match r {
            Some(i) => find_from(t@, pat@, 0) == Some(i as int),
            None => find_from(t@, pat@, 0) is None,
        },
{
    let n = t.len();
    let m = pat.len();
    if m > n {
        return None;
    }
    let mut i: usize = 0;
    while i <= n - m
        invariant
            n == t@.len(),
            m == pat@.len(),
            m <= n,
            i <= n - m + 1,
            find_from(t@, pat@, 0) == find_from(t@, pat@, i as int),
        decreases n - i,
    {
        let mut j: usize = 0;
        let mut same = true;
        while j < m
            invariant
                n == t@.len(),
                m == pat@.len(),
                i + m <= n,
                j <= m,
                same == forall|k: int| 0 <= k < j ==> t@[i + k] == pat@[k],
            decreases m - j,
        {
            if t[i + j] != pat[j] {
                same = false;
            }
            j = j + 1;
        }
        if same {
            assert(t@.subrange(i as int, i + m) =~= pat@);
            return Some(i);
        }
        assert(t@.subrange(i as int, i + m)[0] == t@[i as int]);
        assert(t@.subrange(i as int, i + m) != pat@) by {
            let k = choose|k: int| 0 <= k < m && t@[i + k] != pat@[k];
            assert(t@.subrange(i as int, i + m)[k] == t@[i + k]);
        }
        i = i + 1;
    }
    None
}

fn skip_ws(t: &Vec<char>, i: usize) -> (r: usize)
    requires
        i <= t@.len(),
    ensures
        r == skip_ws_from(t@, i as int),
        i <= r <= t@.len(),
{
    let mut k = i;
    while k < t.len() && is_ws_exec(t[k])
        invariant
            i <= k <= t@.len(),
            skip_ws_from(t@, i as int) == skip_ws_from(t@, k as int),
        decreases t@.len() - k,
    {
        k = k + 1;
    }
    k
}

fn word_end(t: &Vec<char>, i: usize) -> (r: usize)
    requires
        i <= t@.len(),
    ensures
        r == token_end(t@, i as int),
        i <= r <= t@.len(),
{
    let mut k = i;
    while k < t.len() && !is_ws_exec(t[k])
        invariant
            i <= k <= t@.len(),
            token_end(t@, i as int) == token_end(t@, k as int),
        decreases t@.len() - k,
    {
        k = k + 1;
    }
    k
}

fn string_of_range(t: &Vec<char>, a: usize, b: usize) -> (r: String)
    requires
        a <= b <= t@.len(),
    ensures
        r@ == t@.subrange(a as int, b as int),
{
    let mut out = String::new();
    let mut k = a;
    while k < b
        invariant
            a <= k <= b <= t@.len(),
            out@ == t@.subrange(a as int, k as int),
        decreases b - k,
    {
        push_char(&mut out, t[k]);
        k = k + 1;
        assert(out@ =~= t@.subrange(a as int, k as int));
    }
    out
}

fn parse_u16_range(t: &Vec<char>, a: usize, b: usize) -> (r: Option<u16>)
    requires
        a <= b <= t@.len(),
    ensures
        r == parse_u16_spec(t@.subrange(a as int, b as int)),
{
    let ghost s = t@.subrange(a as int, b as int);
    let mut k = a;
    if k < b && t[k] == '+' {
        k = k + 1;
    }
    let ghost d = t@.subrange(k as int, b as int);
    assert(d =~= unsigned_digits(s));
    if k == b {
        return None;
    }
    let start = k;
    let mut acc: u32 = 0;
    while k < b
        invariant
            a <= start < b <= t@.len(),
            start <= k <= b,
            s == t@.subrange(a as int, b as int),
            d == unsigned_digits(s),
            d == t@.subrange(start as int, b as int),
            forall|i: int| start <= i < k ==> #[trigger] is_digit(t@[i]),
            acc == digits_value(t@.subrange(start as int, k as int)),
            acc <= 65535,
        decreases b - k,
    {
        let c = t[k];
        if !('0' <= c && c <= '9') {
            assert(d[k - start] == t@[k as int]);
            assert(!is_digit(d[k - start]));
            assert(!all_digits(d));
            assert(parse_u16_spec(s) is None);
            return None;
        }
        let dv = (c as u32) - ('0' as u32);
        assert(t@.subrange(start as int, k + 1).drop_last() =~= t@.subrange(start as int, k as int));
        if acc > 6553 || (acc == 6553 && dv > 5) {
            proof {
                let p = t@.subrange(start as int, k + 1);
                assert(p.last() == c);
                assert(digits_value(p) == acc * 10 + dv);
                if all_digits(d) {
                    lemma_digits_grow(d, k + 1 - start);
                    assert(d.take(k + 1 - start) =~= p);
                }
            }
            assert(parse_u16_spec(s) is None);
            return None;
        }
        acc = acc * 10 + dv;
        k = k + 1;
    }
    assert(d =~= t@.subrange(start as int, k as int));
    Some(acc as u16)
}

/// A run of digits is at least as large as any of its prefixes.
pub proof fn lemma_digits_grow(s: Seq<char>, n: int)
    requires
        0 <= n <= s.len(),
        forall|i: int| 0 <= i < s.len() ==> #[trigger] is_digit(s[i]),
    ensures
        digits_value(s) >= digits_value(s.take(n)),
    decreases s.len(),
{
    if n < s.len() {
        lemma_digits_grow(s.drop_last(), n);
        assert(s.drop_last().take(n) =~= s.take(n));
        assert(digits_value(s.drop_last()) >= 0) by {
            lemma_digits_nonneg(s.drop_last());
        }
        assert(is_digit(s[s.len() - 1]));
    } else {
        assert(s.take(n) =~= s);
    }
}

/// A run of digits has a non-negative value.
pub proof fn lemma_digits_nonneg(s: Seq<char>)
    requires
        forall|i: int| 0 <= i < s.len() ==> #[trigger] is_digit(s[i]),
    ensures
        digits_value(s) >= 0,
    decreases s.len(),
{
    if s.len() > 0 {
        lemma_digits_nonneg(s.drop_last());
        assert(is_digit(s[s.len() - 1]));
    }
}

/// Parse the status code from an HTTP reply such as
/// `HTTP/1.1 200 OK\r\n`; `None` when malformed.
pub fn parse_status_line(resp: &[u8]) -> (r: Option<u16>)
    ensures
        r == status_code(resp@),
{
    let text = match utf8_str(resp) {
        Some(s) => s,
        None => return None,
    };
    let t = chars_of(text);
    let crlf = vec!['\r', '\n'];
    assert(crlf@ =~= seq!['\r', '\n']);
    let end = match find_seq(&t, &crlf) {
        Some(i) => i,
        None => t.len(),
    };
    let ghost line = first_line(t@);
    proof {
        if find_from(t@, seq!['\r', '\n'], 0) is Some {
            lemma_find_in_range(t@, seq!['\r', '\n'], 0);
        }
    }
    assert(line =~= t@.take(end as int));
    let mut line_v: Vec<char> = Vec::new();
    let mut k: usize = 0;
    while k < end
        invariant
            end <= t@.len(),
            k <= end,
            line_v@ == t@.take(k as int),
        decreases end - k,
    {
        line_v.push(t[k]);
        k = k + 1;
        assert(line_v@ =~= t@.take(k as int));
    }
    assert(line_v@ =~= line);
    let a = skip_ws(&line_v, 0);
    if a >= line_v.len() {
        return None;
    }
    let b = word_end(&line_v, a);
    let c = skip_ws(&line_v, b);
    if c >= line_v.len() {
        return None;
    }
    let d = word_end(&line_v, c);
    parse_u16_range(&line_v, c, d)
}

/// A found occurrence lies within the text.
proof fn lemma_find_in_range(t: Seq<char>, pat: Seq<char>, i: int)
    requires
        find_from(t, pat, i) is Some,
    ensures
        i <= find_from(t, pat, i)->0,
        find_from(t, pat, i)->0 + pat.len() <= t.len(),
    decreases t.len() + 1 - i,
{
    if !(i < 0 || i + pat.len() > t.len()) && t.subrange(i, i + pat.len()) != pat {
        lemma_find_in_range(t, pat, i + 1);
    }
}

fn trim_end(t: &Vec<char>, from: usize) -> (r: usize)
    requires
        from <= t@.len(),
    ensures
        r == trim_end_from(t@, from as int),
        r <= from,
{
    let mut j = from;
    while j > 0 && is_ws_exec(t[j - 1])
        invariant
            j <= from <= t@.len(),
            trim_end_from(t@, from as int) == trim_end_from(t@, j as int),
        decreases j,
    {
        j = j - 1;
    }
    j
}

/// The body after the `\r\n\r\n` that ends the headers, trimmed; `None`
/// when the reply is not UTF-8 or has no blank line.
pub fn response_body(resp: &[u8]) -> (r: Option<String>)
    ensures
        match r {
            Some(s) => reply_body(resp@) == Some(s@),
            None => reply_body(resp@) is None,
        },
{
    let text = match utf8_str(resp) {
        Some(s) => s,
        None => return None,
    };
    let t = chars_of(text);
    let sep = vec!['\r', '\n', '\r', '\n'];
    assert(sep@ =~= seq!['\r', '\n', '\r', '\n']);
    let i = match find_seq(&t, &sep) {
        Some(i) => i,
        None => return None,
    };
    proof {
        lemma_find_in_range(t@, sep@, 0);
    }
    let tl = t.len();
    assert(i + 4 <= tl);
    let mut body: Vec<char> = Vec::new();
    let mut k: usize = i + 4;
    while k < t.len()
        invariant
            i + 4 <= k <= t@.len(),
            body@ == t@.subrange(i + 4, k as int),
        decreases t@.len() - k,
    {
        body.push(t[k]);
        k = k + 1;
        assert(body@ =~= t@.subrange(i + 4, k as int));
    }
    assert(body@ =~= t@.skip(i + 4));
    let a = skip_ws(&body, 0);
    let b = trim_end(&body, body.len());
    if a < b {
        Some(string_of_range(&body, a, b))
    } else {
        let e = String::new();
        assert(e@ =~= Seq::<char>::empty());
        Some(e)
    }
}

/// Outcome of a health probe from its reply: healthy on status 200; an
/// unreadable status is a failed call; any other status is reported
/// with an empty body.
pub fn health_outcome(resp: &[u8]) -> (r: Result<(), SimChildError>)
    ensures
        match r {
            Ok(()) => status_code(resp@) == Some(200u16),
            Err(SimChildError::HttpFailed(m)) => status_code(resp@) is None && m@
                == "no status line"@,
            Err(SimChildError::HttpStatus { status, body }) => status_code(resp@) == Some(status)
                && status != 200 && body@ == Seq::<char>::empty(),
            Err(_) => false,
        },
{
    match parse_status_line(resp) {
        None => {
            let m = "no status line";
            proof {
                reveal_strlit("no status line");
            }
            Err(SimChildError::HttpFailed(m.to_owned()))
        },
        Some(status) => {
            if status == 200 {
                Ok(())
            } else {
                let body = String::new();
                Err(SimChildError::HttpStatus { status, body })
            }
        },
    }
}

/// Outcome of a fault injection from its reply: success on any 2xx; an
/// unreadable status is a failed call; any other status is reported
/// with the reply's body (empty when there is none).
pub fn inject_outcome(resp: &[u8]) -> (r: Result<(), SimChildError>)
    ensures
        match r {
            Ok(()) => status_code(resp@) matches Some(s) && 200 <= s < 300,
            Err(SimChildError::HttpFailed(m)) => status_code(resp@) is None && m@
                == "no status line"@,
            Err(SimChildError::HttpStatus { status, body }) => {
                &&& status_code(resp@) == Some(status)
                &&& !(200 <= status < 300)
                &&& body@ == match reply_body(resp@) {
                    Some(b) => b,
                    None => Seq::<char>::empty(),
                }
            },
            Err(_) => false,
        },
{
    match parse_status_line(resp) {
        None => {
            let m = "no status line";
            proof {
                reveal_strlit("no status line");
            }
            Err(SimChildError::HttpFailed(m.to_owned()))
        },
        Some(status) => {
            if 200 <= status && status < 300 {
                Ok(())
            } else {
                let body = match response_body(resp) {
                    Some(b) => b,
                    None => String::new(),
                };
                Err(SimChildError::HttpStatus { status, body })
            }
        },
    }
}

} // verus!
