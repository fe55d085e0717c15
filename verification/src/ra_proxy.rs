//! The wire protocol of the rust-analyzer subprocess: `Content-Length`
//! framing of outgoing messages, the header reader's decisions, and the
//! table that pairs responses with the requests awaiting them.
//!
//! Spawning the process, the pipes and the reader thread live with the
//! caller; this module decides what each of them does next.

use serde_json::Value;
use std::collections::HashMap;
use vstd::prelude::*;

use crate::error::LspError;
use crate::text::{
    byte_len, char_width, chars_of, decimal, decimal_chars, digit_char, drop_ws_before, has_prefix,
    is_ws, lemma_byte_len_take_step, push_all, push_str, skip_ws_from, slice_of, starts_with_str,
    string_of, trim, trim_chars, trim_start
};

verus! {

broadcast use vstd::std_specs::hash::group_hash_axioms;

// ---------------------------------------------------------------------------
// Framing
// ---------------------------------------------------------------------------

/// A message body framed for the wire: `Content-Length: <bytes>`, a blank
/// line, then the body.
pub open spec fn framed(body: Seq<char>) -> Seq<char> {
    "Content-Length: "@ + decimal(byte_len(body)) + "\r\n\r\n"@ + body
}

/// Frame an LSP message body with its `Content-Length` header; the length
/// counts the bytes of the body's UTF-8 encoding.
pub fn frame_message(body: &str) -> (r: String)
    ensures
        r@ == framed(body@),
{
    let v = chars_of(body);
    let mut total: u128 = 0;
    let mut k: usize = 0;
    while k < v.len()
        invariant
            k <= v.len(),
            total == byte_len(v@.take(k as int)),
            total <= 4 * k,
        decreases v.len() - k,
    {
        proof {
            lemma_byte_len_take_step(v@, k as int);
        }
        total = total + char_width(v[k]) as u128;
        k = k + 1;
    }
    assert(v@.take(v@.len() as int) =~= v@);
    let mut out = chars_of("Content-Length: ");
    let digits = decimal_chars(total);
    push_all(&mut out, &digits);
    push_str(&mut out, "\r\n\r\n");
    push_all(&mut out, &v);
    string_of(&out)
}

// ---------------------------------------------------------------------------
// Header lines
// ---------------------------------------------------------------------------

/// Why a string is not a `usize`, as `str::parse` reports it.
#[derive(Debug, Clone, Copy, PartialEq, Eq)]
pub enum ParseIntKind {
    /// The string is empty.
    Empty,
    /// A character is not a decimal digit.
    InvalidDigit,
    /// The value exceeds `usize::MAX`.
    PosOverflow,
}

/// The message `str::parse` gives for each kind of failure.
pub open spec fn parse_error_text(k: ParseIntKind) -> Seq<char> {
    match k {
        ParseIntKind::Empty => "cannot parse integer from empty string"@,
        ParseIntKind::InvalidDigit => "invalid digit found in string"@,
        ParseIntKind::PosOverflow => "number too large to fit in target type"@,
    }
}

/// An ASCII decimal digit.
pub open spec fn is_digit(c: char) -> bool {
    '0' <= c && c <= '9'
}

/// Reading the digits of `d` from index `i` with `acc` read so far, left
/// to right: the first non-digit, or the first digit that takes the value
/// past `usize::MAX`, is the error.
pub open spec fn digits_value(d: Seq<char>, i: int, acc: nat) -> Result<usize, ParseIntKind>
    decreases d.len() - i,
{
    if i < 0 || i >= d.len() {
        if acc <= usize::MAX { Ok(acc as usize) } else { Err(ParseIntKind::PosOverflow) }
    } else if !is_digit(d[i]) {
        Err(ParseIntKind::InvalidDigit)
    } else {
        let v = acc * 10 + (d[i] as u32 - '0' as u32);
        if v > usize::MAX {
            Err(ParseIntKind::PosOverflow)
        } else {
            digits_value(d, i + 1, v as nat)
        }
    }
}

/// `s.parse::<usize>()`: an optional `+`, then decimal digits.
pub open spec fn parse_usize_spec(s: Seq<char>) -> Result<usize, ParseIntKind> {
    if s.len() == 0 {
        Err(ParseIntKind::Empty)
    } else if (s[0] == '+' || s[0] == '-') && s.len() == 1 {
        Err(ParseIntKind::InvalidDigit)
    } else if s[0] == '+' {
        digits_value(s.drop_first(), 0, 0)
    } else {
        digits_value(s, 0, 0)
    }
}

/// Parse a decimal `usize` the way `str::parse::<usize>` does.
pub fn parse_usize(s: &[char]) -> (r: Result<usize, ParseIntKind>)
    ensures
        r == parse_usize_spec(s@),
{
    if s.len() == 0 {
        return Err(ParseIntKind::Empty);
    }
    if (s[0] == '+' || s[0] == '-') && s.len() == 1 {
        return Err(ParseIntKind::InvalidDigit);
    }
    let start: usize = if s[0] == '+' { 1 } else { 0 };
    let ghost d = if s@[0] == '+' { s@.drop_first() } else { s@ };
    let mut acc: usize = 0;
    let mut i: usize = start;
    while i < s.len()
        invariant
            start <= i <= s.len(),
            start <= 1,
            d == s@.skip(start as int),
            digits_value(d, i - start, acc as nat) == parse_usize_spec(s@),
        decreases s.len() - i,
    {
        let c = s[i];
        assert(d[i - start] == c);
        if !('0' <= c && c <= '9') {
            return Err(ParseIntKind::InvalidDigit);
        }
        let digit = (c as u32 - '0' as u32) as usize;
        if acc > (usize::MAX - digit) / 10 {
            assert(acc * 10 + digit > usize::MAX) by (nonlinear_arith)
                requires
                    acc > (usize::MAX - digit) / 10,
                    digit <= 9;
            return Err(ParseIntKind::PosOverflow);
        }
        assert(acc * 10 + digit <= usize::MAX) by (nonlinear_arith)
            requires
                acc <= (usize::MAX - digit) / 10,
                digit <= 9;
        acc = acc * 10 + digit;
        i = i + 1;
    }
    Ok(acc)
}

/// What the reader does after reading one header line.
#[derive(Debug)]
pub enum HeaderStep {
    /// Read another header line; the content length known so far.
    Next(Option<usize>),
    /// The headers are complete: read a body of this many bytes.
    Body(usize),
    /// The stream has ended: there is no further message.
    End,
    /// The headers are malformed.
    Fail(LspError),
}

/// The view of a header step: a failure by its communication-error detail.
pub enum StepView {
    Next(Option<usize>),
    Body(usize),
    End,
    Fail(Seq<char>),
}

/// The view of a step.
pub open spec fn step_view(s: HeaderStep) -> StepView {
    match s {
        HeaderStep::Next(n) => StepView::Next(n),
        HeaderStep::Body(n) => StepView::Body(n),
        HeaderStep::End => StepView::End,
        HeaderStep::Fail(LspError::RustAnalyzerComm(m)) => StepView::Fail(m@),
        HeaderStep::Fail(_) => StepView::Fail(Seq::empty()),
    }
}

/// Whether a step's failure is a communication error.
pub open spec fn step_is_comm(s: HeaderStep) -> bool {
    match s {
        HeaderStep::Fail(e) => e is RustAnalyzerComm,
        _ => true,
    }
}

/// The step after a header line `line` (of `bytes_read` bytes, zero at the
/// end of the stream), with `content_length` read so far.
pub open spec fn header_step_spec(content_length: Option<usize>, line: Seq<char>, bytes_read: usize) -> StepView {
    let t = trim(line);
    if bytes_read == 0 {
        StepView::End
    } else if t.len() == 0 {
        match content_length {
            Some(n) => StepView::Body(n),
            None => StepView::Fail("missing Content-Length header"@),
        }
    } else if has_prefix(t, "Content-Length: "@) {
        match parse_usize_spec(t.skip(16)) {
            Ok(n) => StepView::Next(Some(n)),
            Err(k) => StepView::Fail(parse_error_text(k)),
        }
    } else {
        StepView::Next(content_length)
    }
}

fn parse_error_message(k: ParseIntKind) -> (r: String)
    ensures
        r@ == parse_error_text(k),
{
    match k {
        ParseIntKind::Empty => "cannot parse integer from empty string".to_owned(),
        ParseIntKind::InvalidDigit => "invalid digit found in string".to_owned(),
        ParseIntKind::PosOverflow => "number too large to fit in target type".to_owned(),
    }
}

/// Decide what the header reader does with the line it just read: end of
/// stream, end of headers, a `Content-Length` header, or another header.
pub fn header_step(content_length: Option<usize>, header: &str, bytes_read: usize) -> (r: HeaderStep)
    ensures
        step_view(r) == header_step_spec(content_length, header@, bytes_read),
        step_is_comm(r),
{
    if bytes_read == 0 {
        return HeaderStep::End;
    }
    let line = chars_of(header);
    let t = trim_chars(&line);
    if t.len() == 0 {
        return match content_length {
            Some(n) => HeaderStep::Body(n),
            None => HeaderStep::Fail(LspError::RustAnalyzerComm("missing Content-Length header".to_owned())),
        };
    }
    if starts_with_str(&t, "Content-Length: ") {
        proof {
            reveal_strlit("Content-Length: ");
        }
        let value = slice_of(&t, 16, t.len());
        assert(value@ == t@.skip(16));
        match parse_usize(&value) {
            Ok(n) => HeaderStep::Next(Some(n)),
            Err(k) => HeaderStep::Fail(LspError::RustAnalyzerComm(parse_error_message(k))),
        }
    } else {
        HeaderStep::Next(content_length)
    }
}

// ---------------------------------------------------------------------------
// Reading back what was framed
// ---------------------------------------------------------------------------

/// The number a string of decimal digits denotes.
pub open spec fn digits_num(d: Seq<char>) -> nat
    decreases d.len(),
{
    if d.len() == 0 {
        0
    } else {
        digits_num(d.drop_last()) * 10 + ((d.last() as u32 - '0' as u32) as nat)
    }
}

/// Every character of `d` is a decimal digit.
pub open spec fn all_digits(d: Seq<char>) -> bool {
    forall|i: int| 0 <= i < d.len() ==> is_digit(#[trigger] d[i])
}

proof fn lemma_digit_char(d: nat)
    requires
        d < 10,
    ensures
        is_digit(digit_char(d)),
        (digit_char(d) as u32 - '0' as u32) as nat == d,
{
}

proof fn lemma_decimal_digits(n: nat)
    ensures
        all_digits(decimal(n)),
        digits_num(decimal(n)) == n,
        decimal(n).len() >= 1,
    decreases n,
{
    let d = decimal(n);
    if n < 10 {
        lemma_digit_char(n);
        assert(d == seq![digit_char(n)]);
        assert(d.drop_last() =~= Seq::<char>::empty());
        assert(digits_num(d.drop_last()) == 0);
        assert(d.last() == digit_char(n));
        assert(digits_num(d) == n);
    } else {
        lemma_digit_char(n % 10);
        lemma_decimal_digits(n / 10);
        assert(d.drop_last() =~= decimal(n / 10));
        assert(d.last() == digit_char(n % 10));
        assert((n / 10) * 10 + n % 10 == n) by (nonlinear_arith);
        assert(digits_num(d) == digits_num(d.drop_last()) * 10 + ((d.last() as u32 - '0' as u32) as nat));
        assert(digits_num(d) == n);
        assert forall|i: int| 0 <= i < d.len() implies is_digit(#[trigger] d[i]) by {
            if i < d.len() - 1 {
                assert(d[i] == decimal(n / 10)[i]);
            }
        }
    }
}

proof fn lemma_digits_num_prefix(d: Seq<char>, i: int, j: int)
    requires
        0 <= i <= j <= d.len(),
    ensures
        digits_num(d.take(i)) <= digits_num(d.take(j)),
    decreases j - i,
{
    if i < j {
        lemma_digits_num_prefix(d, i, j - 1);
        assert(d.take(j).drop_last() =~= d.take(j - 1));
    }
}

proof fn lemma_digits_value_reads(d: Seq<char>, i: int)
    requires
        0 <= i <= d.len(),
        all_digits(d),
        digits_num(d) <= usize::MAX,
    ensures
        digits_value(d, i, digits_num(d.take(i))) == Ok::<usize, ParseIntKind>(digits_num(d) as usize),
    decreases d.len() - i,
{
    if i == d.len() {
        assert(d.take(i) =~= d);
    } else {
        assert(d.take(i + 1).drop_last() =~= d.take(i));
        assert(is_digit(d[i]));
        lemma_digits_num_prefix(d, i + 1, d.len() as int);
        assert(d.take(d.len() as int) =~= d);
        lemma_digits_value_reads(d, i + 1);
    }
}

/// The decimal text of a number parses back to the number.
pub proof fn lemma_parse_decimal(n: nat)
    requires
        n <= usize::MAX,
    ensures
        parse_usize_spec(decimal(n)) == Ok::<usize, ParseIntKind>(n as usize),
{
    lemma_decimal_digits(n);
    let d = decimal(n);
    assert(is_digit(d[0]));
    lemma_digits_value_reads(d, 0);
    assert(d.take(0) =~= Seq::<char>::empty());
}

/// The header line of a message whose body has `len` bytes, as the reader
/// receives it.
pub open spec fn header_line(len: nat) -> Seq<char> {
    "Content-Length: "@ + decimal(len) + "\r\n"@
}

/// What the proxy frames, its reader reads back: a framed message is its
/// header line, a blank line and the body; the reader takes the header line
/// for the body's byte length, whatever it knew before, and the blank line
/// for the start of a body of exactly that length.
pub proof fn lemma_frame_reads_back(body: Seq<char>, known: Option<usize>, bytes_read: usize)
    requires
        byte_len(body) <= usize::MAX,
        bytes_read > 0,
    ensures
        framed(body) == header_line(byte_len(body)) + "\r\n"@ + body,
        header_step_spec(known, header_line(byte_len(body)), bytes_read)
            == StepView::Next(Some(byte_len(body) as usize)),
        header_step_spec(Some(byte_len(body) as usize), "\r\n"@, bytes_read)
            == StepView::Body(byte_len(body) as usize),
{
    let n = byte_len(body);
    reveal_strlit("Content-Length: ");
    reveal_strlit("\r\n");
    reveal_strlit("\r\n\r\n");
    assert("\r\n\r\n"@ =~= "\r\n"@ + "\r\n"@);
    assert(framed(body) =~= header_line(n) + "\r\n"@ + body);
    lemma_decimal_digits(n);
    lemma_parse_decimal(n);
    let head = "Content-Length: "@ + decimal(n);
    let line = header_line(n);
    assert(line =~= head + seq!['\r', '\n']);
    // leading: 'C' is no whitespace
    assert(line[0] == 'C');
    assert(skip_ws_from(line, 0) == 0);
    assert(trim_start(line) =~= line);
    // trailing: "\r\n" is dropped, then a digit ends the text
    let k = line.len() as int;
    assert(is_ws(line[k - 1]) && is_ws(line[k - 2]));
    let last_digit = line[k - 3];
    assert(last_digit == decimal(n)[decimal(n).len() - 1]);
    assert(is_digit(last_digit));
    assert(drop_ws_before(line, k - 2) == k - 2);
    assert(drop_ws_before(line, k - 1) == k - 2);
    assert(drop_ws_before(line, k) == k - 2);
    assert(trim(line) =~= head);
    assert(head.take(16) =~= "Content-Length: "@);
    assert(has_prefix(head, "Content-Length: "@));
    assert("Content-Length: "@.len() == 16);
    assert(head.skip(16) =~= decimal(n));
    // the blank line
    let blank = "\r\n"@;
    assert(blank =~= seq!['\r', '\n']);
    assert(skip_ws_from(blank, 2) == 2);
    assert(skip_ws_from(blank, 1) == 2);
    assert(skip_ws_from(blank, 0) == 2);
    assert(trim_start(blank).len() == 0);
    assert(trim(blank).len() == 0);
}

// ---------------------------------------------------------------------------
// Decoding message bodies
// ---------------------------------------------------------------------------

/// `serde_json::Value`, a parsed JSON document; opaque here.
#[verifier::external_type_specification]
#[verifier::external_body]
pub struct ExJsonValue(Value);

/// What routing reads of a message body that `serde_json::from_slice`
/// parses as a JSON value: its `id` field as an `i64` if it is one, and
/// whether it has a `result` field and an `error` field; `None` where the
/// body does not parse.
pub uninterp spec fn json_route_fields(body: Seq<u8>) -> Option<(Option<i64>, bool, bool)>;

/// The text of the error `serde_json::from_slice` reports for a body that
/// does not parse.
pub uninterp spec fn json_error_text(body: Seq<u8>) -> Seq<char>;

/// `serde_json::from_slice` into a `serde_json::Value`, with the fields that
/// routing reads (`Value::get` of `id` with `Value::as_i64`, and of `result`
/// and `error`); the error as its display text. The parse and the fields are
/// named by `json_route_fields` and `json_error_text`; nothing is claimed of
/// the returned value beyond them.
#[verifier::external_body]
fn parse_message_json(body: &[u8]) -> (r: Result<(Value, Option<i64>, bool, bool), String>)
    ensures
        match r {
            Ok((_, id, has_result, has_error)) => json_route_fields(body@) == Some((id, has_result, has_error)),
            Err(t) => json_route_fields(body@) is None && t@ == json_error_text(body@),
        },
{
    match serde_json::from_slice::<Value>(body) {
        Ok(v) => {
            let id = v.get("id").and_then(Value::as_i64);
            let has_result = v.get("result").is_some();
            let has_error = v.get("error").is_some();
            Ok((v, id, has_result, has_error))
        },
        Err(e) => Err(e.to_string()),
    }
}

/// A message read from rust-analyzer: the parsed body and what routing
/// reads of it.
pub struct DecodedMessage {
    /// The parsed JSON body.
    pub message: Value,
    /// The integer `id` field, if there is one.
    pub id: Option<i64>,
    /// Whether the body has a `result` field.
    pub has_result: bool,
    /// Whether the body has an `error` field.
    pub has_error: bool,
}

/// Decode a message body: the parsed message with its routing fields, or a
/// communication error with the parser's text where the body is not JSON.
pub fn decode_message(body: &[u8]) -> (r: Result<DecodedMessage, LspError>)
    ensures
        match r {
            Ok(m) => json_route_fields(body@) == Some((m.id, m.has_result, m.has_error)),
            Err(LspError::RustAnalyzerComm(t)) => json_route_fields(body@) is None && t@ == json_error_text(body@),
            Err(_) => false,
        },
{
    match parse_message_json(body) {
        Ok((message, id, has_result, has_error)) => Ok(DecodedMessage { message, id, has_result, has_error }),
        Err(t) => Err(LspError::RustAnalyzerComm(t)),
    }
}

// ---------------------------------------------------------------------------
// Pending requests
// ---------------------------------------------------------------------------

/// The id after `id`, wrapping around as an atomic `fetch_add` does.
pub open spec fn next_request_id(id: i64) -> i64 {
    if id == i64::MAX { i64::MIN } else { (id + 1) as i64 }
}

/// Requests sent and not yet answered, each with what awaits its response,
/// and the id the next request gets.
#[derive(Debug)]
pub struct PendingRequests<T> {
    pending: HashMap<i64, T>,
    next_id: i64,
}

impl<T> PendingRequests<T> {
    /// The waiting requests by id.
    pub closed spec fn waiting(&self) -> Map<i64, T> {
        self.pending@
    }

    /// The id the next request gets.
    pub closed spec fn upcoming(&self) -> i64 {
        self.next_id
    }

    /// No request waits; ids start at 1.
    pub fn new() -> (r: Self)
        ensures
            r.waiting() == Map::<i64, T>::empty(),
            r.upcoming() == 1,
    {
        PendingRequests { pending: HashMap::new(), next_id: 1 }
    }

    /// Hands out the next id and files `waiter` under it.
    pub fn register(&mut self, waiter: T) -> (id: i64)
        ensures
            id == old(self).upcoming(),
            final(self).upcoming() == next_request_id(old(self).upcoming()),
            final(self).waiting() == old(self).waiting().insert(id, waiter),
    {
        let id = self.next_id;
        self.next_id = self.next_id.wrapping_add(1);
        assert(self.next_id == next_request_id(id)) by {
            if id == i64::MAX {
                assert(self.next_id == i64::MIN);
            }
        }
        self.pending.insert(id, waiter);
        id
    }

    /// Takes out what awaits the response to `id`, if anything does.
    pub fn complete(&mut self, id: i64) -> (r: Option<T>)
        ensures
            r == old(self).waiting().get(id),
            final(self).waiting() == old(self).waiting().remove(id),
            final(self).upcoming() == old(self).upcoming(),
    {
        self.pending.remove(&id)
    }

    /// Whether a request with `id` is waiting.
    pub fn is_waiting(&self, id: i64) -> (r: bool)
        ensures
            r == self.waiting().contains_key(id),
    {
        self.pending.contains_key(&id)
    }

    /// Routes an incoming message: a response (an integer `id` with a
    /// `result` or an `error`) takes out the waiter of its request;
    /// anything else, a notification among them, is dropped.
    pub fn route_message(&mut self, id: Option<i64>, has_result: bool, has_error: bool) -> (r: Option<T>)
        ensures
            match id {
                Some(i) if has_result || has_error => r == old(self).waiting().get(i)
                    && final(self).waiting() == old(self).waiting().remove(i),
                _ => r is None && final(self).waiting() == old(self).waiting(),
            },
            final(self).upcoming() == old(self).upcoming(),
    {
        match id {
            Some(i) => {
                if has_result || has_error {
                    self.complete(i)
                } else {
                    None
                }
            },
            None => None,
        }
    }
}

/// A response is handed to the request that was registered under its id,
/// exactly once: registering `waiter` and then routing a response with the
/// id it got yields `waiter`, and a second response with that id yields
/// nothing; and consecutive requests get different ids.
pub proof fn lemma_response_reaches_its_request<T>(m: Map<i64, T>, id: i64, waiter: T)
    ensures
        m.insert(id, waiter).get(id) == Some(waiter),
        m.insert(id, waiter).remove(id).get(id) is None,
        next_request_id(id) != id,
{
}

} // verus!
