//! Lifecycle notifications posted to the control service.
//!
//! The scheduler describes its progress through fire-and-forget events.
//! This module also renders each event's JSON request body, so the driver
//! only posts the finished text: the tag, the escaped message text, the
//! indices, and the pause duration (milliseconds rendered as decimal
//! seconds) are all laid down here, character by character.

use vstd::prelude::*;
use vstd::string::StrSliceExecFns;
use vstd::string::StringExecFns;

verus! {

/// A tagged lifecycle notification record.
pub enum PlotUpdateAction {
    /// A countdown pause announced to the audience: message text and the
    /// pause duration in milliseconds.
    PlotArtCountdownPause(String, u64),
    /// A non-blocking chat message.
    PlotArtChatMessage(String),
    /// The run started.
    PlotArtStart,
    /// The run completed.
    PlotArtStop,
    /// Increment `index` out of an estimated total is being prepared.
    PlotIncrPrepare(usize, usize),
    /// Increment `index` was published for plotting.
    PlotIncrStart(usize),
    /// Increment `index` was consumed by the plotter.
    PlotIncrEnd(usize),
    /// The predictive preview artifact was rewritten.
    PlotPredictiveWritten,
}

/// The character of a decimal digit.
pub open spec fn digit_char(d: nat) -> char {
    ((48 + (d % 10)) as u8) as char
}

/// The decimal rendering of a number, most significant digit first, with
/// no leading zero except for zero itself.
pub open spec fn dec_spec(n: nat) -> Seq<char>
    decreases n,
{
    if n < 10 {
        seq![digit_char(n)]
    } else {
        dec_spec(n / 10).push(digit_char(n % 10))
    }
}

/// The character of a hexadecimal digit, lower case.
pub open spec fn hex_digit_char(d: nat) -> char {
    if d < 10 {
        ((48 + d) as u8) as char
    } else {
        ((87 + d) as u8) as char
    }
}

/// How one character is written inside a JSON string literal: quote and
/// backslash are escaped, the common control characters by their short
/// names, any other control character numerically, and everything else
/// stands as it is.
pub open spec fn esc_char_spec(c: char) -> Seq<char> {
    if c == '"' {
        seq!['\\', '"']
    } else if c == '\\' {
        seq!['\\', '\\']
    } else if c == '\n' {
        seq!['\\', 'n']
    } else if c == '\r' {
        seq!['\\', 'r']
    } else if c == '\t' {
        seq!['\\', 't']
    } else if (c as u32) < 32 {
        seq!['\\', 'u', '0', '0', hex_digit_char((c as u32 / 16) as nat), hex_digit_char(
            (c as u32 % 16) as nat,
        )]
    } else {
        seq![c]
    }
}

/// A text as it is written inside a JSON string literal.
pub open spec fn json_escape(s: Seq<char>) -> Seq<char>
    decreases s.len(),
{
    if s.len() == 0 {
        Seq::empty()
    } else {
        json_escape(s.drop_last()) + esc_char_spec(s.last())
    }
}

/// A pause duration in milliseconds rendered as decimal seconds: the
/// whole seconds, then the fractional milliseconds with trailing zeros
/// trimmed and no fraction at all for a whole number.
pub open spec fn duration_secs_spec(ms: nat) -> Seq<char> {
    let whole = ms / 1000;
    let f = ms % 1000;
    if f == 0 {
        dec_spec(whole)
    } else if f % 10 != 0 {
        dec_spec(whole) + seq!['.', digit_char(f / 100), digit_char((f / 10) % 10), digit_char(
            f % 10,
        )]
    } else if f % 100 != 0 {
        dec_spec(whole) + seq!['.', digit_char(f / 100), digit_char((f / 10) % 10)]
    } else {
        dec_spec(whole) + seq!['.', digit_char(f / 100)]
    }
}

/// The JSON body posted for a notification.
pub open spec fn plot_update_body_spec(a: PlotUpdateAction) -> Seq<char> {
    match a {
        PlotUpdateAction::PlotArtCountdownPause(text, ms) => "{\"type\":\"art-countdown-pause\",\"text\":\""@
            + json_escape(text@) + "\",\"duration\":"@ + duration_secs_spec(ms as nat) + "}"@,
        PlotUpdateAction::PlotArtChatMessage(text) => "{\"type\":\"chat-message\",\"text\":\""@
            + json_escape(text@) + "\"}"@,
        PlotUpdateAction::PlotArtStart => "{\"type\":\"art-start\"}"@,
        PlotUpdateAction::PlotArtStop => "{\"type\":\"art-stop\"}"@,
        PlotUpdateAction::PlotIncrPrepare(index, total) => "{\"type\":\"incr-prepare\",\"index\":"@
            + dec_spec(index as nat) + ",\"total\":"@ + dec_spec(total as nat) + "}"@,
        PlotUpdateAction::PlotIncrStart(index) => "{\"type\":\"incr-start\",\"index\":"@ + dec_spec(
            index as nat,
        ) + "}"@,
        PlotUpdateAction::PlotIncrEnd(index) => "{\"type\":\"incr-end\",\"index\":"@ + dec_spec(
            index as nat,
        ) + "}"@,
        PlotUpdateAction::PlotPredictiveWritten => "{\"type\":\"predictive\"}"@,
    }
}

/// Relies on `String::from_iter` over `char`: collecting characters
/// yields the string of exactly those characters, in order.
#[verifier::external_body]
fn chars_to_string(v: Vec<char>) -> (s: String)
    ensures
        s@ == v@,
{
    v.into_iter().collect()
}

/// Appends the decimal rendering of `n`.
fn push_dec(out: &mut Vec<char>, n: u64)
    ensures
        final(out)@ == old(out)@ + dec_spec(n as nat),
    decreases n,
{
    if n >= 10 {
        push_dec(out, n / 10);
    }
    let d = (n % 10) as u8;
    out.push((48 + d) as char);
    proof {
        if n >= 10 {
            assert(dec_spec(n as nat) =~= dec_spec(n as nat / 10) + seq![
                digit_char(n as nat % 10),
            ]);
        }
        assert(final(out)@ =~= old(out)@ + dec_spec(n as nat));
    }
}

/// Appends the JSON escape of one character.
fn push_esc_char(out: &mut Vec<char>, c: char)
    ensures
        final(out)@ == old(out)@ + esc_char_spec(c),
{
    if c == '"' {
        out.push('\\');
        out.push('"');
    } else if c == '\\' {
        out.push('\\');
        out.push('\\');
    } else if c == '\n' {
        out.push('\\');
        out.push('n');
    } else if c == '\r' {
        out.push('\\');
        out.push('r');
    } else if c == '\t' {
        out.push('\\');
        out.push('t');
    } else {
        let code = c as u32;
        if code < 32 {
            out.push('\\');
            out.push('u');
            out.push('0');
            out.push('0');
            let hi = (code / 16) as u8;
            out.push(if hi < 10 {
                (48 + hi) as char
            } else {
                (87 + hi) as char
            });
            let lo = (code % 16) as u8;
            out.push(if lo < 10 {
                (48 + lo) as char
            } else {
                (87 + lo) as char
            });
        } else {
            out.push(c);
        }
    }
    proof {
        assert(final(out)@ =~= old(out)@ + esc_char_spec(c));
    }
}

/// Appends the JSON escape of a whole text.
fn push_escaped(out: &mut Vec<char>, s: &str)
    ensures
        final(out)@ == old(out)@ + json_escape(s@),
{
    let n = s.unicode_len();
    let mut i: usize = 0;
    while i < n
        invariant
            n == s@.len(),
            i <= n,
            out@ == old(out)@ + json_escape(s@.take(i as int)),
        decreases n - i,
    {
        let c = s.get_char(i);
        push_esc_char(out, c);
        proof {
            assert(s@.take(i as int + 1).drop_last() =~= s@.take(i as int));
            assert(s@.take(i as int + 1).last() == s@[i as int]);
            assert(out@ =~= old(out)@ + json_escape(s@.take(i as int + 1)));
        }
        i = i + 1;
    }
    proof {
        assert(s@.take(n as int) =~= s@);
    }
}

/// Appends a duration in milliseconds as decimal seconds.
fn push_duration_secs(out: &mut Vec<char>, ms: u64)
    ensures
        final(out)@ == old(out)@ + duration_secs_spec(ms as nat),
{
    let whole = ms / 1000;
    let f = ms % 1000;
    push_dec(out, whole);
    if f != 0 {
        out.push('.');
        if f % 10 != 0 {
            out.push((48 + (f / 100) as u8) as char);
            out.push((48 + ((f / 10) % 10) as u8) as char);
            out.push((48 + (f % 10) as u8) as char);
        } else if f % 100 != 0 {
            out.push((48 + (f / 100) as u8) as char);
            out.push((48 + ((f / 10) % 10) as u8) as char);
        } else {
            out.push((48 + (f / 100) as u8) as char);
        }
    }
    proof {
        assert(final(out)@ =~= old(out)@ + duration_secs_spec(ms as nat));
    }
}

/// The escaped text, collected.
fn escaped_string(s: &str) -> (r: String)
    ensures
        r@ == json_escape(s@),
{
    let mut v: Vec<char> = Vec::new();
    push_escaped(&mut v, s);
    chars_to_string(v)
}

/// The decimal rendering, collected.
fn dec_string(n: u64) -> (r: String)
    ensures
        r@ == dec_spec(n as nat),
{
    let mut v: Vec<char> = Vec::new();
    push_dec(&mut v, n);
    chars_to_string(v)
}

/// The duration rendering, collected.
fn duration_string(ms: u64) -> (r: String)
    ensures
        r@ == duration_secs_spec(ms as nat),
{
    let mut v: Vec<char> = Vec::new();
    push_duration_secs(&mut v, ms);
    chars_to_string(v)
}

/// Renders the JSON body the driver posts for a notification.
pub fn plot_update_body(action: &PlotUpdateAction) -> (body: String)
    ensures
        body@ == plot_update_body_spec(*action),
{
    let mut body = String::new();
    match action {
        PlotUpdateAction::PlotArtCountdownPause(text, ms) => {
            body.append("{\"type\":\"art-countdown-pause\",\"text\":\"");
            body.append(escaped_string(text.as_str()).as_str());
            body.append("\",\"duration\":");
            body.append(duration_string(*ms).as_str());
            body.append("}");
        }
        PlotUpdateAction::PlotArtChatMessage(text) => {
            body.append("{\"type\":\"chat-message\",\"text\":\"");
            body.append(escaped_string(text.as_str()).as_str());
            body.append("\"}");
        }
        PlotUpdateAction::PlotArtStart => {
            body.append("{\"type\":\"art-start\"}");
        }
        PlotUpdateAction::PlotArtStop => {
            body.append("{\"type\":\"art-stop\"}");
        }
        PlotUpdateAction::PlotIncrPrepare(index, total) => {
            body.append("{\"type\":\"incr-prepare\",\"index\":");
            body.append(dec_string(*index as u64).as_str());
            body.append(",\"total\":");
            body.append(dec_string(*total as u64).as_str());
            body.append("}");
        }
        PlotUpdateAction::PlotIncrStart(index) => {
            body.append("{\"type\":\"incr-start\",\"index\":");
            body.append(dec_string(*index as u64).as_str());
            body.append("}");
        }
        PlotUpdateAction::PlotIncrEnd(index) => {
            body.append("{\"type\":\"incr-end\",\"index\":");
            body.append(dec_string(*index as u64).as_str());
            body.append("}");
        }
        PlotUpdateAction::PlotPredictiveWritten => {
            body.append("{\"type\":\"predictive\"}");
        }
    }
    proof {
        assert(body@ =~= plot_update_body_spec(*action));
    }
    body
}

} // verus!
