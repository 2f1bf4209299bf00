use vstd::prelude::*;
use crate::error::{message_of, Error};
use crate::slate_id::hex_digit;

verus! {

/// A character that a JSON string literal has to escape.
pub open spec fn needs_escape(c: char) -> bool {
    c == '"' || c == '\\' || (c as u32) < 0x20
}

/// How a JSON string literal writes one character: quotes and backslashes
/// after a backslash, the usual short escapes for backspace, tab, line feed,
/// form feed and carriage return, other control characters as `\u00` and two
/// lower-case hex digits, and every other character as it is.
pub open spec fn escape_char(c: char) -> Seq<char> {
    let n = c as u32;
    if c == '"' {
        seq!['\\', '"']
    } else if c == '\\' {
        seq!['\\', '\\']
    } else if n == 0x08 {
        seq!['\\', 'b']
    } else if n == 0x09 {
        seq!['\\', 't']
    } else if n == 0x0a {
        seq!['\\', 'n']
    } else if n == 0x0c {
        seq!['\\', 'f']
    } else if n == 0x0d {
        seq!['\\', 'r']
    } else if n < 0x20 {
        seq!['\\', 'u', '0', '0', hex_digit((n / 16) as nat), hex_digit((n % 16) as nat)]
    } else {
        seq![c]
    }
}

/// The characters of a text as a JSON string literal writes them.
pub open spec fn json_escaped(s: Seq<char>) -> Seq<char>
    decreases s.len(),
{
    if s.len() == 0 {
        Seq::empty()
    } else {
        json_escaped(s.drop_last()) + escape_char(s.last())
    }
}

/// The JSON string literal of a text: its escaped characters in double quotes.
pub open spec fn json_quoted(s: Seq<char>) -> Seq<char> {
    seq!['"'] + json_escaped(s) + seq!['"']
}

/// A text with nothing to escape is written as it is.
pub proof fn lemma_json_escaped_plain(s: Seq<char>)
    requires
        forall|i: int| 0 <= i < s.len() ==> !needs_escape(#[trigger] s[i]),
    ensures
        json_escaped(s) == s,
    decreases s.len(),
{
    if s.len() > 0 {
        let t = s.drop_last();
        assert forall|i: int| 0 <= i < t.len() implies !needs_escape(#[trigger] t[i]) by {
            assert(t[i] == s[i]);
        }
        lemma_json_escaped_plain(t);
        assert(!needs_escape(s[s.len() - 1]));
        assert(s =~= t + seq![s.last()]);
    }
}

/// Relies on `serde_json::to_string` for a `str`, which cannot fail there:
/// the text between double quotes, escaped as its escape table says.
#[verifier::external_body]
pub(crate) fn json_string(s: &str) -> (r: String)
    ensures
        r@ == json_quoted(s@),
{
    match serde_json::to_string(s) {
        Ok(j) => j,
        Err(_) => String::new(),
    }
}

/// What every boundary call hands back: a payload, and a flag that tells an
/// error from a result.
#[derive(Clone, Debug)]
pub struct BridgeReply {
    /// The JSON result, or the error message as a JSON string.
    pub payload: String,
    pub is_error: bool,
}

/// Turns the outcome of an operation into its boundary reply: a result is
/// passed on as it is, an error becomes its message as a JSON string, with
/// the error flag set.
pub fn reply(outcome: Result<String, Error>) -> (r: BridgeReply)
    ensures
        match outcome {
            Ok(s) => !r.is_error && r.payload@ == s@,
            Err(e) => r.is_error && r.payload@ == json_quoted(message_of(e.inner)),
        },
{
    match outcome {
        Ok(s) => BridgeReply { payload: s, is_error: false },
        Err(e) => {
            let m = e.message();
            BridgeReply { payload: json_string(m.as_str()), is_error: true }
        },
    }
}

/// The reply for a call whose outcome carries no result.
pub fn reply_unit(outcome: Result<(), Error>) -> (r: BridgeReply)
    ensures
        match outcome {
            Ok(_) => !r.is_error && r.payload@.len() == 0,
            Err(e) => r.is_error && r.payload@ == json_quoted(message_of(e.inner)),
        },
{
    match outcome {
        Ok(_) => BridgeReply { payload: String::new(), is_error: false },
        Err(e) => reply(Err(e)),
    }
}

} // verus!
