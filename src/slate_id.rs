use vstd::prelude::*;
use crate::bridge::{json_string, lemma_json_escaped_plain, needs_escape};
use crate::error::{Error, ErrorKind};

verus! {

/// The lower-case hexadecimal digit of a value below sixteen.
pub open spec fn hex_digit(n: nat) -> char {
    seq!['0', '1', '2', '3', '4', '5', '6', '7', '8', '9', 'a', 'b', 'c', 'd', 'e', 'f'][n as int]
}

/// The `count` lowest hexadecimal digits of `v`, most significant first.
pub open spec fn hex_digits(v: nat, count: nat) -> Seq<char>
    decreases count,
{
    if count == 0 {
        Seq::empty()
    } else {
        hex_digits(v / 16, (count - 1) as nat).push(hex_digit(v % 16))
    }
}

/// The hyphenated lower-case text of a 128-bit slate id, in groups of
/// 8, 4, 4, 4 and 12 digits.
pub open spec fn hyphenated_text(v: u128) -> Seq<char> {
    let d = hex_digits(v as nat, 32);
    d.subrange(0, 8) + seq!['-'] + d.subrange(8, 12) + seq!['-'] + d.subrange(12, 16) + seq!['-']
        + d.subrange(16, 20) + seq!['-'] + d.subrange(20, 32)
}

/// The 128-bit value of a slate id text as the uuid parser reads it, if the
/// text is a slate id in one of its accepted forms.
pub uninterp spec fn uuid_value_of(s: Seq<char>) -> Option<u128>;

/// Relies on `uuid::Uuid::parse_str`, read through `Uuid::as_u128`: the
/// hyphenated text of a value gives that value back, and only texts of 32, 36,
/// 38 or 45 characters are accepted.
#[verifier::external_body]
pub(crate) fn parse_uuid(s: &str) -> (r: Option<u128>)
    ensures
        r == uuid_value_of(s@),
        forall|v: u128| #[trigger] hyphenated_text(v) == s@ ==> r == Some(v),
        r.is_some() ==> (s@.len() == 32 || s@.len() == 36 || s@.len() == 38 || s@.len() == 45),
{
    match uuid::Uuid::parse_str(s) {
        Ok(u) => Some(u.as_u128()),
        Err(_) => None,
    }
}

/// Relies on `uuid::Uuid::from_u128` and its `Display`, which writes the
/// hyphenated lower-case form.
#[verifier::external_body]
pub(crate) fn format_uuid(v: u128) -> (r: String)
    ensures
        r@ == hyphenated_text(v),
{
    uuid::Uuid::from_u128(v).to_string()
}

/// The id shared by a slate and its transaction log entry.
#[derive(Clone, Copy, Debug, PartialEq, Eq, Structural)]
pub struct SlateId {
    pub value: u128,
}

impl SlateId {
    /// Reads a slate id from its text; `None` where the text is not one.
    pub fn parse(text: &str) -> (r: Option<SlateId>)
        ensures
            r == (match uuid_value_of(text@) {
                Some(v) => Some(SlateId { value: v }),
                None => None::<SlateId>,
            }),
            forall|v: u128| #[trigger] hyphenated_text(v) == text@ ==> r == Some(SlateId { value: v }),
    {
        match parse_uuid(text) {
            Some(v) => Some(SlateId { value: v }),
            None => None,
        }
    }

    /// The hyphenated text of this id.
    pub fn to_text(&self) -> (r: String)
        ensures
            r@ == hyphenated_text(self.value),
    {
        format_uuid(self.value)
    }

    /// Writes this id and reads it back: the same id comes out.
    pub fn reparse(&self) -> (r: Option<SlateId>)
        ensures
            r == Some(*self),
    {
        let text = self.to_text();
        SlateId::parse(text.as_str())
    }
}

proof fn lemma_hex_digits_plain(v: nat, count: nat)
    ensures
        hex_digits(v, count).len() == count,
        forall|i: int| 0 <= i < count ==> !needs_escape(#[trigger] hex_digits(v, count)[i]),
    decreases count,
{
    if count > 0 {
        lemma_hex_digits_plain(v / 16, (count - 1) as nat);
        let k = v % 16;
        let c = hex_digit(k);
        assert(!needs_escape(c)) by {
            let table = seq!['0', '1', '2', '3', '4', '5', '6', '7', '8', '9', 'a', 'b', 'c', 'd', 'e', 'f'];
            assert(forall|j: int| 0 <= j < 16 ==> !needs_escape(#[trigger] table[j]));
        }
        let d = hex_digits(v, count);
        assert forall|i: int| 0 <= i < count implies !needs_escape(#[trigger] d[i]) by {
            if i < count - 1 {
                assert(d[i] == hex_digits(v / 16, (count - 1) as nat)[i]);
            }
        }
    }
}

proof fn lemma_hyphenated_plain(v: u128)
    ensures
        hyphenated_text(v).len() == 36,
        forall|i: int| 0 <= i < 36 ==> !needs_escape(#[trigger] hyphenated_text(v)[i]),
{
    let d = hex_digits(v as nat, 32);
    lemma_hex_digits_plain(v as nat, 32);
    let t = hyphenated_text(v);
    assert forall|i: int| 0 <= i < 36 implies !needs_escape(#[trigger] t[i]) by {
        if i < 8 {
            assert(t[i] == d[i]);
        } else if i == 8 || i == 13 || i == 18 || i == 23 {
            assert(t[i] == '-');
        } else if i < 13 {
            assert(t[i] == d[i - 1]);
        } else if i < 18 {
            assert(t[i] == d[i - 2]);
        } else if i < 23 {
            assert(t[i] == d[i - 3]);
        } else {
            assert(t[i] == d[i - 4]);
        }
    }
}

/// Reads a slate id from its text, or reports the text as no slate id.
pub fn slate_id_from_text(text: &str) -> (r: Result<SlateId, Error>)
    ensures
        match uuid_value_of(text@) {
            Some(v) => r == Ok::<SlateId, Error>(SlateId { value: v }),
            None => r.is_err() && match r.unwrap_err().inner {
                ErrorKind::InvalidSlateId(m) => m@ == text@,
                _ => false,
            },
        },
{
    match SlateId::parse(text) {
        Some(id) => Ok(id),
        None => Err(Error::new(ErrorKind::InvalidSlateId(String::from_str(text)))),
    }
}

/// The JSON string of a slate id: its hyphenated text in double quotes.
pub fn slate_id_json(id: SlateId) -> (r: String)
    ensures
        r@ == seq!['"'] + hyphenated_text(id.value) + seq!['"'],
{
    let text = id.to_text();
    proof {
        lemma_hyphenated_plain(id.value);
        lemma_json_escaped_plain(hyphenated_text(id.value));
    }
    json_string(text.as_str())
}

} // verus!
