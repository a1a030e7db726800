//! Writers for the wire format.
//!
//! Numbers and the framing of records and sequences are written here. The
//! escaping of strings is left to `serde_json`. Its answer is a `Result`; the
//! writers keep a way out for a failure, by which the record, or the
//! sequence, degrades to its empty encoding, though on a string the encoder
//! has no failure to report.

use crate::grammar::{
    decimal, digit, empty_record, empty_sequence, is_number, is_string, joined,
    lemma_decimal_is_whole_number, lemma_percent_is_number, lemma_quoted_is_string, member,
    percent_text, quoted, record, sequence,
};
use crate::percent::Percent;
use vstd::prelude::*;

verus! {

/// `serde_json::Error`, carried through without a look inside.
#[verifier::external_type_specification]
#[verifier::external_body]
pub struct ExJsonError(serde_json::Error);

/// `serde_json::to_string` on a string slice.
///
/// Trusted: the call succeeds, and its text is the string token of the
/// input, that is a double quote, the input with `"` and `\` behind a
/// backslash, backspace, tab, line feed, form feed and carriage return as
/// `\b`, `\t`, `\n`, `\f`, `\r`, every other character below the space as
/// `\u00` and two small hexadecimal digits, every other character as it
/// is, and a double quote.
///
/// That it succeeds is read from the encoder: it fails where the value's own
/// `Serialize` fails, where a map has keys that are no strings, or where its
/// writer fails. A string slice is handed over as it is, it is no map, and
/// the writer is a vector in memory.
#[verifier::external_body]
fn json_string(s: &str) -> (r: Result<String, serde_json::Error>)
    ensures
        r is Ok,
        r matches Ok(t) ==> t@ == quoted(s@),
{
    serde_json::to_string(s)
}

/// The text that the encoder answered with, or `None` where its answer is a
/// failure.
pub fn answer_text(answer: Result<String, serde_json::Error>) -> (text: Option<String>)
    ensures
        text == match answer {
            Ok(t) => Some(t),
            Err(_) => None::<String>,
        },
{
    match answer {
        Ok(t) => Some(t),
        Err(_) => None,
    }
}

/// The string token of `s`. The encoder has no failure to report on a
/// string, so there always is one.
pub fn quote(s: &str) -> (token: Option<String>)
    ensures
        token matches Some(t) && t@ == quoted(s@) && is_string(t@),
{
    proof {
        lemma_quoted_is_string(s@);
    }
    answer_text(json_string(s))
}

/// The decimal digit `d` as text.
fn digit_str(d: u64) -> (s: &'static str)
    requires
        d < 10,
    ensures
        s@ == seq![digit(d as nat)],
{
    proof {
        reveal_strlit("0");
        reveal_strlit("1");
        reveal_strlit("2");
        reveal_strlit("3");
        reveal_strlit("4");
        reveal_strlit("5");
        reveal_strlit("6");
        reveal_strlit("7");
        reveal_strlit("8");
        reveal_strlit("9");
    }
    if d == 0 {
        "0"
    } else if d == 1 {
        "1"
    } else if d == 2 {
        "2"
    } else if d == 3 {
        "3"
    } else if d == 4 {
        "4"
    } else if d == 5 {
        "5"
    } else if d == 6 {
        "6"
    } else if d == 7 {
        "7"
    } else if d == 8 {
        "8"
    } else {
        "9"
    }
}

/// Appends the decimal digits of `n` to `out`.
fn push_decimal(out: &mut String, n: u64)
    ensures
        final(out)@ == old(out)@ + decimal(n as nat),
    decreases n,
{
    if n >= 10 {
        push_decimal(out, n / 10);
    }
    out.append(digit_str(n % 10));
}

/// The number `n` in decimal digits.
pub fn decimal_text(n: u64) -> (text: String)
    ensures
        text@ == decimal(n as nat),
        is_number(text@),
{
    let mut text = String::new();
    push_decimal(&mut text, n);
    proof {
        lemma_decimal_is_whole_number(n as nat);
    }
    text
}

/// The percentage `p` as a decimal number of percents.
pub fn percent_number(p: Percent) -> (text: String)
    ensures
        text@ == percent_text(p.hundredths as nat),
        is_number(text@),
{
    let h = p.hundredths;
    let mut text = String::new();
    push_decimal(&mut text, h / 100);
    proof {
        reveal_strlit(".");
    }
    text.append(".");
    text.append(digit_str(h / 10 % 10));
    if h % 10 != 0 {
        text.append(digit_str(h % 10));
    }
    proof {
        lemma_percent_is_number(h as nat);
    }
    text
}

/// Writes one record, member by member.
///
/// A member whose value is missing marks the record as failed; a failed
/// record finishes as the empty record.
pub struct RecordWriter {
    text: String,
    empty: bool,
    failed: bool,
    members: Ghost<Seq<Seq<char>>>,
}

impl RecordWriter {
    /// The text written so far is the opening brace and the members.
    pub closed spec fn wf(self) -> bool {
        &&& self.text@ == seq!['{'] + joined(self.members@)
        &&& self.empty == (self.members@.len() == 0)
    }

    /// The members written so far, in order.
    pub closed spec fn members(self) -> Seq<Seq<char>> {
        self.members@
    }

    /// Whether a member's value was missing.
    pub closed spec fn failed(self) -> bool {
        self.failed
    }

    /// What the record finishes as.
    pub open spec fn text(self) -> Seq<char> {
        if self.failed() {
            empty_record()
        } else {
            record(self.members())
        }
    }

    /// A writer with no members yet.
    pub fn new() -> (w: RecordWriter)
        ensures
            w.wf(),
            w.members() == Seq::<Seq<char>>::empty(),
            !w.failed(),
    {
        let mut text = String::new();
        proof {
            reveal_strlit("{");
        }
        text.append("{");
        assert(text@ =~= seq!['{'] + joined(Seq::<Seq<char>>::empty()));
        RecordWriter { text, empty: true, failed: false, members: Ghost(Seq::empty()) }
    }

    /// Writes the member `"key":value`, or marks the record as failed where
    /// there is no value.
    pub fn put(&mut self, key: &str, value: Option<String>)
        requires
            old(self).wf(),
        ensures
            final(self).wf(),
            final(self).members() == match value {
                Some(v) => old(self).members().push(member(key@, v@)),
                None => old(self).members(),
            },
            final(self).failed() == (old(self).failed() || value is None),
    {
        match value {
            Some(v) => {
                let ghost written = self.members@;
                proof {
                    reveal_strlit(",");
                    reveal_strlit("\"");
                    reveal_strlit("\":");
                }
                if !self.empty {
                    self.text.append(",");
                }
                self.text.append("\"");
                self.text.append(key);
                self.text.append("\":");
                self.text.append(v.as_str());
                self.empty = false;
                proof {
                    let now = written.push(member(key@, v@));
                    assert(now.drop_last() =~= written);
                    assert(self.text@ =~= seq!['{'] + joined(now));
                    self.members = Ghost(now);
                }
            },
            None => {
                self.failed = true;
            },
        }
    }

    /// The text of the record, or `None` where the record failed.
    pub fn into_text(self) -> (text: Option<String>)
        requires
            self.wf(),
        ensures
            text matches Some(t) ==> t@ == record(self.members()),
            text is None <==> self.failed(),
    {
        if self.failed {
            None
        } else {
            let mut text = self.text;
            proof {
                reveal_strlit("}");
            }
            text.append("}");
            Some(text)
        }
    }

    /// The text of the record, or the empty record where the record failed.
    pub fn finish(self) -> (text: String)
        requires
            self.wf(),
        ensures
            text@ == self.text(),
    {
        match self.into_text() {
            Some(t) => t,
            None => empty_record_text(),
        }
    }
}

/// Writes one sequence, item by item.
///
/// A missing item marks the sequence as failed; a failed sequence finishes as
/// the empty sequence.
pub struct SequenceWriter {
    text: String,
    empty: bool,
    failed: bool,
    items: Ghost<Seq<Seq<char>>>,
}

impl SequenceWriter {
    /// The text written so far is the opening bracket and the items.
    pub closed spec fn wf(self) -> bool {
        &&& self.text@ == seq!['['] + joined(self.items@)
        &&& self.empty == (self.items@.len() == 0)
    }

    /// The items written so far, in order.
    pub closed spec fn items(self) -> Seq<Seq<char>> {
        self.items@
    }

    /// Whether an item was missing.
    pub closed spec fn failed(self) -> bool {
        self.failed
    }

    /// What the sequence finishes as.
    pub open spec fn text(self) -> Seq<char> {
        if self.failed() {
            empty_sequence()
        } else {
            sequence(self.items())
        }
    }

    /// A writer with no items yet.
    pub fn new() -> (w: SequenceWriter)
        ensures
            w.wf(),
            w.items() == Seq::<Seq<char>>::empty(),
            !w.failed(),
    {
        let mut text = String::new();
        proof {
            reveal_strlit("[");
        }
        text.append("[");
        assert(text@ =~= seq!['['] + joined(Seq::<Seq<char>>::empty()));
        SequenceWriter { text, empty: true, failed: false, items: Ghost(Seq::empty()) }
    }

    /// Writes one more item, or marks the sequence as failed where the item
    /// is missing.
    pub fn put(&mut self, item: Option<String>)
        requires
            old(self).wf(),
        ensures
            final(self).wf(),
            final(self).items() == match item {
                Some(t) => old(self).items().push(t@),
                None => old(self).items(),
            },
            final(self).failed() == (old(self).failed() || item is None),
    {
        match item {
            Some(t) => {
                let ghost written = self.items@;
                proof {
                    reveal_strlit(",");
                }
                if !self.empty {
                    self.text.append(",");
                }
                self.text.append(t.as_str());
                self.empty = false;
                proof {
                    let now = written.push(t@);
                    assert(now.drop_last() =~= written);
                    assert(self.text@ =~= seq!['['] + joined(now));
                    self.items = Ghost(now);
                }
            },
            None => {
                self.failed = true;
            },
        }
    }

    /// The text of the sequence, or the empty sequence where it failed.
    pub fn finish(self) -> (text: String)
        requires
            self.wf(),
        ensures
            text@ == self.text(),
    {
        if self.failed {
            empty_sequence_text()
        } else {
            let mut text = self.text;
            proof {
                reveal_strlit("]");
            }
            text.append("]");
            text
        }
    }
}

/// The empty record, `{}`.
pub fn empty_record_text() -> (text: String)
    ensures
        text@ == empty_record(),
{
    proof {
        reveal_strlit("{}");
    }
    String::from_str("{}")
}

/// The empty sequence, `[]`.
pub fn empty_sequence_text() -> (text: String)
    ensures
        text@ == empty_sequence(),
{
    proof {
        reveal_strlit("[]");
    }
    String::from_str("[]")
}

} // verus!
