//! Entries of the event log, as a read of a partition returns them.

use crate::decimal::{
    all_digits,
    decimal_string,
    decimal_text,
    decimal_value,
    is_digit,
    lemma_decimal_text_reads_back,
    read_decimal,
};
use vstd::prelude::*;
use vstd::string::StringExecFns;

verus! {

/// The position of an entry in its partition: the millisecond at which it was
/// appended and its number within that millisecond.
#[derive(Clone, Copy, Debug, PartialEq, Eq, Structural)]
pub struct EntryId {
    pub ms: u64,
    pub seq: u64,
}

impl EntryId {
    /// Whether this position lies before the other.
    pub open spec fn spec_precedes(self, other: EntryId) -> bool {
        self.ms < other.ms || (self.ms == other.ms && self.seq < other.seq)
    }

    /// Whether this position lies before the other.
    #[verifier::when_used_as_spec(spec_precedes)]
    pub fn precedes(self, other: EntryId) -> (b: bool)
        ensures
            b == self.spec_precedes(other),
    {
        self.ms < other.ms || (self.ms == other.ms && self.seq < other.seq)
    }

    /// The position before every entry.
    pub open spec fn spec_start() -> EntryId {
        EntryId { ms: 0, seq: 0 }
    }

    /// The position before every entry.
    #[verifier::when_used_as_spec(spec_start)]
    pub fn start() -> (id: EntryId)
        ensures
            id == EntryId::spec_start(),
    {
        EntryId { ms: 0, seq: 0 }
    }
}

/// A position as the log writes it: the millisecond and the number, in
/// decimal, with a hyphen between them.
pub open spec fn id_text(id: EntryId) -> Seq<char> {
    decimal_text(id.ms as nat) + seq!['-'] + decimal_text(id.seq as nat)
}

/// The written form of a position is made of two numbers in decimal and one
/// hyphen, which is its first and only one.
pub proof fn lemma_id_text_shape(id: EntryId)
    ensures
        ({
            let ms = decimal_text(id.ms as nat);
            let seq = decimal_text(id.seq as nat);
            let text = id_text(id);
            &&& text.len() == ms.len() + 1 + seq.len()
            &&& text[ms.len() as int] == '-'
            &&& forall|i: int| 0 <= i < ms.len() ==> #[trigger] text[i] != '-'
            &&& text.subrange(0, ms.len() as int) == ms
            &&& text.subrange(ms.len() as int + 1, text.len() as int) == seq
            &&& ms.len() >= 1 && all_digits(ms) && decimal_value(ms) == id.ms
            &&& seq.len() >= 1 && all_digits(seq) && decimal_value(seq) == id.seq
        }),
{
    let ms = decimal_text(id.ms as nat);
    let seq = decimal_text(id.seq as nat);
    let text = id_text(id);
    lemma_decimal_text_reads_back(id.ms as nat);
    lemma_decimal_text_reads_back(id.seq as nat);
    assert forall|i: int| 0 <= i < ms.len() implies #[trigger] text[i] != '-' by {
        assert(text[i] == ms[i]);
        assert(is_digit(ms[i]));
    }
    assert(text.subrange(0, ms.len() as int) =~= ms);
    assert(text.subrange(ms.len() as int + 1, text.len() as int) =~= seq);
}

/// Two positions that are written alike are the same position: what
/// [`EntryId::parse`] makes of the written form of a position is that
/// position.
pub proof fn lemma_written_positions_differ(a: EntryId, b: EntryId)
    requires
        id_text(a) == id_text(b),
    ensures
        a == b,
{
    lemma_id_text_shape(a);
    lemma_id_text_shape(b);
    let text = id_text(a);
    let at_a = decimal_text(a.ms as nat).len() as int;
    let at_b = decimal_text(b.ms as nat).len() as int;
    if at_a < at_b {
        assert(text[at_a] != '-');
    }
    if at_b < at_a {
        assert(text[at_b] != '-');
    }
}

/// The order of positions is a strict total order.
pub proof fn lemma_positions_are_ordered(a: EntryId, b: EntryId, c: EntryId)
    ensures
        !a.precedes(a),
        a.precedes(b) && b.precedes(c) ==> a.precedes(c),
        a.precedes(b) || b.precedes(a) || a == b,
{
}

/// The characters of a string.
fn characters(text: &str) -> (chars: Vec<char>)
    ensures
        chars@ == text@,
{
    let mut chars: Vec<char> = Vec::new();
    for c in it: text.chars()
        invariant
            it.seq() == text@,
            chars@ == text@.subrange(0, it.index() as int),
    {
        chars.push(c);
        assert(text@.subrange(0, it.index() + 1) =~= text@.subrange(0, it.index() as int).push(c));
    }
    assert(text@.subrange(0, text@.len() as int) =~= text@);
    chars
}

impl EntryId {
    /// The position as the log writes it.
    pub fn text(&self) -> (text: String)
        ensures
            text@ == id_text(*self),
    {
        proof {
            reveal_strlit("-");
        }
        let text = decimal_string(self.ms).concat("-").concat(decimal_string(self.seq).as_str());
        assert(text@ =~= id_text(*self));
        text
    }

    /// The position that the text is the written form of, if it is one.
    pub fn parse(text: &str) -> (id: Option<EntryId>)
        ensures
            match id {
                Some(id) => id_text(id) == text@,
                None => forall|other: EntryId| #[trigger] id_text(other) != text@,
            },
    {
        let chars = characters(text);
        let mut hyphen: usize = 0;
        while hyphen < chars.len() && chars[hyphen] != '-'
            invariant
                hyphen <= chars.len(),
                forall|j: int| 0 <= j < hyphen ==> #[trigger] chars@[j] != '-',
            decreases chars.len() - hyphen,
        {
            hyphen += 1;
        }
        proof {
            assert forall|other: EntryId| #[trigger] id_text(other) == chars@ implies hyphen
                == decimal_text(other.ms as nat).len() && chars@.subrange(0, hyphen as int)
                == decimal_text(other.ms as nat) && chars@.subrange(
                hyphen as int + 1,
                chars@.len() as int,
            ) == decimal_text(other.seq as nat) by {
                lemma_id_text_shape(other);
                let at = decimal_text(other.ms as nat).len() as int;
                assert(chars@[at] == '-');
                if hyphen < at {
                    assert(chars@[hyphen as int] != '-');
                }
            }
        }
        if hyphen == chars.len() {
            return None;
        }
        let ms = match read_decimal(&chars, 0, hyphen) {
            Some(ms) => ms,
            None => {
                proof {
                    assert forall|other: EntryId| #[trigger] id_text(other) != text@ by {
                        if id_text(other) == chars@ {
                            lemma_id_text_shape(other);
                        }
                    }
                }
                return None;
            },
        };
        let seq = match read_decimal(&chars, hyphen + 1, chars.len()) {
            Some(seq) => seq,
            None => {
                proof {
                    assert forall|other: EntryId| #[trigger] id_text(other) != text@ by {
                        if id_text(other) == chars@ {
                            lemma_id_text_shape(other);
                        }
                    }
                }
                return None;
            },
        };
        let id = EntryId { ms, seq };
        if id.text() == String::from_str(text) {
            Some(id)
        } else {
            proof {
                assert forall|other: EntryId| #[trigger] id_text(other) != text@ by {
                    if id_text(other) == chars@ {
                        lemma_id_text_shape(other);
                        assert(other == id);
                    }
                }
            }
            None
        }
    }
}

/// The value of one field of an entry: a string of bytes, or anything else
/// the log can hold.
#[derive(Debug, PartialEq, Eq)]
pub enum EntryValue {
    Data(Vec<u8>),
    Other,
}

/// One named field of an entry.
#[derive(Debug, PartialEq, Eq)]
pub struct EntryField {
    pub name: String,
    pub value: EntryValue,
}

/// One entry of a partition.
#[derive(Debug, PartialEq, Eq)]
pub struct LogEntry {
    pub id: EntryId,
    pub fields: Vec<EntryField>,
}

/// The index of the first field with the given name, or the number of fields
/// if there is none.
pub open spec fn field_index(fields: Seq<EntryField>, name: Seq<char>) -> int
    decreases fields.len(),
{
    if fields.len() == 0 {
        0
    } else if fields[0].name@ == name {
        0
    } else {
        1 + field_index(fields.drop_first(), name)
    }
}

/// The position up to which a reader has got once it has walked the entries
/// from the given position: the latest position among them and it.
pub open spec fn cursor_after(entries: Seq<LogEntry>, cursor: EntryId) -> EntryId
    decreases entries.len(),
{
    if entries.len() == 0 {
        cursor
    } else {
        let before = cursor_after(entries.drop_last(), cursor);
        if before.precedes(entries.last().id) {
            entries.last().id
        } else {
            before
        }
    }
}

/// The entries that a reader standing at the given position has not walked
/// yet: each one that lies beyond the position and beyond all entries before
/// it.
pub open spec fn fresh_entries(entries: Seq<LogEntry>, cursor: EntryId) -> Seq<LogEntry>
    decreases entries.len(),
{
    if entries.len() == 0 {
        Seq::empty()
    } else {
        let before = fresh_entries(entries.drop_last(), cursor);
        if cursor_after(entries.drop_last(), cursor).precedes(entries.last().id) {
            before.push(entries.last())
        } else {
            before
        }
    }
}

/// Whether the positions of the entries rise strictly and all lie beyond the
/// given position.
pub open spec fn rising_from(entries: Seq<LogEntry>, cursor: EntryId) -> bool {
    &&& forall|i: int| 0 <= i < entries.len() ==> cursor.precedes(#[trigger] entries[i].id)
    &&& forall|i: int, j: int|
        0 <= i < j < entries.len() ==> (#[trigger] entries[i].id).precedes(#[trigger] entries[j].id)
}

impl LogEntry {
    /// The value of the first field with the given name, if there is one.
    pub open spec fn field(&self, name: Seq<char>) -> Option<EntryValue> {
        let i = field_index(self.fields@, name);
        if i < self.fields@.len() {
            Some(self.fields@[i].value)
        } else {
            None
        }
    }

    /// The value of the first field with the given name, if there is one.
    pub fn get(&self, name: &String) -> (value: Option<&EntryValue>)
        ensures
            match value {
                Some(v) => self.field(name@) == Some(*v),
                None => self.field(name@) is None,
            },
    {
        let mut i: usize = 0;
        assert(self.fields@.subrange(0, self.fields@.len() as int) == self.fields@);
        while i < self.fields.len()
            invariant
                i <= self.fields.len(),
                field_index(self.fields@, name@) == i + field_index(
                    self.fields@.subrange(i as int, self.fields@.len() as int),
                    name@,
                ),
            decreases self.fields.len() - i,
        {
            let ghost rest = self.fields@.subrange(i as int, self.fields@.len() as int);
            assert(rest[0] == self.fields@[i as int]);
            if self.fields[i].name == *name {
                return Some(&self.fields[i].value);
            }
            assert(rest.drop_first() == self.fields@.subrange(
                i as int + 1,
                self.fields@.len() as int,
            ));
            i += 1;
        }
        assert(self.fields@.subrange(i as int, self.fields@.len() as int).len() == 0);
        None
    }
}

/// Walking more entries moves a reader's position forward, if at all.
pub proof fn lemma_cursor_moves_forward(entries: Seq<LogEntry>, cursor: EntryId)
    ensures
        !cursor_after(entries, cursor).precedes(cursor),
        forall|i: int|
            0 <= i < entries.len() ==> !cursor_after(entries, cursor).precedes(
                #[trigger] entries[i].id,
            ),
    decreases entries.len(),
{
    if entries.len() > 0 {
        lemma_cursor_moves_forward(entries.drop_last(), cursor);
        assert forall|i: int| 0 <= i < entries.len() implies !cursor_after(
            entries,
            cursor,
        ).precedes(#[trigger] entries[i].id) by {
            if i < entries.len() - 1 {
                assert(entries.drop_last()[i] == entries[i]);
            }
        }
    }
}

/// A reader that stands at or beyond every entry finds none of them fresh.
pub proof fn lemma_nothing_fresh_behind(entries: Seq<LogEntry>, cursor: EntryId)
    requires
        forall|i: int| 0 <= i < entries.len() ==> !cursor.precedes(#[trigger] entries[i].id),
    ensures
        fresh_entries(entries, cursor) == Seq::<LogEntry>::empty(),
        cursor_after(entries, cursor) == cursor,
    decreases entries.len(),
{
    if entries.len() > 0 {
        assert forall|i: int| 0 <= i < entries.drop_last().len() implies !cursor.precedes(
            #[trigger] entries.drop_last()[i].id,
        ) by {
            assert(entries.drop_last()[i] == entries[i]);
        }
        lemma_nothing_fresh_behind(entries.drop_last(), cursor);
        assert(!cursor.precedes(entries[entries.len() - 1].id));
    }
}

/// Entries whose positions rise strictly from a reader's position are all
/// fresh to it, in their order, and walking them leaves the reader at the
/// last of them.
pub proof fn lemma_rising_all_fresh(entries: Seq<LogEntry>, cursor: EntryId)
    requires
        rising_from(entries, cursor),
    ensures
        fresh_entries(entries, cursor) == entries,
        entries.len() > 0 ==> cursor_after(entries, cursor) == entries.last().id,
    decreases entries.len(),
{
    if entries.len() > 0 {
        let front = entries.drop_last();
        assert forall|i: int| 0 <= i < front.len() implies cursor.precedes(
            #[trigger] front[i].id,
        ) by {
            assert(front[i] == entries[i]);
        }
        assert forall|i: int, j: int| 0 <= i < j < front.len() implies (#[trigger] front[i].id).precedes(
            #[trigger] front[j].id,
        ) by {
            assert(front[i] == entries[i]);
            assert(front[j] == entries[j]);
        }
        lemma_rising_all_fresh(front, cursor);
        if front.len() > 0 {
            assert(front.last() == entries[entries.len() - 2]);
            assert(entries[entries.len() - 2].id.precedes(entries[entries.len() - 1].id));
        } else {
            assert(cursor.precedes(entries[0].id));
        }
        assert(front.push(entries.last()) == entries);
    }
}

} // verus!
