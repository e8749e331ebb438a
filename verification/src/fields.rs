//! The fields of the status line: a fixed row of named values, each shown
//! under a heading, which programs and messages keep up to date.

use vstd::prelude::*;
use vstd::slice::slice_to_vec;
use vstd::string::*;
use vstd::utf8::*;
use crate::cell::update_value;
use crate::color::{drawn, Color};
use crate::text::{chars_of, str_eq, string_of};

verus! {

/// The name of the channel for updates.
pub const MQUEUE: &'static str = "/sratus";

/// The longest message that the channel takes, in bytes.
pub const MAX_MSG_LEN: usize = 100;

/// How many messages the channel holds.
pub const CAPACITY: usize = 10;

/// How many fields there are.
pub const FIELDS: usize = 8;

/// The names of the fields, in the order in which they are shown.
pub open spec fn field_names() -> Seq<Seq<char>> {
    seq![
        "keyseq"@,
        "timer"@,
        "keyboard"@,
        "light"@,
        "volume"@,
        "battery"@,
        "date"@,
        "clock"@,
    ]
}

/// The headings of the fields.
pub open spec fn field_heads() -> Seq<Seq<char>> {
    seq!["S"@, "T"@, "K"@, "L"@, "V"@, "B"@, "D"@, "C"@]
}

/// The values that the fields start with.
pub open spec fn field_defaults() -> Seq<Seq<char>> {
    seq![
        Seq::empty(),
        "off"@,
        Seq::empty(),
        Seq::empty(),
        Seq::empty(),
        Seq::empty(),
        Seq::empty(),
        Seq::empty(),
    ]
}

/// The names of the fields, in the order in which they are shown.
pub fn names() -> (names: [&'static str; 8])
    ensures
        names@.len() == 8,
        forall|i: int| 0 <= i < 8 ==> (#[trigger] names@[i])@ == field_names()[i],
{
    ["keyseq", "timer", "keyboard", "light", "volume", "battery", "date", "clock"]
}

/// The headings of the fields.
pub fn heads() -> (heads: [&'static str; 8])
    ensures
        heads@.len() == 8,
        forall|i: int| 0 <= i < 8 ==> (#[trigger] heads@[i])@ == field_heads()[i],
{
    ["S", "T", "K", "L", "V", "B", "D", "C"]
}

/// The name of a field.
#[derive(Clone, Debug)]
pub struct Field(String);

/// The message for a text that names no field.
pub open spec fn invalid_field(s: Seq<char>) -> Seq<char> {
    "Field "@ + s
        + " is not valid;\nallowed values: [\"keyseq\", \"timer\", \"keyboard\", \"light\", \"volume\", \"battery\", \"date\", \"clock\"]"@
}

impl Field {
    /// The field's name.
    pub closed spec fn name(&self) -> Seq<char> {
        self.0@
    }

    /// Accepts `s` as the name of a field if it is one.
    pub fn from_str(s: &str) -> (parsed: Result<Field, String>)
        ensures
            match parsed {
                Ok(field) => field_names().contains(s@) && field.name() == s@,
                Err(e) => !field_names().contains(s@) && e@ == invalid_field(s@),
            },
    {
        let all = names();
        let mut i: usize = 0;
        while i < 8
            invariant
                i <= 8,
                all@.len() == 8,
                forall|k: int| 0 <= k < 8 ==> (#[trigger] all@[k])@ == field_names()[k],
                forall|k: int| 0 <= k < i ==> field_names()[k] != s@,
            decreases 8 - i,
        {
            if str_eq(all[i], s) {
                assert(field_names()[i as int] == s@);
                return Ok(Field(s.to_owned()));
            }
            i += 1;
        }
        let mut e = String::from_str("Field ");
        e.append(s);
        e.append(
            " is not valid;\nallowed values: [\"keyseq\", \"timer\", \"keyboard\", \"light\", \"volume\", \"battery\", \"date\", \"clock\"]",
        );
        Err(e)
    }

    /// The field's name.
    pub fn as_ref(&self) -> (name: &str)
        ensures
            name@ == self.name(),
    {
        self.0.as_str()
    }

    /// The field's name.
    pub fn to_string(&self) -> (name: String)
        ensures
            name@ == self.name(),
    {
        self.0.clone()
    }
}

/// The bytes of the message that gives `field` the value `value`: the
/// field's name and then the value, cut so that the message is no longer
/// than the channel takes.
pub open spec fn message_bytes(field: Seq<char>, value: Seq<char>) -> Seq<u8> {
    let room = MAX_MSG_LEN - encode_utf8(field).len();
    if encode_utf8(value).len() <= room {
        encode_utf8(field) + encode_utf8(value)
    } else {
        encode_utf8(field) + encode_utf8(value).take(room)
    }
}

/// Whether a value can be cut to the room that a message has for it
/// after the name of `field`.
pub open spec fn can_be_cut(field: Seq<char>, value: Seq<char>) -> bool {
    let room = MAX_MSG_LEN - encode_utf8(field).len();
    room >= 0 && (encode_utf8(value).len() <= room || is_char_boundary(encode_utf8(value), room))
}

/// The message that gives `field` the value `value`. There is none where
/// the value would have to be cut inside a character.
pub fn message(field: &Field, value: &str) -> (bytes: Option<Vec<u8>>)
    ensures
        match bytes {
            Some(b) => can_be_cut(field.name(), value@) && b@ == message_bytes(
                field.name(),
                value@,
            ),
            None => !can_be_cut(field.name(), value@),
        },
{
    let name = field.as_ref().as_bytes();
    if name.len() > MAX_MSG_LEN {
        return None;
    }
    let room = MAX_MSG_LEN - name.len();
    let body = if value.as_bytes().len() <= room {
        value
    } else if value.is_char_boundary(room) {
        let head = value.split_at(room).0;
        assert(value.spec_bytes().subrange(0, room as int) == value.spec_bytes().take(
            room as int,
        ));
        head
    } else {
        return None;
    };
    let mut bytes = slice_to_vec(name);
    let mut rest = slice_to_vec(body.as_bytes());
    bytes.append(&mut rest);
    Some(bytes)
}

/// The fields' values at the start, in the order of the fields.
pub fn create_fields() -> (fields: Vec<String>)
    ensures
        fields@.len() == 8,
        forall|i: int| 0 <= i < 8 ==> (#[trigger] fields@[i])@ == field_defaults()[i],
{
    let mut fields: Vec<String> = Vec::new();
    fields.push(String::new());
    fields.push(String::from_str("off"));
    fields.push(String::new());
    fields.push(String::new());
    fields.push(String::new());
    fields.push(String::new());
    fields.push(String::new());
    fields.push(String::new());
    fields
}

/// Whether `data` begins with `prefix`.
pub open spec fn starts_with(data: Seq<char>, prefix: Seq<char>) -> bool {
    prefix.len() <= data.len() && data.take(prefix.len() as int) == prefix
}

fn has_prefix(data: &Vec<char>, prefix: &str) -> (has: Option<usize>)
    ensures
        match has {
            Some(n) => starts_with(data@, prefix@) && n == prefix@.len(),
            None => !starts_with(data@, prefix@),
        },
{
    let p = chars_of(prefix);
    if p.len() > data.len() {
        return None;
    }
    let mut i: usize = 0;
    while i < p.len()
        invariant
            i <= p.len() <= data.len(),
            p@ == prefix@,
            forall|k: int| 0 <= k < i ==> data@[k] == p@[k],
        decreases p.len() - i,
    {
        if data[i] != p[i] {
            assert(data@.take(p.len() as int)[i as int] != p@[i as int]);
            return None;
        }
        i += 1;
    }
    assert(data@.take(p.len() as int) == p@);
    Some(p.len())
}

/// Whether `i` is the first field whose name `data` begins with.
pub open spec fn is_first_field(data: Seq<char>, i: int) -> bool {
    &&& 0 <= i < 8
    &&& starts_with(data, field_names()[i])
    &&& forall|k: int| 0 <= k < i ==> !starts_with(data, #[trigger] field_names()[k])
}

/// Splits a message into the field that it is for and the value: the field
/// is the first whose name the message begins with, the value is what
/// follows the name.
pub fn find_field(data: &str) -> (found: Option<(usize, String)>)
    ensures
        match found {
            Some((i, value)) => is_first_field(data@, i as int) && value@ == data@.skip(
                field_names()[i as int].len() as int,
            ),
            None => forall|k: int| 0 <= k < 8 ==> !starts_with(data@, #[trigger] field_names()[k]),
        },
{
    let cs = chars_of(data);
    let all = names();
    let mut i: usize = 0;
    while i < 8
        invariant
            i <= 8,
            cs@ == data@,
            all@.len() == 8,
            forall|k: int| 0 <= k < 8 ==> (#[trigger] all@[k])@ == field_names()[k],
            forall|k: int| 0 <= k < i ==> !starts_with(data@, #[trigger] field_names()[k]),
        decreases 8 - i,
    {
        match has_prefix(&cs, all[i]) {
            Some(n) => {
                let value = string_of(&cs, n, cs.len());
                assert(cs@.subrange(n as int, cs.len() as int) == cs@.skip(n as int));
                return Some((i, value));
            },
            None => {},
        }
        i += 1;
    }
    None
}

/// Handles a message of the channel: the field that it names takes the
/// value that it carries, unless it has that value; a message for no field
/// is dropped. Returns whether a value changed, so that the line is to be
/// printed again.
pub fn on_message(fields: &mut Vec<String>, data: &str) -> (changed: bool)
    requires
        old(fields)@.len() == 8,
    ensures
        final(fields)@.len() == 8,
        match choose_field(data@) {
            Some(i) => {
                &&& changed == (old(fields)@[i]@ != data@.skip(field_names()[i].len() as int))
                &&& final(fields)@[i]@ == data@.skip(field_names()[i].len() as int)
                &&& forall|k: int| 0 <= k < 8 && k != i ==> final(fields)@[k] == old(fields)@[k]
            },
            None => !changed && final(fields)@ == old(fields)@,
        },
{
    match find_field(data) {
        Some((i, value)) => {
            proof {
                lemma_choose_field(data@, i as int);
            }
            let mut current = fields.remove(i);
            let changed = update_value(&mut current, value.as_str());
            fields.insert(i, current);
            changed
        },
        None => {
            assert(choose_field(data@) is None);
            false
        },
    }
}

/// The first field whose name `data` begins with, if there is one.
pub open spec fn choose_field(data: Seq<char>) -> Option<int> {
    if exists|i: int| is_first_field(data, i) {
        Some(choose|i: int| is_first_field(data, i))
    } else {
        None
    }
}

/// There is at most one first field.
pub proof fn lemma_choose_field(data: Seq<char>, i: int)
    requires
        is_first_field(data, i),
    ensures
        choose_field(data) == Some(i),
{
    let j = choose|j: int| is_first_field(data, j);
    if j < i {
        assert(!starts_with(data, field_names()[j]));
    } else if i < j {
        assert(!starts_with(data, field_names()[i]));
    }
}

/// The colours of the status line.
pub struct Colors {
    /// The colour of the headings.
    pub head: Color,
    /// The colour of the values.
    pub body: Color,
}

/// The first `n` fields as they are printed: each as its heading, two
/// blanks and its value, with two blanks between one field and the next.
pub open spec fn fields_line(c: &Colors, fields: Seq<String>, n: int) -> Seq<char>
    decreases n,
{
    if n <= 0 {
        Seq::empty()
    } else {
        fields_line(c, fields, n - 1) + (if n == 1 {
            Seq::<char>::empty()
        } else {
            "  "@
        }) + drawn(c.head.spec_text(), field_heads()[n - 1]) + "  "@ + drawn(
            c.body.spec_text(),
            fields[n - 1]@,
        )
    }
}

/// Appends the status line to `out`: all the fields, and a line feed.
pub fn print_fields(c: &Colors, out: &mut String, fields: &Vec<String>)
    requires
        fields@.len() == 8,
    ensures
        final(out)@ == old(out)@ + (fields_line(c, fields@, 8) + "\n"@),
{
    let all = heads();
    let mut i: usize = 0;
    let mut line = String::new();
    while i < 8
        invariant
            i <= 8,
            fields@.len() == 8,
            all@.len() == 8,
            forall|k: int| 0 <= k < 8 ==> (#[trigger] all@[k])@ == field_heads()[k],
            line@ == fields_line(c, fields@, i as int),
        decreases 8 - i,
    {
        if i > 0 {
            line.append("  ");
        } else {
            assert(line@ + Seq::<char>::empty() == line@);
        }
        c.head.draw(all[i]).write_to(&mut line);
        line.append("  ");
        c.body.draw(fields[i].as_str()).write_to(&mut line);
        i += 1;
    }
    line.append("\n");
    out.append(line.as_str());
}

} // verus!
