//! The session record: rows of text, encoded as CSV and prefixed with the
//! session's identifier.

use vstd::prelude::*;
use vstd::string::StringExecFns;
use crate::msg;

verus! {

/// A contact trace: time in milliseconds since the slide began, then
/// pressure, x and y as the bit patterns of the sensor's readings.
pub type Contacts = Vec<(u128, u32, u32, u32)>;

/// A contact as it is written: the time, and the text of pressure, x and y.
pub type ContactText = (u128, String, String, String);

/// One press as it was measured, radii in tenths of a screen unit.
pub struct PressData {
    /// radius of the circle
    pub circle_radius: i64,
    /// radius of the ring
    pub ring_radius: i64,
    /// contacts recorded for this press
    pub contacts: Contacts,
    /// whether the user completed the press
    pub success: bool,
}

/// The character of a hexadecimal digit, lower case.
pub open spec fn hex_digit(d: nat) -> char
    recommends
        d < 16,
{
    seq!['0', '1', '2', '3', '4', '5', '6', '7', '8', '9', 'a', 'b', 'c', 'd', 'e', 'f'][d as int]
}

/// The last `digits` hexadecimal digits of a number, the most significant
/// first.
pub open spec fn hex(n: nat, digits: nat) -> Seq<char>
    decreases digits,
{
    if digits == 0 {
        Seq::empty()
    } else {
        hex(n / 16, (digits - 1) as nat).push(hex_digit(n % 16))
    }
}

/// The text of a session identifier: its 32 hexadecimal digits in groups of
/// 8, 4, 4, 4 and 12, with a hyphen between two groups.
pub open spec fn hyphenated(id: u128) -> Seq<char> {
    hex(id as nat, 32).subrange(0, 8) + seq!['-'] + hex(id as nat, 32).subrange(8, 12) + seq!['-']
        + hex(id as nat, 32).subrange(12, 16) + seq!['-'] + hex(id as nat, 32).subrange(16, 20)
        + seq!['-'] + hex(id as nat, 32).subrange(20, 32)
}

/// The bytes of one CSV record with the given fields.
pub uninterp spec fn csv_record(fields: Seq<Seq<char>>) -> Seq<u8>;

/// The views of a sequence of strings.
pub open spec fn texts(fields: Seq<String>) -> Seq<Seq<char>> {
    fields.map_values(|s: String| s@)
}

/// The character of a decimal digit.
pub open spec fn digit(d: nat) -> char
    recommends
        d < 10,
{
    seq!['0', '1', '2', '3', '4', '5', '6', '7', '8', '9'][d as int]
}

/// A number in decimal, without sign or leading zeros.
pub open spec fn decimal(n: nat) -> Seq<char>
    decreases n,
{
    if n < 10 {
        seq![digit(n)]
    } else {
        decimal(n / 10).push(digit(n % 10))
    }
}

/// Formats an identifier with `uuid::Uuid::to_hyphenated`: the result is the
/// identifier with these 128 bits in lower-case hexadecimal digits, grouped
/// by hyphens.
#[verifier::external_body]
fn hyphenated_text(id: u128) -> (r: String)
    ensures
        r@ == hyphenated(id),
{
    uuid::Uuid::from_u128(id).to_hyphenated().to_string()
}

/// Encodes one record with `csv::Writer::write_record` on a writer of its
/// own: the result is the CSV text of the fields, line end included.
#[verifier::external_body]
fn encode_record(fields: &Vec<String>) -> (r: Vec<u8>)
    ensures
        r@ == csv_record(texts(fields@)),
{
    let mut writer = csv::Writer::from_writer(Vec::new());
    let _ = writer.write_record(fields);
    writer.into_inner().unwrap_or_default()
}

/// The text of one decimal digit.
fn digit_text(d: u8) -> (r: &'static str)
    requires
        d < 10,
    ensures
        r@ == seq![digit(d as nat)],
{
    proof {
        reveal_strlit("0");
        reveal_strlit("1");
        reveal_strlit("2");
        reveal_strlit("3");
        reveal_strlit("4");
        reveal_strlit("5");
        reveal_strlit("6");
        reveal_strlit("7");
        reveal_strlit("8");
        reveal_strlit("9");
    }
    let r = if d == 0 {
        "0"
    } else if d == 1 {
        "1"
    } else if d == 2 {
        "2"
    } else if d == 3 {
        "3"
    } else if d == 4 {
        "4"
    } else if d == 5 {
        "5"
    } else if d == 6 {
        "6"
    } else if d == 7 {
        "7"
    } else if d == 8 {
        "8"
    } else {
        "9"
    };
    assert(r@ =~= seq![digit(d as nat)]);
    r
}

/// The text of a number: its decimal digits.
pub(crate) fn number_text(n: u128) -> (r: String)
    ensures
        r@ == decimal(n as nat),
    decreases n,
{
    if n < 10 {
        digit_text(n as u8).to_owned()
    } else {
        let mut s = number_text(n / 10);
        s.append(digit_text((n % 10) as u8));
        assert(s@ =~= decimal((n / 10) as nat).push(digit((n % 10) as nat)));
        s
    }
}

/// The label of an answer on the five-point scale.
pub open spec fn category(value: u32) -> Seq<char>
    recommends
        1 <= value <= 5,
{
    if value == 1 {
        "Strongly Disagree"@
    } else if value == 2 {
        "Disagree"@
    } else if value == 3 {
        "Netural"@
    } else if value == 4 {
        "Agree"@
    } else {
        "Strongly Agree"@
    }
}

/// The column headings of the answers.
pub open spec fn header_row() -> Seq<Seq<char>> {
    seq!["ID"@, "Category"@, "Gesture"@, "Material"@, "Feeling"@, "Answer"@]
}

/// The row of one answer.
pub open spec fn likert_row(
    id: u128,
    gesture: Seq<char>,
    material: Seq<char>,
    name: Seq<char>,
    value: u32,
) -> Seq<Seq<char>> {
    seq![hyphenated(id), category(value), gesture, material, name, decimal(value as nat)]
}

/// The row of a response slide: identifier, name, then the materials in the
/// order in which they were chosen.
pub open spec fn response_row(id: u128, name: Seq<char>, materials: Seq<Seq<char>>) -> Seq<
    Seq<char>,
> {
    seq![hyphenated(id), name] + materials
}

/// One contact as it stands in a gesture row.
pub open spec fn contact_entry(c: ContactText) -> Seq<char> {
    "("@ + decimal(c.0 as nat) + " - "@ + c.1@ + " - "@ + c.2@ + " - "@ + c.3@ + ")"@
}

/// The row of one gesture event: identifier, gesture, material, the two
/// numbers of the event, then its contacts in order.
pub open spec fn gesture_row(
    id: u128,
    name: Seq<char>,
    material: u32,
    numbers: (String, String),
    contacts: Seq<ContactText>,
) -> Seq<Seq<char>> {
    seq![hyphenated(id), name, decimal(material as nat), numbers.0@, numbers.1@]
        + contacts.map_values(|c: ContactText| contact_entry(c))
}

/// The bytes of the rows of the first `n` gesture events.
pub open spec fn gesture_rows(
    id: u128,
    name: Seq<char>,
    material: u32,
    numbers: Seq<(String, String)>,
    contacts: Seq<Vec<ContactText>>,
    n: nat,
) -> Seq<u8>
    recommends
        n <= numbers.len() <= contacts.len(),
    decreases n,
{
    if n == 0 {
        Seq::<u8>::empty()
    } else {
        let i = (n - 1) as int;
        gesture_rows(id, name, material, numbers, contacts, (n - 1) as nat) + csv_record(
            gesture_row(id, name, material, numbers[i], contacts[i]@),
        )
    }
}

/// The record of one session.
pub struct World {
    /// identifier of the session
    pub id: u128,
    /// records written and not yet handed to the sink
    pub csv: Vec<u8>,
}

fn label(value: u32) -> (r: String)
    ensures
        r@ == category(value),
{
    if value == 1 {
        "Strongly Disagree".to_owned()
    } else if value == 2 {
        "Disagree".to_owned()
    } else if value == 3 {
        "Netural".to_owned()
    } else if value == 4 {
        "Agree".to_owned()
    } else {
        "Strongly Agree".to_owned()
    }
}

fn contact_text(c: &ContactText) -> (r: String)
    ensures
        r@ == contact_entry(*c),
{
    let mut s = "(".to_owned();
    s.append(number_text(c.0).as_str());
    s.append(" - ");
    s.append(c.1.as_str());
    s.append(" - ");
    s.append(c.2.as_str());
    s.append(" - ");
    s.append(c.3.as_str());
    s.append(")");
    s
}

impl World {
    pub fn new(id: u128) -> (r: Self)
        ensures
            r.id == id,
            r.csv@ == csv_record(header_row()),
    {
        let mut row: Vec<String> = Vec::new();
        row.push("ID".to_owned());
        row.push("Category".to_owned());
        row.push("Gesture".to_owned());
        row.push("Material".to_owned());
        row.push("Feeling".to_owned());
        row.push("Answer".to_owned());
        assert(texts(row@) =~= header_row());
        World { id, csv: encode_record(&row) }
    }

    /// The label written at the front of each row.
    pub fn create_id(&self) -> (r: String)
        ensures
            r@ == hyphenated(self.id),
    {
        hyphenated_text(self.id)
    }

    fn write(&mut self, row: &Vec<String>)
        ensures
            final(self).id == old(self).id,
            final(self).csv@ == old(self).csv@ + csv_record(texts(row@)),
    {
        let mut bytes = encode_record(row);
        self.csv.append(&mut bytes);
    }

    /// Writes the row of one answer.
    pub fn writeLikert(&mut self, gesture: &str, material: &str, likert: msg::Likert)
        requires
            1 <= likert.value <= 5,
        ensures
            final(self).id == old(self).id,
            final(self).csv@ == old(self).csv@ + csv_record(
                likert_row(old(self).id, gesture@, material@, likert.name@, likert.value),
            ),
    {
        let mut row: Vec<String> = Vec::new();
        row.push(self.create_id());
        row.push(label(likert.value));
        row.push(gesture.to_owned());
        row.push(material.to_owned());
        row.push(likert.name);
        row.push(number_text(likert.value as u128));
        assert(texts(row@) =~= likert_row(
            self.id,
            gesture@,
            material@,
            likert.name@,
            likert.value,
        ));
        self.write(&row);
    }

    /// Writes the row of a response slide.
    pub fn writeResponse(&mut self, name: String, materials: Vec<String>)
        ensures
            final(self).id == old(self).id,
            final(self).csv@ == old(self).csv@ + csv_record(
                response_row(old(self).id, name@, texts(materials@)),
            ),
    {
        let mut row: Vec<String> = Vec::new();
        row.push(self.create_id());
        row.push(name);
        let mut materials = materials;
        let ghost given = materials@;
        row.append(&mut materials);
        assert(texts(row@) =~= response_row(self.id, name@, texts(given)));
        self.write(&row);
    }

    /// Writes one row for each gesture event, in order.
    pub fn writeGesture(
        &mut self,
        name: String,
        material: u32,
        circle_ring_radius: Vec<(String, String)>,
        contacts: Vec<Vec<ContactText>>,
    )
        requires
            circle_ring_radius@.len() <= contacts@.len(),
        ensures
            final(self).id == old(self).id,
            final(self).csv@ == old(self).csv@ + gesture_rows(
                old(self).id,
                name@,
                material,
                circle_ring_radius@,
                contacts@,
                circle_ring_radius@.len(),
            ),
    {
        let mut i: usize = 0;
        while i < circle_ring_radius.len()
            invariant
                i <= circle_ring_radius@.len() <= contacts@.len(),
                self.id == old(self).id,
                self.csv@ == old(self).csv@ + gesture_rows(
                    self.id,
                    name@,
                    material,
                    circle_ring_radius@,
                    contacts@,
                    i as nat,
                ),
            decreases circle_ring_radius@.len() - i,
        {
            let mut row: Vec<String> = Vec::new();
            row.push(self.create_id());
            row.push(name.clone());
            row.push(number_text(material as u128));
            row.push(circle_ring_radius[i].0.clone());
            row.push(circle_ring_radius[i].1.clone());
            let trace = &contacts[i];
            let mut j: usize = 0;
            while j < trace.len()
                invariant
                    j <= trace@.len(),
                    i < circle_ring_radius@.len(),
                    row@.len() == 5 + j,
                    texts(row@) =~= gesture_row(
                        self.id,
                        name@,
                        material,
                        circle_ring_radius@[i as int],
                        trace@.subrange(0, j as int),
                    ),
                decreases trace@.len() - j,
            {
                let ghost before = row@;
                let entry = contact_text(&trace[j]);
                row.push(entry);
                proof {
                    let prev = trace@.subrange(0, j as int);
                    let next = trace@.subrange(0, j + 1);
                    assert(next =~= prev.push(trace@[j as int]));
                    assert(next.map_values(|c: ContactText| contact_entry(c)) =~= prev.map_values(
                        |c: ContactText| contact_entry(c),
                    ).push(contact_entry(trace@[j as int])));
                    assert(texts(row@) =~= texts(before).push(entry@));
                }
                j = j + 1;
            }
            assert(trace@.subrange(0, j as int) =~= trace@);
            self.write(&row);
            i = i + 1;
        }
    }

    /// Hands over the records written since the last call, for the sink to
    /// store before the next record is written.
    pub fn flush_CSV(&mut self) -> (r: Vec<u8>)
        ensures
            final(self).id == old(self).id,
            r@ == old(self).csv@,
            final(self).csv@.len() == 0,
    {
        let mut out: Vec<u8> = Vec::new();
        out.append(&mut self.csv);
        out
    }
}

} // verus!
