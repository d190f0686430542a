//! Protocol messages exchanged with the presentation client, as JSON values,
//! and the typed samples that the sensor delivers.

use vstd::prelude::*;

verus! {

/// A message to or from the presentation client.
pub type Message = serde_json::Value;

/// `serde_json::Value`, carried through verified code without looking inside.
#[verifier::external_type_specification]
#[verifier::external_body]
pub struct ExValue(serde_json::Value);

/// Whether a JSON value is an object.
pub uninterp spec fn is_object(v: serde_json::Value) -> bool;

/// The keys of the members of a JSON object. Empty for a value that is no
/// object.
pub uninterp spec fn member_keys(v: serde_json::Value) -> Set<Seq<char>>;

/// The members of a JSON object whose value is a string, by key. Empty for a
/// value that is no object.
pub uninterp spec fn text_members(v: serde_json::Value) -> Map<Seq<char>, Seq<char>>;

/// The members of a JSON object whose value is a non-negative integer that
/// fits 64 bits, by key. Empty for a value that is no object.
pub uninterp spec fn number_members(v: serde_json::Value) -> Map<Seq<char>, u64>;

/// Phase of a touch on the sensor: start of touch, move, end of touch.
#[derive(PartialEq, Eq, Structural, Debug, Clone, Copy)]
pub enum InputType {
    Start,
    Move,
    End,
    Unknown,
}

impl InputType {
    /// The phase that a phase code stands for.
    pub open spec fn of_code(num: u32) -> InputType {
        if num == 0 {
            InputType::Start
        } else if num == 1 {
            InputType::Move
        } else if num == 2 {
            InputType::End
        } else {
            InputType::Unknown
        }
    }

    /// The phase for a phase code of the sensor.
    pub fn new(num: u32) -> (r: InputType)
        ensures
            r == Self::of_code(num),
    {
        if num == 0 {
            return InputType::Start;
        } else if num == 1 {
            return InputType::Move;
        } else if num == 2 {
            return InputType::End;
        }
        InputType::Unknown
    }
}

/// A sample from the sensor: phase, pressure, x, y, material. The three
/// readings are carried as the bit patterns of their 32-bit values.
pub type SenselMessage = (InputType, u32, u32, u32, u32);

//-----------------------------------------------------------------------
// Client to server
//-----------------------------------------------------------------------

/// One answer on a five-point scale.
#[derive(Debug)]
pub struct Likert {
    pub name: String,
    pub value: u32,
}

/// Reads a string member of a JSON value with `serde_json::Value::get` and
/// `as_str`: `Some` exactly for an object that has the key with a string
/// under it, and then that string.
#[verifier::external_body]
fn member_text(data: &Message, key: &str) -> (r: Option<String>)
    ensures
        r is Some <==> text_members(*data).contains_key(key@),
        r matches Some(s) ==> s@ == text_members(*data)[key@],
{
    data.get(key).and_then(|v| v.as_str()).map(|s| s.to_string())
}

/// Reads an integer member of a JSON value with `serde_json::Value::get` and
/// `as_u64`: `Some` exactly for an object that has the key with a
/// non-negative integer under it that fits 64 bits, and then that integer.
#[verifier::external_body]
fn member_number(data: &Message, key: &str) -> (r: Option<u64>)
    ensures
        r is Some <==> number_members(*data).contains_key(key@),
        r matches Some(n) ==> n == number_members(*data)[key@],
{
    data.get(key).and_then(|v| v.as_u64())
}

/// A message has the discriminator `name`: its member `type` is that string.
pub open spec fn has_type(name: Seq<char>, data: Message) -> bool {
    text_members(data).contains_key("type"@) && text_members(data)["type"@] == name
}

/// A message is a valid answer: discriminator `likert`, a string `name` and
/// an integer `value` from 1 to 5.
pub open spec fn is_likert(data: Message) -> bool {
    &&& has_type("likert"@, data)
    &&& text_members(data).contains_key("name"@)
    &&& number_members(data).contains_key("value"@)
    &&& 1 <= number_members(data)["value"@] <= 5
}

/// Reads a message as an answer; an error for any message that is none.
pub fn likert(data: Message) -> (r: Result<Likert, ()>)
    ensures
        r is Ok <==> is_likert(data),
        r matches Ok(l) ==> l.name@ == text_members(data)["name"@] && l.value
            == number_members(data)["value"@],
{
    if !discriminator_is("likert", &data) {
        return Err(());
    }
    match member_text(&data, "name") {
        Some(name) => {
            match member_number(&data, "value") {
                Some(value) => {
                    if 1 <= value && value <= 5 {
                        Ok(Likert { name, value: value as u32 })
                    } else {
                        Err(())
                    }
                },
                None => Err(()),
            }
        },
        None => Err(()),
    }
}

fn discriminator_is(name: &str, data: &Message) -> (r: bool)
    ensures
        r == has_type(name@, *data),
{
    match member_text(data, "type") {
        Some(s) => s == name.to_owned(),
        None => false,
    }
}

/// Whether a message has the discriminator `name`.
pub fn is_type(name: &str, data: Message) -> (r: bool)
    ensures
        r == has_type(name@, data),
{
    discriminator_is(name, &data)
}

/// Whether the user asks to begin.
pub fn is_begin(data: Message) -> (r: bool)
    ensures
        r == has_type("begin"@, data),
{
    is_type("begin", data)
}

/// Whether the user consents.
pub fn is_consent(data: Message) -> (r: bool)
    ensures
        r == has_type("consent"@, data),
{
    is_type("consent", data)
}

/// Whether the client says that it is connected.
pub fn is_connected(data: Message) -> (r: bool)
    ensures
        r == has_type("connected"@, data),
{
    is_type("connected", data)
}

//-----------------------------------------------------------------------
// Server to client
//-----------------------------------------------------------------------

/// The empty JSON object, made with `serde_json::Map::new`: an object with
/// no member.
#[verifier::external_body]
fn empty_object() -> (r: Message)
    ensures
        is_object(r),
        (member_keys(r) == Set::<Seq<char>>::empty()),
        (text_members(r) == Map::<Seq<char>, Seq<char>>::empty()),
        (number_members(r) == Map::<Seq<char>, u64>::empty()),
{
    serde_json::Value::Object(serde_json::Map::new())
}

/// Sets a member of a JSON object to a string, through `serde_json::Value`'s
/// mutable index by key: the key then holds that string, whatever it held
/// before, and the other members stay as they are.
#[verifier::external_body]
fn with_text(obj: Message, key: &str, value: &str) -> (r: Message)
    requires
        is_object(obj),
    ensures
        is_object(r),
        member_keys(r) == member_keys(obj).insert(key@),
        text_members(r) == text_members(obj).insert(key@, value@),
        number_members(r) == number_members(obj).remove(key@),
{
    let mut obj = obj;
    obj[key] = serde_json::Value::String(value.to_string());
    obj
}

/// Sets a member of a JSON object to an integer, through
/// `serde_json::Value`'s mutable index by key: the key then holds that
/// integer, whatever it held before, and the other members stay.
#[verifier::external_body]
fn with_number(obj: Message, key: &str, value: u64) -> (r: Message)
    requires
        is_object(obj),
    ensures
        is_object(r),
        member_keys(r) == member_keys(obj).insert(key@),
        text_members(r) == text_members(obj).remove(key@),
        number_members(r) == number_members(obj).insert(key@, value),
{
    let mut obj = obj;
    obj[key] = serde_json::Value::from(value);
    obj
}

/// A message is an object with the discriminator `kind`, the string member
/// `key` and no other member.
pub open spec fn is_text_message(m: Message, kind: Seq<char>, key: Seq<char>, value: Seq<char>) -> bool {
    &&& is_object(m)
    &&& member_keys(m) =~= set!["type"@, key]
    &&& text_members(m) =~= map!["type"@ => kind, key => value]
    &&& number_members(m) =~= Map::<Seq<char>, u64>::empty()
}

/// A message is the order to show slide `slide`, and holds nothing else.
pub open spec fn is_goto(m: Message, slide: u32) -> bool {
    &&& is_object(m)
    &&& member_keys(m) =~= set!["type"@, "slide"@]
    &&& text_members(m) =~= map!["type"@ => "goto"@]
    &&& number_members(m) =~= map!["slide"@ => slide as u64]
}

/// A message names material `index` for slide `slide`, and holds nothing
/// else.
pub open spec fn is_material_index(m: Message, index: u32, slide: u32) -> bool {
    &&& is_object(m)
    &&& member_keys(m) =~= set!["type"@, "slide"@, "value"@]
    &&& text_members(m) =~= map!["type"@ => "materialIndex"@]
    &&& number_members(m) =~= map!["slide"@ => slide as u64, "value"@ => index as u64]
}

proof fn keys_differ()
    ensures
        "type"@ != "id"@,
        "type"@ != "value"@,
        "type"@ != "slide"@,
        "slide"@ != "value"@,
{
    reveal_strlit("type");
    reveal_strlit("id");
    reveal_strlit("value");
    reveal_strlit("slide");
    assert("type"@.len() == 4);
    assert("id"@.len() == 2);
    assert("value"@.len() == 5);
    assert("slide"@[0] == 's');
    assert("value"@[0] == 'v');
}

/// Tells the client the session's identifier.
pub fn consentID(id: String) -> (r: Message)
    ensures
        is_text_message(r, "consentID"@, "id"@, id@),
{
    proof {
        keys_differ();
    }
    let m = with_text(empty_object(), "type", "consentID");
    with_text(m, "id", id.as_str())
}

/// Tells the client which material a slide is about.
pub fn materialIndex(index: u32, slide: u32) -> (r: Message)
    ensures
        is_material_index(r, index, slide),
{
    proof {
        keys_differ();
    }
    let m = with_text(empty_object(), "type", "materialIndex");
    let m = with_number(m, "slide", slide as u64);
    with_number(m, "value", index as u64)
}

/// Tells the client which gesture the questions are about.
pub fn gestureType(value: String) -> (r: Message)
    ensures
        is_text_message(r, "gestureType"@, "value"@, value@),
{
    proof {
        keys_differ();
    }
    let m = with_text(empty_object(), "type", "gestureType");
    with_text(m, "value", value.as_str())
}

/// Orders the client to show a slide.
pub fn gotoSlide(slide: u32) -> (r: Message)
    ensures
        is_goto(r, slide),
{
    proof {
        keys_differ();
    }
    let m = with_text(empty_object(), "type", "goto");
    with_number(m, "slide", slide as u64)
}

pub fn gotoFrontMatter() -> (r: Message)
    ensures
        is_goto(r, 0),
{
    gotoSlide(front_matter_num())
}

pub fn gotoConsent() -> (r: Message)
    ensures
        is_goto(r, 1),
{
    gotoSlide(consent_num())
}

pub fn gotoLikert() -> (r: Message)
    ensures
        is_goto(r, 2),
{
    gotoSlide(likert_num())
}

pub fn gotoPress() -> (r: Message)
    ensures
        is_goto(r, 3),
{
    gotoSlide(press_num())
}

pub fn gotoMostAccurate() -> (r: Message)
    ensures
        is_goto(r, 4),
{
    gotoSlide(most_accurate_num())
}

pub fn gotoMostComfortable() -> (r: Message)
    ensures
        is_goto(r, 5),
{
    gotoSlide(most_comfortable_num())
}

pub fn gotoMostResponsive() -> (r: Message)
    ensures
        is_goto(r, 6),
{
    gotoSlide(most_responsive_num())
}

pub fn gotoOrderFavorite() -> (r: Message)
    ensures
        is_goto(r, 7),
{
    gotoSlide(order_favorite_num())
}

pub fn gotoSlider() -> (r: Message)
    ensures
        is_goto(r, 8),
{
    gotoSlide(slider_num())
}

pub fn gotoTap() -> (r: Message)
    ensures
        is_goto(r, 9),
{
    gotoSlide(tap_num())
}

//-----------------------------------------------------------------------
// Slide numbers
//-----------------------------------------------------------------------

pub fn front_matter_num() -> (r: u32)
    ensures
        r == 0,
{
    0
}

pub fn consent_num() -> (r: u32)
    ensures
        r == 1,
{
    1
}

pub fn likert_num() -> (r: u32)
    ensures
        r == 2,
{
    2
}

pub fn press_num() -> (r: u32)
    ensures
        r == 3,
{
    3
}

pub fn most_accurate_num() -> (r: u32)
    ensures
        r == 4,
{
    4
}

pub fn most_comfortable_num() -> (r: u32)
    ensures
        r == 5,
{
    5
}

pub fn most_responsive_num() -> (r: u32)
    ensures
        r == 6,
{
    6
}

pub fn order_favorite_num() -> (r: u32)
    ensures
        r == 7,
{
    7
}

pub fn slider_num() -> (r: u32)
    ensures
        r == 8,
{
    8
}

pub fn tap_num() -> (r: u32)
    ensures
        r == 9,
{
    9
}

} // verus!
