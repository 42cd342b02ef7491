//! JSON text: the bytes of strings, numbers, arrays and objects.
//!
//! A document is described by the bytes of its parts. An object is a sequence
//! of members, each a name and the finished text of its value; an array is a
//! sequence of finished item texts. Strings are quoted and escaped by
//! `serde_json`; everything around them is written and proved here.

use vstd::prelude::*;

verus! {

/// `{`
pub const OPEN_BRACE: u8 = 0x7b;

/// `}`
pub const CLOSE_BRACE: u8 = 0x7d;

/// `[`
pub const OPEN_BRACKET: u8 = 0x5b;

/// `]`
pub const CLOSE_BRACKET: u8 = 0x5d;

/// `,`
pub const COMMA: u8 = 0x2c;

/// `:`
pub const COLON: u8 = 0x3a;

/// The size a document's buffer starts with; it grows as needed.
pub const INITIAL_CAPACITY: usize = 128;

/// The error type of `serde_json`, carried through untouched.
#[verifier::external_type_specification]
#[verifier::external_body]
pub struct ExJsonError(serde_json::Error);

/// The JSON text of a string: what `serde_json::to_vec` writes for a `str`
/// with these characters, quotes and escapes included.
pub uninterp spec fn json_string_text(s: Seq<char>) -> Seq<u8>;

/// The decimal digits of `n` in ASCII, without sign or leading zeros.
pub open spec fn decimal_text(n: nat) -> Seq<u8>
    decreases n,
{
    if n < 10 {
        seq![(0x30 + n) as u8]
    } else {
        decimal_text(n / 10).push((0x30 + n % 10) as u8)
    }
}

/// The view of an object member: its name, and the JSON text of its value.
pub type MemberView = (Seq<char>, Seq<u8>);

/// One member of a JSON object: a name and the finished JSON text of its
/// value.
pub struct Member {
    pub name: String,
    pub value: Vec<u8>,
}

impl View for Member {
    type V = MemberView;

    open spec fn view(&self) -> MemberView {
        (self.name@, self.value@)
    }
}

/// The views of a list of members, in order.
pub open spec fn member_views(members: Seq<Member>) -> Seq<MemberView> {
    Seq::new(members.len(), |i: int| members[i]@)
}

/// The views of a list of byte vectors, in order.
pub open spec fn item_views(items: Seq<Vec<u8>>) -> Seq<Seq<u8>> {
    Seq::new(items.len(), |i: int| items[i]@)
}

/// The names of a list of members, in order.
pub open spec fn names(members: Seq<MemberView>) -> Seq<Seq<char>> {
    Seq::new(members.len(), |i: int| members[i].0)
}

/// The text of one member inside an object: its name as a JSON string, a
/// colon, and the value's text.
pub open spec fn member_text(m: MemberView) -> Seq<u8> {
    json_string_text(m.0) + seq![COLON] + m.1
}

/// The member texts of a list of members, in order.
pub open spec fn member_texts(members: Seq<MemberView>) -> Seq<Seq<u8>> {
    Seq::new(members.len(), |i: int| member_text(members[i]))
}

/// The parts in order, with one comma between each two neighbours.
pub open spec fn joined(parts: Seq<Seq<u8>>) -> Seq<u8>
    decreases parts.len(),
{
    if parts.len() == 0 {
        Seq::empty()
    } else if parts.len() == 1 {
        parts[0]
    } else {
        joined(parts.drop_last()) + seq![COMMA] + parts.last()
    }
}

/// The JSON text of an array with these item texts.
pub open spec fn array_text(items: Seq<Seq<u8>>) -> Seq<u8> {
    seq![OPEN_BRACKET] + joined(items) + seq![CLOSE_BRACKET]
}

/// The JSON text of an object with these members.
pub open spec fn object_text(members: Seq<MemberView>) -> Seq<u8> {
    seq![OPEN_BRACE] + joined(member_texts(members)) + seq![CLOSE_BRACE]
}

/// Calls `serde_json::to_vec` on a string slice. The call writes the string
/// as JSON into a fresh vector. The only errors it can report are those of
/// the writer, and a vector as writer reports none, so the result is always
/// `Ok`. Nothing is claimed of the bytes beyond their name.
#[verifier::external_body]
fn string_to_vec(s: &str) -> (r: Result<Vec<u8>, serde_json::Error>)
    ensures
        r is Ok,
        r is Ok ==> r->Ok_0@ == json_string_text(s@),
{
    serde_json::to_vec(s)
}

/// Renders a string as JSON text.
pub fn string(s: &str) -> (text: Vec<u8>)
    ensures
        text@ == json_string_text(s@),
{
    match string_to_vec(s) {
        Ok(text) => text,
        Err(_) => vstd::pervasive::unreached(),
    }
}

/// Appends the decimal digits of `n` to `out`.
pub fn write_number(out: &mut Vec<u8>, n: u16)
    ensures
        final(out)@ == old(out)@ + decimal_text(n as nat),
    decreases n,
{
    if n >= 10 {
        write_number(out, n / 10);
    }
    let digit: u8 = (n % 10) as u8;
    out.push(0x30 + digit);
    assert(out@ =~= old(out)@ + decimal_text(n as nat));
}

/// Renders a status code as JSON text: its decimal digits.
pub fn number(n: u16) -> (text: Vec<u8>)
    ensures
        text@ == decimal_text(n as nat),
{
    let mut text: Vec<u8> = Vec::new();
    write_number(&mut text, n);
    text
}

/// Appends `part` to `out`.
pub fn append(out: &mut Vec<u8>, part: &Vec<u8>)
    ensures
        final(out)@ == old(out)@ + part@,
{
    let mut i: usize = 0;
    while i < part.len()
        invariant
            i <= part.len(),
            out@ == old(out)@ + part@.take(i as int),
        decreases part.len() - i,
    {
        out.push(part[i]);
        i += 1;
        assert(part@.take(i as int) == part@.take(i - 1).push(part@[i - 1]));
    }
    assert(part@.take(i as int) == part@);
}

/// Writes the parts in order with a comma between neighbours.
pub fn join(parts: &Vec<Vec<u8>>) -> (text: Vec<u8>)
    ensures
        text@ == joined(item_views(parts@)),
{
    let mut text: Vec<u8> = Vec::new();
    let mut i: usize = 0;
    while i < parts.len()
        invariant
            i <= parts.len(),
            text@ == joined(item_views(parts@).take(i as int)),
        decreases parts.len() - i,
    {
        let ghost before = item_views(parts@).take(i as int);
        if i > 0 {
            text.push(COMMA);
        }
        append(&mut text, &parts[i]);
        i += 1;
        proof {
            let now = item_views(parts@).take(i as int);
            assert(now.drop_last() == before);
            assert(now.last() == parts[i - 1]@);
            if i == 1 {
                assert(text@ == now[0]);
            } else {
                assert(text@ == joined(before) + seq![COMMA] + now.last());
            }
        }
    }
    assert(item_views(parts@).take(i as int) == item_views(parts@));
    text
}

/// Renders an array from the finished texts of its items.
pub fn array(items: &Vec<Vec<u8>>) -> (text: Vec<u8>)
    ensures
        text@ == array_text(item_views(items@)),
{
    let mut text: Vec<u8> = Vec::new();
    text.push(OPEN_BRACKET);
    let inner = join(items);
    append(&mut text, &inner);
    text.push(CLOSE_BRACKET);
    text
}

/// Renders one member: name, colon, value.
pub fn member(m: &Member) -> (text: Vec<u8>)
    ensures
        text@ == member_text(m@),
{
    let mut text = string(m.name.as_str());
    text.push(COLON);
    append(&mut text, &m.value);
    text
}

/// Renders an object from its members, in the order given.
pub fn object(members: &Vec<Member>) -> (text: Vec<u8>)
    ensures
        text@ == object_text(member_views(members@)),
{
    let mut parts: Vec<Vec<u8>> = Vec::new();
    let mut i: usize = 0;
    while i < members.len()
        invariant
            i <= members.len(),
            item_views(parts@) == member_texts(member_views(members@)).take(i as int),
        decreases members.len() - i,
    {
        let ghost before = item_views(parts@);
        let part = member(&members[i]);
        parts.push(part);
        i += 1;
        assert(item_views(parts@) =~= before.push(member_text(members[i - 1]@)));
        assert(item_views(parts@) =~= member_texts(member_views(members@)).take(i as int));
    }
    assert(member_texts(member_views(members@)).take(i as int) == member_texts(
        member_views(members@),
    ));
    let mut text: Vec<u8> = Vec::with_capacity(INITIAL_CAPACITY);
    text.push(OPEN_BRACE);
    let inner = join(&parts);
    append(&mut text, &inner);
    text.push(CLOSE_BRACE);
    text
}

} // verus!
