//! The shapes that message bodies take, and how a message is laid out in
//! bytes.
//!
//! A payload is the variant index as a `u32`, then the fields of the variant in
//! order. Which fields a variant has is its shape; both directions of the
//! contract draw on the same shapes. A value of one of the small enumerations
//! is its index as a `u32`; an optional list is a flag, then the count of its
//! items as a `u64`, then the items.

use crate::errors::DecodeError;
use crate::messages::{CardInfoType, NetworkState, NetworkType, SimContactInfo};
use crate::wire::{
    flag_bytes, i64_bytes, lemma_bytes_of_take_flag, lemma_bytes_of_take_i64,
    lemma_bytes_of_take_text, lemma_bytes_of_take_u32, lemma_bytes_of_take_u64,
    lemma_take_flag_of_bytes, lemma_take_i64_of_bytes, lemma_take_text_of_bytes,
    lemma_take_u32_of_bytes, lemma_take_u64_of_bytes, put_flag, put_i64, put_text, put_u32, put_u64,
    take_flag, take_i64, take_text, take_u32, take_u64, text_bytes, text_fits, u32_bytes, u64_bytes,
    Reader,
};
use vstd::prelude::*;

verus! {

/// Which fields a variant carries.
#[derive(Clone, Copy, Debug, PartialEq, Eq, Structural)]
pub enum Shape {
    Unit,
    Flag,
    Int,
    Object,
    Text,
    TextFlag,
    TextInt,
    TextText,
    TextTextText,
    Token,
    Contacts,
    Network,
    IntCard,
    IntFlag,
    FlagFlag,
}

/// A contact of a SIM card, as values.
pub struct Contact {
    pub id: Seq<char>,
    pub tel: Seq<char>,
    pub email: Seq<char>,
    pub name: Seq<char>,
    pub category: Seq<char>,
}

/// The fields of a message, as values.
pub enum Body {
    Unit,
    Flag(bool),
    Int(i64),
    Object(u32),
    Text(Seq<char>),
    TextFlag(Seq<char>, bool),
    TextInt(Seq<char>, i64),
    TextText(Seq<char>, Seq<char>),
    TextTextText(Seq<char>, Seq<char>, Seq<char>),
    Token(Seq<char>, Seq<char>, Option<Seq<Seq<char>>>),
    Contacts(Option<Seq<Contact>>),
    Network(NetworkState, NetworkType),
    IntCard(i64, CardInfoType),
    IntFlag(i64, bool),
    FlagFlag(bool, bool),
}

/// A message as values: which variant it is, and what it carries.
pub struct MessageView {
    pub index: u32,
    pub body: Body,
}

/// The texts of a list of strings.
pub open spec fn texts_view(list: Seq<String>) -> Seq<Seq<char>> {
    Seq::new(list.len(), |i: int| list[i]@)
}

/// The contacts of a list of contact records.
pub open spec fn contacts_view(list: Seq<SimContactInfo>) -> Seq<Contact> {
    Seq::new(list.len(), |i: int| list[i]@)
}

/// The texts of an optional list of strings.
pub open spec fn opt_texts_view(list: Option<Vec<String>>) -> Option<Seq<Seq<char>>> {
    match list {
        Some(l) => Some(texts_view(l@)),
        None => None,
    }
}

/// The contacts of an optional list of contact records.
pub open spec fn opt_contacts_view(list: Option<Vec<SimContactInfo>>) -> Option<Seq<Contact>> {
    match list {
        Some(l) => Some(contacts_view(l@)),
        None => None,
    }
}

/// Whether every text of the list can be written, and the list's length too.
pub open spec fn texts_fit(list: Seq<Seq<char>>) -> bool {
    &&& list.len() <= u64::MAX
    &&& forall|i: int| 0 <= i < list.len() ==> text_fits(#[trigger] list[i])
}

/// Whether every text of the contact can be written.
pub open spec fn contact_fits(c: Contact) -> bool {
    &&& text_fits(c.id)
    &&& text_fits(c.tel)
    &&& text_fits(c.email)
    &&& text_fits(c.name)
    &&& text_fits(c.category)
}

/// Whether every contact of the list can be written, and the list's length too.
pub open spec fn contacts_fit(list: Seq<Contact>) -> bool {
    &&& list.len() <= u64::MAX
    &&& forall|i: int| 0 <= i < list.len() ==> contact_fits(#[trigger] list[i])
}

impl Body {
    /// The shape of these fields.
    pub open spec fn shape(self) -> Shape {
        match self {
            Body::Unit => Shape::Unit,
            Body::Flag(..) => Shape::Flag,
            Body::Int(..) => Shape::Int,
            Body::Object(..) => Shape::Object,
            Body::Text(..) => Shape::Text,
            Body::TextFlag(..) => Shape::TextFlag,
            Body::TextInt(..) => Shape::TextInt,
            Body::TextText(..) => Shape::TextText,
            Body::TextTextText(..) => Shape::TextTextText,
            Body::Token(..) => Shape::Token,
            Body::Contacts(..) => Shape::Contacts,
            Body::Network(..) => Shape::Network,
            Body::IntCard(..) => Shape::IntCard,
            Body::IntFlag(..) => Shape::IntFlag,
            Body::FlagFlag(..) => Shape::FlagFlag,
        }
    }

    /// Whether every length in these fields fits its length field. This holds
    /// of the fields of every message held in memory.
    pub open spec fn fits(self) -> bool {
        match self {
            Body::Text(a) => text_fits(a),
            Body::TextFlag(a, _) => text_fits(a),
            Body::TextInt(a, _) => text_fits(a),
            Body::TextText(a, b) => text_fits(a) && text_fits(b),
            Body::TextTextText(a, b, c) => text_fits(a) && text_fits(b) && text_fits(c),
            Body::Token(a, b, list) => text_fits(a) && text_fits(b) && (list matches Some(l)
                ==> texts_fit(l)),
            Body::Contacts(list) => list matches Some(l) ==> contacts_fit(l),
            _ => true,
        }
    }
}

/// The bytes of a list of texts, one after another.
pub open spec fn texts_bytes(list: Seq<Seq<char>>) -> Seq<u8>
    decreases list.len(),
{
    if list.len() == 0 {
        Seq::empty()
    } else {
        texts_bytes(list.drop_last()) + text_bytes(list.last())
    }
}

/// The bytes of an optional list of texts.
pub open spec fn opt_texts_bytes(list: Option<Seq<Seq<char>>>) -> Seq<u8> {
    match list {
        None => flag_bytes(false),
        Some(l) => flag_bytes(true) + (u64_bytes(l.len() as u64) + texts_bytes(l)),
    }
}

/// The bytes of a contact: its five texts.
pub open spec fn contact_bytes(c: Contact) -> Seq<u8> {
    text_bytes(c.id) + (text_bytes(c.tel) + (text_bytes(c.email) + (text_bytes(c.name)
        + text_bytes(c.category))))
}

/// The bytes of a list of contacts, one after another.
pub open spec fn contacts_bytes(list: Seq<Contact>) -> Seq<u8>
    decreases list.len(),
{
    if list.len() == 0 {
        Seq::empty()
    } else {
        contacts_bytes(list.drop_last()) + contact_bytes(list.last())
    }
}

/// The bytes of an optional list of contacts.
pub open spec fn opt_contacts_bytes(list: Option<Seq<Contact>>) -> Seq<u8> {
    match list {
        None => flag_bytes(false),
        Some(l) => flag_bytes(true) + (u64_bytes(l.len() as u64) + contacts_bytes(l)),
    }
}

/// The bytes of the fields of a message.
pub open spec fn body_bytes(body: Body) -> Seq<u8> {
    match body {
        Body::Unit => Seq::empty(),
        Body::Flag(a) => flag_bytes(a),
        Body::Int(a) => i64_bytes(a),
        Body::Object(a) => u32_bytes(a),
        Body::Text(a) => text_bytes(a),
        Body::TextFlag(a, b) => text_bytes(a) + flag_bytes(b),
        Body::TextInt(a, b) => text_bytes(a) + i64_bytes(b),
        Body::TextText(a, b) => text_bytes(a) + text_bytes(b),
        Body::TextTextText(a, b, c) => text_bytes(a) + (text_bytes(b) + text_bytes(c)),
        Body::Token(a, b, list) => text_bytes(a) + (text_bytes(b) + opt_texts_bytes(list)),
        Body::Contacts(list) => opt_contacts_bytes(list),
        Body::Network(a, b) => u32_bytes(a.index()) + u32_bytes(b.index()),
        Body::IntCard(a, b) => i64_bytes(a) + u32_bytes(b.index()),
        Body::IntFlag(a, b) => i64_bytes(a) + flag_bytes(b),
        Body::FlagFlag(a, b) => flag_bytes(a) + flag_bytes(b),
    }
}

/// The payload of a message: its variant index, then its fields.
pub open spec fn payload_bytes(m: MessageView) -> Seq<u8> {
    u32_bytes(m.index) + body_bytes(m.body)
}

/// Takes `n` texts off the front of `b`.
pub open spec fn take_texts(b: Seq<u8>, n: nat) -> Option<(Seq<Seq<char>>, Seq<u8>)>
    decreases n,
{
    if n == 0 {
        Some((Seq::empty(), b))
    } else {
        match take_texts(b, (n - 1) as nat) {
            Some((list, rest)) => match take_text(rest) {
                Some((last, end)) => Some((list.push(last), end)),
                None => None,
            },
            None => None,
        }
    }
}

/// Takes an optional list of texts off the front of `b`.
pub open spec fn take_opt_texts(b: Seq<u8>) -> Option<(Option<Seq<Seq<char>>>, Seq<u8>)> {
    match take_flag(b) {
        Some((present, rest)) => if present {
            match take_u64(rest) {
                Some((n, items)) => match take_texts(items, n as nat) {
                    Some((list, end)) => Some((Some(list), end)),
                    None => None,
                },
                None => None,
            }
        } else {
            Some((None, rest))
        },
        None => None,
    }
}

/// Takes a contact off the front of `b`.
pub open spec fn take_contact(b: Seq<u8>) -> Option<(Contact, Seq<u8>)> {
    match take_text(b) {
        Some((id, r1)) => match take_text(r1) {
            Some((tel, r2)) => match take_text(r2) {
                Some((email, r3)) => match take_text(r3) {
                    Some((name, r4)) => match take_text(r4) {
                        Some((category, r5)) => Some(
                            (Contact { id, tel, email, name, category }, r5),
                        ),
                        None => None,
                    },
                    None => None,
                },
                None => None,
            },
            None => None,
        },
        None => None,
    }
}

/// Takes `n` contacts off the front of `b`.
pub open spec fn take_contacts(b: Seq<u8>, n: nat) -> Option<(Seq<Contact>, Seq<u8>)>
    decreases n,
{
    if n == 0 {
        Some((Seq::empty(), b))
    } else {
        match take_contacts(b, (n - 1) as nat) {
            Some((list, rest)) => match take_contact(rest) {
                Some((last, end)) => Some((list.push(last), end)),
                None => None,
            },
            None => None,
        }
    }
}

/// Takes an optional list of contacts off the front of `b`.
pub open spec fn take_opt_contacts(b: Seq<u8>) -> Option<(Option<Seq<Contact>>, Seq<u8>)> {
    match take_flag(b) {
        Some((present, rest)) => if present {
            match take_u64(rest) {
                Some((n, items)) => match take_contacts(items, n as nat) {
                    Some((list, end)) => Some((Some(list), end)),
                    None => None,
                },
                None => None,
            }
        } else {
            Some((None, rest))
        },
        None => None,
    }
}

/// Takes the state of a network off the front of `b`.
pub open spec fn take_state(b: Seq<u8>) -> Option<(NetworkState, Seq<u8>)> {
    match take_u32(b) {
        Some((i, rest)) => match NetworkState::of_index(i) {
            Some(v) => Some((v, rest)),
            None => None,
        },
        None => None,
    }
}

/// Takes the type of a network off the front of `b`.
pub open spec fn take_type(b: Seq<u8>) -> Option<(NetworkType, Seq<u8>)> {
    match take_u32(b) {
        Some((i, rest)) => match NetworkType::of_index(i) {
            Some(v) => Some((v, rest)),
            None => None,
        },
        None => None,
    }
}

/// Takes the kind of a card's information off the front of `b`.
pub open spec fn take_card(b: Seq<u8>) -> Option<(CardInfoType, Seq<u8>)> {
    match take_u32(b) {
        Some((i, rest)) => match CardInfoType::of_index(i) {
            Some(v) => Some((v, rest)),
            None => None,
        },
        None => None,
    }
}

/// The fields, if nothing follows them.
pub open spec fn whole(body: Body, rest: Seq<u8>) -> Option<Body> {
    if rest.len() == 0 {
        Some(body)
    } else {
        None
    }
}

/// Reads all of `b` as the fields of a message of the given shape.
pub open spec fn parse_body(shape: Shape, b: Seq<u8>) -> Option<Body> {
    match shape {
        Shape::Unit => whole(Body::Unit, b),
        Shape::Flag => match take_flag(b) {
            Some((a, r1)) => whole(Body::Flag(a), r1),
            None => None,
        },
        Shape::Int => match take_i64(b) {
            Some((a, r1)) => whole(Body::Int(a), r1),
            None => None,
        },
        Shape::Object => match take_u32(b) {
            Some((a, r1)) => whole(Body::Object(a), r1),
            None => None,
        },
        Shape::Text => match take_text(b) {
            Some((a, r1)) => whole(Body::Text(a), r1),
            None => None,
        },
        Shape::TextFlag => match take_text(b) {
            Some((a, r1)) => match take_flag(r1) {
                Some((x, r2)) => whole(Body::TextFlag(a, x), r2),
                None => None,
            },
            None => None,
        },
        Shape::TextInt => match take_text(b) {
            Some((a, r1)) => match take_i64(r1) {
                Some((x, r2)) => whole(Body::TextInt(a, x), r2),
                None => None,
            },
            None => None,
        },
        Shape::TextText => match take_text(b) {
            Some((a, r1)) => match take_text(r1) {
                Some((x, r2)) => whole(Body::TextText(a, x), r2),
                None => None,
            },
            None => None,
        },
        Shape::TextTextText => match take_text(b) {
            Some((a, r1)) => match take_text(r1) {
                Some((x, r2)) => match take_text(r2) {
                    Some((y, r3)) => whole(Body::TextTextText(a, x, y), r3),
                    None => None,
                },
                None => None,
            },
            None => None,
        },
        Shape::Token => match take_text(b) {
            Some((a, r1)) => match take_text(r1) {
                Some((x, r2)) => match take_opt_texts(r2) {
                    Some((y, r3)) => whole(Body::Token(a, x, y), r3),
                    None => None,
                },
                None => None,
            },
            None => None,
        },
        Shape::Contacts => match take_opt_contacts(b) {
            Some((a, r1)) => whole(Body::Contacts(a), r1),
            None => None,
        },
        Shape::Network => match take_state(b) {
            Some((a, r1)) => match take_type(r1) {
                Some((x, r2)) => whole(Body::Network(a, x), r2),
                None => None,
            },
            None => None,
        },
        Shape::IntCard => match take_i64(b) {
            Some((a, r1)) => match take_card(r1) {
                Some((x, r2)) => whole(Body::IntCard(a, x), r2),
                None => None,
            },
            None => None,
        },
        Shape::IntFlag => match take_i64(b) {
            Some((a, r1)) => match take_flag(r1) {
                Some((x, r2)) => whole(Body::IntFlag(a, x), r2),
                None => None,
            },
            None => None,
        },
        Shape::FlagFlag => match take_flag(b) {
            Some((a, r1)) => match take_flag(r1) {
                Some((x, r2)) => whole(Body::FlagFlag(a, x), r2),
                None => None,
            },
            None => None,
        },
    }
}

/// A list of texts written and followed by anything is read back, leaving
/// what followed.
pub proof fn lemma_take_texts_of_bytes(list: Seq<Seq<char>>, rest: Seq<u8>)
    requires
        forall|i: int| 0 <= i < list.len() ==> text_fits(#[trigger] list[i]),
    ensures
        take_texts(texts_bytes(list) + rest, list.len()) == Some((list, rest)),
    decreases list.len(),
{
    if list.len() > 0 {
        let init = list.drop_last();
        let after = text_bytes(list.last()) + rest;
        lemma_take_texts_of_bytes(init, after);
        lemma_take_text_of_bytes(list.last(), rest);
        assert(texts_bytes(list) + rest =~= texts_bytes(init) + after);
    }
}

/// What was read as a list of texts is what writing that list gives.
pub proof fn lemma_bytes_of_take_texts(b: Seq<u8>, n: nat)
    requires
        take_texts(b, n) is Some,
    ensures
        b == texts_bytes(take_texts(b, n).unwrap().0) + take_texts(b, n).unwrap().1,
        take_texts(b, n).unwrap().0.len() == n,
        forall|i: int|
            0 <= i < n ==> text_fits(#[trigger] take_texts(b, n).unwrap().0[i]),
    decreases n,
{
    let (list, end) = take_texts(b, n).unwrap();
    if n > 0 {
        let (init, rest) = take_texts(b, (n - 1) as nat).unwrap();
        lemma_bytes_of_take_texts(b, (n - 1) as nat);
        lemma_bytes_of_take_text(rest);
        assert(list.drop_last() =~= init);
    }
}

/// Once a text cannot be read, no longer list can be read either.
pub proof fn lemma_take_texts_stays_none(b: Seq<u8>, i: nat, n: nat)
    requires
        i <= n,
        take_texts(b, i) is None,
    ensures
        take_texts(b, n) is None,
    decreases n,
{
    if i < n {
        lemma_take_texts_stays_none(b, i, (n - 1) as nat);
    }
}

/// A contact written and followed by anything is read back, leaving what
/// followed.
pub proof fn lemma_take_contact_of_bytes(c: Contact, rest: Seq<u8>)
    requires
        contact_fits(c),
    ensures
        take_contact(contact_bytes(c) + rest) == Some((c, rest)),
{
    let t4 = text_bytes(c.category) + rest;
    let t3 = text_bytes(c.name) + t4;
    let t2 = text_bytes(c.email) + t3;
    let t1 = text_bytes(c.tel) + t2;
    lemma_take_text_of_bytes(c.id, t1);
    lemma_take_text_of_bytes(c.tel, t2);
    lemma_take_text_of_bytes(c.email, t3);
    lemma_take_text_of_bytes(c.name, t4);
    lemma_take_text_of_bytes(c.category, rest);
    assert(contact_bytes(c) + rest =~= text_bytes(c.id) + t1);
}

/// What was read as a contact is what writing that contact gives.
pub proof fn lemma_bytes_of_take_contact(b: Seq<u8>)
    requires
        take_contact(b) is Some,
    ensures
        b == contact_bytes(take_contact(b).unwrap().0) + take_contact(b).unwrap().1,
        contact_fits(take_contact(b).unwrap().0),
{
    let (c, end) = take_contact(b).unwrap();
    let r1 = take_text(b).unwrap().1;
    let r2 = take_text(r1).unwrap().1;
    let r3 = take_text(r2).unwrap().1;
    let r4 = take_text(r3).unwrap().1;
    lemma_bytes_of_take_text(b);
    lemma_bytes_of_take_text(r1);
    lemma_bytes_of_take_text(r2);
    lemma_bytes_of_take_text(r3);
    lemma_bytes_of_take_text(r4);
}

/// A list of contacts written and followed by anything is read back, leaving
/// what followed.
pub proof fn lemma_take_contacts_of_bytes(list: Seq<Contact>, rest: Seq<u8>)
    requires
        forall|i: int| 0 <= i < list.len() ==> contact_fits(#[trigger] list[i]),
    ensures
        take_contacts(contacts_bytes(list) + rest, list.len()) == Some((list, rest)),
    decreases list.len(),
{
    if list.len() > 0 {
        let init = list.drop_last();
        let after = contact_bytes(list.last()) + rest;
        lemma_take_contacts_of_bytes(init, after);
        lemma_take_contact_of_bytes(list.last(), rest);
        assert(contacts_bytes(list) + rest =~= contacts_bytes(init) + after);
    }
}

/// What was read as a list of contacts is what writing that list gives.
pub proof fn lemma_bytes_of_take_contacts(b: Seq<u8>, n: nat)
    requires
        take_contacts(b, n) is Some,
    ensures
        b == contacts_bytes(take_contacts(b, n).unwrap().0) + take_contacts(b, n).unwrap().1,
        take_contacts(b, n).unwrap().0.len() == n,
        forall|i: int|
            0 <= i < n ==> contact_fits(#[trigger] take_contacts(b, n).unwrap().0[i]),
    decreases n,
{
    let (list, end) = take_contacts(b, n).unwrap();
    if n > 0 {
        let (init, rest) = take_contacts(b, (n - 1) as nat).unwrap();
        lemma_bytes_of_take_contacts(b, (n - 1) as nat);
        lemma_bytes_of_take_contact(rest);
        assert(list.drop_last() =~= init);
    }
}

/// Once a contact cannot be read, no longer list can be read either.
pub proof fn lemma_take_contacts_stays_none(b: Seq<u8>, i: nat, n: nat)
    requires
        i <= n,
        take_contacts(b, i) is None,
    ensures
        take_contacts(b, n) is None,
    decreases n,
{
    if i < n {
        lemma_take_contacts_stays_none(b, i, (n - 1) as nat);
    }
}

/// An optional list of texts written and followed by anything is read back,
/// leaving what followed.
pub proof fn lemma_take_opt_texts_of_bytes(list: Option<Seq<Seq<char>>>, rest: Seq<u8>)
    requires
        list matches Some(l) ==> texts_fit(l),
    ensures
        take_opt_texts(opt_texts_bytes(list) + rest) == Some((list, rest)),
{
    match list {
        Some(l) => {
            let items = texts_bytes(l) + rest;
            let counted = u64_bytes(l.len() as u64) + items;
            lemma_take_flag_of_bytes(true, counted);
            lemma_take_u64_of_bytes(l.len() as u64, items);
            lemma_take_texts_of_bytes(l, rest);
            assert(opt_texts_bytes(list) + rest =~= flag_bytes(true) + counted);
        },
        None => {
            lemma_take_flag_of_bytes(false, rest);
        },
    }
}

/// What was read as an optional list of texts is what writing it gives.
pub proof fn lemma_bytes_of_take_opt_texts(b: Seq<u8>)
    requires
        take_opt_texts(b) is Some,
    ensures
        b == opt_texts_bytes(take_opt_texts(b).unwrap().0) + take_opt_texts(b).unwrap().1,
        take_opt_texts(b).unwrap().0 matches Some(l) ==> texts_fit(l),
{
    let (present, rest) = take_flag(b).unwrap();
    lemma_bytes_of_take_flag(b);
    if present {
        let (n, items) = take_u64(rest).unwrap();
        let (list, end) = take_texts(items, n as nat).unwrap();
        lemma_bytes_of_take_u64(rest);
        lemma_bytes_of_take_texts(items, n as nat);
    }
}

/// An optional list of contacts written and followed by anything is read
/// back, leaving what followed.
pub proof fn lemma_take_opt_contacts_of_bytes(list: Option<Seq<Contact>>, rest: Seq<u8>)
    requires
        list matches Some(l) ==> contacts_fit(l),
    ensures
        take_opt_contacts(opt_contacts_bytes(list) + rest) == Some((list, rest)),
{
    match list {
        Some(l) => {
            let items = contacts_bytes(l) + rest;
            let counted = u64_bytes(l.len() as u64) + items;
            lemma_take_flag_of_bytes(true, counted);
            lemma_take_u64_of_bytes(l.len() as u64, items);
            lemma_take_contacts_of_bytes(l, rest);
            assert(opt_contacts_bytes(list) + rest =~= flag_bytes(true) + counted);
        },
        None => {
            lemma_take_flag_of_bytes(false, rest);
        },
    }
}

/// What was read as an optional list of contacts is what writing it gives.
pub proof fn lemma_bytes_of_take_opt_contacts(b: Seq<u8>)
    requires
        take_opt_contacts(b) is Some,
    ensures
        b == opt_contacts_bytes(take_opt_contacts(b).unwrap().0) + take_opt_contacts(
            b,
        ).unwrap().1,
        take_opt_contacts(b).unwrap().0 matches Some(l) ==> contacts_fit(l),
{
    let (present, rest) = take_flag(b).unwrap();
    lemma_bytes_of_take_flag(b);
    if present {
        let (n, items) = take_u64(rest).unwrap();
        let (list, end) = take_contacts(items, n as nat).unwrap();
        lemma_bytes_of_take_u64(rest);
        lemma_bytes_of_take_contacts(items, n as nat);
    }
}

/// The fields of a message, written, are read back whole.
pub proof fn lemma_parse_body_of_bytes(body: Body)
    requires
        body.fits(),
    ensures
        parse_body(body.shape(), body_bytes(body)) == Some(body),
{
    let none = Seq::<u8>::empty();
    match body {
        Body::Unit => {},
        Body::Flag(a) => {
            lemma_take_flag_of_bytes(a, none);
        },
        Body::Int(a) => {
            lemma_take_i64_of_bytes(a, none);
        },
        Body::Object(a) => {
            lemma_take_u32_of_bytes(a, none);
        },
        Body::Text(a) => {
            lemma_take_text_of_bytes(a, none);
        },
        Body::TextFlag(a, b) => {
            lemma_take_text_of_bytes(a, flag_bytes(b));
            lemma_take_flag_of_bytes(b, none);
        },
        Body::TextInt(a, b) => {
            lemma_take_text_of_bytes(a, i64_bytes(b));
            lemma_take_i64_of_bytes(b, none);
        },
        Body::TextText(a, b) => {
            lemma_take_text_of_bytes(a, text_bytes(b));
            lemma_take_text_of_bytes(b, none);
        },
        Body::TextTextText(a, b, c) => {
            lemma_take_text_of_bytes(a, text_bytes(b) + text_bytes(c));
            lemma_take_text_of_bytes(b, text_bytes(c));
            lemma_take_text_of_bytes(c, none);
        },
        Body::Token(a, b, list) => {
            lemma_take_text_of_bytes(a, text_bytes(b) + opt_texts_bytes(list));
            lemma_take_text_of_bytes(b, opt_texts_bytes(list));
            lemma_take_opt_texts_of_bytes(list, none);
        },
        Body::Contacts(list) => {
            lemma_take_opt_contacts_of_bytes(list, none);
        },
        Body::Network(a, b) => {
            lemma_take_u32_of_bytes(a.index(), u32_bytes(b.index()));
            lemma_take_u32_of_bytes(b.index(), none);
        },
        Body::IntCard(a, b) => {
            lemma_take_i64_of_bytes(a, u32_bytes(b.index()));
            lemma_take_u32_of_bytes(b.index(), none);
        },
        Body::IntFlag(a, b) => {
            lemma_take_i64_of_bytes(a, flag_bytes(b));
            lemma_take_flag_of_bytes(b, none);
        },
        Body::FlagFlag(a, b) => {
            lemma_take_flag_of_bytes(a, flag_bytes(b));
            lemma_take_flag_of_bytes(b, none);
        },
    }
}

/// What was read whole as the fields of a message is what writing those
/// fields gives; the fields have the shape asked for, and can be written.
pub proof fn lemma_bytes_of_parse_body(shape: Shape, b: Seq<u8>)
    requires
        parse_body(shape, b) is Some,
    ensures
        body_bytes(parse_body(shape, b).unwrap()) == b,
        parse_body(shape, b).unwrap().shape() == shape,
        parse_body(shape, b).unwrap().fits(),
{
    match shape {
        Shape::Unit => {},
        Shape::Flag => {
            lemma_bytes_of_take_flag(b);
        },
        Shape::Int => {
            lemma_bytes_of_take_i64(b);
        },
        Shape::Object => {
            lemma_bytes_of_take_u32(b);
        },
        Shape::Text => {
            lemma_bytes_of_take_text(b);
        },
        Shape::TextFlag => {
            lemma_bytes_of_take_text(b);
            lemma_bytes_of_take_flag(take_text(b).unwrap().1);
        },
        Shape::TextInt => {
            lemma_bytes_of_take_text(b);
            lemma_bytes_of_take_i64(take_text(b).unwrap().1);
        },
        Shape::TextText => {
            lemma_bytes_of_take_text(b);
            lemma_bytes_of_take_text(take_text(b).unwrap().1);
        },
        Shape::TextTextText => {
            let r1 = take_text(b).unwrap().1;
            lemma_bytes_of_take_text(b);
            lemma_bytes_of_take_text(r1);
            lemma_bytes_of_take_text(take_text(r1).unwrap().1);
        },
        Shape::Token => {
            let r1 = take_text(b).unwrap().1;
            lemma_bytes_of_take_text(b);
            lemma_bytes_of_take_text(r1);
            lemma_bytes_of_take_opt_texts(take_text(r1).unwrap().1);
        },
        Shape::Contacts => {
            lemma_bytes_of_take_opt_contacts(b);
        },
        Shape::Network => {
            lemma_bytes_of_take_u32(b);
            lemma_bytes_of_take_u32(take_u32(b).unwrap().1);
        },
        Shape::IntCard => {
            lemma_bytes_of_take_i64(b);
            lemma_bytes_of_take_u32(take_i64(b).unwrap().1);
        },
        Shape::IntFlag => {
            lemma_bytes_of_take_i64(b);
            lemma_bytes_of_take_flag(take_i64(b).unwrap().1);
        },
        Shape::FlagFlag => {
            lemma_bytes_of_take_flag(b);
            lemma_bytes_of_take_flag(take_flag(b).unwrap().1);
        },
    }
}

/// Appends the bytes of a list of texts to `out`.
pub fn put_texts(out: &mut Vec<u8>, list: &Vec<String>)
    ensures
        final(out)@ == old(out)@ + texts_bytes(texts_view(list@)),
        texts_fit(texts_view(list@)),
{
    let ghost start = out@;
    let ghost all = texts_view(list@);
    let mut i: usize = 0;
    while i < list.len()
        invariant
            i <= list.len(),
            all == texts_view(list@),
            out@ == start + texts_bytes(all.take(i as int)),
            forall|j: int| 0 <= j < i ==> text_fits(#[trigger] all[j]),
        decreases list.len() - i,
    {
        put_text(out, list[i].as_str());
        proof {
            let next = all.take(i + 1);
            assert(next.drop_last() =~= all.take(i as int));
        }
        i = i + 1;
    }
    assert(all.take(list.len() as int) =~= all);
}

/// Appends the bytes of an optional list of texts to `out`.
pub fn put_opt_texts(out: &mut Vec<u8>, list: &Option<Vec<String>>)
    ensures
        final(out)@ == old(out)@ + opt_texts_bytes(opt_texts_view(*list)),
        opt_texts_view(*list) matches Some(l) ==> texts_fit(l),
{
    match list {
        Some(items) => {
            put_flag(out, true);
            put_u64(out, items.len() as u64);
            put_texts(out, items);
        },
        None => {
            put_flag(out, false);
        },
    }
}

/// Appends the bytes of a contact to `out`.
pub fn put_contact(out: &mut Vec<u8>, contact: &SimContactInfo)
    ensures
        final(out)@ == old(out)@ + contact_bytes(contact@),
        contact_fits(contact@),
{
    put_text(out, contact.id.as_str());
    put_text(out, contact.tel.as_str());
    put_text(out, contact.email.as_str());
    put_text(out, contact.name.as_str());
    put_text(out, contact.category.as_str());
}

/// Appends the bytes of a list of contacts to `out`.
pub fn put_contacts(out: &mut Vec<u8>, list: &Vec<SimContactInfo>)
    ensures
        final(out)@ == old(out)@ + contacts_bytes(contacts_view(list@)),
        contacts_fit(contacts_view(list@)),
{
    let ghost start = out@;
    let ghost all = contacts_view(list@);
    let mut i: usize = 0;
    while i < list.len()
        invariant
            i <= list.len(),
            all == contacts_view(list@),
            out@ == start + contacts_bytes(all.take(i as int)),
            forall|j: int| 0 <= j < i ==> contact_fits(#[trigger] all[j]),
        decreases list.len() - i,
    {
        put_contact(out, &list[i]);
        proof {
            let next = all.take(i + 1);
            assert(next.drop_last() =~= all.take(i as int));
        }
        i = i + 1;
    }
    assert(all.take(list.len() as int) =~= all);
}

/// Appends the bytes of an optional list of contacts to `out`.
pub fn put_opt_contacts(out: &mut Vec<u8>, list: &Option<Vec<SimContactInfo>>)
    ensures
        final(out)@ == old(out)@ + opt_contacts_bytes(opt_contacts_view(*list)),
        opt_contacts_view(*list) matches Some(l) ==> contacts_fit(l),
{
    match list {
        Some(items) => {
            put_flag(out, true);
            put_u64(out, items.len() as u64);
            put_contacts(out, items);
        },
        None => {
            put_flag(out, false);
        },
    }
}

/// Takes `n` texts. On failure what the reader has left is not specified.
pub fn read_texts(reader: &mut Reader, n: u64) -> (list: Option<Vec<String>>)
    ensures
        list matches Some(v) ==> take_texts(old(reader).remaining(), n as nat) == Some(
            (texts_view(v@), final(reader).remaining()),
        ),
        list is None ==> take_texts(old(reader).remaining(), n as nat) is None,
{
    let ghost start = reader.remaining();
    let mut out: Vec<String> = Vec::new();
    let mut i: u64 = 0;
    while i < n
        invariant
            i <= n,
            start == old(reader).remaining(),
            take_texts(start, i as nat) == Some((texts_view(out@), reader.remaining())),
        decreases n - i,
    {
        match reader.text() {
            Some(s) => {
                out.push(s);
            },
            None => {
                proof {
                    lemma_take_texts_stays_none(start, (i + 1) as nat, n as nat);
                }
                return None;
            },
        }
        i = i + 1;
    }
    Some(out)
}

/// Takes an optional list of texts. On failure what the reader has left is
/// not specified.
pub fn read_opt_texts(reader: &mut Reader) -> (list: Option<Option<Vec<String>>>)
    ensures
        list matches Some(v) ==> take_opt_texts(old(reader).remaining()) == Some(
            (opt_texts_view(v), final(reader).remaining()),
        ),
        list is None ==> take_opt_texts(old(reader).remaining()) is None,
{
    let present = match reader.flag() {
        Some(v) => v,
        None => {
            return None;
        },
    };
    if !present {
        return Some(None);
    }
    let n = match reader.u64() {
        Some(v) => v,
        None => {
            return None;
        },
    };
    match read_texts(reader, n) {
        Some(items) => Some(Some(items)),
        None => None,
    }
}

/// Takes a contact. On failure what the reader has left is not specified.
pub fn read_contact(reader: &mut Reader) -> (contact: Option<SimContactInfo>)
    ensures
        contact matches Some(v) ==> take_contact(old(reader).remaining()) == Some(
            (v@, final(reader).remaining()),
        ),
        contact is None ==> take_contact(old(reader).remaining()) is None,
{
    let id = match reader.text() {
        Some(v) => v,
        None => {
            return None;
        },
    };
    let tel = match reader.text() {
        Some(v) => v,
        None => {
            return None;
        },
    };
    let email = match reader.text() {
        Some(v) => v,
        None => {
            return None;
        },
    };
    let name = match reader.text() {
        Some(v) => v,
        None => {
            return None;
        },
    };
    let category = match reader.text() {
        Some(v) => v,
        None => {
            return None;
        },
    };
    Some(SimContactInfo { id, tel, email, name, category })
}

/// Takes `n` contacts. On failure what the reader has left is not specified.
pub fn read_contacts(reader: &mut Reader, n: u64) -> (list: Option<Vec<SimContactInfo>>)
    ensures
        list matches Some(v) ==> take_contacts(old(reader).remaining(), n as nat) == Some(
            (contacts_view(v@), final(reader).remaining()),
        ),
        list is None ==> take_contacts(old(reader).remaining(), n as nat) is None,
{
    let ghost start = reader.remaining();
    let mut out: Vec<SimContactInfo> = Vec::new();
    let mut i: u64 = 0;
    while i < n
        invariant
            i <= n,
            start == old(reader).remaining(),
            take_contacts(start, i as nat) == Some((contacts_view(out@), reader.remaining())),
        decreases n - i,
    {
        match read_contact(reader) {
            Some(c) => {
                out.push(c);
            },
            None => {
                proof {
                    lemma_take_contacts_stays_none(start, (i + 1) as nat, n as nat);
                }
                return None;
            },
        }
        i = i + 1;
    }
    Some(out)
}

/// Takes an optional list of contacts. On failure what the reader has left is
/// not specified.
pub fn read_opt_contacts(reader: &mut Reader) -> (list: Option<Option<Vec<SimContactInfo>>>)
    ensures
        list matches Some(v) ==> take_opt_contacts(old(reader).remaining()) == Some(
            (opt_contacts_view(v), final(reader).remaining()),
        ),
        list is None ==> take_opt_contacts(old(reader).remaining()) is None,
{
    let present = match reader.flag() {
        Some(v) => v,
        None => {
            return None;
        },
    };
    if !present {
        return Some(None);
    }
    let n = match reader.u64() {
        Some(v) => v,
        None => {
            return None;
        },
    };
    match read_contacts(reader, n) {
        Some(items) => Some(Some(items)),
        None => None,
    }
}

/// Takes the state of a network. On failure nothing is taken.
pub fn read_state(reader: &mut Reader) -> (state: Option<NetworkState>)
    ensures
        state matches Some(v) ==> take_state(old(reader).remaining()) == Some(
            (v, final(reader).remaining()),
        ),
        state is None ==> take_state(old(reader).remaining()) is None,
{
    match reader.u32() {
        Some(index) => NetworkState::from_index(index),
        None => None,
    }
}

/// Takes the type of a network. On failure nothing is specified of the reader.
pub fn read_type(reader: &mut Reader) -> (kind: Option<NetworkType>)
    ensures
        kind matches Some(v) ==> take_type(old(reader).remaining()) == Some(
            (v, final(reader).remaining()),
        ),
        kind is None ==> take_type(old(reader).remaining()) is None,
{
    match reader.u32() {
        Some(index) => NetworkType::from_index(index),
        None => None,
    }
}

/// Takes the kind of a card's information.
pub fn read_card(reader: &mut Reader) -> (card: Option<CardInfoType>)
    ensures
        card matches Some(v) ==> take_card(old(reader).remaining()) == Some(
            (v, final(reader).remaining()),
        ),
        card is None ==> take_card(old(reader).remaining()) is None,
{
    match reader.u32() {
        Some(index) => CardInfoType::from_index(index),
        None => None,
    }
}

/// The payload of a message that carries nothing.
pub fn unit_payload(index: u32) -> (payload: Vec<u8>)
    ensures
        payload@ == u32_bytes(index) + body_bytes(Body::Unit),
        Body::Unit.fits(),
{
    let mut payload = Vec::new();
    put_u32(&mut payload, index);
    payload
}

/// The payload of a message that carries a flag.
pub fn flag_payload(index: u32, a: bool) -> (payload: Vec<u8>)
    ensures
        payload@ == u32_bytes(index) + body_bytes(Body::Flag(a)),
        Body::Flag(a).fits(),
{
    let mut payload = Vec::new();
    put_u32(&mut payload, index);
    put_flag(&mut payload, a);
    payload
}

/// The payload of a message that carries an integer.
pub fn int_payload(index: u32, a: i64) -> (payload: Vec<u8>)
    ensures
        payload@ == u32_bytes(index) + body_bytes(Body::Int(a)),
        Body::Int(a).fits(),
{
    let mut payload = Vec::new();
    put_u32(&mut payload, index);
    put_i64(&mut payload, a);
    payload
}

/// The payload of a message that carries a reference to an object.
pub fn object_payload(index: u32, a: u32) -> (payload: Vec<u8>)
    ensures
        payload@ == u32_bytes(index) + body_bytes(Body::Object(a)),
        Body::Object(a).fits(),
{
    let mut payload = Vec::new();
    put_u32(&mut payload, index);
    put_u32(&mut payload, a);
    payload
}

/// The payload of a message that carries a text.
pub fn text_payload(index: u32, a: &str) -> (payload: Vec<u8>)
    ensures
        payload@ == u32_bytes(index) + body_bytes(Body::Text(a@)),
        Body::Text(a@).fits(),
{
    let mut payload = Vec::new();
    put_u32(&mut payload, index);
    put_text(&mut payload, a);
    payload
}

/// The payload of a message that carries a text and a flag.
pub fn text_flag_payload(index: u32, a: &str, b: bool) -> (payload: Vec<u8>)
    ensures
        payload@ == u32_bytes(index) + body_bytes(Body::TextFlag(a@, b)),
        Body::TextFlag(a@, b).fits(),
{
    let mut payload = Vec::new();
    put_u32(&mut payload, index);
    put_text(&mut payload, a);
    put_flag(&mut payload, b);
    payload
}

/// The payload of a message that carries a text and an integer.
pub fn text_int_payload(index: u32, a: &str, b: i64) -> (payload: Vec<u8>)
    ensures
        payload@ == u32_bytes(index) + body_bytes(Body::TextInt(a@, b)),
        Body::TextInt(a@, b).fits(),
{
    let mut payload = Vec::new();
    put_u32(&mut payload, index);
    put_text(&mut payload, a);
    put_i64(&mut payload, b);
    payload
}

/// The payload of a message that carries two texts.
pub fn text_text_payload(index: u32, a: &str, b: &str) -> (payload: Vec<u8>)
    ensures
        payload@ == u32_bytes(index) + body_bytes(Body::TextText(a@, b@)),
        Body::TextText(a@, b@).fits(),
{
    let mut payload = Vec::new();
    put_u32(&mut payload, index);
    put_text(&mut payload, a);
    put_text(&mut payload, b);
    payload
}

/// The payload of a message that carries three texts.
pub fn text_text_text_payload(index: u32, a: &str, b: &str, c: &str) -> (payload: Vec<u8>)
    ensures
        payload@ == u32_bytes(index) + body_bytes(Body::TextTextText(a@, b@, c@)),
        Body::TextTextText(a@, b@, c@).fits(),
{
    let mut payload = Vec::new();
    put_u32(&mut payload, index);
    put_text(&mut payload, a);
    put_text(&mut payload, b);
    put_text(&mut payload, c);
    payload
}

/// The payload of a message that carries two texts and an optional list of texts.
pub fn token_payload(index: u32, a: &str, b: &str, list: &Option<Vec<String>>) -> (payload: Vec<u8>)
    ensures
        payload@ == u32_bytes(index) + body_bytes(Body::Token(a@, b@, opt_texts_view(*list))),
        Body::Token(a@, b@, opt_texts_view(*list)).fits(),
{
    let mut payload = Vec::new();
    put_u32(&mut payload, index);
    put_text(&mut payload, a);
    put_text(&mut payload, b);
    put_opt_texts(&mut payload, list);
    payload
}

/// The payload of a message that carries an optional list of contacts.
pub fn contacts_payload(index: u32, list: &Option<Vec<SimContactInfo>>) -> (payload: Vec<u8>)
    ensures
        payload@ == u32_bytes(index) + body_bytes(Body::Contacts(opt_contacts_view(*list))),
        Body::Contacts(opt_contacts_view(*list)).fits(),
{
    let mut payload = Vec::new();
    put_u32(&mut payload, index);
    put_opt_contacts(&mut payload, list);
    payload
}

/// The payload of a message that carries a network's state and type.
pub fn network_payload(index: u32, a: NetworkState, b: NetworkType) -> (payload: Vec<u8>)
    ensures
        payload@ == u32_bytes(index) + body_bytes(Body::Network(a, b)),
        Body::Network(a, b).fits(),
{
    let mut payload = Vec::new();
    put_u32(&mut payload, index);
    put_u32(&mut payload, a.to_index());
    put_u32(&mut payload, b.to_index());
    payload
}

/// The payload of a message that carries an integer and the kind of a card's information.
pub fn int_card_payload(index: u32, a: i64, b: CardInfoType) -> (payload: Vec<u8>)
    ensures
        payload@ == u32_bytes(index) + body_bytes(Body::IntCard(a, b)),
        Body::IntCard(a, b).fits(),
{
    let mut payload = Vec::new();
    put_u32(&mut payload, index);
    put_i64(&mut payload, a);
    put_u32(&mut payload, b.to_index());
    payload
}

/// The payload of a message that carries an integer and a flag.
pub fn int_flag_payload(index: u32, a: i64, b: bool) -> (payload: Vec<u8>)
    ensures
        payload@ == u32_bytes(index) + body_bytes(Body::IntFlag(a, b)),
        Body::IntFlag(a, b).fits(),
{
    let mut payload = Vec::new();
    put_u32(&mut payload, index);
    put_i64(&mut payload, a);
    put_flag(&mut payload, b);
    payload
}

/// The payload of a message that carries two flags.
pub fn flag_flag_payload(index: u32, a: bool, b: bool) -> (payload: Vec<u8>)
    ensures
        payload@ == u32_bytes(index) + body_bytes(Body::FlagFlag(a, b)),
        Body::FlagFlag(a, b).fits(),
{
    let mut payload = Vec::new();
    put_u32(&mut payload, index);
    put_flag(&mut payload, a);
    put_flag(&mut payload, b);
    payload
}

/// The message of a variant that carries nothing, if nothing is left to read.
pub fn unit_body<T>(reader: Reader, message: T) -> (result: Result<T, DecodeError>)
    ensures
        result matches Ok(m) ==> m == message && parse_body(Shape::Unit, reader.remaining())
            == Some(Body::Unit),
        result matches Err(e) ==> e == DecodeError::Malformed && parse_body(
            Shape::Unit,
            reader.remaining(),
        ) is None,
{
    if reader.at_end() {
        Ok(message)
    } else {
        Err(DecodeError::Malformed)
    }
}

/// Reads all that is left as a flag.
pub fn flag_body(reader: Reader) -> (fields: Option<bool>)
    ensures
        fields matches Some(a) ==> parse_body(Shape::Flag, reader.remaining()) == Some(
            Body::Flag(a),
        ),
        fields is None ==> parse_body(Shape::Flag, reader.remaining()) is None,
{
    let mut reader = reader;
    let a = match reader.flag() {
        Some(v) => v,
        None => {
            return None;
        },
    };
    if reader.at_end() {
        Some(a)
    } else {
        None
    }
}

/// Reads all that is left as an integer.
pub fn int_body(reader: Reader) -> (fields: Option<i64>)
    ensures
        fields matches Some(a) ==> parse_body(Shape::Int, reader.remaining()) == Some(
            Body::Int(a),
        ),
        fields is None ==> parse_body(Shape::Int, reader.remaining()) is None,
{
    let mut reader = reader;
    let a = match reader.i64() {
        Some(v) => v,
        None => {
            return None;
        },
    };
    if reader.at_end() {
        Some(a)
    } else {
        None
    }
}

/// Reads all that is left as a reference to an object.
pub fn object_body(reader: Reader) -> (fields: Option<u32>)
    ensures
        fields matches Some(a) ==> parse_body(Shape::Object, reader.remaining()) == Some(
            Body::Object(a),
        ),
        fields is None ==> parse_body(Shape::Object, reader.remaining()) is None,
{
    let mut reader = reader;
    let a = match reader.u32() {
        Some(v) => v,
        None => {
            return None;
        },
    };
    if reader.at_end() {
        Some(a)
    } else {
        None
    }
}

/// Reads all that is left as a text.
pub fn text_body(reader: Reader) -> (fields: Option<String>)
    ensures
        fields matches Some(a) ==> parse_body(Shape::Text, reader.remaining()) == Some(
            Body::Text(a@),
        ),
        fields is None ==> parse_body(Shape::Text, reader.remaining()) is None,
{
    let mut reader = reader;
    let a = match reader.text() {
        Some(v) => v,
        None => {
            return None;
        },
    };
    if reader.at_end() {
        Some(a)
    } else {
        None
    }
}

/// Reads all that is left as a text and a flag.
pub fn text_flag_body(reader: Reader) -> (fields: Option<(String, bool)>)
    ensures
        fields matches Some((a, b)) ==> parse_body(Shape::TextFlag, reader.remaining()) == Some(
            Body::TextFlag(a@, b),
        ),
        fields is None ==> parse_body(Shape::TextFlag, reader.remaining()) is None,
{
    let mut reader = reader;
    let a = match reader.text() {
        Some(v) => v,
        None => {
            return None;
        },
    };
    let b = match reader.flag() {
        Some(v) => v,
        None => {
            return None;
        },
    };
    if reader.at_end() {
        Some((a, b))
    } else {
        None
    }
}

/// Reads all that is left as a text and an integer.
pub fn text_int_body(reader: Reader) -> (fields: Option<(String, i64)>)
    ensures
        fields matches Some((a, b)) ==> parse_body(Shape::TextInt, reader.remaining()) == Some(
            Body::TextInt(a@, b),
        ),
        fields is None ==> parse_body(Shape::TextInt, reader.remaining()) is None,
{
    let mut reader = reader;
    let a = match reader.text() {
        Some(v) => v,
        None => {
            return None;
        },
    };
    let b = match reader.i64() {
        Some(v) => v,
        None => {
            return None;
        },
    };
    if reader.at_end() {
        Some((a, b))
    } else {
        None
    }
}

/// Reads all that is left as two texts.
pub fn text_text_body(reader: Reader) -> (fields: Option<(String, String)>)
    ensures
        fields matches Some((a, b)) ==> parse_body(Shape::TextText, reader.remaining()) == Some(
            Body::TextText(a@, b@),
        ),
        fields is None ==> parse_body(Shape::TextText, reader.remaining()) is None,
{
    let mut reader = reader;
    let a = match reader.text() {
        Some(v) => v,
        None => {
            return None;
        },
    };
    let b = match reader.text() {
        Some(v) => v,
        None => {
            return None;
        },
    };
    if reader.at_end() {
        Some((a, b))
    } else {
        None
    }
}

/// Reads all that is left as three texts.
pub fn text_text_text_body(reader: Reader) -> (fields: Option<(String, String, String)>)
    ensures
        fields matches Some((a, b, c)) ==> parse_body(Shape::TextTextText, reader.remaining())
            == Some(Body::TextTextText(a@, b@, c@)),
        fields is None ==> parse_body(Shape::TextTextText, reader.remaining()) is None,
{
    let mut reader = reader;
    let a = match reader.text() {
        Some(v) => v,
        None => {
            return None;
        },
    };
    let b = match reader.text() {
        Some(v) => v,
        None => {
            return None;
        },
    };
    let c = match reader.text() {
        Some(v) => v,
        None => {
            return None;
        },
    };
    if reader.at_end() {
        Some((a, b, c))
    } else {
        None
    }
}

/// Reads all that is left as two texts and an optional list of texts.
pub fn token_body(reader: Reader) -> (fields: Option<(String, String, Option<Vec<String>>)>)
    ensures
        fields matches Some((a, b, c)) ==> parse_body(Shape::Token, reader.remaining()) == Some(
            Body::Token(a@, b@, opt_texts_view(c)),
        ),
        fields is None ==> parse_body(Shape::Token, reader.remaining()) is None,
{
    let mut reader = reader;
    let a = match reader.text() {
        Some(v) => v,
        None => {
            return None;
        },
    };
    let b = match reader.text() {
        Some(v) => v,
        None => {
            return None;
        },
    };
    let c = match read_opt_texts(&mut reader) {
        Some(v) => v,
        None => {
            return None;
        },
    };
    if reader.at_end() {
        Some((a, b, c))
    } else {
        None
    }
}

/// Reads all that is left as an optional list of contacts.
pub fn contacts_body(reader: Reader) -> (fields: Option<Option<Vec<SimContactInfo>>>)
    ensures
        fields matches Some(a) ==> parse_body(Shape::Contacts, reader.remaining()) == Some(
            Body::Contacts(opt_contacts_view(a)),
        ),
        fields is None ==> parse_body(Shape::Contacts, reader.remaining()) is None,
{
    let mut reader = reader;
    let a = match read_opt_contacts(&mut reader) {
        Some(v) => v,
        None => {
            return None;
        },
    };
    if reader.at_end() {
        Some(a)
    } else {
        None
    }
}

/// Reads all that is left as a network's state and type.
pub fn network_body(reader: Reader) -> (fields: Option<(NetworkState, NetworkType)>)
    ensures
        fields matches Some((a, b)) ==> parse_body(Shape::Network, reader.remaining()) == Some(
            Body::Network(a, b),
        ),
        fields is None ==> parse_body(Shape::Network, reader.remaining()) is None,
{
    let mut reader = reader;
    let a = match read_state(&mut reader) {
        Some(v) => v,
        None => {
            return None;
        },
    };
    let b = match read_type(&mut reader) {
        Some(v) => v,
        None => {
            return None;
        },
    };
    if reader.at_end() {
        Some((a, b))
    } else {
        None
    }
}

/// Reads all that is left as an integer and the kind of a card's information.
pub fn int_card_body(reader: Reader) -> (fields: Option<(i64, CardInfoType)>)
    ensures
        fields matches Some((a, b)) ==> parse_body(Shape::IntCard, reader.remaining()) == Some(
            Body::IntCard(a, b),
        ),
        fields is None ==> parse_body(Shape::IntCard, reader.remaining()) is None,
{
    let mut reader = reader;
    let a = match reader.i64() {
        Some(v) => v,
        None => {
            return None;
        },
    };
    let b = match read_card(&mut reader) {
        Some(v) => v,
        None => {
            return None;
        },
    };
    if reader.at_end() {
        Some((a, b))
    } else {
        None
    }
}

/// Reads all that is left as an integer and a flag.
pub fn int_flag_body(reader: Reader) -> (fields: Option<(i64, bool)>)
    ensures
        fields matches Some((a, b)) ==> parse_body(Shape::IntFlag, reader.remaining()) == Some(
            Body::IntFlag(a, b),
        ),
        fields is None ==> parse_body(Shape::IntFlag, reader.remaining()) is None,
{
    let mut reader = reader;
    let a = match reader.i64() {
        Some(v) => v,
        None => {
            return None;
        },
    };
    let b = match reader.flag() {
        Some(v) => v,
        None => {
            return None;
        },
    };
    if reader.at_end() {
        Some((a, b))
    } else {
        None
    }
}

/// Reads all that is left as two flags.
pub fn flag_flag_body(reader: Reader) -> (fields: Option<(bool, bool)>)
    ensures
        fields matches Some((a, b)) ==> parse_body(Shape::FlagFlag, reader.remaining()) == Some(
            Body::FlagFlag(a, b),
        ),
        fields is None ==> parse_body(Shape::FlagFlag, reader.remaining()) is None,
{
    let mut reader = reader;
    let a = match reader.flag() {
        Some(v) => v,
        None => {
            return None;
        },
    };
    let b = match reader.flag() {
        Some(v) => v,
        None => {
            return None;
        },
    };
    if reader.at_end() {
        Some((a, b))
    } else {
        None
    }
}

} // verus!
