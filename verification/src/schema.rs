//! The schema: which variants each direction has, what each carries, and what
//! it means for a payload to be the encoding of a message.

use crate::errors::DecodeError;
use crate::payload::{
    body_bytes, lemma_bytes_of_parse_body, lemma_parse_body_of_bytes, parse_body, payload_bytes,
    MessageView, Shape,
};
use crate::wire::{lemma_bytes_of_take_u32, lemma_take_u32_of_bytes, take_u32};
use vstd::prelude::*;

verus! {

/// The direction in which a message travels.
#[derive(Clone, Copy, Debug, PartialEq, Eq, Structural)]
pub enum Direction {
    /// From the host to the client: answers to the client's requests, and
    /// commands for its delegates.
    ToClient,
    /// From the client to the host: requests, and the delegates' answers.
    FromClient,
}

/// How many variants a direction has. Their indices run from zero.
pub open spec fn variant_count(direction: Direction) -> u32 {
    match direction {
        Direction::ToClient => 41,
        Direction::FromClient => 52,
    }
}

/// What the variant with the given index carries. Most variants carry
/// nothing.
pub open spec fn shape_of(direction: Direction, index: u32) -> Shape {
    match direction {
        Direction::ToClient => match index {
            21 | 24 | 27 | 37 => Shape::TextText,
            23 => Shape::TextTextText,
            25 | 26 | 31 | 33 | 34 | 35 => Shape::Text,
            28 => Shape::IntCard,
            29 => Shape::IntFlag,
            32 => Shape::FlagFlag,
            36 => Shape::TextFlag,
            38 => Shape::TextInt,
            _ => Shape::Unit,
        },
        Direction::FromClient => match index {
            0 => Shape::TextFlag,
            1 | 28 => Shape::TextText,
            2 => Shape::Contacts,
            3 => Shape::TextInt,
            4 => Shape::Token,
            5 | 6 | 7 | 8 | 9 | 32 => Shape::Object,
            10 | 26 | 38 | 48 => Shape::Text,
            30 => Shape::Network,
            36 => Shape::Flag,
            40 => Shape::Int,
            _ => Shape::Unit,
        },
    }
}

/// The direction opposite to `direction`.
pub open spec fn opposite(direction: Direction) -> Direction {
    match direction {
        Direction::ToClient => Direction::FromClient,
        Direction::FromClient => Direction::ToClient,
    }
}

/// The two answers to a request: the indices, in the opposite direction, of
/// its success variant and of its error variant. The first ten variants from
/// the client are its requests; the variants to the client from the twentieth
/// on are the host's commands. The others are answers themselves.
pub open spec fn answer_indices(direction: Direction, index: u32) -> Option<(u32, u32)> {
    match direction {
        Direction::FromClient => if index < 10 {
            Some(((2 * index) as u32, (2 * index + 1) as u32))
        } else {
            None
        },
        Direction::ToClient => if 20 <= index < 41 {
            Some(((2 * index - 30) as u32, (2 * index - 29) as u32))
        } else {
            None
        },
    }
}

/// The two answers to a request, if the variant with the given index is one.
pub fn answers_to(direction: Direction, index: u32) -> (answers: Option<(u32, u32)>)
    ensures
        answers == answer_indices(direction, index),
{
    match direction {
        Direction::FromClient => if index < 10 {
            Some((2 * index, 2 * index + 1))
        } else {
            None
        },
        Direction::ToClient => if 20 <= index && index < 41 {
            Some((2 * index - 30, 2 * index - 29))
        } else {
            None
        },
    }
}

/// Every request has its two answers in the schema of the opposite direction,
/// the error right after the success, and both carry no request of their own;
/// no two requests share an answer.
pub proof fn lemma_answers_are_in_schema(direction: Direction, index: u32, other: u32)
    requires
        answer_indices(direction, index) is Some,
    ensures
        index < variant_count(direction),
        answer_indices(direction, index).unwrap().1 == answer_indices(direction, index).unwrap().0
            + 1,
        answer_indices(direction, index).unwrap().1 < variant_count(opposite(direction)),
        answer_indices(opposite(direction), answer_indices(direction, index).unwrap().0) is None,
        answer_indices(opposite(direction), answer_indices(direction, index).unwrap().1) is None,
        answer_indices(direction, other) == answer_indices(direction, index) ==> other == index,
{
}

/// Whether the values are those of a message of the direction: the index is
/// one of the schema, the fields are those of that variant, and every length
/// fits its length field.
pub open spec fn well_formed(direction: Direction, m: MessageView) -> bool {
    &&& m.index < variant_count(direction)
    &&& m.body.shape() == shape_of(direction, m.index)
    &&& m.body.fits()
}

/// Reads a payload as a message of the direction.
pub open spec fn parse_payload(direction: Direction, payload: Seq<u8>) -> Result<
    MessageView,
    DecodeError,
> {
    match take_u32(payload) {
        Some((index, rest)) => {
            if index >= variant_count(direction) {
                Err(DecodeError::Unsupported(index))
            } else {
                match parse_body(shape_of(direction, index), rest) {
                    Some(body) => Ok(MessageView { index, body }),
                    None => Err(DecodeError::Malformed),
                }
            }
        },
        None => Err(DecodeError::Malformed),
    }
}

/// Decoding inverts encoding: the payload of a message of the direction is
/// read back as that message.
pub proof fn lemma_decode_inverts_encode(direction: Direction, m: MessageView)
    requires
        well_formed(direction, m),
    ensures
        parse_payload(direction, payload_bytes(m)) == Ok::<MessageView, DecodeError>(m),
{
    lemma_take_u32_of_bytes(m.index, body_bytes(m.body));
    lemma_parse_body_of_bytes(m.body);
}

/// Encoding inverts decoding: a payload that is read as a message is the
/// payload of that message, byte for byte, and the message is one of the
/// direction.
pub proof fn lemma_encode_inverts_decode(direction: Direction, payload: Seq<u8>)
    requires
        parse_payload(direction, payload) is Ok,
    ensures
        payload_bytes(parse_payload(direction, payload).unwrap()) == payload,
        well_formed(direction, parse_payload(direction, payload).unwrap()),
{
    let (index, rest) = take_u32(payload).unwrap();
    lemma_bytes_of_take_u32(payload);
    lemma_bytes_of_parse_body(shape_of(direction, index), rest);
}

/// No two messages of a direction share a payload.
pub proof fn lemma_encode_is_injective(direction: Direction, m1: MessageView, m2: MessageView)
    requires
        well_formed(direction, m1),
        well_formed(direction, m2),
        payload_bytes(m1) == payload_bytes(m2),
    ensures
        m1 == m2,
{
    lemma_decode_inverts_encode(direction, m1);
    lemma_decode_inverts_encode(direction, m2);
}

} // verus!
