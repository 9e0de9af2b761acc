//! Messages on the wire: their text and their ids.

use std::collections::hash_map::DefaultHasher;
use std::hash::Hasher;
use std::string::FromUtf8Error;
use vstd::endian::endianness;
use vstd::prelude::*;
use vstd::std_specs::hash::DefaultHasherAdditionalSpecFns;
use vstd::utf8::{decode_utf8, encode_utf8, valid_utf8};

use crate::settings::GOSSIPSUB_CHAT_TOPIC;

verus! {

/// `std::string::FromUtf8Error`, carried through unread.
#[verifier::external_type_specification]
#[verifier::external_body]
pub struct ExFromUtf8Error(std::string::FromUtf8Error);

/// `String::from_utf8` succeeds on valid UTF-8 alone, and then gives the text
/// that the bytes encode.
pub assume_specification[ String::from_utf8 ](vec: Vec<u8>) -> (res: Result<String, FromUtf8Error>)
    ensures
        res is Ok <==> valid_utf8(vec@),
        res matches Ok(text) ==> text@ == decode_utf8(vec@),
;

/// Data to be published under a topic.
pub struct Publication {
    pub topic: String,
    pub data: Vec<u8>,
}

/// What is published to send a message to the chat.
pub fn chat_publication(message: &str) -> (res: Publication)
    ensures
        res.topic@ == GOSSIPSUB_CHAT_TOPIC@,
        res.data@ == encode_utf8(message@),
{
    Publication {
        topic: GOSSIPSUB_CHAT_TOPIC.to_owned(),
        data: message.as_bytes_vec(),
    }
}

/// The writes by which bytes enter a hasher, on a target with the given width of
/// `usize` and the given order of bytes.
pub uninterp spec fn hash_writes(data: Seq<u8>, usize_bits: nat, little_endian: bool) -> Seq<
    Seq<u8>,
>;

/// The writes by which bytes enter a hasher on this target.
pub open spec fn native_writes(data: Seq<u8>) -> Seq<Seq<u8>> {
    hash_writes(data, usize::BITS as nat, endianness() is Little)
}

/// `Hash::hash` of a byte vector feeds the vector into the hasher: it adds writes
/// that the bytes determine to those made before.
#[verifier::external_body]
fn hash_bytes(data: &Vec<u8>, state: &mut DefaultHasher)
    ensures
        final(state)@ == old(state)@ + hash_writes(
            data@,
            usize::BITS as nat,
            endianness() is Little,
        ),
{
    std::hash::Hash::hash(data, state)
}

/// The hash of a message's data.
pub open spec fn content_digest(data: Seq<u8>) -> u64 {
    DefaultHasher::spec_finish(native_writes(data))
}

/// The decimal digit of a number below ten.
pub open spec fn digit_char(digit: nat) -> char {
    (digit + '0' as nat) as char
}

/// A number in decimal, without leading zeros.
pub open spec fn decimal(number: nat) -> Seq<char>
    decreases number,
{
    if number < 10 {
        seq![digit_char(number)]
    } else {
        decimal(number / 10).push(digit_char(number % 10))
    }
}

fn digit_text(digit: u64) -> (res: &'static str)
    requires
        digit < 10,
    ensures
        res@ == seq![digit_char(digit as nat)],
{
    proof {
        reveal_strlit("0");
        reveal_strlit("1");
        reveal_strlit("2");
        reveal_strlit("3");
        reveal_strlit("4");
        reveal_strlit("5");
        reveal_strlit("6");
        reveal_strlit("7");
        reveal_strlit("8");
        reveal_strlit("9");
    }
    let res = match digit {
        0 => "0",
        1 => "1",
        2 => "2",
        3 => "3",
        4 => "4",
        5 => "5",
        6 => "6",
        7 => "7",
        8 => "8",
        _ => "9",
    };
    assert(res@ =~= seq![digit_char(digit as nat)]);
    res
}

/// A number in decimal.
pub fn decimal_text(number: u64) -> (res: String)
    ensures
        res@ == decimal(number as nat),
    decreases number,
{
    if number < 10 {
        digit_text(number).to_owned()
    } else {
        let mut res = decimal_text(number / 10);
        res.append(digit_text(number % 10));
        assert(res@ =~= decimal(number as nat));
        res
    }
}

/// The id of a message with the given data.
pub open spec fn content_id(data: Seq<u8>) -> Seq<char> {
    decimal(content_digest(data) as nat)
}

/// The id under which gossip recognises a message: the hash of its data alone, in
/// decimal, so that the same data from two peers is one message.
pub fn message_id(data: &Vec<u8>) -> (res: String)
    ensures
        res@ == content_id(data@),
        res@ == decimal(
            DefaultHasher::spec_finish(
                hash_writes(data@, usize::BITS as nat, endianness() is Little),
            ) as nat,
        ),
{
    let mut hasher = DefaultHasher::new();
    hash_bytes(data, &mut hasher);
    let digest: u64 = hasher.finish();
    proof {
        assert(Seq::<Seq<u8>>::empty() + native_writes(data@) =~= native_writes(data@));
    }
    decimal_text(digest)
}

} // verus!
