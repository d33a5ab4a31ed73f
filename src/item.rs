//! Short items: a header byte (tag and size field) followed by 0, 1, 2 or 4
//! little-endian payload bytes.
use vstd::prelude::*;
use crate::codes::{ItemTag, tag_code};

verus! {

/// The header byte of a short item whose size field is `size`.
pub open spec fn header(tag: ItemTag, size: u8) -> u8 {
    (tag_code(tag) + size) as u8
}

/// The canonical encoding of a short item: the narrowest payload width that
/// holds the value, least significant byte first.
pub open spec fn encode(tag: ItemTag, payload: Option<u32>) -> Seq<u8> {
    match payload {
        None => seq![header(tag, 0)],
        Some(v) => if v <= 0xFF {
            seq![header(tag, 1), v as u8]
        } else if v <= 0xFFFF {
            seq![header(tag, 2), (v % 256) as u8, (v / 256) as u8]
        } else {
            seq![
                header(tag, 3),
                (v % 256) as u8,
                (v / 256 % 256) as u8,
                (v / 256 / 256 % 256) as u8,
                (v / 256 / 256 / 256) as u8,
            ]
        },
    }
}

/// The number of payload bytes that a size field announces.
pub open spec fn payload_width(size: u8) -> nat {
    if size == 3 {
        4
    } else {
        size as nat
    }
}

/// The value of bytes read least significant first.
pub open spec fn little_endian(s: Seq<u8>) -> nat
    decreases s.len(),
{
    if s.len() == 0 {
        0
    } else {
        s[0] as nat + 256 * little_endian(s.drop_first())
    }
}

/// An item without a payload is the single byte of its tag's code, with
/// size field zero.
pub proof fn lemma_encode_no_payload(tag: ItemTag)
    ensures
        encode(tag, None) == seq![tag_code(tag)],
        encode(tag, None)[0] % 4 == 0,
{
    assert(encode(tag, None) =~= seq![tag_code(tag)]);
}

/// An item with a payload has the narrowest width that holds the value, and
/// reading the header's size field and then that many payload bytes gives the
/// tag and the value back.
pub proof fn lemma_encode_payload(tag: ItemTag, v: u32)
    ensures
        ({
            let e = encode(tag, Some(v));
            &&& v <= 0xFF ==> e.len() == 2
            &&& 0xFF < v <= 0xFFFF ==> e.len() == 3
            &&& 0xFFFF < v ==> e.len() == 5
            &&& e.len() == 1 + payload_width(e[0] % 4)
            &&& e[0] - e[0] % 4 == tag_code(tag)
            &&& little_endian(e.drop_first()) == v
        }),
{
    let e = encode(tag, Some(v));
    let rest1 = e.drop_first();
    let rest2 = rest1.drop_first();
    if v <= 0xFF {
        assert(rest2.len() == 0);
        assert(little_endian(rest1) == rest1[0] as nat + 256 * little_endian(rest2));
    } else if v <= 0xFFFF {
        let rest3 = rest2.drop_first();
        assert(rest3.len() == 0);
        assert(little_endian(rest2) == rest2[0] as nat + 256 * little_endian(rest3));
        assert(little_endian(rest1) == rest1[0] as nat + 256 * little_endian(rest2));
        assert(v == v % 256 + 256 * (v / 256));
    } else {
        let rest3 = rest2.drop_first();
        let rest4 = rest3.drop_first();
        let rest5 = rest4.drop_first();
        assert(rest5.len() == 0);
        assert(little_endian(rest4) == rest4[0] as nat + 256 * little_endian(rest5));
        assert(little_endian(rest3) == rest3[0] as nat + 256 * little_endian(rest4));
        assert(little_endian(rest2) == rest2[0] as nat + 256 * little_endian(rest3));
        assert(little_endian(rest1) == rest1[0] as nat + 256 * little_endian(rest2));
        assert(v / 256 / 256 / 256 < 256);
        assert(v == v % 256 + 256 * (v / 256));
        assert(v / 256 == v / 256 % 256 + 256 * (v / 256 / 256));
        assert(v / 256 / 256 == v / 256 / 256 % 256 + 256 * (v / 256 / 256 / 256));
    }
}

/// One encoded short item.
pub struct Item {
    tag: ItemTag,
    data: Vec<u8>,
}

impl View for Item {
    type V = Seq<u8>;

    closed spec fn view(&self) -> Seq<u8> {
        self.data@
    }
}

impl Item {
    /// Encodes `tag` with `data` as its payload.
    pub fn new(tag: ItemTag, data: Option<u32>) -> (r: Item)
        ensures
            r@ == encode(tag, data),
    {
        let code = tag.code();
        let mut bytes: Vec<u8> = Vec::new();
        match data {
            None => {
                bytes.push(code);
            },
            Some(v) => {
                if v > 0xFFFF {
                    bytes.push(code + 3);
                    bytes.push((v % 256) as u8);
                    bytes.push((v / 256 % 256) as u8);
                    bytes.push((v / 256 / 256 % 256) as u8);
                    bytes.push((v / 256 / 256 / 256) as u8);
                } else if v > 0xFF {
                    bytes.push(code + 2);
                    bytes.push((v % 256) as u8);
                    bytes.push((v / 256) as u8);
                } else {
                    bytes.push(code + 1);
                    bytes.push(v as u8);
                }
            },
        }
        let r = Item { tag, data: bytes };
        assert(r@ =~= encode(tag, data));
        r
    }

    /// The encoded bytes.
    pub fn get_bytes(&self) -> (r: &Vec<u8>)
        ensures
            r@ == self@,
    {
        &self.data
    }
}

} // verus!
