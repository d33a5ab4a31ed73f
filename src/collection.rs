//! Byte accumulators: collections, which are closed when absorbed by their
//! parent, and the top-level report, which is never closed.
use vstd::prelude::*;
use crate::codes::{CollectionAttr, ItemTag, collection_code};
use crate::item::{Item, encode};

verus! {

/// The End Collection item.
pub const END_COLLECTION: u8 = 0xC0;

/// The bytes of a collection once it is closed.
pub open spec fn closed(s: Seq<u8>) -> Seq<u8> {
    s.push(END_COLLECTION)
}

/// The bytes that open a collection of the given kind.
pub open spec fn collection_header(kind: CollectionAttr) -> Seq<u8> {
    encode(ItemTag::Collection, Some(collection_code(kind) as u32))
}

/// How many End Collection bytes `s` holds.
pub open spec fn end_count(s: Seq<u8>) -> nat {
    s.filter(|b: u8| b == END_COLLECTION).len()
}

/// A closed collection ends with End Collection, and absorbing it into a
/// parent adds exactly one End Collection beyond those that the parent and
/// the child already held.
pub proof fn lemma_close_once(parent: Seq<u8>, child: Seq<u8>)
    ensures
        closed(child).last() == END_COLLECTION,
        end_count(parent + closed(child)) == end_count(parent) + end_count(child) + 1,
{
    let f = |b: u8| b == END_COLLECTION;
    Seq::filter_distributes_over_add(parent, closed(child), f);
    Seq::filter_distributes_over_add(child, seq![END_COLLECTION], f);
    assert(closed(child) =~= child + seq![END_COLLECTION]);
    reveal_with_fuel(Seq::filter, 2);
    assert(seq![END_COLLECTION].drop_last() =~= Seq::<u8>::empty());
}

/// Appends the bytes of `src` to `dst`.
fn append_bytes(dst: &mut Vec<u8>, src: &Vec<u8>)
    ensures
        final(dst)@ == old(dst)@ + src@,
{
    let mut i: usize = 0;
    while i < src.len()
        invariant
            i <= src.len(),
            dst@ == old(dst)@ + src@.subrange(0, i as int),
        decreases src.len() - i,
    {
        dst.push(src[i]);
        i = i + 1;
        assert(dst@ =~= old(dst)@ + src@.subrange(0, i as int));
    }
    assert(src@.subrange(0, i as int) =~= src@);
}

/// An open collection: its own Collection item followed by what has been
/// appended to it, without the closing byte.
pub struct Collection {
    byte_data: Vec<u8>,
}

impl View for Collection {
    type V = Seq<u8>;

    closed spec fn view(&self) -> Seq<u8> {
        self.byte_data@
    }
}

impl Collection {
    /// Opens a collection of the given kind.
    pub fn new(c_type: CollectionAttr) -> (r: Collection)
        ensures
            r@ == collection_header(c_type),
    {
        let item = Item::new(ItemTag::Collection, Some(c_type.code() as u32));
        let mut bytes: Vec<u8> = Vec::new();
        append_bytes(&mut bytes, item.get_bytes());
        assert(bytes@ =~= item@);
        Collection { byte_data: bytes }
    }

    /// Appends an item.
    pub fn add_item(&mut self, item: Item)
        ensures
            final(self)@ == old(self)@ + item@,
    {
        append_bytes(&mut self.byte_data, item.get_bytes());
    }

    /// Closes `collection` and appends it.
    pub fn add_collection(&mut self, collection: Collection)
        ensures
            final(self)@ == old(self)@ + closed(collection@),
    {
        let bytes = collection.finish_and_get_bytes();
        append_bytes(&mut self.byte_data, &bytes);
    }

    /// The bytes so far, without the closing byte.
    pub fn get_bytes(&self) -> (r: &Vec<u8>)
        ensures
            r@ == self@,
    {
        &self.byte_data
    }

    /// Closes the collection and hands its bytes over.
    pub fn finish_and_get_bytes(self) -> (r: Vec<u8>)
        ensures
            r@ == closed(self@),
            r@.last() == END_COLLECTION,
    {
        let mut bytes = self.byte_data;
        bytes.push(END_COLLECTION);
        bytes
    }
}

/// The descriptor under construction: items and closed collections, in the
/// order they were appended.
pub struct HIDReport {
    byte_data: Vec<u8>,
}

impl View for HIDReport {
    type V = Seq<u8>;

    closed spec fn view(&self) -> Seq<u8> {
        self.byte_data@
    }
}

impl HIDReport {
    /// An empty descriptor.
    pub fn new() -> (r: HIDReport)
        ensures
            r@ == Seq::<u8>::empty(),
    {
        HIDReport { byte_data: Vec::new() }
    }

    /// Closes `collection` and appends it.
    pub fn add_collection(&mut self, collection: Collection)
        ensures
            final(self)@ == old(self)@ + closed(collection@),
    {
        let bytes = collection.finish_and_get_bytes();
        append_bytes(&mut self.byte_data, &bytes);
    }

    /// Appends an item.
    pub fn add_item(&mut self, item: Item)
        ensures
            final(self)@ == old(self)@ + item@,
    {
        append_bytes(&mut self.byte_data, item.get_bytes());
    }

    /// The bytes so far.
    pub fn get_bytes(&self) -> (r: &Vec<u8>)
        ensures
            r@ == self@,
    {
        &self.byte_data
    }
}

} // verus!
