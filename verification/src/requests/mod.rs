//! Feature requests and the responses that the bootloader gives to them.
//!
//! Every request has the same shape: four identity words, the revision asked
//! for, and the address of the response. The address is zero until the
//! bootloader has answered; it is written once, before the kernel runs, and
//! never changes afterwards.
use vstd::prelude::*;
use crate::LimineReqId;
use crate::memory::ForeignMemory;
use crate::util::ForeignRecord;

pub mod bootloader_info;
pub mod date_at_boot;
pub mod framebuffer;
pub mod hhdm;
pub mod memory_map;

verus! {

/// The part that all requests share.
#[derive(Clone, Copy, Debug, PartialEq, Eq)]
pub struct RequestRecord {
    /// The identity by which the bootloader recognises the request.
    pub id: LimineReqId,
    /// The revision of the feature that the kernel asks for.
    pub revision: u64,
    /// The address of the response, zero while there is none.
    pub response: u64,
}

impl RequestRecord {
    /// True once the bootloader has stored the address of a response.
    pub open spec fn is_populated(self) -> bool {
        self.response != 0
    }

    /// The record after the bootloader has tried to store `address` in it:
    /// the store takes effect on a record without a response, and only there.
    pub open spec fn after_write(self, address: u64) -> Self {
        if self.is_populated() {
            self
        } else {
            RequestRecord { id: self.id, revision: self.revision, response: address }
        }
    }

    /// The six words of the record in the order in which they lie in memory.
    pub open spec fn spec_words(self) -> Seq<u64> {
        self.id.words() + seq![self.revision, self.response]
    }

    /// A request without a response for revision `revision` of the feature
    /// whose magic pair is `magic`.
    pub fn new(magic: [u64; 2], revision: u64) -> (record: Self)
        ensures
            record.id.identifies(magic[0], magic[1]),
            record.id.other == magic,
            record.revision == revision,
            !record.is_populated(),
    {
        RequestRecord { id: LimineReqId::new(magic), revision, response: 0 }
    }

    /// The bootloader's write: stores `address` as the address of the
    /// response and tells whether the store took effect. A record that
    /// already has a response keeps it.
    pub fn respond(&mut self, address: u64) -> (accepted: bool)
        ensures
            *final(self) == old(self).after_write(address),
            accepted == !old(self).is_populated(),
    {
        if self.response != 0 {
            return false;
        }
        self.response = address;
        true
    }

    /// The six words of the record in the order in which they lie in memory.
    pub fn words(&self) -> (words: [u64; 6])
        ensures
            words@ == self.spec_words(),
    {
        let words: [u64; 6] = [
            self.id.common_magic[0],
            self.id.common_magic[1],
            self.id.other[0],
            self.id.other[1],
            self.revision,
            self.response,
        ];
        assert(words@ =~= self.spec_words());
        words
    }

    /// The response that `mem` holds for this request, if the bootloader gave
    /// one. Nothing is read where the address of the response is zero;
    /// otherwise `mem` must hold a whole record at that address.
    pub fn response<R: ForeignRecord>(&self, mem: &ForeignMemory) -> (found: Option<R>)
        requires
            self.is_populated() ==> mem@.maps(self.response as int, R::size() as int),
        ensures
            !self.is_populated() ==> found is None,
            self.is_populated() ==> found == Some(R::decoded(mem@, self.response as int)),
    {
        if self.response == 0 {
            return None;
        }
        Some(R::read(mem, self.response))
    }
}

/// What every feature request offers.
pub trait LimineRequest: Sized {
    /// The record that the bootloader leaves in answer to the request.
    type Response: ForeignRecord;

    /// The identity, revision and response address of the request.
    spec fn record(&self) -> RequestRecord;

    /// The identity, revision and response address of the request.
    fn header(&self) -> (record: RequestRecord)
        ensures
            record == self.record(),
    ;

    /// The bootloader's write: stores `address` as the address of the
    /// response and tells whether the store took effect. It does on a request
    /// without a response, and only there; identity and revision never change.
    fn respond(&mut self, address: u64) -> (accepted: bool)
        ensures
            final(self).record() == old(self).record().after_write(address),
            accepted == !old(self).record().is_populated(),
    ;

    /// The response, if the bootloader gave one: nothing where the address of
    /// the response is zero, else the record that `mem` holds at that very
    /// address, of which `mem` must hold every byte.
    fn get_response(&self, mem: &ForeignMemory) -> (found: Option<Self::Response>)
        requires
            self.record().is_populated() ==> mem@.maps(
                self.record().response as int,
                Self::Response::size() as int,
            ),
        ensures
            !self.record().is_populated() ==> found is None,
            self.record().is_populated() ==> found == Some(
                Self::Response::decoded(mem@, self.record().response as int),
            ),
    ;
}

/// Whatever the bootloader writes, and however often, a request keeps its
/// identity and its revision, and a response once given stays.
pub proof fn lemma_write_keeps_request(record: RequestRecord, address: u64)
    ensures
        record.after_write(address).id == record.id,
        record.after_write(address).revision == record.revision,
        record.is_populated() ==> record.after_write(address) == record,
        record.after_write(address).is_populated() <==> record.is_populated() || address != 0,
{
}

} // verus!
