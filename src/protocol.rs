//! The two-phase read protocol. A read first asks for the metadata of a key
//! (its type tag and payload size), refuses payloads larger than the fixed
//! buffer, and then asks for the payload. The calls themselves are made by
//! the caller: each step hands out the request to send and takes the reply.

use vstd::prelude::*;
use crate::error::Error;

verus! {

/// Command selector: read the payload bytes of a key.
pub const CMD_READ_DATA: u8 = 5;
/// Command selector: read the metadata of the key at an index.
pub const CMD_READ_INDEX: u8 = 8;
/// Command selector: read the metadata of a key.
pub const CMD_READ_KEY_INFO: u8 = 9;
/// Result byte by which the controller reports an unknown key.
pub const RESULT_KEY_NOT_FOUND: u8 = 132;
/// Status of a successful call.
pub const STATUS_SUCCESS: i32 = 0;
/// Status of a call refused for lack of privileges.
pub const STATUS_NOT_PRIVILEGED: i32 = -536870207;
/// Size of the payload buffer of a reply.
pub const PAYLOAD_CAPACITY: u32 = 32;

/// The fields of a request that a read sets; every other field is zero.
#[derive(Clone, Copy, Debug, PartialEq, Eq, Structural)]
pub struct Request {
    /// The key asked about.
    pub key: u32,
    /// The command selector.
    pub command: u8,
    /// The payload size announced for a data read.
    pub data_size: u32,
    /// The index asked about, for a read by index.
    pub index: u32,
}

/// The fields of a reply that a read looks at.
#[derive(Clone, Copy, Debug)]
pub struct Reply {
    /// The key the reply is about.
    pub key: u32,
    /// Announced payload size.
    pub data_size: u32,
    /// Type tag of the payload.
    pub data_type: u32,
    /// Result byte set by the controller.
    pub result: u8,
    /// The payload buffer.
    pub bytes: [u8; 32],
}

/// Metadata of a key.
#[derive(Clone, Copy, Debug, PartialEq, Eq, Structural)]
pub struct KeyInfo {
    /// The key.
    pub key: u32,
    /// Its type tag.
    pub data_type: u32,
    /// Its payload size in bytes.
    pub data_size: u32,
}

/// The payload of a key, undecoded.
#[derive(Clone, Debug)]
pub struct RawValue {
    /// The key that was read.
    pub key: u32,
    /// Its type tag.
    pub data_type: u32,
    /// The significant payload bytes.
    pub bytes: Vec<u8>,
}

/// The request for the metadata of a key.
pub open spec fn info_request(key: u32) -> Request {
    Request { key, command: CMD_READ_KEY_INFO, data_size: 0, index: 0 }
}

/// The request for the metadata of the key at an index.
pub open spec fn index_request(index: u32) -> Request {
    Request { key: 0, command: CMD_READ_INDEX, data_size: 0, index }
}

/// The request for the payload of a key of a known size.
pub open spec fn data_request(key: u32, data_size: u32) -> Request {
    Request { key, command: CMD_READ_DATA, data_size, index: 0 }
}

/// How a call ended: the status it returned and the result byte of its reply.
pub open spec fn call_outcome(status: i32, result: u8) -> core::result::Result<(), Error> {
    if status == STATUS_NOT_PRIVILEGED {
        Err(Error::NotPrivileged)
    } else if status != STATUS_SUCCESS {
        Err(Error::ProtocolError(status))
    } else if result == RESULT_KEY_NOT_FOUND {
        Err(Error::UnknownKey)
    } else {
        Ok(())
    }
}

/// Classifies how a call ended.
pub fn check_call(status: i32, result: u8) -> (r: core::result::Result<(), Error>)
    ensures
        r == call_outcome(status, result),
{
    if status == STATUS_NOT_PRIVILEGED {
        Err(Error::NotPrivileged)
    } else if status != STATUS_SUCCESS {
        Err(Error::ProtocolError(status))
    } else if result == RESULT_KEY_NOT_FOUND {
        Err(Error::UnknownKey)
    } else {
        Ok(())
    }
}

/// Builds the request for the metadata of a key.
pub fn key_info_request(key: u32) -> (r: Request)
    ensures
        r == info_request(key),
{
    Request { key, command: CMD_READ_KEY_INFO, data_size: 0, index: 0 }
}

/// Builds the request for the metadata of the key at an index.
pub fn key_index_request(index: u32) -> (r: Request)
    ensures
        r == index_request(index),
{
    Request { key: 0, command: CMD_READ_INDEX, data_size: 0, index }
}

/// The metadata that a reply to a metadata request gives for `key`.
pub open spec fn info_of_reply(key: u32, status: i32, reply: Reply) -> core::result::Result<KeyInfo, Error> {
    match call_outcome(status, reply.result) {
        Err(e) => Err(e),
        Ok(()) => Ok(KeyInfo { key, data_type: reply.data_type, data_size: reply.data_size }),
    }
}

/// Reads the metadata of `key` out of the reply to its metadata request.
pub fn key_info_from_reply(key: u32, status: i32, reply: &Reply) -> (r: core::result::Result<KeyInfo, Error>)
    ensures
        r == info_of_reply(key, status, *reply),
{
    match check_call(status, reply.result) {
        Err(e) => Err(e),
        Ok(()) => Ok(KeyInfo { key, data_type: reply.data_type, data_size: reply.data_size }),
    }
}

/// Reads the metadata out of the reply to a request by index; the key is the
/// one the controller names in its reply.
pub fn index_info_from_reply(status: i32, reply: &Reply) -> (r: core::result::Result<KeyInfo, Error>)
    ensures
        r == info_of_reply(reply.key, status, *reply),
{
    key_info_from_reply(reply.key, status, reply)
}

/// Where a read of a key stands.
#[derive(Clone, Copy, Debug, PartialEq, Eq, Structural)]
pub enum ReadPhase {
    /// Waiting for the reply to the metadata request.
    Info,
    /// Waiting for the reply to the payload request.
    Data { data_type: u32, data_size: u32 },
    /// The read is over.
    Finished,
}

/// What a read asks of its caller next.
#[derive(Debug)]
pub enum ReadStep {
    /// Send this request and hand the reply to the read.
    Call(Request),
    /// The read is over, with the payload or the reason it failed.
    Done(core::result::Result<RawValue, Error>),
}

/// A read of one key through the two-phase protocol.
#[derive(Clone, Copy, Debug)]
pub struct KeyRead {
    /// The key being read.
    pub key: u32,
    /// Where the read stands.
    pub phase: ReadPhase,
}

/// The outcome of the metadata phase: either the payload request to send
/// next, or the error that ends the read.
pub open spec fn after_info(key: u32, status: i32, reply: Reply) -> core::result::Result<Request, Error> {
    match call_outcome(status, reply.result) {
        Err(e) => Err(e),
        Ok(()) => if reply.data_size > PAYLOAD_CAPACITY {
            Err(Error::OversizedPayload { key, data_size: reply.data_size })
        } else {
            Ok(data_request(key, reply.data_size))
        },
    }
}

/// The size guard: a successful metadata phase that announces more payload
/// than the buffer holds ends the read with `OversizedPayload`, and no payload
/// request is made; any size up to the buffer leads to the payload request
/// for exactly that size.
pub proof fn lemma_size_guard(key: u32, reply: Reply)
    requires
        reply.result != RESULT_KEY_NOT_FOUND,
    ensures
        reply.data_size > PAYLOAD_CAPACITY ==> after_info(key, STATUS_SUCCESS, reply)
            == Err::<Request, Error>(Error::OversizedPayload { key, data_size: reply.data_size }),
        reply.data_size <= PAYLOAD_CAPACITY ==> after_info(key, STATUS_SUCCESS, reply)
            == Ok::<Request, Error>(data_request(key, reply.data_size)),
{
}

impl KeyRead {
    /// A payload read never expects more than the buffer holds.
    pub open spec fn wf(&self) -> bool {
        match self.phase {
            ReadPhase::Data { data_type: _, data_size } => data_size <= PAYLOAD_CAPACITY,
            _ => true,
        }
    }

    /// Starts a read of `key`; the first request asks for its metadata.
    pub fn start(key: u32) -> (r: (KeyRead, Request))
        ensures
            r.0.key == key,
            r.0.phase == ReadPhase::Info,
            r.0.wf(),
            r.1 == info_request(key),
    {
        (KeyRead { key, phase: ReadPhase::Info }, key_info_request(key))
    }

    /// Takes the reply to the last request and says what comes next.
    pub fn on_reply(&mut self, status: i32, reply: &Reply) -> (r: ReadStep)
        requires
            old(self).wf(),
            old(self).phase != ReadPhase::Finished,
        ensures
            final(self).wf(),
            final(self).key == old(self).key,
            match old(self).phase {
                ReadPhase::Info => match after_info(old(self).key, status, *reply) {
                    Ok(req) => r == ReadStep::Call(req) && final(self).phase == (ReadPhase::Data {
                        data_type: reply.data_type,
                        data_size: reply.data_size,
                    }),
                    Err(e) => r is Done && r->Done_0 == Err::<RawValue, Error>(e)
                        && final(self).phase == ReadPhase::Finished,
                },
                ReadPhase::Data { data_type, data_size } => final(self).phase == ReadPhase::Finished
                    && r is Done && match call_outcome(status, reply.result) {
                    Err(e) => r->Done_0 == Err::<RawValue, Error>(e),
                    Ok(()) => r->Done_0 is Ok && r->Done_0->Ok_0.key == old(self).key
                        && r->Done_0->Ok_0.data_type == data_type
                        && r->Done_0->Ok_0.bytes@ == reply.bytes@.take(data_size as int),
                },
                ReadPhase::Finished => false,
            },
    {
        match self.phase {
            ReadPhase::Info => {
                match check_call(status, reply.result) {
                    Err(e) => {
                        self.phase = ReadPhase::Finished;
                        ReadStep::Done(Err(e))
                    },
                    Ok(()) => {
                        if reply.data_size > PAYLOAD_CAPACITY {
                            self.phase = ReadPhase::Finished;
                            ReadStep::Done(Err(Error::OversizedPayload { key: self.key, data_size: reply.data_size }))
                        } else {
                            self.phase = ReadPhase::Data { data_type: reply.data_type, data_size: reply.data_size };
                            ReadStep::Call(Request { key: self.key, command: CMD_READ_DATA, data_size: reply.data_size, index: 0 })
                        }
                    },
                }
            },
            ReadPhase::Data { data_type, data_size } => {
                self.phase = ReadPhase::Finished;
                match check_call(status, reply.result) {
                    Err(e) => ReadStep::Done(Err(e)),
                    Ok(()) => {
                        let bytes = copy_prefix(&reply.bytes, data_size as usize);
                        ReadStep::Done(Ok(RawValue { key: self.key, data_type, bytes }))
                    },
                }
            },
            ReadPhase::Finished => {
                ReadStep::Done(Err(Error::UnknownKey))
            },
        }
    }
}

/// The first `n` bytes of the payload buffer.
fn copy_prefix(bytes: &[u8; 32], n: usize) -> (r: Vec<u8>)
    requires
        n <= 32,
    ensures
        r@ == bytes@.take(n as int),
{
    let mut r: Vec<u8> = Vec::new();
    let mut i: usize = 0;
    while i < n
        invariant
            0 <= i <= n <= 32,
            bytes@.len() == 32,
            r@ == bytes@.take(i as int),
        decreases n - i,
    {
        r.push(bytes[i]);
        i += 1;
        proof {
            assert(r@ =~= bytes@.take(i as int));
        }
    }
    r
}

} // verus!
