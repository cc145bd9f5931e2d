//! Messages and polling strategies as the Python SDK exposes them.

use vstd::prelude::*;

verus! {

/// The fixed header of a message.
#[derive(Debug, Clone, Copy, PartialEq, Eq)]
pub struct IggyMessageHeader {
    pub checksum: u64,
    pub id: u128,
    pub offset: u64,
    pub timestamp: u64,
    pub origin_timestamp: u64,
    pub user_headers_length: u32,
    pub payload_length: u32,
    pub reserved: u64,
}

/// A message: header, payload and encoded user headers.
#[derive(Debug, PartialEq, Eq)]
pub struct IggyMessage {
    pub header: IggyMessageHeader,
    pub payload: Vec<u8>,
    pub user_headers: Option<Vec<u8>>,
}

/// A received message and the partition it came from.
pub struct ReceiveMessage {
    pub inner: IggyMessage,
    pub partition_id: u32,
}

impl ReceiveMessage {
    /// The payload bytes.
    pub fn payload(&self) -> (p: Vec<u8>)
        ensures
            p@ == self.inner.payload@,
    {
        let p = self.inner.payload.clone();
        assert(p@ =~= self.inner.payload@);
        p
    }

    /// Position of the message within its partition.
    pub fn offset(&self) -> (r: u64)
        ensures
            r == self.inner.header.offset,
    {
        self.inner.header.offset
    }

    pub fn timestamp(&self) -> (r: u64)
        ensures
            r == self.inner.header.timestamp,
    {
        self.inner.header.timestamp
    }

    /// When the message was originally created.
    pub fn origin_timestamp(&self) -> (r: u64)
        ensures
            r == self.inner.header.origin_timestamp,
    {
        self.inner.header.origin_timestamp
    }

    pub fn id(&self) -> (r: u128)
        ensures
            r == self.inner.header.id,
    {
        self.inner.header.id
    }

    pub fn checksum(&self) -> (r: u64)
        ensures
            r == self.inner.header.checksum,
    {
        self.inner.header.checksum
    }

    /// The length of the payload.
    pub fn length(&self) -> (r: u32)
        ensures
            r == self.inner.header.payload_length,
    {
        self.inner.header.payload_length
    }

    pub fn partition_id(&self) -> (r: u32)
        ensures
            r == self.partition_id,
    {
        self.partition_id
    }
}

/// A message to be sent.
pub struct SendMessage {
    pub inner: IggyMessage,
}

impl Clone for SendMessage {
    /// A copy of the message: the same header fields, payload and user
    /// headers.
    fn clone(&self) -> (c: SendMessage)
        ensures
            c.inner.header == self.inner.header,
            c.inner.payload@ == self.inner.payload@,
            match (c.inner.user_headers, self.inner.user_headers) {
                (Some(a), Some(b)) => a@ == b@,
                (None, None) => true,
                _ => false,
            },
    {
        let header = IggyMessageHeader {
            checksum: self.inner.header.checksum,
            id: self.inner.header.id,
            offset: self.inner.header.offset,
            timestamp: self.inner.header.timestamp,
            origin_timestamp: self.inner.header.origin_timestamp,
            user_headers_length: self.inner.header.user_headers_length,
            payload_length: self.inner.header.payload_length,
            reserved: self.inner.header.reserved,
        };
        let payload = self.inner.payload.clone();
        assert(payload@ =~= self.inner.payload@);
        let user_headers = match &self.inner.user_headers {
            Some(h) => {
                let c = h.clone();
                assert(c@ =~= h@);
                Some(c)
            },
            None => None,
        };
        SendMessage { inner: IggyMessage { header, payload, user_headers } }
    }
}

/// Where a poll starts.
#[derive(Debug, Clone, Copy, PartialEq, Eq)]
pub enum PollingKind {
    Offset,
    Timestamp,
    First,
    Last,
    Next,
}

/// A poll start as the client sends it: a kind and its value.
#[derive(Debug, Clone, Copy, PartialEq, Eq)]
pub struct PollingTarget {
    pub kind: PollingKind,
    pub value: u64,
}

/// The polling strategy a Python caller chooses.
#[derive(Debug, Clone, Copy, PartialEq, Eq)]
pub enum PollingStrategy {
    Offset { value: u64 },
    Timestamp { value: u64 },
    First {},
    Last {},
    Next {},
}

impl PollingStrategy {
    /// The poll start for this strategy: an offset or a timestamp carries its
    /// value, the first, last and next strategies carry `0`.
    pub fn to_target(&self) -> (t: PollingTarget)
        ensures
            t == (match *self {
                PollingStrategy::Offset { value } => PollingTarget { kind: PollingKind::Offset, value },
                PollingStrategy::Timestamp { value } => PollingTarget { kind: PollingKind::Timestamp, value },
                PollingStrategy::First {  } => PollingTarget { kind: PollingKind::First, value: 0 },
                PollingStrategy::Last {  } => PollingTarget { kind: PollingKind::Last, value: 0 },
                PollingStrategy::Next {  } => PollingTarget { kind: PollingKind::Next, value: 0 },
            }),
    {
        match self {
            PollingStrategy::Offset { value } => PollingTarget { kind: PollingKind::Offset, value: *value },
            PollingStrategy::Timestamp { value } => PollingTarget { kind: PollingKind::Timestamp, value: *value },
            PollingStrategy::First {  } => PollingTarget { kind: PollingKind::First, value: 0 },
            PollingStrategy::Last {  } => PollingTarget { kind: PollingKind::Last, value: 0 },
            PollingStrategy::Next {  } => PollingTarget { kind: PollingKind::Next, value: 0 },
        }
    }
}

} // verus!
