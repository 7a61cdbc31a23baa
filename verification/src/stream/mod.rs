//! Streams of a test session: a registry of their ports, direction, type
//! and status.

pub mod config;

use vstd::prelude::*;

use crate::protocol::{PortAssignment, StreamStatus};

verus! {

/// The state of one data stream.
#[derive(Debug, Clone, Copy)]
pub struct StreamInfo {
    pub stream_id: u8,
    pub port: u16,
    pub direction: StreamDirection,
    pub stream_type: StreamType,
    pub status: StreamStatus,
}

#[derive(Debug, Clone, Copy, PartialEq, Eq, Structural)]
pub enum StreamDirection {
    Upstream,
    Downstream,
}

#[derive(Debug, Clone, Copy, PartialEq, Eq, Structural)]
pub enum StreamType {
    UdpLatency,
    UdpThroughput,
    TcpThroughput,
}

/// Registry of the streams of a session, in registration order.
pub struct StreamRegistry {
    streams: Vec<StreamInfo>,
}

/// Position of the first stream with ID `id`.
pub open spec fn first_stream(s: Seq<StreamInfo>, id: u8) -> Option<nat>
    decreases s.len(),
{
    if s.len() == 0 {
        None
    } else if s[0].stream_id == id {
        Some(0)
    } else {
        match first_stream(s.drop_first(), id) {
            Some(i) => Some(i + 1),
            None => None,
        }
    }
}

/// The registry after setting the status of the first stream with ID `id`
/// (unchanged when there is none).
pub open spec fn with_status(s: Seq<StreamInfo>, id: u8, status: StreamStatus) -> Seq<StreamInfo> {
    match first_stream(s, id) {
        Some(i) => s.update(i as int, StreamInfo { status, ..s[i as int] }),
        None => s,
    }
}

/// A TCP throughput stream in direction `dir`.
pub open spec fn is_tcp_in(info: StreamInfo, dir: StreamDirection) -> bool {
    info.direction == dir && info.stream_type == StreamType::TcpThroughput
}

/// Port assignments of the TCP throughput streams in direction `dir`, in
/// registration order.
pub open spec fn tcp_ports(s: Seq<StreamInfo>, dir: StreamDirection) -> Seq<PortAssignment>
    decreases s.len(),
{
    if s.len() == 0 {
        Seq::empty()
    } else {
        let rest = tcp_ports(s.drop_last(), dir);
        if is_tcp_in(s.last(), dir) {
            rest.push(PortAssignment { stream_id: s.last().stream_id, port: s.last().port })
        } else {
            rest
        }
    }
}

proof fn lemma_first_stream(s: Seq<StreamInfo>, id: u8, i: int)
    requires
        0 <= i <= s.len(),
        forall|j: int| 0 <= j < i ==> (#[trigger] s[j]).stream_id != id,
    ensures
        i < s.len() && s[i].stream_id == id ==> first_stream(s, id) == Some(i as nat),
        i == s.len() ==> first_stream(s, id) is None,
    decreases s.len(),
{
    if s.len() > 0 && i > 0 {
        let t = s.drop_first();
        assert forall|j: int| 0 <= j < i - 1 implies (#[trigger] t[j]).stream_id != id by {
            assert(t[j] == s[j + 1]);
        }
        lemma_first_stream(t, id, i - 1);
        assert(s[0].stream_id != id);
    }
}

proof fn lemma_first_stream_bounds(s: Seq<StreamInfo>, id: u8)
    ensures
        first_stream(s, id) matches Some(i) ==> i < s.len() && s[i as int].stream_id == id
            && forall|j: int| 0 <= j < i ==> (#[trigger] s[j]).stream_id != id,
        first_stream(s, id) is None ==> forall|j: int|
            0 <= j < s.len() ==> (#[trigger] s[j]).stream_id != id,
    decreases s.len(),
{
    if s.len() > 0 {
        let t = s.drop_first();
        lemma_first_stream_bounds(t, id);
        assert forall|j: int| 0 < j < s.len() implies s[j] == t[j - 1] by {}
    }
}

impl View for StreamRegistry {
    type V = Seq<StreamInfo>;

    closed spec fn view(&self) -> Seq<StreamInfo> {
        self.streams@
    }
}

/// Looking a stream up after registering it finds it, unless a stream
/// with the same ID was registered before (the first one wins).
pub proof fn lemma_register_then_get(s: Seq<StreamInfo>, info: StreamInfo)
    ensures
        first_stream(s, info.stream_id) is None ==> first_stream(s.push(info), info.stream_id)
            == Some(s.len()),
        first_stream(s, info.stream_id) is Some ==> first_stream(s.push(info), info.stream_id)
            == first_stream(s, info.stream_id),
{
    let t = s.push(info);
    lemma_first_stream_bounds(s, info.stream_id);
    match first_stream(s, info.stream_id) {
        Some(i) => {
            assert forall|j: int| 0 <= j < i implies (#[trigger] t[j]).stream_id != info.stream_id by {
                assert(t[j] == s[j]);
            }
            assert(t[i as int] == s[i as int]);
            lemma_first_stream(t, info.stream_id, i as int);
        },
        None => {
            assert forall|j: int| 0 <= j < s.len() implies (#[trigger] t[j]).stream_id
                != info.stream_id by {
                assert(t[j] == s[j]);
            }
            lemma_first_stream(t, info.stream_id, s.len() as int);
        },
    }
}

/// After setting a stream's status, looking the stream up gives that
/// status; the other streams are unchanged.
pub proof fn lemma_set_status_then_get(s: Seq<StreamInfo>, id: u8, status: StreamStatus)
    ensures
        first_stream(with_status(s, id, status), id) == first_stream(s, id),
        first_stream(s, id) matches Some(i) ==> with_status(s, id, status)[i as int].status
            == status,
        with_status(s, id, status).len() == s.len(),
        forall|j: int|
            0 <= j < s.len() && first_stream(s, id) != Some(j as nat) ==> #[trigger] with_status(
                s,
                id,
                status,
            )[j] == s[j],
{
    lemma_first_stream_bounds(s, id);
    let u = with_status(s, id, status);
    match first_stream(s, id) {
        Some(i) => {
            assert forall|j: int| 0 <= j < i implies (#[trigger] u[j]).stream_id != id by {
                assert(u[j] == s[j]);
            }
            lemma_first_stream(u, id, i as int);
        },
        None => {},
    }
}

impl StreamRegistry {
    pub fn new() -> (r: Self)
        ensures
            r@ == Seq::<StreamInfo>::empty(),
    {
        StreamRegistry { streams: Vec::new() }
    }

    /// Registers a new stream, with status `Complete` until a failure is set.
    pub fn register(
        &mut self,
        stream_id: u8,
        port: u16,
        direction: StreamDirection,
        stream_type: StreamType,
    )
        ensures
            final(self)@ == old(self)@.push(
                StreamInfo {
                    stream_id,
                    port,
                    direction,
                    stream_type,
                    status: StreamStatus::Complete,
                },
            ),
    {
        self.streams.push(
            StreamInfo { stream_id, port, direction, stream_type, status: StreamStatus::Complete },
        );
    }

    /// Sets the status of the first stream with the given ID, if any.
    pub fn set_status(&mut self, stream_id: u8, status: StreamStatus)
        ensures
            final(self)@ == with_status(old(self)@, stream_id, status),
    {
        let mut i: usize = 0;
        while i < self.streams.len()
            invariant
                i <= self.streams@.len(),
                self.streams@ == old(self).streams@,
                forall|j: int| 0 <= j < i ==> (#[trigger] self.streams@[j]).stream_id != stream_id,
            decreases self.streams@.len() - i,
        {
            if self.streams[i].stream_id == stream_id {
                proof {
                    lemma_first_stream(self.streams@, stream_id, i as int);
                }
                let mut info = self.streams[i];
                info.status = status;
                self.streams.set(i, info);
                return;
            }
            i = i + 1;
        }
        proof {
            lemma_first_stream(self.streams@, stream_id, i as int);
        }
    }

    /// The first stream with the given ID.
    pub fn get(&self, stream_id: u8) -> (r: Option<&StreamInfo>)
        ensures
            match first_stream(self@, stream_id) {
                Some(i) => r matches Some(info) && *info == self@[i as int],
                None => r is None,
            },
    {
        let mut i: usize = 0;
        while i < self.streams.len()
            invariant
                i <= self.streams@.len(),
                forall|j: int| 0 <= j < i ==> (#[trigger] self.streams@[j]).stream_id != stream_id,
            decreases self.streams@.len() - i,
        {
            if self.streams[i].stream_id == stream_id {
                proof {
                    lemma_first_stream(self.streams@, stream_id, i as int);
                }
                return Some(&self.streams[i]);
            }
            i = i + 1;
        }
        proof {
            lemma_first_stream(self.streams@, stream_id, i as int);
        }
        None
    }

    /// All streams, in registration order.
    pub fn all(&self) -> (r: &[StreamInfo])
        ensures
            r@ == self@,
    {
        self.streams.as_slice()
    }

    fn tcp_ports_in(&self, dir: StreamDirection) -> (r: Vec<PortAssignment>)
        ensures
            r@ == tcp_ports(self@, dir),
    {
        let mut out: Vec<PortAssignment> = Vec::new();
        let mut i: usize = 0;
        while i < self.streams.len()
            invariant
                i <= self.streams@.len(),
                out@ == tcp_ports(self.streams@.subrange(0, i as int), dir),
            decreases self.streams@.len() - i,
        {
            let s = self.streams[i];
            let ghost pre = self.streams@.subrange(0, i as int);
            let ghost next = self.streams@.subrange(0, i + 1);
            assert(next.drop_last() =~= pre);
            assert(next.last() == s);
            if s.direction == dir && s.stream_type == StreamType::TcpThroughput {
                out.push(PortAssignment { stream_id: s.stream_id, port: s.port });
            }
            i = i + 1;
        }
        assert(self.streams@.subrange(0, i as int) =~= self.streams@);
        out
    }

    /// Port assignments of the upstream TCP streams (for the ready message).
    pub fn upstream_tcp_ports(&self) -> (r: Vec<PortAssignment>)
        ensures
            r@ == tcp_ports(self@, StreamDirection::Upstream),
    {
        self.tcp_ports_in(StreamDirection::Upstream)
    }

    /// Port assignments of the downstream TCP streams (for the start message).
    pub fn downstream_tcp_ports(&self) -> (r: Vec<PortAssignment>)
        ensures
            r@ == tcp_ports(self@, StreamDirection::Downstream),
    {
        self.tcp_ports_in(StreamDirection::Downstream)
    }
}

impl Default for StreamRegistry {
    fn default() -> (r: Self)
        ensures
            r@ == Seq::<StreamInfo>::empty(),
    {
        Self::new()
    }
}

} // verus!
