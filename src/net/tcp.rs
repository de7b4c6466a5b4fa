//! TCP streams: a descriptor owned by one value, and the connect sequence as steps.
use vstd::prelude::*;
use super::error::{Error, Result};
use super::{AF_INET, IPPROTO_TCP, SOCK_STREAM};
use crate::device::MxChip;

verus! {

/// The engine's socket address: IPv4 address, port, reserved words and a kind.
#[derive(Debug, Clone, Copy, PartialEq, Eq)]
pub struct SockAddr {
    /// IPv4 address, as the host lookup returns it.
    pub s_ip: u32,
    /// Port number.
    pub s_port: u16,
    /// Reserved, zero.
    pub s_spares: [u8; 6],
    /// Kind of address, zero for TCP.
    pub s_type: u8,
}

impl SockAddr {
    /// The address of `port` on host `ip`.
    pub open spec fn spec_new(ip: u32, port: u16) -> SockAddr {
        SockAddr { s_ip: ip, s_port: port, s_spares: [0, 0, 0, 0, 0, 0], s_type: 0 }
    }

    /// The address of `port` on host `ip`, with the reserved bytes and the kind zero.
    pub fn new(ip: u32, port: u16) -> (r: SockAddr)
        ensures
            r == SockAddr::spec_new(ip, port),
            r.s_ip == ip,
            r.s_port == port,
            r.s_spares@ == seq![0u8, 0u8, 0u8, 0u8, 0u8, 0u8],
            r.s_type == 0,
    {
        let r = SockAddr { s_ip: ip, s_port: port, s_spares: [0, 0, 0, 0, 0, 0], s_type: 0 };
        assert(r.s_spares@ =~= seq![0u8, 0u8, 0u8, 0u8, 0u8, 0u8]);
        r
    }
}

/// An open TCP connection. It owns its descriptor: the value cannot be copied, so
/// the descriptor is released at most once, when the value is given up.
pub struct TcpStream {
    sockfd: i32,
}

/// The outcome of a transfer of at most `bound` bytes for which the engine
/// reported `reply`: a negative reply, or a count beyond the bound, is the
/// engine's failure.
pub open spec fn transfer_outcome(reply: i32, bound: usize) -> Result<usize> {
    if reply < 0 || reply as int > bound as int {
        Err(Error::Unknown(reply))
    } else {
        Ok(reply as usize)
    }
}

impl TcpStream {
    /// The descriptor this stream owns.
    pub closed spec fn spec_fd(&self) -> i32 {
        self.sockfd
    }

    /// A stream that owns descriptor `sockfd`, as the engine hands it over for an
    /// accepted connection.
    pub fn from_fd(sockfd: i32) -> (r: TcpStream)
        ensures
            r.spec_fd() == sockfd,
    {
        TcpStream { sockfd }
    }

    /// The descriptor this stream owns, for the engine's socket primitives.
    pub fn fd(&self) -> (r: i32)
        ensures
            r == self.spec_fd(),
    {
        self.sockfd
    }

    /// Gives the stream up; the returned descriptor is to be closed, once.
    pub fn close(self) -> (fd: i32)
        ensures
            fd == self.spec_fd(),
    {
        self.sockfd
    }

    /// Starts connecting to a host on `port`; the first call is the host lookup.
    pub fn connect(_chip: &MxChip, port: u16) -> (r: Connecting)
        ensures
            r == Connecting::start(port),
    {
        Connecting { phase: Phase::Resolving, port }
    }

    /// What a receive into a buffer of `capacity` bytes came to, given the
    /// engine's reply: the count received, which may be short of `capacity`.
    pub fn read_outcome(&self, reply: i32, capacity: usize) -> (r: Result<usize>)
        ensures
            r == transfer_outcome(reply, capacity),
            r matches Ok(n) ==> n <= capacity,
    {
        transferred(reply, capacity)
    }

    /// What a send of `len` bytes came to, given the engine's reply: the count
    /// sent, which may be short of `len` and is not retried.
    pub fn write_outcome(&self, reply: i32, len: usize) -> (r: Result<usize>)
        ensures
            r == transfer_outcome(reply, len),
            r matches Ok(n) ==> n <= len,
    {
        transferred(reply, len)
    }

    /// Flushing does nothing: the engine keeps no buffer of its own to flush.
    pub fn flush(&mut self) -> (r: Result<()>)
        ensures
            r is Ok,
            *final(self) == *old(self),
    {
        Ok(())
    }
}

fn transferred(reply: i32, bound: usize) -> (r: Result<usize>)
    ensures
        r == transfer_outcome(reply, bound),
{
    if reply < 0 {
        Err(Error::Unknown(reply))
    } else if reply as usize > bound {
        Err(Error::Unknown(reply))
    } else {
        Ok(reply as usize)
    }
}

/// A call that the connect sequence asks of the engine.
#[derive(Debug, Clone, Copy, PartialEq, Eq)]
pub enum EngineCall {
    /// Look the host name up; the reply is the address, or -1.
    Resolve,
    /// Allocate a socket; the reply is its descriptor, or a negative code.
    Open { domain: i32, kind: i32, protocol: i32 },
    /// Connect socket `fd` to `addr`; the reply is 0, or a failure code.
    Connect { fd: i32, addr: SockAddr },
    /// Release socket `fd`; the reply is not looked at.
    Close { fd: i32 },
}

/// Where a connect sequence stands.
#[derive(Debug, Clone, Copy, PartialEq, Eq)]
pub enum Phase {
    /// Waiting for the host lookup.
    Resolving,
    /// The host is at `ip`; waiting for a socket.
    Opening { ip: u32 },
    /// Socket `fd` is allocated; waiting for it to connect to `ip`.
    Connecting { fd: i32, ip: u32 },
    /// Socket `fd` could not connect; waiting for it to be released, then `error`.
    Releasing { fd: i32, error: Error },
}

/// A connect sequence in progress.
pub struct Connecting {
    /// Where the sequence stands.
    pub phase: Phase,
    /// The port to connect to.
    pub port: u16,
}

/// What follows the engine's reply to a call.
pub enum ConnectStep {
    /// Another call is due.
    Pending(Connecting),
    /// The sequence is over.
    Done(Result<TcpStream>),
}

/// A `ConnectStep` as contracts see it: a finished stream stands for its descriptor.
pub enum StepView {
    /// Another call is due.
    Pending(Connecting),
    /// The sequence is over; a stream is given by its descriptor.
    Done(Result<i32>),
}

impl View for ConnectStep {
    type V = StepView;

    open spec fn view(&self) -> StepView {
        match self {
            ConnectStep::Pending(c) => StepView::Pending(*c),
            ConnectStep::Done(Ok(s)) => StepView::Done(Ok(s.spec_fd())),
            ConnectStep::Done(Err(e)) => StepView::Done(Err(*e)),
        }
    }
}

impl Connecting {
    /// A sequence that has made no call yet.
    pub open spec fn start(port: u16) -> Connecting {
        Connecting { phase: Phase::Resolving, port }
    }

    /// The call that is due.
    pub open spec fn spec_call(self) -> EngineCall {
        match self.phase {
            Phase::Resolving => EngineCall::Resolve,
            Phase::Opening { ip } => EngineCall::Open {
                domain: AF_INET,
                kind: SOCK_STREAM,
                protocol: IPPROTO_TCP,
            },
            Phase::Connecting { fd, ip } => EngineCall::Connect {
                fd,
                addr: SockAddr::spec_new(ip, self.port),
            },
            Phase::Releasing { fd, error } => EngineCall::Close { fd },
        }
    }

    /// Where the sequence goes on the engine's `reply` to the call that is due.
    /// A failure after the socket was allocated releases it before the error
    /// is reported.
    pub open spec fn spec_step(self, reply: i32) -> StepView {
        match self.phase {
            Phase::Resolving => if reply == -1 {
                StepView::Done(Err(Error::Unknown(reply)))
            } else {
                StepView::Pending(Connecting { phase: Phase::Opening { ip: reply as u32 }, port: self.port })
            },
            Phase::Opening { ip } => if reply < 0 {
                StepView::Done(Err(Error::Unknown(reply)))
            } else {
                StepView::Pending(Connecting { phase: Phase::Connecting { fd: reply, ip }, port: self.port })
            },
            Phase::Connecting { fd, ip } => if reply == 0 {
                StepView::Done(Ok(fd))
            } else {
                StepView::Pending(
                    Connecting { phase: Phase::Releasing { fd, error: Error::Unknown(reply) }, port: self.port },
                )
            },
            Phase::Releasing { fd, error } => StepView::Done(Err(error)),
        }
    }

    /// The call that is due.
    pub fn call(&self) -> (r: EngineCall)
        ensures
            r == self.spec_call(),
    {
        match self.phase {
            Phase::Resolving => EngineCall::Resolve,
            Phase::Opening { ip } => EngineCall::Open {
                domain: AF_INET,
                kind: SOCK_STREAM,
                protocol: IPPROTO_TCP,
            },
            Phase::Connecting { fd, ip } => EngineCall::Connect { fd, addr: SockAddr::new(ip, self.port) },
            Phase::Releasing { fd, error } => EngineCall::Close { fd },
        }
    }

    /// Takes the engine's reply to the call that is due.
    pub fn step(self, reply: i32) -> (r: ConnectStep)
        ensures
            r@ == self.spec_step(reply),
    {
        let port = self.port;
        match self.phase {
            Phase::Resolving => if reply == -1 {
                ConnectStep::Done(Err(Error::Unknown(reply)))
            } else {
                ConnectStep::Pending(Connecting { phase: Phase::Opening { ip: reply as u32 }, port })
            },
            Phase::Opening { ip } => if reply < 0 {
                ConnectStep::Done(Err(Error::Unknown(reply)))
            } else {
                ConnectStep::Pending(Connecting { phase: Phase::Connecting { fd: reply, ip }, port })
            },
            Phase::Connecting { fd, ip } => if reply == 0 {
                ConnectStep::Done(Ok(TcpStream::from_fd(fd)))
            } else {
                ConnectStep::Pending(
                    Connecting { phase: Phase::Releasing { fd, error: Error::Unknown(reply) }, port },
                )
            },
            Phase::Releasing { fd, error } => ConnectStep::Done(Err(error)),
        }
    }
}

/// The calls that a connect sequence starting at `c` makes when the engine gives
/// `replies`, one per call, and its result if it finished within them.
pub open spec fn run(c: Connecting, replies: Seq<i32>) -> (Seq<EngineCall>, Option<Result<i32>>)
    decreases replies.len(),
{
    if replies.len() == 0 {
        (Seq::empty(), None)
    } else {
        match c.spec_step(replies[0]) {
            StepView::Done(r) => (seq![c.spec_call()], Some(r)),
            StepView::Pending(n) => {
                let (calls, r) = run(n, replies.drop_first());
                (seq![c.spec_call()] + calls, r)
            },
        }
    }
}

/// How many of `calls` release descriptor `fd`.
pub open spec fn close_count(calls: Seq<EngineCall>, fd: i32) -> nat
    decreases calls.len(),
{
    if calls.len() == 0 {
        0
    } else {
        close_count(calls.drop_last(), fd) + if calls.last() == (EngineCall::Close { fd }) {
            1nat
        } else {
            0nat
        }
    }
}

/// A connect sequence, whatever the engine replies, finishes within four calls and
/// allocates at most one socket. A socket it allocated is released exactly once
/// when the sequence fails and never when it succeeds, in which case the stream
/// owns it; no other descriptor is released. A failed host lookup ends the
/// sequence before any socket is allocated.
pub proof fn lemma_connect_releases_once(port: u16, replies: Seq<i32>)
    requires
        replies.len() >= 4,
    ensures
        ({
            let (calls, out) = run(Connecting::start(port), replies);
            &&& out is Some
            &&& 1 <= calls.len() <= 4
            &&& calls[0] == EngineCall::Resolve
            &&& replies[0] == -1 ==> calls == seq![EngineCall::Resolve] && out == Some(
                Err::<i32, Error>(Error::Unknown(-1i32)),
            )
            &&& forall|i: int, j: int|
                0 <= i < calls.len() && 0 <= j < calls.len() && calls[i] is Open
                    && calls[j] is Open ==> i == j
            &&& forall|i: int|
                0 <= i < calls.len() && #[trigger] calls[i] is Open && replies[i] >= 0 ==> {
                    ||| out == Some(Ok::<i32, Error>(replies[i])) && close_count(calls, replies[i]) == 0
                    ||| out matches Some(Err(_)) && close_count(calls, replies[i]) == 1
                }
            &&& forall|i: int|
                0 <= i < calls.len() && #[trigger] calls[i] is Close ==> exists|j: int|
                    0 <= j < i && calls[j] is Open && replies[j] >= 0 && replies[j]
                        == calls[i]->Close_fd
            &&& out matches Some(Ok(fd)) ==> exists|j: int|
                0 <= j < calls.len() && calls[j] is Open && replies[j] == fd
        }),
{
    reveal_with_fuel(run, 5);
    reveal_with_fuel(close_count, 5);
    let c0 = Connecting::start(port);
    let (calls, out) = run(c0, replies);
    let r = replies;
    if r[0] == -1 {
        assert(calls =~= seq![EngineCall::Resolve]);
    } else {
        let ip = r[0] as u32;
        let c1 = Connecting { phase: Phase::Opening { ip }, port };
        let open = c1.spec_call();
        if r[1] < 0 {
            assert(calls =~= seq![EngineCall::Resolve, open]);
        } else {
            let fd = r[1];
            let c2 = Connecting { phase: Phase::Connecting { fd, ip }, port };
            let conn = c2.spec_call();
            if r[2] == 0 {
                assert(calls =~= seq![EngineCall::Resolve, open, conn]);
                assert(seq![EngineCall::Resolve, open, conn].drop_last() =~= seq![EngineCall::Resolve, open]);
                assert(seq![EngineCall::Resolve, open].drop_last() =~= seq![EngineCall::Resolve]);
                assert(seq![EngineCall::Resolve].drop_last() =~= Seq::<EngineCall>::empty());
            } else {
                let close = EngineCall::Close { fd };
                assert(calls =~= seq![EngineCall::Resolve, open, conn, close]);
                assert(seq![EngineCall::Resolve, open, conn, close].drop_last() =~= seq![EngineCall::Resolve, open, conn]);
                assert(seq![EngineCall::Resolve, open, conn].drop_last() =~= seq![EngineCall::Resolve, open]);
                assert(seq![EngineCall::Resolve, open].drop_last() =~= seq![EngineCall::Resolve]);
                assert(seq![EngineCall::Resolve].drop_last() =~= Seq::<EngineCall>::empty());
                assert(calls[1] is Open && r[1] >= 0 && r[1] == calls[3]->Close_fd);
            }
        }
    }
}

} // verus!
