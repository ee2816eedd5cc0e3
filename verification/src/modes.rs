use vstd::prelude::*;
use vstd::utf8::{decode_utf8, valid_utf8};
use crate::models::{Mechanism, Protocol, Role};

verus! {

/// `std::io::Error`, the error of the standard I/O operations.
#[verifier::external_type_specification]
#[verifier::external_body]
pub struct ExIoError(std::io::Error);

/// One of the eight ways to run the benchmark.
#[derive(Copy, Clone, PartialEq, Eq, Debug, Structural)]
pub enum RunMode {
    UdpClientStream,
    UdpClientSync,
    TcpClientStream,
    TcpClientSync,
    UdpServerStream,
    UdpServerSync,
    TcpServerStream,
    TcpServerSync,
}

/// The way to run for a role, a protocol and a mechanism.
pub open spec fn mode_of(role: Role, protocol: Protocol, mechanism: Mechanism) -> RunMode {
    match (role, protocol, mechanism) {
        (Role::Client, Protocol::UDP, Mechanism::Stream) => RunMode::UdpClientStream,
        (Role::Client, Protocol::UDP, Mechanism::Sync) => RunMode::UdpClientSync,
        (Role::Client, Protocol::TCP, Mechanism::Stream) => RunMode::TcpClientStream,
        (Role::Client, Protocol::TCP, Mechanism::Sync) => RunMode::TcpClientSync,
        (Role::Server, Protocol::UDP, Mechanism::Stream) => RunMode::UdpServerStream,
        (Role::Server, Protocol::UDP, Mechanism::Sync) => RunMode::UdpServerSync,
        (Role::Server, Protocol::TCP, Mechanism::Stream) => RunMode::TcpServerStream,
        (Role::Server, Protocol::TCP, Mechanism::Sync) => RunMode::TcpServerSync,
    }
}

/// Chooses how to run for a role, a protocol and a mechanism.
pub fn select_mode(role: Role, protocol: Protocol, mechanism: Mechanism) -> (r: RunMode)
    ensures
        r == mode_of(role, protocol, mechanism),
{
    match (role, protocol, mechanism) {
        (Role::Client, Protocol::UDP, Mechanism::Stream) => RunMode::UdpClientStream,
        (Role::Client, Protocol::UDP, Mechanism::Sync) => RunMode::UdpClientSync,
        (Role::Client, Protocol::TCP, Mechanism::Stream) => RunMode::TcpClientStream,
        (Role::Client, Protocol::TCP, Mechanism::Sync) => RunMode::TcpClientSync,
        (Role::Server, Protocol::UDP, Mechanism::Stream) => RunMode::UdpServerStream,
        (Role::Server, Protocol::UDP, Mechanism::Sync) => RunMode::UdpServerSync,
        (Role::Server, Protocol::TCP, Mechanism::Stream) => RunMode::TcpServerStream,
        (Role::Server, Protocol::TCP, Mechanism::Sync) => RunMode::TcpServerSync,
    }
}

/// Different settings never share a way to run.
pub proof fn modes_are_distinct(
    r1: Role,
    p1: Protocol,
    m1: Mechanism,
    r2: Role,
    p2: Protocol,
    m2: Mechanism,
)
    ensures
        mode_of(r1, p1, m1) == mode_of(r2, p2, m2) <==> (r1 == r2 && p1 == p2 && m1 == m2),
{
}

/// Streaming over TCP as a client: nothing to do yet.
pub fn main_tcp_client_stream() -> (r: std::io::Result<()>)
    ensures
        r is Ok,
{
    Ok(())
}

/// Synchronous TCP client: nothing to do yet.
pub fn main_tcp_client_sync() -> (r: std::io::Result<()>)
    ensures
        r is Ok,
{
    Ok(())
}

/// Streaming UDP server: nothing to do yet.
pub fn main_udp_server_stream() -> (r: std::io::Result<()>)
    ensures
        r is Ok,
{
    Ok(())
}

/// Synchronous UDP server: nothing to do yet.
pub fn main_udp_server_sync() -> (r: std::io::Result<()>)
    ensures
        r is Ok,
{
    Ok(())
}

/// Streaming UDP client: nothing to do yet.
pub fn main_udp_client_stream() -> (r: std::io::Result<()>)
    ensures
        r is Ok,
{
    Ok(())
}

/// Synchronous UDP client: nothing to do yet.
pub fn main_udp_client_sync() -> (r: std::io::Result<()>)
    ensures
        r is Ok,
{
    Ok(())
}

/// The text that `String::from_utf8_lossy` makes of `bytes`.
pub uninterp spec fn lossy_text(bytes: Seq<u8>) -> Seq<char>;

/// `String::from_utf8_lossy`, made into an owned `String`: its text is named
/// by `lossy_text`, and on valid UTF-8 it is exactly the decoded text. What it
/// makes of invalid sequences (replacement characters) is not stated.
#[verifier::external_body]
fn utf8_lossy(bytes: &[u8]) -> (r: String)
    ensures
        r@ == lossy_text(bytes@),
        valid_utf8(bytes@) ==> r@ == decode_utf8(bytes@),
{
    String::from_utf8_lossy(bytes).into_owned()
}

/// What a TCP stream handler does after a read.
#[derive(Debug)]
pub enum StreamStep {
    /// The peer closed the stream, or reading failed: stop handling it.
    Stop,
    /// Hand `request` on, then answer "ACK" when `send_ack` holds.
    Deliver { request: String, send_ack: bool },
}

/// Decides what a stream handler does with the outcome of a read into
/// `buffer`: `Some(n)` when `n` bytes were read, `None` when reading failed.
/// Handlers that acknowledge each request pass `acknowledge`.
pub fn on_stream_read(buffer: &[u8], read: Option<usize>, acknowledge: bool) -> (r: StreamStep)
    requires
        read matches Some(n) ==> n <= buffer@.len(),
    ensures
        r is Stop <==> (read is None || read == Some(0usize)),
        r matches StreamStep::Deliver { request, send_ack } ==> {
            &&& send_ack == acknowledge
            &&& request@ == lossy_text(buffer@.take(read.unwrap() as int))
            &&& valid_utf8(buffer@.take(read.unwrap() as int)) ==> request@ == decode_utf8(
                buffer@.take(read.unwrap() as int),
            )
        },
{
    match read {
        None => StreamStep::Stop,
        Some(n) => {
            if n == 0 {
                StreamStep::Stop
            } else {
                let request = utf8_lossy(&buffer[0..n]);
                StreamStep::Deliver { request, send_ack: acknowledge }
            }
        },
    }
}

} // verus!

verus! {

/// The chosen mode matches its settings: it is a server mode exactly for the
/// server role, a UDP mode exactly for UDP, and a synchronous mode exactly for
/// the synchronous mechanism.
pub proof fn mode_matches_settings(role: Role, protocol: Protocol, mechanism: Mechanism)
    ensures
        ({
            let m = mode_of(role, protocol, mechanism);
            &&& (role == Role::Server) <==> (m == RunMode::UdpServerStream || m
                == RunMode::UdpServerSync || m == RunMode::TcpServerStream || m
                == RunMode::TcpServerSync)
            &&& (protocol == Protocol::UDP) <==> (m == RunMode::UdpClientStream || m
                == RunMode::UdpClientSync || m == RunMode::UdpServerStream || m
                == RunMode::UdpServerSync)
            &&& (mechanism == Mechanism::Sync) <==> (m == RunMode::UdpClientSync || m
                == RunMode::TcpClientSync || m == RunMode::UdpServerSync || m
                == RunMode::TcpServerSync)
        }),
{
}

} // verus!
