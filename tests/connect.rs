use postgres::negotiate::{
    ssl_request, Action, Event, Failure, Negotiation, Phase, Policy, SslMode, DECLINE_BYTE,
    SSL_REQUEST_CODE,
};
use postgres::params::{
    effective_port, socket_address, socket_file_name, socket_path, ConnectParams, ConnectTarget,
    SocketAddress, DEFAULT_PORT,
};
use postgres::stream::{ByteStream, InternalStream, IoStream, MaybeSslStream, RawIo};

fn feed(policy: Policy, events: &[Event]) -> Vec<Action> {
    let mut n = Negotiation::new(policy);
    let mut actions = Vec::new();
    for e in events {
        if n.is_finished() {
            break;
        }
        actions.push(n.step(*e));
    }
    actions
}

#[test]
fn socket_file_name_default_port() {
    assert_eq!(socket_file_name(5432), b".s.PGSQL.5432".to_vec());
}

#[test]
fn socket_file_name_edge_ports() {
    assert_eq!(socket_file_name(0), b".s.PGSQL.0".to_vec());
    assert_eq!(socket_file_name(9), b".s.PGSQL.9".to_vec());
    assert_eq!(socket_file_name(10), b".s.PGSQL.10".to_vec());
    assert_eq!(socket_file_name(65535), b".s.PGSQL.65535".to_vec());
}

#[test]
fn socket_path_joins_directory() {
    assert_eq!(socket_path(&b"/tmp".to_vec(), 5432), b"/tmp/.s.PGSQL.5432".to_vec());
    assert_eq!(socket_path(&b"/tmp/".to_vec(), 5433), b"/tmp/.s.PGSQL.5433".to_vec());
    assert_eq!(socket_path(&Vec::new(), 5432), b".s.PGSQL.5432".to_vec());
}

#[test]
fn port_defaults_to_5432() {
    assert_eq!(DEFAULT_PORT, 5432);
    assert_eq!(effective_port(None), 5432);
    assert_eq!(effective_port(Some(6543)), 6543);
}

#[test]
fn tcp_address_uses_host_and_port() {
    let params = ConnectParams { target: ConnectTarget::TargetTcp("db.example".to_string()), port: None };
    match socket_address(&params) {
        SocketAddress::Tcp(host, port) => {
            assert_eq!(host, "db.example");
            assert_eq!(port, 5432);
        }
        SocketAddress::Unix(_) => panic!("expected a TCP address"),
    }
    let params = ConnectParams { target: ConnectTarget::TargetTcp("localhost".to_string()), port: Some(6000) };
    match socket_address(&params) {
        SocketAddress::Tcp(host, port) => {
            assert_eq!(host, "localhost");
            assert_eq!(port, 6000);
        }
        SocketAddress::Unix(_) => panic!("expected a TCP address"),
    }
}

#[test]
fn unix_address_names_socket_file() {
    let params = ConnectParams { target: ConnectTarget::TargetUnix(b"/var/run/postgresql".to_vec()), port: None };
    match socket_address(&params) {
        SocketAddress::Unix(path) => assert_eq!(path, b"/var/run/postgresql/.s.PGSQL.5432".to_vec()),
        SocketAddress::Tcp(..) => panic!("expected a socket path"),
    }
    let params = ConnectParams { target: ConnectTarget::TargetUnix(b"/run".to_vec()), port: Some(7) };
    match socket_address(&params) {
        SocketAddress::Unix(path) => assert_eq!(path, b"/run/.s.PGSQL.7".to_vec()),
        SocketAddress::Tcp(..) => panic!("expected a socket path"),
    }
}

#[test]
fn ssl_request_frame_bytes() {
    let frame = ssl_request();
    assert_eq!(frame.len(), 8);
    assert_eq!(u32::from_be_bytes([frame[0], frame[1], frame[2], frame[3]]), 8);
    assert_eq!(u32::from_be_bytes([frame[4], frame[5], frame[6], frame[7]]), SSL_REQUEST_CODE);
    assert_eq!(frame, vec![0, 0, 0, 8, 4, 210, 22, 47]);
}

#[test]
fn ssl_mode_policy() {
    assert_eq!(SslMode::<u8>::NoSsl.policy(), Policy::Disabled);
    assert_eq!(SslMode::PreferSsl(1u8).policy(), Policy::Preferred);
    assert_eq!(SslMode::RequireSsl(1u8).policy(), Policy::Required);
}

#[test]
fn open_failure_is_socket_error() {
    for policy in [Policy::Disabled, Policy::Preferred, Policy::Required] {
        assert_eq!(feed(policy, &[Event::Failed, Event::Succeeded]), vec![Action::Fail(Failure::SocketError)]);
    }
}

#[test]
fn disabled_hands_out_plain_without_exchange() {
    assert_eq!(feed(Policy::Disabled, &[Event::Succeeded, Event::Succeeded]), vec![Action::UsePlain]);
    let mut n = Negotiation::new(Policy::Disabled);
    assert_eq!(n.step(Event::Succeeded), Action::UsePlain);
    assert_eq!(n.phase, Phase::Finished);
    assert!(n.is_finished());
}

#[test]
fn required_and_declined_fails_unsupported() {
    let events = [Event::Succeeded, Event::Succeeded, Event::Response(b'N'), Event::Succeeded];
    assert_eq!(
        feed(Policy::Required, &events),
        vec![Action::SendRequest, Action::ReadResponse, Action::Fail(Failure::EncryptionUnsupported)]
    );
}

#[test]
fn preferred_and_declined_goes_plain() {
    let events = [Event::Succeeded, Event::Succeeded, Event::Response(DECLINE_BYTE), Event::Succeeded];
    assert_eq!(feed(Policy::Preferred, &events), vec![Action::SendRequest, Action::ReadResponse, Action::UsePlain]);
}

#[test]
fn accepted_runs_one_handshake() {
    for policy in [Policy::Preferred, Policy::Required] {
        for answer in [b'S', 0u8, b'E', 255u8] {
            let ok = [Event::Succeeded, Event::Succeeded, Event::Response(answer), Event::Succeeded, Event::Succeeded];
            assert_eq!(
                feed(policy, &ok),
                vec![Action::SendRequest, Action::ReadResponse, Action::Handshake, Action::UseEncrypted]
            );
            let failed = [Event::Succeeded, Event::Succeeded, Event::Response(answer), Event::Failed, Event::Succeeded];
            assert_eq!(
                feed(policy, &failed),
                vec![
                    Action::SendRequest,
                    Action::ReadResponse,
                    Action::Handshake,
                    Action::Fail(Failure::EncryptionHandshakeFailed)
                ]
            );
        }
    }
}

#[test]
fn failed_answer_read_is_io_failure() {
    let mut n = Negotiation::new(Policy::Required);
    assert_eq!(n.step(Event::Succeeded), Action::SendRequest);
    assert_eq!(n.step(Event::Succeeded), Action::ReadResponse);
    assert_eq!(n.step(Event::Failed), Action::Fail(Failure::Io));
    assert!(n.is_finished());
}

#[test]
fn io_failures_end_the_attempt() {
    assert_eq!(
        feed(Policy::Required, &[Event::Succeeded, Event::Failed]),
        vec![Action::SendRequest, Action::Fail(Failure::Io)]
    );
    assert_eq!(
        feed(Policy::Preferred, &[Event::Succeeded, Event::Succeeded, Event::Failed]),
        vec![Action::SendRequest, Action::ReadResponse, Action::Fail(Failure::Io)]
    );
}

/// An in-memory stream: reads come from `input`, writes go to `output`, and
/// every call fails once `broken` is set.
#[derive(Debug, PartialEq)]
struct Memory {
    input: Vec<u8>,
    output: Vec<u8>,
    flushes: usize,
    broken: bool,
}

impl Memory {
    fn new(input: &[u8]) -> Memory {
        Memory { input: input.to_vec(), output: Vec::new(), flushes: 0, broken: false }
    }
}

impl RawIo for Memory {
    type Error = String;

    fn read_raw(&mut self, buf: &mut [u8]) -> Result<usize, String> {
        if self.broken {
            return Err("broken".to_string());
        }
        let n = buf.len().min(self.input.len());
        buf[..n].copy_from_slice(&self.input[..n]);
        self.input.drain(..n);
        Ok(n)
    }

    fn write_all_raw(&mut self, buf: &[u8]) -> Result<(), String> {
        if self.broken {
            return Err("broken".to_string());
        }
        self.output.extend_from_slice(buf);
        Ok(())
    }

    fn flush_raw(&mut self) -> Result<(), String> {
        if self.broken {
            return Err("broken".to_string());
        }
        self.flushes += 1;
        Ok(())
    }
}

fn exercise<S: ByteStream<Error = String>>(s: &mut S) -> Vec<Result<usize, String>> {
    let mut out = Vec::new();
    let mut empty: [u8; 0] = [];
    out.push(s.read(&mut empty));
    let mut buf = [0u8; 3];
    out.push(s.read(&mut buf));
    out.push(s.read(&mut buf));
    out.push(s.read(&mut buf));
    out.push(s.write(b"abc").map(|_| 0));
    out.push(s.flush().map(|_| 0));
    out
}

#[test]
fn plain_and_encrypted_streams_behave_alike() {
    let mut plain: MaybeSslStream<IoStream<Memory>, IoStream<Memory>> = MaybeSslStream::NormalStream(IoStream::new(Memory::new(b"hello")));
    let mut encrypted: MaybeSslStream<IoStream<Memory>, IoStream<Memory>> = MaybeSslStream::SslStream(IoStream::new(Memory::new(b"hello")));
    let a = exercise(&mut plain);
    let b = exercise(&mut encrypted);
    assert_eq!(a, b);
    assert_eq!(a, vec![Ok(0), Ok(3), Ok(2), Ok(0), Ok(0), Ok(0)]);
    match plain {
        MaybeSslStream::NormalStream(m) => {
            let m = m.get_ref();
            assert_eq!(m.output, b"abc".to_vec());
            assert_eq!(m.flushes, 1);
        }
        MaybeSslStream::SslStream(_) => panic!("variant changed"),
    }
}

#[test]
fn stream_errors_propagate_unchanged() {
    let mut broken = Memory::new(b"x");
    broken.broken = true;
    let mut plain: MaybeSslStream<IoStream<Memory>, IoStream<Memory>> = MaybeSslStream::NormalStream(IoStream::new(broken));
    let mut buf = [0u8; 1];
    assert_eq!(plain.read(&mut buf), Err("broken".to_string()));
    assert_eq!(plain.write(b"y"), Err("broken".to_string()));
    assert_eq!(plain.flush(), Err("broken".to_string()));
    let mut broken = Memory::new(b"x");
    broken.broken = true;
    let mut encrypted: MaybeSslStream<IoStream<Memory>, IoStream<Memory>> = MaybeSslStream::SslStream(IoStream::new(broken));
    assert_eq!(encrypted.read(&mut buf), Err("broken".to_string()));
    assert_eq!(encrypted.write(b"y"), Err("broken".to_string()));
    assert_eq!(encrypted.flush(), Err("broken".to_string()));
}

#[test]
fn transport_kinds_dispatch_alike() {
    let mut tcp: InternalStream<IoStream<Memory>, IoStream<Memory>> = InternalStream::TcpStream(IoStream::new(Memory::new(b"ab")));
    let mut unix: InternalStream<IoStream<Memory>, IoStream<Memory>> = InternalStream::UnixStream(IoStream::new(Memory::new(b"ab")));
    assert_eq!(exercise(&mut tcp), exercise(&mut unix));
    match unix {
        InternalStream::UnixStream(m) => assert_eq!(m.get_ref().output, b"abc".to_vec()),
        InternalStream::TcpStream(_) => panic!("variant changed"),
    }
}
