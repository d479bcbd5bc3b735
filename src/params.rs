use vstd::prelude::*;

verus! {

/// The port a server listens on when the connection parameters name none.
pub const DEFAULT_PORT: u16 = 5432;

/// The port actually used for a connection.
pub open spec fn port_or_default(port: Option<u16>) -> u16 {
    match port {
        Some(p) => p,
        None => DEFAULT_PORT,
    }
}

/// Picks the configured port, or the default one when none is set.
pub fn effective_port(port: Option<u16>) -> (r: u16)
    ensures
        r == port_or_default(port),
{
    match port {
        Some(p) => p,
        None => DEFAULT_PORT,
    }
}

/// The ASCII digit of a value below ten.
pub open spec fn digit(d: nat) -> u8 {
    (48 + d) as u8
}

/// The decimal notation of `n`, without leading zeros.
pub open spec fn decimal(n: nat) -> Seq<u8>
    decreases n,
{
    if n < 10 {
        seq![digit(n)]
    } else {
        decimal(n / 10).push(digit(n % 10))
    }
}

/// The fixed front of a server's socket file name, `.s.PGSQL.` in ASCII.
pub open spec fn socket_file_prefix() -> Seq<u8> {
    seq![46u8, 115, 46, 80, 71, 83, 81, 76, 46]
}

/// The name of the socket file a server listening on `port` creates in its
/// socket directory.
pub open spec fn socket_file_name_of(port: u16) -> Seq<u8> {
    socket_file_prefix() + decimal(port as nat)
}

/// Appends the decimal notation of `n` to `out`.
fn push_decimal(n: u16, out: &mut Vec<u8>)
    ensures
        final(out)@ == old(out)@ + decimal(n as nat),
    decreases n,
{
    if n < 10 {
        out.push(48 + n as u8);
    } else {
        push_decimal(n / 10, out);
        out.push(48 + (n % 10) as u8);
        proof {
            assert(old(out)@ + decimal(n as nat) =~= old(out)@ + decimal((n / 10) as nat) + seq![
                digit((n % 10) as nat),
            ]);
        }
    }
}

/// Builds the socket file name for `port`: `.s.PGSQL.` followed by the port
/// in decimal.
pub fn socket_file_name(port: u16) -> (r: Vec<u8>)
    ensures
        r@ == socket_file_name_of(port),
{
    let mut r: Vec<u8> = vec![46u8, 115, 46, 80, 71, 83, 81, 76, 46];
    assert(r@ =~= socket_file_prefix());
    push_decimal(port, &mut r);
    r
}

/// Where a server is to be found.
pub enum ConnectTarget {
    /// A host name or address, reached over TCP.
    TargetTcp(String),
    /// The directory holding the server's domain socket, as path bytes.
    TargetUnix(Vec<u8>),
}

/// The transport part of the connection parameters.
pub struct ConnectParams {
    pub target: ConnectTarget,
    pub port: Option<u16>,
}

/// The concrete address a transport is opened to.
pub enum SocketAddress {
    /// A host and port, reached over TCP.
    Tcp(String, u16),
    /// The full path of a domain socket file.
    Unix(Vec<u8>),
}

/// `dir` and `name` joined by a `/`, which is left out where `dir` is empty
/// or already ends in one.
pub open spec fn join_path(dir: Seq<u8>, name: Seq<u8>) -> Seq<u8> {
    if dir.len() == 0 || dir.last() == 47 {
        dir + name
    } else {
        dir.push(47) + name
    }
}

/// The socket file in `dir` of a server listening on `port`.
pub fn socket_path(dir: &Vec<u8>, port: u16) -> (r: Vec<u8>)
    ensures
        r@ == join_path(dir@, socket_file_name_of(port)),
{
    let mut r: Vec<u8> = dir.clone();
    assert(r@ =~= dir@);
    if r.len() > 0 && r[r.len() - 1] != 47 {
        r.push(47);
    }
    let mut name: Vec<u8> = socket_file_name(port);
    r.append(&mut name);
    r
}

/// The address that the parameters designate.
pub open spec fn address_of_target(target: ConnectTarget, port: Option<u16>) -> SocketAddressView {
    match target {
        ConnectTarget::TargetTcp(host) => SocketAddressView::Tcp(host@, port_or_default(port)),
        ConnectTarget::TargetUnix(dir) => SocketAddressView::Unix(
            join_path(dir@, socket_file_name_of(port_or_default(port))),
        ),
    }
}

/// The mathematical value of a [`SocketAddress`].
pub enum SocketAddressView {
    Tcp(Seq<char>, u16),
    Unix(Seq<u8>),
}

impl View for SocketAddress {
    type V = SocketAddressView;

    open spec fn view(&self) -> SocketAddressView {
        match self {
            SocketAddress::Tcp(host, port) => SocketAddressView::Tcp(host@, *port),
            SocketAddress::Unix(path) => SocketAddressView::Unix(path@),
        }
    }
}

/// Resolves the parameters to the address to connect to: the TCP host at the
/// configured port (or the default one), or the socket file that a server at
/// that port keeps in the configured directory.
pub fn socket_address(params: &ConnectParams) -> (r: SocketAddress)
    ensures
        r@ == address_of_target(params.target, params.port),
{
    let port: u16 = effective_port(params.port);
    match &params.target {
        ConnectTarget::TargetTcp(host) => SocketAddress::Tcp(host.clone(), port),
        ConnectTarget::TargetUnix(dir) => SocketAddress::Unix(socket_path(dir, port)),
    }
}

} // verus!
