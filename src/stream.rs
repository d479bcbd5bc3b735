use vstd::prelude::*;

verus! {

/// A blocking, bidirectional byte stream: the capability shared by every
/// transport kind and by the plain and encrypted connection streams.
///
/// A stream is modelled by the bytes written to it so far, the bytes read
/// from it so far, whether the peer has closed it, and the log of every
/// operation made on it with its result.
pub trait ByteStream {
    /// The error reported by a failed read, write or flush.
    type Error;

    /// The bytes successfully written to the stream so far.
    spec fn sent(&self) -> Seq<u8>;

    /// The bytes read from the stream so far.
    spec fn received(&self) -> Seq<u8>;

    /// Whether the peer has closed its side of the stream.
    spec fn closed(&self) -> bool;

    /// Every operation made on the stream so far, in order, with its result.
    spec fn outcomes(&self) -> Seq<Outcome<Self::Error>>;

    /// Reads into `buf`, returning how many bytes were placed at its front.
    /// On a non-empty buffer, `Ok(0)` comes exactly when the peer closed the
    /// stream. A failed read reads nothing; no read writes.
    fn read(&mut self, buf: &mut [u8]) -> (r: Result<usize, Self::Error>)
        ensures
            final(buf)@.len() == old(buf)@.len(),
            final(self).sent() == old(self).sent(),
            match r {
                Ok(n) => {
                    &&& n <= old(buf)@.len()
                    &&& final(self).received() == old(self).received() + final(buf)@.take(
                        n as int,
                    )
                    &&& old(buf)@.len() > 0 ==> (n == 0 <==> final(self).closed())
                },
                Err(_) => final(self).received() == old(self).received(),
            },
            final(self).outcomes() == old(self).outcomes().push(Outcome::Read(final(buf)@, r)),
    ;

    /// Writes the whole of `buf`; no write reads.
    fn write(&mut self, buf: &[u8]) -> (r: Result<(), Self::Error>)
        ensures
            final(self).received() == old(self).received(),
            r is Ok ==> final(self).sent() == old(self).sent() + buf@,
            final(self).outcomes() == old(self).outcomes().push(Outcome::Wrote(buf@, r)),
    ;

    /// Pushes out whatever is buffered below this stream, neither writing
    /// new bytes nor reading any.
    fn flush(&mut self) -> (r: Result<(), Self::Error>)
        ensures
            final(self).sent() == old(self).sent(),
            final(self).received() == old(self).received(),
            final(self).outcomes() == old(self).outcomes().push(Outcome::Flushed(r)),
    ;
}

/// One operation on a [`ByteStream`] and what it returned.
pub enum Outcome<E> {
    /// A read, with the buffer as it stood afterwards.
    Read(Seq<u8>, Result<usize, E>),
    /// A write of these bytes.
    Wrote(Seq<u8>, Result<(), E>),
    /// A flush.
    Flushed(Result<(), E>),
}

/// The raw operations of a connection (a socket, an encrypted stream), as
/// the standard library's `Read` and `Write` offer them.
pub trait RawIo {
    /// The error reported by a failed operation.
    type Error;

    /// Places at most `buf.len()` bytes at the front of `buf`; a failed read
    /// reads nothing.
    fn read_raw(&mut self, buf: &mut [u8]) -> (r: Result<usize, Self::Error>)
        ensures
            final(buf)@.len() == old(buf)@.len(),
            r matches Ok(n) ==> n <= old(buf)@.len(),
    ;

    /// Writes the whole of `buf`, or fails.
    fn write_all_raw(&mut self, buf: &[u8]) -> (r: Result<(), Self::Error>);

    /// Pushes out whatever is buffered.
    fn flush_raw(&mut self) -> (r: Result<(), Self::Error>);
}

/// A raw connection as a [`ByteStream`], keeping account of the bytes that
/// went through it.
pub struct IoStream<T: RawIo> {
    inner: T,
    sent_bytes: Ghost<Seq<u8>>,
    received_bytes: Ghost<Seq<u8>>,
    at_end: Ghost<bool>,
    log: Ghost<Seq<Outcome<T::Error>>>,
}

impl<T: RawIo> IoStream<T> {
    /// The stream that this one reads from and writes to.
    pub closed spec fn inner_stream(&self) -> T {
        self.inner
    }

    /// Wraps `inner`; nothing has gone through it yet.
    pub fn new(inner: T) -> (r: IoStream<T>)
        ensures
            r.inner_stream() == inner,
            r.sent() == Seq::<u8>::empty(),
            r.received() == Seq::<u8>::empty(),
            !r.closed(),
            r.outcomes() == Seq::<Outcome<T::Error>>::empty(),
    {
        IoStream {
            inner,
            sent_bytes: Ghost(Seq::empty()),
            received_bytes: Ghost(Seq::empty()),
            at_end: Ghost(false),
            log: Ghost(Seq::empty()),
        }
    }

    /// The stream that this one reads from and writes to.
    pub fn get_ref(&self) -> (r: &T)
        ensures
            *r == self.inner_stream(),
    {
        &self.inner
    }
}

impl<T: RawIo> ByteStream for IoStream<T> {
    type Error = T::Error;

    closed spec fn sent(&self) -> Seq<u8> {
        self.sent_bytes@
    }

    closed spec fn received(&self) -> Seq<u8> {
        self.received_bytes@
    }

    closed spec fn closed(&self) -> bool {
        self.at_end@
    }

    closed spec fn outcomes(&self) -> Seq<Outcome<T::Error>> {
        self.log@
    }

    fn read(&mut self, buf: &mut [u8]) -> (r: Result<usize, T::Error>) {
        let r = self.inner.read_raw(buf);
        if let Ok(n) = r {
            self.received_bytes = Ghost(self.received_bytes@ + buf@.take(n as int));
            if buf.len() > 0 {
                self.at_end = Ghost(n == 0);
            }
        }
        self.log = Ghost(self.log@.push(Outcome::Read(buf@, r)));
        r
    }

    fn write(&mut self, buf: &[u8]) -> (r: Result<(), T::Error>) {
        let r = self.inner.write_all_raw(buf);
        if r.is_ok() {
            self.sent_bytes = Ghost(self.sent_bytes@ + buf@);
        }
        self.log = Ghost(self.log@.push(Outcome::Wrote(buf@, r)));
        r
    }

    fn flush(&mut self) -> (r: Result<(), T::Error>) {
        let r = self.inner.flush_raw();
        self.log = Ghost(self.log@.push(Outcome::Flushed(r)));
        r
    }
}

/// A raw connection to a server: over TCP or over a local domain socket.
pub enum InternalStream<T, U> {
    TcpStream(T),
    UnixStream(U),
}

impl<T, U> InternalStream<T, U> {
    /// Whether this is a TCP connection.
    pub open spec fn is_tcp(&self) -> bool {
        self is TcpStream
    }
}

impl<T, U, E> ByteStream for InternalStream<T, U> where
    T: ByteStream<Error = E>,
    U: ByteStream<Error = E>,
 {
    type Error = E;

    open spec fn sent(&self) -> Seq<u8> {
        match self {
            InternalStream::TcpStream(s) => s.sent(),
            InternalStream::UnixStream(s) => s.sent(),
        }
    }

    open spec fn received(&self) -> Seq<u8> {
        match self {
            InternalStream::TcpStream(s) => s.received(),
            InternalStream::UnixStream(s) => s.received(),
        }
    }

    open spec fn closed(&self) -> bool {
        match self {
            InternalStream::TcpStream(s) => s.closed(),
            InternalStream::UnixStream(s) => s.closed(),
        }
    }

    open spec fn outcomes(&self) -> Seq<Outcome<E>> {
        match self {
            InternalStream::TcpStream(s) => s.outcomes(),
            InternalStream::UnixStream(s) => s.outcomes(),
        }
    }

    fn read(&mut self, buf: &mut [u8]) -> (r: Result<usize, E>)
        ensures
            final(self).is_tcp() == old(self).is_tcp(),
    {
        match self {
            InternalStream::TcpStream(s) => s.read(buf),
            InternalStream::UnixStream(s) => s.read(buf),
        }
    }

    fn write(&mut self, buf: &[u8]) -> (r: Result<(), E>)
        ensures
            final(self).is_tcp() == old(self).is_tcp(),
    {
        match self {
            InternalStream::TcpStream(s) => s.write(buf),
            InternalStream::UnixStream(s) => s.write(buf),
        }
    }

    fn flush(&mut self) -> (r: Result<(), E>)
        ensures
            final(self).is_tcp() == old(self).is_tcp(),
    {
        match self {
            InternalStream::TcpStream(s) => s.flush(),
            InternalStream::UnixStream(s) => s.flush(),
        }
    }
}

/// The stream handed to the caller once negotiation is over: either the
/// encrypted wrapper around a transport or the transport itself. The variant
/// chosen at negotiation stays for the life of the connection.
pub enum MaybeSslStream<S, X> {
    SslStream(X),
    NormalStream(S),
}

impl<S, X> MaybeSslStream<S, X> {
    /// Whether this is the encrypted variant.
    pub open spec fn is_encrypted(&self) -> bool {
        self is SslStream
    }
}

impl<S, X, E> ByteStream for MaybeSslStream<S, X> where
    S: ByteStream<Error = E>,
    X: ByteStream<Error = E>,
 {
    type Error = E;

    open spec fn sent(&self) -> Seq<u8> {
        match self {
            MaybeSslStream::SslStream(s) => s.sent(),
            MaybeSslStream::NormalStream(s) => s.sent(),
        }
    }

    open spec fn received(&self) -> Seq<u8> {
        match self {
            MaybeSslStream::SslStream(s) => s.received(),
            MaybeSslStream::NormalStream(s) => s.received(),
        }
    }

    open spec fn closed(&self) -> bool {
        match self {
            MaybeSslStream::SslStream(s) => s.closed(),
            MaybeSslStream::NormalStream(s) => s.closed(),
        }
    }

    open spec fn outcomes(&self) -> Seq<Outcome<E>> {
        match self {
            MaybeSslStream::SslStream(s) => s.outcomes(),
            MaybeSslStream::NormalStream(s) => s.outcomes(),
        }
    }

    fn read(&mut self, buf: &mut [u8]) -> (r: Result<usize, E>)
        ensures
            final(self).is_encrypted() == old(self).is_encrypted(),
    {
        match self {
            MaybeSslStream::SslStream(s) => s.read(buf),
            MaybeSslStream::NormalStream(s) => s.read(buf),
        }
    }

    fn write(&mut self, buf: &[u8]) -> (r: Result<(), E>)
        ensures
            final(self).is_encrypted() == old(self).is_encrypted(),
    {
        match self {
            MaybeSslStream::SslStream(s) => s.write(buf),
            MaybeSslStream::NormalStream(s) => s.write(buf),
        }
    }

    fn flush(&mut self) -> (r: Result<(), E>)
        ensures
            final(self).is_encrypted() == old(self).is_encrypted(),
    {
        match self {
            MaybeSslStream::SslStream(s) => s.flush(),
            MaybeSslStream::NormalStream(s) => s.flush(),
        }
    }
}

} // verus!
