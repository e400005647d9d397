use vstd::prelude::*;

verus! {

/// A failure to hand a finished line to its destination. The optional code is
/// the operating system's error number, when the destination reported one.
#[derive(Clone, Copy, Debug, PartialEq, Eq)]
pub struct SendError {
    pub code: Option<i32>,
}

/// Delivery of one already-formatted line. The two real conforming
/// implementations, a datagram socket and a connected local stream socket, do
/// their I/O outside this library; [`MemTransport`] is the in-memory one.
pub trait Transport {
    /// The lines this transport has taken so far, oldest first. A transport
    /// that keeps no record of its own leaves this at its default.
    open spec fn taken(&self) -> Seq<Seq<char>> {
        Seq::empty()
    }

    /// Delivers one formatted line, reporting failure without interpreting
    /// the text. On success the transport has taken exactly that line more;
    /// on failure it has taken nothing, and in particular it does not retry.
    fn send(&mut self, line: &str) -> (r: Result<(), SendError>)
        ensures
            r is Ok ==> final(self).taken() == old(self).taken().push(line@),
            r is Err ==> final(self).taken() == old(self).taken(),
    ;
}

/// A transport that keeps every line it is given, in order, instead of
/// sending it anywhere. It never fails.
pub struct MemTransport {
    lines: Vec<String>,
}

impl View for MemTransport {
    type V = Seq<Seq<char>>;

    closed spec fn view(&self) -> Seq<Seq<char>> {
        self.lines.deep_view()
    }
}

impl MemTransport {
    /// Returns an empty in-memory transport.
    pub fn new() -> (t: MemTransport)
        ensures
            t@ == Seq::<Seq<char>>::empty(),
    {
        let t = MemTransport { lines: Vec::new() };
        proof {
            assert(t@ =~= Seq::<Seq<char>>::empty());
        }
        t
    }

    /// The lines taken so far, oldest first.
    pub fn lines(&self) -> (r: &Vec<String>)
        ensures
            r.deep_view() == self@,
    {
        &self.lines
    }
}

impl Transport for MemTransport {
    open spec fn taken(&self) -> Seq<Seq<char>> {
        self.view()
    }

    fn send(&mut self, line: &str) -> (r: Result<(), SendError>) {
        self.lines.push(line.to_owned());
        proof {
            assert(self.taken() =~= old(self).taken().push(line@));
        }
        Ok(())
    }
}

} // verus!
