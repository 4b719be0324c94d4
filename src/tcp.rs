//! Socket handles as the operations see them: a listening socket, and the
//! read and write halves of one connected socket, each naming its
//! descriptor. Closing is decided by [`Halves`]: a half shuts down its own
//! direction when it is released, and the descriptor is closed when the
//! second half goes.

use vstd::prelude::*;

verus! {

/// A listening TCP socket.
#[derive(Clone, Copy, PartialEq, Eq, Structural, Debug)]
pub struct Listener {
    pub fd: i32,
}

/// The read half of a connected TCP socket.
#[derive(PartialEq, Eq, Structural, Debug)]
pub struct Reader {
    pub fd: i32,
}

/// The write half of a connected TCP socket.
#[derive(PartialEq, Eq, Structural, Debug)]
pub struct Writer {
    pub fd: i32,
}

/// Splits a connected socket into its two halves.
pub fn split(fd: i32) -> (r: (Reader, Writer))
    ensures
        r.0.fd == fd,
        r.1.fd == fd,
{
    (Reader { fd }, Writer { fd })
}

/// An IPv4 socket address, the address in host byte order.
#[derive(Clone, Copy, PartialEq, Eq, Structural, Debug)]
pub struct SocketAddrV4 {
    pub ip: u32,
    pub port: u16,
}

/// One direction of a connected socket.
#[derive(Clone, Copy, PartialEq, Eq, Structural, Debug)]
pub enum Half {
    Read,
    Write,
}

/// What becomes of the descriptor when a half is released.
#[derive(Clone, Copy, PartialEq, Eq, Structural, Debug)]
pub enum Teardown {
    /// Shut down this direction only; the other half still uses the socket.
    Shutdown(Half),
    /// Shut down this direction and close the descriptor: it was the last half.
    ShutdownAndClose(Half),
}

/// Which halves of one split socket are still held.
#[derive(Clone, Copy, PartialEq, Eq, Structural, Debug)]
pub struct Halves {
    pub read: bool,
    pub write: bool,
}

impl Halves {
    pub open spec fn held(&self, h: Half) -> bool {
        match h {
            Half::Read => self.read,
            Half::Write => self.write,
        }
    }

    pub open spec fn without(&self, h: Half) -> Halves {
        match h {
            Half::Read => Halves { read: false, write: self.write },
            Half::Write => Halves { read: self.read, write: false },
        }
    }

    pub open spec fn other(h: Half) -> Half {
        match h {
            Half::Read => Half::Write,
            Half::Write => Half::Read,
        }
    }

    /// Both halves, right after a split.
    pub fn new() -> (r: Halves)
        ensures
            r.read && r.write,
    {
        Halves { read: true, write: true }
    }

    pub fn is_closed(&self) -> (r: bool)
        ensures
            r == (!self.read && !self.write),
    {
        !self.read && !self.write
    }

    /// Releases half `h`, which must still be held: its direction is shut
    /// down, and the descriptor is closed only if the other half is gone too.
    pub fn release(&mut self, h: Half) -> (r: Teardown)
        requires
            old(self).held(h),
        ensures
            *final(self) == old(self).without(h),
            r == (if old(self).held(Halves::other(h)) {
                Teardown::Shutdown(h)
            } else {
                Teardown::ShutdownAndClose(h)
            }),
    {
        let other_held = match h {
            Half::Read => {
                self.read = false;
                self.write
            },
            Half::Write => {
                self.write = false;
                self.read
            },
        };
        if other_held {
            Teardown::Shutdown(h)
        } else {
            Teardown::ShutdownAndClose(h)
        }
    }
}

} // verus!
