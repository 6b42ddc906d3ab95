//! Creation of an interface as a sequence of steps. The host performs each
//! action that `Creation::action` names and reports the outcome back with
//! `Creation::advance`. A failure after a descriptor was opened closes every
//! descriptor opened so far, once each, before the error is reported.
use vstd::prelude::*;
use crate::abi::{FlagsRequest, IndexRequest, IFNAMSIZ};
use crate::iface::{attach_flags, attach_flags_spec, TunTap, TunTapError, TunTapType};
use crate::name::{
    is_name_of, is_terminated, lemma_padded_name, name_buffer, nul_free, padded, terminated,
};

verus! {

/// What the host is asked to do next.
#[derive(Clone, Copy, Debug)]
pub enum Action {
    /// Open the device path for reading and writing.
    OpenDevice,
    /// Issue the attach request on the device descriptor.
    Attach(FlagsRequest),
    /// Open the datagram socket that serves as a configuration handle.
    OpenSocket,
    /// Issue the index lookup on the socket.
    ResolveIndex(IndexRequest),
    /// Close the socket.
    CloseSocket,
    /// Close the device descriptor.
    CloseDevice,
    /// Nothing is left to do: take the outcome with `Creation::finish`.
    Finish,
}

/// The outcome of an action, as the host reports it.
#[derive(Clone, Copy, Debug)]
pub enum Reply {
    /// The action succeeded and returns nothing.
    Done,
    /// The attach request succeeded; this is the name buffer the kernel answered.
    Attached([u8; 16]),
    /// The index lookup succeeded with this index.
    Index(i32),
    /// The action failed with this operating-system error code.
    Failed(i32),
}

/// Where a creation stands: the step whose outcome it awaits, or the end.
#[derive(Clone, Copy, Debug, PartialEq, Eq, Structural)]
pub enum Stage {
    OpenDevice,
    Attach,
    OpenSocket,
    Resolve,
    CloseSocket,
    CloseDevice,
    Finished,
}

/// An interface under construction.
pub struct Creation {
    kind: TunTapType,
    name: [u8; 16],
    stage: Stage,
    device_open: bool,
    socket_open: bool,
    index: i32,
    error: Option<TunTapError>,
}

impl Creation {
    pub closed spec fn stage_spec(&self) -> Stage {
        self.stage
    }

    pub closed spec fn kind_spec(&self) -> TunTapType {
        self.kind
    }

    /// The name buffer: the requested one until the kernel answers, then the kernel's.
    pub closed spec fn name_spec(&self) -> Seq<u8> {
        self.name@
    }

    /// Whether the device descriptor is open and owned by this creation.
    pub closed spec fn device_open(&self) -> bool {
        self.device_open
    }

    /// Whether the socket is open and owned by this creation.
    pub closed spec fn socket_open(&self) -> bool {
        self.socket_open
    }

    pub closed spec fn index_spec(&self) -> i32 {
        self.index
    }

    /// The error that ends this creation, once one has occurred.
    pub closed spec fn error_spec(&self) -> Option<TunTapError> {
        self.error
    }

    /// Which descriptors are open, and whether an error occurred, at each stage.
    pub open spec fn wf(&self) -> bool {
        let (d, s, e) = (self.device_open(), self.socket_open(), self.error_spec());
        &&& self.name_spec().len() == IFNAMSIZ
        &&& terminated(self.name_spec())
        &&& match self.stage_spec() {
            Stage::OpenDevice => !d && !s && e is None,
            Stage::Attach => d && !s && e is None,
            Stage::OpenSocket => d && !s && e is None,
            Stage::Resolve => d && s && e is None,
            Stage::CloseSocket => d && s && e is Some,
            Stage::CloseDevice => d && !s && e is Some,
            Stage::Finished => (e is None && d && s) || (e is Some && !d && !s),
        }
    }

    /// Whether `a` is the action that belongs to the current stage, with the
    /// requests built from the current name buffer and kind.
    pub open spec fn is_action(&self, a: Action) -> bool {
        match self.stage_spec() {
            Stage::OpenDevice => a is OpenDevice,
            Stage::Attach => a matches Action::Attach(q) && q.name@ == self.name_spec()
                && q.flags == attach_flags_spec(self.kind_spec()),
            Stage::OpenSocket => a is OpenSocket,
            Stage::Resolve => a matches Action::ResolveIndex(q) && q.name@ == self.name_spec()
                && q.index == -1,
            Stage::CloseSocket => a is CloseSocket,
            Stage::CloseDevice => a is CloseDevice,
            Stage::Finished => a is Finish,
        }
    }

    /// Whether `reply` is a possible outcome of the current stage's action.
    pub open spec fn accepts_spec(&self, reply: Reply) -> bool {
        match self.stage_spec() {
            Stage::Attach => reply is Attached || reply is Failed,
            Stage::Resolve => reply is Index || reply is Failed,
            Stage::Finished => false,
            _ => reply is Done || reply is Failed,
        }
    }

    /// Steps left before the creation is finished.
    pub open spec fn remaining(&self) -> nat {
        match self.stage_spec() {
            Stage::OpenDevice => 6,
            Stage::Attach => 5,
            Stage::OpenSocket => 4,
            Stage::Resolve => 3,
            Stage::CloseSocket => 2,
            Stage::CloseDevice => 1,
            Stage::Finished => 0,
        }
    }

    /// How `post` follows from `pre` when the host reports `reply`.
    pub open spec fn advanced(pre: Creation, post: Creation, reply: Reply) -> bool {
        let unchanged_but = |stage: Stage, d: bool, s: bool, e: Option<TunTapError>|
            post.stage_spec() == stage && post.device_open() == d && post.socket_open() == s
                && post.error_spec() == e && post.name_spec() == pre.name_spec()
                && post.index_spec() == pre.index_spec();
        let fail_to = |stage: Stage, e: TunTapError|
            unchanged_but(stage, pre.device_open(), pre.socket_open(), Some(e));
        &&& post.kind_spec() == pre.kind_spec()
        &&& match (pre.stage_spec(), reply) {
            (Stage::OpenDevice, Reply::Done) => unchanged_but(Stage::Attach, true, false, None),
            (Stage::OpenDevice, Reply::Failed(c)) => fail_to(
                Stage::Finished,
                TunTapError::DeviceOpenFailed(c),
            ),
            (Stage::Attach, Reply::Attached(b)) => if terminated(b@) {
                post.stage_spec() == Stage::OpenSocket && post.device_open() && !post.socket_open()
                    && post.error_spec() is None && post.name_spec() == b@
                    && post.index_spec() == pre.index_spec()
            } else {
                fail_to(Stage::CloseDevice, TunTapError::NameNotTerminated)
            },
            (Stage::Attach, Reply::Failed(c)) => fail_to(
                Stage::CloseDevice,
                TunTapError::AttachFailed(c),
            ),
            (Stage::OpenSocket, Reply::Done) => unchanged_but(Stage::Resolve, true, true, None),
            (Stage::OpenSocket, Reply::Failed(c)) => fail_to(
                Stage::CloseDevice,
                TunTapError::SocketCreateFailed(c),
            ),
            (Stage::Resolve, Reply::Index(i)) => post.stage_spec() == Stage::Finished
                && post.device_open() && post.socket_open() && post.error_spec() is None
                && post.name_spec() == pre.name_spec() && post.index_spec() == i,
            (Stage::Resolve, Reply::Failed(c)) => fail_to(
                Stage::CloseSocket,
                TunTapError::IndexResolveFailed(c),
            ),
            (Stage::CloseSocket, _) => unchanged_but(
                Stage::CloseDevice,
                true,
                false,
                pre.error_spec(),
            ),
            (Stage::CloseDevice, _) => unchanged_but(
                Stage::Finished,
                false,
                false,
                pre.error_spec(),
            ),
            _ => false,
        }
    }

    /// The action the host is to perform next.
    pub fn action(&self) -> (r: Action)
        ensures
            self.is_action(r),
    {
        match self.stage {
            Stage::OpenDevice => Action::OpenDevice,
            Stage::Attach => Action::Attach(
                FlagsRequest { name: self.name, flags: attach_flags(self.kind) },
            ),
            Stage::OpenSocket => Action::OpenSocket,
            Stage::Resolve => Action::ResolveIndex(IndexRequest { name: self.name, index: -1 }),
            Stage::CloseSocket => Action::CloseSocket,
            Stage::CloseDevice => Action::CloseDevice,
            Stage::Finished => Action::Finish,
        }
    }

    /// Whether `reply` is a possible outcome of the pending action.
    pub fn accepts(&self, reply: &Reply) -> (r: bool)
        ensures
            r == self.accepts_spec(*reply),
    {
        match self.stage {
            Stage::Attach => matches!(reply, Reply::Attached(_) | Reply::Failed(_)),
            Stage::Resolve => matches!(reply, Reply::Index(_) | Reply::Failed(_)),
            Stage::Finished => false,
            _ => matches!(reply, Reply::Done | Reply::Failed(_)),
        }
    }

    /// Whether nothing is left to do.
    pub fn is_finished(&self) -> (r: bool)
        ensures
            r == (self.stage_spec() == Stage::Finished),
    {
        matches!(self.stage, Stage::Finished)
    }

    /// Takes the outcome of the pending action into account. A close is
    /// taken as done whatever it reports: the descriptor is gone either way.
    pub fn advance(&mut self, reply: Reply)
        requires
            old(self).wf(),
            old(self).accepts_spec(reply),
        ensures
            final(self).wf(),
            Creation::advanced(*old(self), *final(self), reply),
            final(self).remaining() < old(self).remaining(),
    {
        match (self.stage, reply) {
            (Stage::OpenDevice, Reply::Failed(c)) => self.fail(TunTapError::DeviceOpenFailed(c)),
            (Stage::OpenDevice, _) => {
                self.device_open = true;
                self.stage = Stage::Attach;
            },
            (Stage::Attach, Reply::Attached(b)) => {
                if is_terminated(&b) {
                    self.name = b;
                    self.stage = Stage::OpenSocket;
                } else {
                    self.fail(TunTapError::NameNotTerminated);
                }
            },
            (Stage::Attach, Reply::Failed(c)) => self.fail(TunTapError::AttachFailed(c)),
            (Stage::OpenSocket, Reply::Failed(c)) => self.fail(TunTapError::SocketCreateFailed(c)),
            (Stage::OpenSocket, _) => {
                self.socket_open = true;
                self.stage = Stage::Resolve;
            },
            (Stage::Resolve, Reply::Index(i)) => {
                self.index = i;
                self.stage = Stage::Finished;
            },
            (Stage::Resolve, Reply::Failed(c)) => self.fail(TunTapError::IndexResolveFailed(c)),
            (Stage::CloseSocket, _) => {
                self.socket_open = false;
                self.stage = Stage::CloseDevice;
            },
            (Stage::CloseDevice, _) => {
                self.device_open = false;
                self.stage = Stage::Finished;
            },
            _ => {},
        }
    }

    /// The created interface, or the error that stopped its creation; in the
    /// latter case every descriptor opened on the way has been closed.
    pub fn finish(self) -> (r: Result<TunTap, TunTapError>)
        requires
            self.wf(),
            self.stage_spec() == Stage::Finished,
        ensures
            self.error_spec() matches Some(e) ==> r == Err::<TunTap, TunTapError>(e)
                && !self.device_open() && !self.socket_open(),
            self.error_spec() is None ==> (r matches Ok(t) && t.wf()
                && t.kind_spec() == self.kind_spec() && t.name_buf() == self.name_spec()
                && t.index_spec() == self.index_spec()),
    {
        match self.error {
            Some(e) => Err(e),
            None => Ok(TunTap::new(self.kind, self.name, self.index)),
        }
    }

    fn fail(&mut self, e: TunTapError)
        requires
            old(self).error_spec() is None,
        ensures
            final(self).error_spec() == Some(e),
            final(self).stage_spec() == if old(self).socket_open() {
                Stage::CloseSocket
            } else if old(self).device_open() {
                Stage::CloseDevice
            } else {
                Stage::Finished
            },
            final(self).device_open() == old(self).device_open(),
            final(self).socket_open() == old(self).socket_open(),
            final(self).name_spec() == old(self).name_spec(),
            final(self).kind_spec() == old(self).kind_spec(),
            final(self).index_spec() == old(self).index_spec(),
    {
        self.error = Some(e);
        self.stage = if self.socket_open {
            Stage::CloseSocket
        } else if self.device_open {
            Stage::CloseDevice
        } else {
            Stage::Finished
        };
    }
}

impl TunTap {
    /// Starts creating an interface of `typ` and lets the kernel choose its name.
    pub fn create(typ: TunTapType) -> (r: Creation)
        ensures
            r.wf(),
            r.stage_spec() == Stage::OpenDevice,
            r.kind_spec() == typ,
            r.name_spec() == padded(Seq::empty()),
    {
        let name = [0u8; 16];
        assert(name@ =~= padded(Seq::empty()));
        proof {
            lemma_padded_name(Seq::empty());
        }
        Creation {
            kind: typ,
            name,
            stage: Stage::OpenDevice,
            device_open: false,
            socket_open: false,
            index: -1,
            error: None,
        }
    }

    /// Starts creating an interface of `typ` named `name` (empty: let the kernel
    /// choose). Fails with `NameTooLong`, before anything is opened, when the
    /// name and its terminator do not fit in `IFNAMSIZ` bytes.
    pub fn create_named(typ: TunTapType, name: &[u8]) -> (r: Result<Creation, TunTapError>)
        requires
            nul_free(name@),
        ensures
            r is Ok <==> name@.len() < IFNAMSIZ,
            r is Err ==> r == Err::<Creation, TunTapError>(TunTapError::NameTooLong),
            r matches Ok(c) ==> {
                &&& c.wf()
                &&& c.stage_spec() == Stage::OpenDevice
                &&& c.kind_spec() == typ
                &&& c.name_spec() == padded(name@)
            },
    {
        match name_buffer(name) {
            None => Err(TunTapError::NameTooLong),
            Some(buf) => {
                proof {
                    lemma_padded_name(name@);
                }
                Ok(
                    Creation {
                        kind: typ,
                        name: buf,
                        stage: Stage::OpenDevice,
                        device_open: false,
                        socket_open: false,
                        index: -1,
                        error: None,
                    },
                )
            },
        }
    }
}

/// Each descriptor is released exactly once. A close is asked for only while
/// its descriptor is open, and leaves it closed; a descriptor is opened only by
/// its own open step, and never again once an error has occurred; and a
/// creation that finishes with an error holds no descriptor, while one that
/// succeeds holds both, to be handed to the interface. Every step brings the
/// end closer, so the closes do come.
pub proof fn lemma_descriptors_released(pre: Creation, post: Creation, reply: Reply)
    requires
        pre.wf(),
        pre.accepts_spec(reply),
        post.wf(),
        Creation::advanced(pre, post, reply),
    ensures
        pre.is_action(Action::CloseSocket) ==> pre.socket_open() && !post.socket_open(),
        pre.is_action(Action::CloseDevice) ==> pre.device_open() && !post.device_open(),
        post.device_open() && !pre.device_open() ==> pre.is_action(Action::OpenDevice),
        post.socket_open() && !pre.socket_open() ==> pre.is_action(Action::OpenSocket),
        pre.error_spec() is Some ==> (post.device_open() ==> pre.device_open()) && (
        post.socket_open() ==> pre.socket_open()),
        post.stage_spec() == Stage::Finished ==> (post.error_spec() is Some <==> (
        !post.device_open() && !post.socket_open())),
        post.remaining() < pre.remaining(),
{
}

/// A name of at most `IFNAMSIZ - 1` bytes that the kernel confirms unchanged
/// is accepted, and is then exactly the name the interface reports.
pub proof fn lemma_requested_name_kept(n: Seq<u8>, pre: Creation, post: Creation, b: [u8; 16])
    requires
        n.len() < IFNAMSIZ,
        nul_free(n),
        pre.wf(),
        pre.stage_spec() == Stage::Attach,
        pre.name_spec() == padded(n),
        b@ == padded(n),
        Creation::advanced(pre, post, Reply::Attached(b)),
    ensures
        post.stage_spec() == Stage::OpenSocket,
        post.error_spec() is None,
        post.name_spec() == padded(n),
        forall|m: Seq<u8>| is_name_of(post.name_spec(), m) <==> m == n,
{
    lemma_padded_name(n);
}

} // verus!
