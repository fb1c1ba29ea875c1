//! The vocabulary between a driver and whatever runs it.
//!
//! A driver never touches a bus or a clock. It asks for one [`Action`] at a
//! time and is told how that action ended by a [`Completion`]. One action is
//! one whole bus transaction or one delay, so a runner that performs each
//! transaction under the bus lock keeps the transactions of several drivers
//! apart on the wire.

use vstd::prelude::*;

verus! {

/// Any failure of a bus transaction. The drivers do not tell one cause from another.
#[derive(Clone, Copy, Debug, PartialEq, Eq, Structural)]
pub struct BusError;

/// What a driver asks its runner to do next.
#[derive(Debug, PartialEq, Eq)]
pub enum Action {
    /// Write `bytes` to the device at `addr`.
    Write { addr: u8, bytes: Vec<u8> },
    /// Read `len` bytes from the device at `addr` into a zeroed buffer.
    Read { addr: u8, len: usize },
    /// Write `bytes` to the device at `addr`, then read `len` bytes into a
    /// zeroed buffer, as one transaction.
    WriteRead { addr: u8, bytes: Vec<u8>, len: usize },
    /// Let `millis` milliseconds pass without using the bus.
    Delay { millis: u64 },
}

/// An [`Action`] as a mathematical value.
pub ghost enum ActionView {
    Write { addr: u8, bytes: Seq<u8> },
    Read { addr: u8, len: nat },
    WriteRead { addr: u8, bytes: Seq<u8>, len: nat },
    Delay { millis: nat },
}

impl ActionView {
    /// The address of the device that the action is a transaction with. A
    /// delay is a transaction with none.
    pub open spec fn target(self) -> Option<u8> {
        match self {
            ActionView::Write { addr, .. } => Some(addr),
            ActionView::Read { addr, .. } => Some(addr),
            ActionView::WriteRead { addr, .. } => Some(addr),
            ActionView::Delay { .. } => None,
        }
    }
}

impl View for Action {
    type V = ActionView;

    open spec fn view(&self) -> ActionView {
        match *self {
            Action::Write { addr, bytes } => ActionView::Write { addr, bytes: bytes@ },
            Action::Read { addr, len } => ActionView::Read { addr, len: len as nat },
            Action::WriteRead { addr, bytes, len } => ActionView::WriteRead {
                addr,
                bytes: bytes@,
                len: len as nat,
            },
            Action::Delay { millis } => ActionView::Delay { millis: millis as nat },
        }
    }
}

/// How the last [`Action`] ended.
///
/// `data` is the read buffer as the transaction left it, whether or not the
/// transaction succeeded. It is empty for a write and for a delay, and a
/// delay always ends with `Ok`.
#[derive(Debug, PartialEq, Eq)]
pub struct Completion {
    pub result: Result<(), BusError>,
    pub data: Vec<u8>,
}

/// A [`Completion`] as a mathematical value.
pub ghost struct CompletionView {
    pub ok: bool,
    pub data: Seq<u8>,
}

impl View for Completion {
    type V = CompletionView;

    open spec fn view(&self) -> CompletionView {
        CompletionView { ok: self.result is Ok, data: self.data@ }
    }
}

/// Byte `i` of a read buffer. A byte that the buffer lacks reads as zero,
/// the value every read buffer starts out with.
pub open spec fn byte_at(data: Seq<u8>, i: int) -> u8 {
    if 0 <= i < data.len() {
        data[i]
    } else {
        0
    }
}

/// The one line that tells of a failure, if there was one.
pub open spec fn unless<R>(ok: bool, failure: R) -> Seq<R> {
    if ok {
        Seq::empty()
    } else {
        seq![failure]
    }
}

impl Completion {
    /// The completion of a delay, or of a write that succeeded.
    pub fn done() -> (c: Completion)
        ensures
            c@ == (CompletionView { ok: true, data: Seq::empty() }),
    {
        Completion { result: Ok(()), data: Vec::new() }
    }

    /// The completion of a write that failed.
    pub fn failed() -> (c: Completion)
        ensures
            c@ == (CompletionView { ok: false, data: Seq::empty() }),
    {
        Completion { result: Err(BusError), data: Vec::new() }
    }

    /// The completion of a transaction that read into `data`.
    pub fn read(result: Result<(), BusError>, data: Vec<u8>) -> (c: Completion)
        ensures
            c@ == (CompletionView { ok: result is Ok, data: data@ }),
    {
        Completion { result, data }
    }

    /// Whether the action succeeded.
    pub fn is_ok(&self) -> (ok: bool)
        ensures
            ok == self@.ok,
    {
        self.result.is_ok()
    }

    /// The line `failure` if the action failed, and no line if it succeeded.
    pub fn unless_ok<R>(&self, failure: R) -> (lines: Vec<R>)
        ensures
            lines@ == unless(self@.ok, failure),
    {
        let mut lines: Vec<R> = Vec::new();
        if !self.is_ok() {
            lines.push(failure);
        }
        lines
    }

    /// Byte `i` of the read buffer, zero where the buffer has no such byte.
    pub fn byte(&self, i: usize) -> (b: u8)
        ensures
            b == byte_at(self@.data, i as int),
    {
        if i < self.data.len() {
            self.data[i]
        } else {
            0
        }
    }
}

/// What one call of a driver produces: the lines to report, in order, and the
/// action to perform before the driver is called again.
#[derive(Debug, PartialEq, Eq)]
pub struct Step<R> {
    pub reports: Vec<R>,
    pub action: Action,
}

} // verus!
