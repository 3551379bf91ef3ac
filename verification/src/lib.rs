//! A mock file: a named byte buffer behind a two-state open/close machine.
//!
//! A `File` holds an immutable name and payload together with a state that is
//! either `Open` or `Closed`. The `open` and `close` transitions fail at
//! random (a fair coin decides), and reading is allowed only while the file
//! is open. There is no real I/O anywhere: the payload lives in memory.

use vstd::prelude::*;

verus! {

/// The two states a `File` can be in. Every file starts out `Closed`.
#[derive(Clone, Copy, Debug, PartialEq, Eq, Structural)]
pub enum FileState {
    Open,
    Closed,
}

/// The abstract value of a `File`: its name and payload as sequences,
/// plus its current state.
pub ghost struct FileView {
    pub name: Seq<char>,
    pub data: Seq<u8>,
    pub state: FileState,
}

/// The ways an operation on a `File` can fail.
#[derive(Clone, Copy, Debug, PartialEq, Eq, Structural)]
pub enum ErrorKind {
    /// The `open` transition lost its coin flip.
    OpenError,
    /// The `close` transition lost its coin flip.
    CloseError,
    /// A read was attempted while the file was not open.
    NotOpenError,
}

impl ErrorKind {
    /// The descriptive message that belongs to this error.
    pub fn message(&self) -> (r: String)
        ensures
            *self == ErrorKind::OpenError ==> r@ == "file open error"@,
            *self == ErrorKind::CloseError ==> r@ == "file close error"@,
            *self == ErrorKind::NotOpenError ==> r@ == "File must be open for reading"@,
    {
        match self {
            ErrorKind::OpenError => String::from_str("file open error"),
            ErrorKind::CloseError => String::from_str("file close error"),
            ErrorKind::NotOpenError => String::from_str("File must be open for reading"),
        }
    }
}

/// A named in-memory byte buffer gated by an open/close state machine.
#[derive(Debug)]
pub struct File {
    name: String,
    data: Vec<u8>,
    state: FileState,
}

impl View for File {
    type V = FileView;

    closed spec fn view(&self) -> FileView {
        FileView { name: self.name@, data: self.data@, state: self.state }
    }
}

impl File {
    /// Creates a file with the given name, an empty payload, and state `Closed`.
    pub fn new(name: &str) -> (f: File)
        ensures
            f@.name == name@,
            f@.data == Seq::<u8>::empty(),
            f@.state == FileState::Closed,
    {
        File {
            name: String::from_str(name),
            data: Vec::new(),
            state: FileState::Closed,
        }
    }

    /// Creates a file with the given name and a copy of the given payload,
    /// in state `Closed`.
    pub fn new_with_data(name: &str, data: &Vec<u8>) -> (f: File)
        ensures
            f@.name == name@,
            f@.data == data@,
            f@.state == FileState::Closed,
    {
        let mut f = File::new(name);
        f.data = copy_bytes(data);
        f
    }

    /// Returns a copy of the file's name.
    pub fn name(&self) -> (r: String)
        ensures
            r@ == self@.name,
    {
        self.name.clone()
    }

    /// Returns the payload length in bytes, whatever the state.
    pub fn len(&self) -> (r: usize)
        ensures
            r == self@.data.len(),
    {
        self.data.len()
    }
}

impl File {
    /// Applies the outcome of an `open` attempt. On failure (`fail` is true)
    /// the error is `OpenError` and the state is forced to `Closed`; on
    /// success the state becomes `Open` and the result is `Ok(true)`. The
    /// name and payload never change.
    pub fn open_with(&mut self, fail: bool) -> (r: Result<bool, ErrorKind>)
        ensures
            final(self)@.name == old(self)@.name,
            final(self)@.data == old(self)@.data,
            fail ==> r == Err::<bool, ErrorKind>(ErrorKind::OpenError)
                && final(self)@.state == FileState::Closed,
            !fail ==> r == Ok::<bool, ErrorKind>(true)
                && final(self)@.state == FileState::Open,
    {
        if fail {
            self.state = FileState::Closed;
            Err(ErrorKind::OpenError)
        } else {
            self.state = FileState::Open;
            Ok(true)
        }
    }

    /// Attempts to open the file. A fair coin decides: the attempt either
    /// succeeds, leaving the file `Open`, or fails with `OpenError`, forcing
    /// the file `Closed`. The name and payload never change.
    pub fn open(&mut self) -> (r: Result<bool, ErrorKind>)
        ensures
            final(self)@.name == old(self)@.name,
            final(self)@.data == old(self)@.data,
            r is Ok ==> r == Ok::<bool, ErrorKind>(true)
                && final(self)@.state == FileState::Open,
            r is Err ==> r == Err::<bool, ErrorKind>(ErrorKind::OpenError)
                && final(self)@.state == FileState::Closed,
    {
        let fail = coin_flip();
        self.open_with(fail)
    }

    /// Applies the outcome of a `close` attempt. On failure (`fail` is true)
    /// the error is `CloseError` and the state is forced to `Open`; on
    /// success the state becomes `Closed` and the result is `Ok(true)`. The
    /// name and payload never change.
    pub fn close_with(&mut self, fail: bool) -> (r: Result<bool, ErrorKind>)
        ensures
            final(self)@.name == old(self)@.name,
            final(self)@.data == old(self)@.data,
            fail ==> r == Err::<bool, ErrorKind>(ErrorKind::CloseError)
                && final(self)@.state == FileState::Open,
            !fail ==> r == Ok::<bool, ErrorKind>(true)
                && final(self)@.state == FileState::Closed,
    {
        if fail {
            self.state = FileState::Open;
            Err(ErrorKind::CloseError)
        } else {
            self.state = FileState::Closed;
            Ok(true)
        }
    }

    /// Attempts to close the file. A fair coin decides: the attempt either
    /// succeeds, leaving the file `Closed`, or fails with `CloseError`,
    /// forcing the file `Open`. The name and payload never change.
    pub fn close(&mut self) -> (r: Result<bool, ErrorKind>)
        ensures
            final(self)@.name == old(self)@.name,
            final(self)@.data == old(self)@.data,
            r is Ok ==> r == Ok::<bool, ErrorKind>(true)
                && final(self)@.state == FileState::Closed,
            r is Err ==> r == Err::<bool, ErrorKind>(ErrorKind::CloseError)
                && final(self)@.state == FileState::Open,
    {
        let fail = coin_flip();
        self.close_with(fail)
    }
}

/// Reading from a source that may refuse: bytes are appended to `save_to`
/// only when the source is ready, and the destination's prior contents are
/// always preserved.
pub trait Read {
    /// Whether a read would succeed right now.
    spec fn read_ready(&self) -> bool;

    /// The bytes a successful read appends.
    spec fn read_data(&self) -> Seq<u8>;

    /// Appends a full copy of the source's bytes to `save_to` and returns
    /// how many bytes were appended; fails with `NotOpenError`, leaving
    /// `save_to` untouched, when the source is not ready.
    fn read(&self, save_to: &mut Vec<u8>) -> (r: Result<usize, ErrorKind>)
        ensures
            r is Ok <==> self.read_ready(),
            r is Ok ==> r == Ok::<usize, ErrorKind>(self.read_data().len() as usize)
                && final(save_to)@ == old(save_to)@ + self.read_data(),
            r is Err ==> r == Err::<usize, ErrorKind>(ErrorKind::NotOpenError)
                && final(save_to)@ == old(save_to)@;
}

impl Read for File {
    open spec fn read_ready(&self) -> bool {
        self@.state == FileState::Open
    }

    open spec fn read_data(&self) -> Seq<u8> {
        self@.data
    }

    fn read(&self, save_to: &mut Vec<u8>) -> (r: Result<usize, ErrorKind>) {
        match self.state {
            FileState::Open => {}
            FileState::Closed => {
                return Err(ErrorKind::NotOpenError);
            }
        }
        let read_length = self.data.len();
        save_to.reserve(read_length);
        let mut i: usize = 0;
        while i < read_length
            invariant
                i <= read_length,
                read_length == self@.data.len(),
                save_to@ == old(save_to)@ + self@.data.subrange(0, i as int),
            decreases read_length - i,
        {
            save_to.push(self.data[i]);
            i = i + 1;
        }
        assert(save_to@ =~= old(save_to)@ + self@.data);
        Ok(read_length)
    }
}

/// The token under which a state is rendered: `OPEN` for `Open` and the
/// distinct literal `CLOSE` (not `Closed`) for `Closed`.
pub open spec fn state_label(s: FileState) -> Seq<char> {
    if s == FileState::Open {
        "OPEN"@
    } else {
        "CLOSE"@
    }
}

impl File {
    /// Renders the file as `<{name}{STATE}>`, where `STATE` is the literal
    /// token `OPEN` or `CLOSE`.
    pub fn display_string(&self) -> (r: String)
        ensures
            r@ == "<"@ + self@.name + state_label(self@.state) + ">"@,
    {
        let mut out = String::from_str("<");
        out.append(self.name.as_str());
        match self.state {
            FileState::Open => out.append("OPEN"),
            FileState::Closed => out.append("CLOSE"),
        }
        out.append(">");
        out
    }
}

/// Relies on `rand::random::<bool>`: draws one fair random boolean. Nothing
/// is promised of which value comes back.
#[verifier::external_body]
fn coin_flip() -> bool {
    rand::random::<bool>()
}

/// Returns a fresh vector holding the same bytes as `data`.
fn copy_bytes(data: &Vec<u8>) -> (r: Vec<u8>)
    ensures
        r@ == data@,
{
    let mut r: Vec<u8> = Vec::new();
    let mut i: usize = 0;
    while i < data.len()
        invariant
            i <= data@.len(),
            r@ == data@.subrange(0, i as int),
        decreases data@.len() - i,
    {
        r.push(data[i]);
        i = i + 1;
    }
    assert(r@ =~= data@);
    r
}

} // verus!
