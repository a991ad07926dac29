//! The serial console: what the guest has printed, and the connection that it
//! comes from.
use vstd::prelude::*;

verus! {

/// Upper bound on buffered serial output; older bytes are dropped.
pub const SERIAL_BUFFER_LIMIT: usize = 256 * 1024;

/// State of the persistent background connection to the serial socket.
///
/// `W` is the write half of the connection.
pub struct SerialState<W> {
    /// Output bytes received since the buffer was last cleared.
    buffer: Vec<u8>,
    /// Whether the background reader currently holds a connection.
    connected: bool,
    /// Write half of the connection, owned while connected.
    writer: Option<W>,
}

pub struct SerialView<W> {
    pub buffer: Seq<u8>,
    pub connected: bool,
    pub writer: Option<W>,
}

impl<W> View for SerialState<W> {
    type V = SerialView<W>;

    closed spec fn view(&self) -> SerialView<W> {
        SerialView { buffer: self.buffer@, connected: self.connected, writer: self.writer }
    }
}

impl<W> SerialView<W> {
    /// The buffer keeps to its bound, and a writer is there while connected.
    pub open spec fn wf(self) -> bool {
        &&& self.buffer.len() <= SERIAL_BUFFER_LIMIT
        &&& self.connected == (self.writer is Some)
    }

    /// The state with another buffer.
    pub open spec fn with_buffer(self, buffer: Seq<u8>) -> SerialView<W> {
        SerialView { buffer, connected: self.connected, writer: self.writer }
    }

    /// The state with a new connection.
    pub open spec fn with_connection(self, writer: W) -> SerialView<W> {
        SerialView { buffer: self.buffer, connected: true, writer: Some(writer) }
    }

    /// The state without a connection.
    pub open spec fn without_connection(self) -> SerialView<W> {
        SerialView { buffer: self.buffer, connected: false, writer: None }
    }

    /// There is neither a connection nor anything left to report.
    pub open spec fn is_idle(self) -> bool {
        !self.connected && self.buffer.len() == 0
    }
}

/// The part of `bytes` that a buffer keeps: its newest bytes.
pub open spec fn newest(bytes: Seq<u8>) -> Seq<u8> {
    if bytes.len() > SERIAL_BUFFER_LIMIT {
        bytes.skip(bytes.len() - SERIAL_BUFFER_LIMIT)
    } else {
        bytes
    }
}

/// What a read from the serial socket makes of the state. A read that fails or
/// finds the end of the stream ends the connection and keeps the buffer.
pub open spec fn after_read<W>(state: SerialView<W>, read: Option<Seq<u8>>) -> SerialView<W> {
    match read {
        Some(chunk) => if chunk.len() > 0 {
            state.with_buffer(newest(state.buffer + chunk))
        } else {
            state.without_connection()
        },
        None => state.without_connection(),
    }
}

/// The output to return for the text of a buffer: nothing while `wait_for` is
/// still to appear, else the end of the text that `max_chars` bytes hold.
pub open spec fn output_of(
    text: Seq<char>,
    wait_for: Option<Seq<char>>,
    max_chars: usize,
) -> Option<Seq<char>> {
    if wait_for is Some && !crate::text::occurs_in(wait_for->0, text) {
        None
    } else {
        Some(crate::text::tail_of(text, max_chars as nat))
    }
}

/// The characters of an optional string slice.
pub open spec fn option_str(value: Option<&str>) -> Option<Seq<char>> {
    match value {
        Some(text) => Some(text@),
        None => None,
    }
}

/// Choose the output to return from the text of a buffer.
pub fn select_output(text: &str, wait_for: Option<&str>, max_chars: usize) -> (output: Option<
    String,
>)
    ensures
        crate::text::option_text(output) == output_of(text@, option_str(wait_for), max_chars),
{
    if let Some(needle) = wait_for {
        if !crate::text::str_contains(text, needle) {
            return None;
        }
    }
    Some(crate::text::text_tail(text, max_chars))
}

impl<W> Default for SerialState<W> {
    fn default() -> (state: Self)
        ensures
            state@ == (SerialView::<W> {
                buffer: Seq::empty(),
                connected: false,
                writer: None,
            }),
            state@.wf(),
    {
        SerialState::new()
    }
}

impl<W> SerialState<W> {
    /// No connection, and nothing buffered.
    pub fn new() -> (state: Self)
        ensures
            state@ == (SerialView::<W> {
                buffer: Seq::empty(),
                connected: false,
                writer: None,
            }),
            state@.wf(),
    {
        SerialState { buffer: Vec::new(), connected: false, writer: None }
    }

    /// Whether there is neither a connection nor anything left to report.
    pub fn is_idle(&self) -> (idle: bool)
        ensures
            idle == self@.is_idle(),
    {
        !(self.connected || !self.buffer.is_empty())
    }

    /// Whether the background reader holds a connection.
    pub fn is_connected(&self) -> (connected: bool)
        ensures
            connected == self@.connected,
    {
        self.connected
    }

    /// Take a new connection over.
    pub fn connect(&mut self, writer: W)
        requires
            old(self)@.wf(),
        ensures
            final(self)@ == old(self)@.with_connection(writer),
            final(self)@.wf(),
    {
        self.connected = true;
        self.writer = Some(writer);
    }

    /// Take what one read from the serial socket came to: the bytes, none of
    /// them at the end of the stream, or `None` where it failed. Returns whether
    /// to read on.
    pub fn read_chunk(&mut self, read: Option<&[u8]>) -> (more: bool)
        requires
            old(self)@.wf(),
        ensures
            final(self)@ == after_read(
                old(self)@,
                match read {
                    Some(chunk) => Some(chunk@),
                    None => None,
                },
            ),
            final(self)@.wf(),
            more == (read is Some && read->0@.len() > 0),
    {
        if let Some(chunk) = read {
            if chunk.len() > 0 {
                self.buffer.extend_from_slice(chunk);
                assert(self.buffer@ == old(self)@.buffer + chunk@);
                if self.buffer.len() > SERIAL_BUFFER_LIMIT {
                    let excess: usize = self.buffer.len() - SERIAL_BUFFER_LIMIT;
                    let kept = self.buffer.split_off(excess);
                    self.buffer = kept;
                }
                return true;
            }
        }
        self.connected = false;
        self.writer = None;
        false
    }

    /// Return the buffered serial output, optionally gated on a substring, and
    /// optionally clear the buffer.
    pub fn take_serial_output(&mut self, wait_for: Option<&str>, max_chars: usize, clear: bool) -> (
    output: Option<String>)
        requires
            old(self)@.wf(),
        ensures
            crate::text::option_text(output) == output_of(
                crate::text::text_of(old(self)@.buffer),
                option_str(wait_for),
                max_chars,
            ),
            final(self)@ == (if output is Some && clear {
                old(self)@.with_buffer(Seq::empty())
            } else {
                old(self)@
            }),
            final(self)@.wf(),
    {
        let text = crate::text::from_utf8_lossy(self.buffer.as_slice());
        match select_output(text.as_str(), wait_for, max_chars) {
            None => None,
            Some(output) => {
                if clear {
                    self.buffer.clear();
                }
                Some(output)
            },
        }
    }

    /// The write half of the connection, to write to it.
    pub fn writer(&mut self) -> (writer: Option<&mut W>)
        requires
            old(self)@.wf(),
        ensures
            match writer {
                Some(writer) => {
                    &&& old(self)@.writer == Some(*writer)
                    &&& final(self)@ == old(self)@.with_connection(*final(writer))
                },
                None => !old(self)@.connected && final(self)@ == old(self)@,
            },
            final(self)@.wf(),
    {
        match &mut self.writer {
            Some(writer) => Some(writer),
            None => None,
        }
    }
}

} // verus!
