//! The stream builder, the typed reader and writer handles, and the plain
//! values through which an embedder carries their native operations out.
//!
//! The types here hold the whole decision layer of a blocking audio stream:
//! which open call a configuration leads to, how many bytes a read or write
//! of a typed sample buffer must move, when a native status code is a
//! failure, and in what order teardown releases the stream handle and the
//! owned device-name allocation. The native connection itself is driven by
//! an embedder: it receives [`OpenRequest`], [`Command`] and
//! [`TeardownStep`] values, performs them, and hands every native outcome
//! back as plain values.

use vstd::prelude::*;

use core::marker::PhantomData;
use crate::low_level::{SampleFormat, StreamDirection};

verus! {

/// A failed native operation: the native error code and its human-readable
/// description.
#[derive(Debug)]
pub struct PulseError {
    /// The nonzero code the native layer reported.
    pub code: i32,
    /// The native layer's description of that code.
    pub description: String,
}

/// Decides whether a native status code is a failure. A zero code is
/// success; any other code becomes a [`PulseError`] carrying the code and
/// the description the embedder looked up for it.
pub fn handle_error(code: i32, description: String) -> (r: Result<(), PulseError>)
    ensures
        code == 0 <==> r is Ok,
        code != 0 ==> (r matches Err(e) && e.code == code && e.description@ == description@),
{
    if code == 0 {
        Ok(())
    } else {
        Err(PulseError { code, description })
    }
}

/// Decides the outcome of a native query that yields a value beside its
/// status code: on a zero code the value is handed through unchanged, on any
/// other code the error is returned instead.
pub fn native_result<V>(value: V, code: i32, description: String) -> (r: Result<V, PulseError>)
    ensures
        code == 0 <==> r is Ok,
        code == 0 ==> (r matches Ok(v) && v == value),
        code != 0 ==> (r matches Err(e) && e.code == code && e.description@ == description@),
{
    if code == 0 {
        Ok(value)
    } else {
        Err(PulseError { code, description })
    }
}

/// The sample specification a stream is opened with.
#[derive(Clone, Copy, PartialEq, Eq, Structural, Debug)]
pub struct SampleSpec {
    /// The wire format of one sample.
    pub format: SampleFormat,
    /// The sample rate in Hz.
    pub rate: u32,
    /// The number of interleaved channels.
    pub channels: u8,
}

/// Everything one native open call needs, as plain values. The embedder
/// passes these to the native layer verbatim; the device is the server's
/// default one when `device` is `None`.
pub struct OpenRequest {
    /// Descriptive name of the client application.
    pub client_name: String,
    /// Whether the stream records from or plays back to the server.
    pub direction: StreamDirection,
    /// The device override, if one was configured.
    pub device: Option<String>,
    /// Descriptive name of this stream.
    pub stream_name: String,
    /// The format, rate and channel count to open with.
    pub spec: SampleSpec,
}

/// One native operation for the embedder to carry out on an open stream.
#[derive(Clone, Copy, PartialEq, Eq, Structural, Debug)]
pub enum Command {
    /// Blocking read of exactly `byte_len` bytes into the caller's buffer.
    Read { handle: u64, byte_len: usize },
    /// Blocking write of exactly `byte_len` bytes from the caller's buffer.
    Write { handle: u64, byte_len: usize },
    /// Query of the stream's current latency in microseconds.
    Latency { handle: u64 },
    /// Block until all written data has been played by the server.
    Drain { handle: u64 },
    /// Discard all buffered audio not yet transferred or rendered.
    Flush { handle: u64 },
}

/// One step of tearing a stream down.
#[derive(Clone, Copy, PartialEq, Eq, Structural, Debug)]
pub enum TeardownStep {
    /// Release the native stream handle.
    CloseStream { handle: u64 },
    /// Free the owned native copy of the device name. This step only ever
    /// comes after the stream is closed, because the native layer may
    /// reference the text until the handle is released.
    FreeDeviceName,
}

/// The number of bytes a buffer of `samples` samples occupies in `format`.
pub open spec fn spec_byte_len(format: SampleFormat, samples: usize) -> int {
    samples * format.spec_width()
}

/// The ordered teardown steps of a stream: close the handle, then free the
/// owned device name if there is one.
pub open spec fn spec_teardown(handle: u64, owns_device: bool) -> Seq<TeardownStep> {
    if owns_device {
        seq![(TeardownStep::CloseStream { handle }), TeardownStep::FreeDeviceName]
    } else {
        seq![(TeardownStep::CloseStream { handle })]
    }
}

/// Manager type for constructing objects that can either read or write
/// samples to the sound server.
pub struct Builder {
    /// Descriptive name for the client.
    name: String,
    /// The device override, if one was set.
    dev: Option<String>,
    /// Descriptive name for a stream (e.g., a song title).
    stream_name: String,
    /// The sample specification accumulated so far.
    sample_spec: SampleSpec,
}

/// Holds when finalizing the builder `b0` for `direction` and `format` left
/// the builder as `b1` and emitted the open request `req`: the request
/// carries the builder's configuration verbatim, with the chosen format set
/// in both the request and the builder.
pub open spec fn finalized(
    b0: Builder,
    b1: Builder,
    req: OpenRequest,
    direction: StreamDirection,
    format: SampleFormat,
) -> bool {
    &&& b1.spec_client_name() == b0.spec_client_name()
    &&& b1.spec_stream_name() == b0.spec_stream_name()
    &&& b1.spec_device() == b0.spec_device()
    &&& b1.spec_sample_spec() == (SampleSpec { format, ..b0.spec_sample_spec() })
    &&& req.client_name == b0.spec_client_name()
    &&& req.stream_name == b0.spec_stream_name()
    &&& req.device == b0.spec_device()
    &&& req.direction == direction
    &&& req.spec == b1.spec_sample_spec()
}

impl Builder {
    /// The configured client name.
    pub closed spec fn spec_client_name(self) -> String {
        self.name
    }

    /// The configured stream name.
    pub closed spec fn spec_stream_name(self) -> String {
        self.stream_name
    }

    /// The configured device override, if any.
    pub closed spec fn spec_device(self) -> Option<String> {
        self.dev
    }

    /// The sample specification accumulated so far.
    pub closed spec fn spec_sample_spec(self) -> SampleSpec {
        self.sample_spec
    }

    /// Constructs a new Builder with the default sample specification:
    /// signed 16 bit little-endian PCM at 44100 Hz on one channel, played on
    /// or recorded from the server's default device.
    pub fn new(name: String, stream_name: String) -> (b: Builder)
        ensures
            b.spec_client_name() == name,
            b.spec_stream_name() == stream_name,
            b.spec_device() is None,
            b.spec_sample_spec() == (SampleSpec {
                format: SampleFormat::S16LE,
                rate: 44100,
                channels: 1,
            }),
    {
        let sample_spec = SampleSpec { format: SampleFormat::S16LE, rate: 44100, channels: 1 };
        Builder { name, dev: None, stream_name, sample_spec }
    }

    /// Sets the sample rate in Hz. Out-of-range values are rejected by the
    /// native layer at open time, not here.
    pub fn rate(self, rate: u32) -> (b: Builder)
        ensures
            b.spec_client_name() == self.spec_client_name(),
            b.spec_stream_name() == self.spec_stream_name(),
            b.spec_device() == self.spec_device(),
            b.spec_sample_spec() == (SampleSpec { rate, ..self.spec_sample_spec() }),
    {
        let mut b = self;
        b.sample_spec.rate = rate;
        b
    }

    /// Sets the number of channels. Out-of-range values are rejected by the
    /// native layer at open time, not here.
    pub fn channels(self, channels: u8) -> (b: Builder)
        ensures
            b.spec_client_name() == self.spec_client_name(),
            b.spec_stream_name() == self.spec_stream_name(),
            b.spec_device() == self.spec_device(),
            b.spec_sample_spec() == (SampleSpec { channels, ..self.spec_sample_spec() }),
    {
        let mut b = self;
        b.sample_spec.channels = channels;
        b
    }

    /// Sets the device to use instead of the server's default one.
    pub fn device(self, device: String) -> (b: Builder)
        ensures
            b.spec_client_name() == self.spec_client_name(),
            b.spec_stream_name() == self.spec_stream_name(),
            b.spec_device() == Some(device),
            b.spec_sample_spec() == self.spec_sample_spec(),
    {
        let mut b = self;
        b.dev = Some(device);
        b
    }

    /// Emits the open request of a record stream in `format`.
    fn reader<T>(&mut self, format: SampleFormat) -> (p: PendingReader<T>)
        ensures
            finalized(*old(self), *final(self), p.request, StreamDirection::Record, format),
    {
        PendingReader { request: self.open_request(StreamDirection::Record, format), phantom: PhantomData }
    }

    /// Emits the open request of a playback stream in `format`.
    fn writer<T>(&mut self, format: SampleFormat) -> (p: PendingWriter<T>)
        ensures
            finalized(*old(self), *final(self), p.request, StreamDirection::Playback, format),
    {
        PendingWriter { request: self.open_request(StreamDirection::Playback, format), phantom: PhantomData }
    }

    /// Sets the chosen format and assembles the open request from the
    /// configuration. The named finalizers pair each format with its sample
    /// type; an embedder that manages its own pairing may call this
    /// directly.
    pub fn open_request(&mut self, direction: StreamDirection, format: SampleFormat) -> (req: OpenRequest)
        ensures
            finalized(*old(self), *final(self), req, direction, format),
    {
        self.sample_spec.format = format;
        let device: Option<String> = match &self.dev {
            Some(d) => Some(d.clone()),
            None => None,
        };
        OpenRequest {
            client_name: self.name.clone(),
            direction,
            device,
            stream_name: self.stream_name.clone(),
            spec: self.sample_spec,
        }
    }

    /// Begins a Reader of 8 bit PCM samples.
    pub fn reader_u8(&mut self) -> (p: PendingReader<u8>)
        ensures
            finalized(*old(self), *final(self), p.request, StreamDirection::Record, SampleFormat::U8),
    {
        self.reader(SampleFormat::U8)
    }

    /// Begins a Reader of 8 bit mu-Law samples.
    pub fn reader_ulaw(&mut self) -> (p: PendingReader<u8>)
        ensures
            finalized(*old(self), *final(self), p.request, StreamDirection::Record, SampleFormat::ULAW),
    {
        self.reader(SampleFormat::ULAW)
    }

    /// Begins a Reader of 8 bit a-Law samples.
    pub fn reader_alaw(&mut self) -> (p: PendingReader<u8>)
        ensures
            finalized(*old(self), *final(self), p.request, StreamDirection::Record, SampleFormat::ALAW),
    {
        self.reader(SampleFormat::ALAW)
    }

    /// Begins a Reader of 16 bit signed PCM samples.
    pub fn reader_i16(&mut self) -> (p: PendingReader<i16>)
        ensures
            finalized(*old(self), *final(self), p.request, StreamDirection::Record, SampleFormat::S16LE),
    {
        self.reader(SampleFormat::S16LE)
    }

    /// Begins a Reader of 32 bit signed PCM samples.
    pub fn reader_i32(&mut self) -> (p: PendingReader<i32>)
        ensures
            finalized(*old(self), *final(self), p.request, StreamDirection::Record, SampleFormat::S32LE),
    {
        self.reader(SampleFormat::S32LE)
    }

    /// Begins a Writer of 8 bit PCM samples.
    pub fn writer_u8(&mut self) -> (p: PendingWriter<u8>)
        ensures
            finalized(*old(self), *final(self), p.request, StreamDirection::Playback, SampleFormat::U8),
    {
        self.writer(SampleFormat::U8)
    }

    /// Begins a Writer of 8 bit mu-Law samples.
    pub fn writer_ulaw(&mut self) -> (p: PendingWriter<u8>)
        ensures
            finalized(*old(self), *final(self), p.request, StreamDirection::Playback, SampleFormat::ULAW),
    {
        self.writer(SampleFormat::ULAW)
    }

    /// Begins a Writer of 8 bit a-Law samples.
    pub fn writer_alaw(&mut self) -> (p: PendingWriter<u8>)
        ensures
            finalized(*old(self), *final(self), p.request, StreamDirection::Playback, SampleFormat::ALAW),
    {
        self.writer(SampleFormat::ALAW)
    }

    /// Begins a Writer of 16 bit signed PCM samples.
    pub fn writer_i16(&mut self) -> (p: PendingWriter<i16>)
        ensures
            finalized(*old(self), *final(self), p.request, StreamDirection::Playback, SampleFormat::S16LE),
    {
        self.writer(SampleFormat::S16LE)
    }

    /// Begins a Writer of 32 bit signed PCM samples.
    pub fn writer_i32(&mut self) -> (p: PendingWriter<i32>)
        ensures
            finalized(*old(self), *final(self), p.request, StreamDirection::Playback, SampleFormat::S32LE),
    {
        self.writer(SampleFormat::S32LE)
    }
}

/// A record stream that has been configured but not yet opened: the embedder
/// performs the native open call described by `request` and hands its
/// outcome to [`PendingReader::complete`].
pub struct PendingReader<T> {
    /// The open call the embedder must make.
    pub request: OpenRequest,
    /// Marks the sample type the stream was configured for.
    pub phantom: PhantomData<T>,
}

impl<T> PendingReader<T> {
    /// Judges the native open outcome: a zero code yields the Reader owning
    /// `handle`, any other code yields the error and no Reader at all.
    pub fn complete(self, handle: u64, code: i32, description: String) -> (r: Result<
        Reader<T>,
        PulseError,
    >)
        ensures
            code == 0 <==> r is Ok,
            code == 0 ==> (r matches Ok(reader) && reader.spec_handle() == handle
                && reader.spec_format() == self.request.spec.format
                && reader.spec_owns_device() == self.request.device.is_some()),
            code != 0 ==> (r matches Err(e) && e.code == code && e.description@ == description@),
    {
        if code == 0 {
            Ok(Reader {
                handle,
                format: self.request.spec.format,
                owns_device: self.request.device.is_some(),
                phantom: PhantomData,
            })
        } else {
            Err(PulseError { code, description })
        }
    }
}

/// A playback stream that has been configured but not yet opened: the
/// embedder performs the native open call described by `request` and hands
/// its outcome to [`PendingWriter::complete`].
pub struct PendingWriter<T> {
    /// The open call the embedder must make.
    pub request: OpenRequest,
    /// Marks the sample type the stream was configured for.
    pub phantom: PhantomData<T>,
}

impl<T> PendingWriter<T> {
    /// Judges the native open outcome: a zero code yields the Writer owning
    /// `handle`, any other code yields the error and no Writer at all.
    pub fn complete(self, handle: u64, code: i32, description: String) -> (r: Result<
        Writer<T>,
        PulseError,
    >)
        ensures
            code == 0 <==> r is Ok,
            code == 0 ==> (r matches Ok(writer) && writer.spec_handle() == handle
                && writer.spec_format() == self.request.spec.format
                && writer.spec_owns_device() == self.request.device.is_some()),
            code != 0 ==> (r matches Err(e) && e.code == code && e.description@ == description@),
    {
        if code == 0 {
            Ok(Writer {
                handle,
                format: self.request.spec.format,
                owns_device: self.request.device.is_some(),
                phantom: PhantomData,
            })
        } else {
            Err(PulseError { code, description })
        }
    }
}

/// Reader of audio samples of type `T` from a sound server source. It
/// exclusively owns one native stream handle opened for recording, and the
/// owned device-name allocation when a device override was set.
pub struct Reader<T> {
    handle: u64,
    format: SampleFormat,
    owns_device: bool,
    phantom: PhantomData<T>,
}

impl<T> Reader<T> {
    /// The owned native stream handle.
    pub closed spec fn spec_handle(self) -> u64 {
        self.handle
    }

    /// The wire format the stream was opened with.
    pub closed spec fn spec_format(self) -> SampleFormat {
        self.format
    }

    /// Whether this stream owns a native copy of a device name.
    pub closed spec fn spec_owns_device(self) -> bool {
        self.owns_device
    }

    /// Returns the wire format the stream was opened with.
    pub fn format(&self) -> (f: SampleFormat)
        ensures
            f == self.spec_format(),
    {
        self.format
    }

    /// Describes the blocking read that fills a buffer of `samples` samples:
    /// the embedder must request exactly `samples` times the sample byte
    /// width from the native layer.
    pub fn read(&self, samples: usize) -> (c: Command)
        requires
            spec_byte_len(self.spec_format(), samples) <= usize::MAX,
        ensures
            c == (Command::Read {
                handle: self.spec_handle(),
                byte_len: spec_byte_len(self.spec_format(), samples) as usize,
            }),
    {
        let byte_len = samples * self.format.bytes_per_sample();
        Command::Read { handle: self.handle, byte_len }
    }

    /// Describes the query of the current record latency in microseconds.
    pub fn get_latency(&self) -> (c: Command)
        ensures
            c == (Command::Latency { handle: self.spec_handle() }),
    {
        Command::Latency { handle: self.handle }
    }

    /// Describes the discarding of all buffered, unread audio.
    pub fn flush(&self) -> (c: Command)
        ensures
            c == (Command::Flush { handle: self.spec_handle() }),
    {
        Command::Flush { handle: self.handle }
    }

    /// Consumes the Reader and returns its teardown steps in the one order
    /// that is safe: the stream handle is closed first, and the owned
    /// device-name allocation, if there is one, is freed only after that.
    pub fn close(self) -> (steps: Vec<TeardownStep>)
        ensures
            steps@ == spec_teardown(self.spec_handle(), self.spec_owns_device()),
    {
        let mut steps: Vec<TeardownStep> = Vec::new();
        steps.push(TeardownStep::CloseStream { handle: self.handle });
        if self.owns_device {
            steps.push(TeardownStep::FreeDeviceName);
        }
        proof {
            assert(steps@ =~= spec_teardown(self.spec_handle(), self.spec_owns_device()));
        }
        steps
    }
}

/// Writer of audio samples of type `T` to a sound server sink. It
/// exclusively owns one native stream handle opened for playback, and the
/// owned device-name allocation when a device override was set.
pub struct Writer<T> {
    handle: u64,
    format: SampleFormat,
    owns_device: bool,
    phantom: PhantomData<T>,
}

impl<T> Writer<T> {
    /// The owned native stream handle.
    pub closed spec fn spec_handle(self) -> u64 {
        self.handle
    }

    /// The wire format the stream was opened with.
    pub closed spec fn spec_format(self) -> SampleFormat {
        self.format
    }

    /// Whether this stream owns a native copy of a device name.
    pub closed spec fn spec_owns_device(self) -> bool {
        self.owns_device
    }

    /// Returns the wire format the stream was opened with.
    pub fn format(&self) -> (f: SampleFormat)
        ensures
            f == self.spec_format(),
    {
        self.format
    }

    /// Describes the blocking write that submits a buffer of `samples`
    /// samples: the embedder must submit exactly `samples` times the sample
    /// byte width to the native layer.
    pub fn write(&self, samples: usize) -> (c: Command)
        requires
            spec_byte_len(self.spec_format(), samples) <= usize::MAX,
        ensures
            c == (Command::Write {
                handle: self.spec_handle(),
                byte_len: spec_byte_len(self.spec_format(), samples) as usize,
            }),
    {
        let byte_len = samples * self.format.bytes_per_sample();
        Command::Write { handle: self.handle, byte_len }
    }

    /// Describes the query of the current playback latency in microseconds.
    pub fn get_latency(&self) -> (c: Command)
        ensures
            c == (Command::Latency { handle: self.spec_handle() }),
    {
        Command::Latency { handle: self.handle }
    }

    /// Describes the wait until all data already written has been played by
    /// the server.
    pub fn drain(&self) -> (c: Command)
        ensures
            c == (Command::Drain { handle: self.spec_handle() }),
    {
        Command::Drain { handle: self.handle }
    }

    /// Describes the discarding of all buffered, unplayed audio.
    pub fn flush(&self) -> (c: Command)
        ensures
            c == (Command::Flush { handle: self.spec_handle() }),
    {
        Command::Flush { handle: self.handle }
    }

    /// Consumes the Writer and returns its teardown steps in the one order
    /// that is safe: the stream handle is closed first, and the owned
    /// device-name allocation, if there is one, is freed only after that.
    pub fn close(self) -> (steps: Vec<TeardownStep>)
        ensures
            steps@ == spec_teardown(self.spec_handle(), self.spec_owns_device()),
    {
        let mut steps: Vec<TeardownStep> = Vec::new();
        steps.push(TeardownStep::CloseStream { handle: self.handle });
        if self.owns_device {
            steps.push(TeardownStep::FreeDeviceName);
        }
        proof {
            assert(steps@ =~= spec_teardown(self.spec_handle(), self.spec_owns_device()));
        }
        steps
    }
}

/// Law: a stream finalized for format `format` carries that format in its
/// open request, and a buffer of `samples` samples is accounted on that
/// stream as exactly `samples` times the byte width of `format`.
pub proof fn lemma_request_bytes_exact(
    b0: Builder,
    b1: Builder,
    req: OpenRequest,
    direction: StreamDirection,
    format: SampleFormat,
    samples: usize,
)
    requires
        finalized(b0, b1, req, direction, format),
    ensures
        req.spec.format == format,
        spec_byte_len(req.spec.format, samples) == samples * format.spec_width(),
{
}

/// Law: every teardown closes the stream handle exactly once, as its first
/// step; it frees the owned device name exactly once when there is one and
/// never otherwise; and the close precedes the free.
pub proof fn lemma_teardown_order(handle: u64, owns_device: bool)
    ensures
        spec_teardown(handle, owns_device).len() == (if owns_device { 2int } else { 1int }),
        spec_teardown(handle, owns_device)[0] == (TeardownStep::CloseStream { handle }),
        owns_device ==> spec_teardown(handle, owns_device)[1] == TeardownStep::FreeDeviceName,
        forall|i: int|
            0 < i < spec_teardown(handle, owns_device).len() ==> !(#[trigger] spec_teardown(
                handle,
                owns_device,
            )[i] is CloseStream),
{
}

} // verus!
