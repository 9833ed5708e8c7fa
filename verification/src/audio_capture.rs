//! The audio capture: what it accepts, what it sends, and how it runs.
use crate::error::{AudioCaptureError, SmtcError};
use crate::samples::{
    bytes_to_samples, convert_channels, interleave, samples_to_bytes, PlanarBuffer,
};
use crate::worker::{InternalUpdate, InternalUpdateView};
use vstd::prelude::*;

verus! {

/// The sampling rate of all audio that is sent, in samples per second.
pub const TARGET_SAMPLE_RATE: u32 = 48000;

/// The number of channels of all audio that is sent.
pub const TARGET_CHANNELS: u16 = 2;

/// The length of the system's capture buffer, in units of 100 nanoseconds.
pub const BUFFER_DURATION_TICKS: i64 = 200000;

/// How many chunks of input the resampler gets in a second.
pub const CHUNKS_PER_SECOND: u32 = 10;

/// The length of the resampler's filter, in samples.
pub const RESAMPLER_FILTER_LEN: usize = 128;

/// The tag of a format of single-precision numbers.
pub const FORMAT_IEEE_FLOAT: u16 = 3;

/// The tag of a format that is described by an extension.
pub const FORMAT_EXTENSIBLE: u16 = 0xFFFE;

/// The size of the extension that describes a format, in bytes.
pub const EXTENSION_SIZE: u16 = 22;

/// The flag of a captured packet that holds silence.
pub const PACKET_SILENT: u32 = 2;

/// The format in which the system mixes audio.
#[derive(Debug, Clone, Copy, PartialEq, Eq, Structural)]
pub struct MixFormat {
    pub format_tag: u16,
    pub channels: u16,
    pub samples_per_sec: u32,
    pub bits_per_sample: u16,
    /// The size of what follows the format, in bytes.
    pub extension_size: u16,
    /// Whether the extension names single-precision numbers; only there with an extension.
    pub extension_is_float: bool,
}

/// Whether samples of this format are numbers rather than integers.
pub open spec fn is_float_format(format: MixFormat) -> bool {
    format.format_tag == FORMAT_IEEE_FLOAT || (format.format_tag == FORMAT_EXTENSIBLE
        && format.extension_size >= EXTENSION_SIZE && format.extension_is_float)
}

/// Whether audio of this format can be captured.
pub open spec fn is_supported(format: MixFormat) -> bool {
    is_float_format(format) && format.bits_per_sample == 32
}

/// Checks the format in which the system mixes audio.
pub fn check_mix_format(format: Option<MixFormat>) -> (checked: Result<
    MixFormat,
    AudioCaptureError,
>)
    ensures
        match format {
            Some(f) => if is_supported(f) {
                checked == Ok::<MixFormat, AudioCaptureError>(f)
            } else {
                checked == Err::<MixFormat, AudioCaptureError>(
                    AudioCaptureError::UnsupportedFormat {
                        format_tag: f.format_tag,
                        bits_per_sample: f.bits_per_sample,
                    },
                )
            },
            None => checked == Err::<MixFormat, AudioCaptureError>(
                AudioCaptureError::GetMixFormatReturnedNull,
            ),
        },
{
    match format {
        Some(f) => {
            let is_float: bool = f.format_tag == FORMAT_IEEE_FLOAT || (f.format_tag
                == FORMAT_EXTENSIBLE && f.extension_size >= EXTENSION_SIZE
                && f.extension_is_float);
            if is_float && f.bits_per_sample == 32 {
                Ok(f)
            } else {
                Err(
                    AudioCaptureError::UnsupportedFormat {
                        format_tag: f.format_tag,
                        bits_per_sample: f.bits_per_sample,
                    },
                )
            }
        },
        None => Err(AudioCaptureError::GetMixFormatReturnedNull),
    }
}

/// How many frames the resampler gets at a time for a sampling rate; none where nothing has to be
/// resampled.
pub open spec fn chunk_frames(samples_per_sec: u32) -> Option<usize> {
    if samples_per_sec == TARGET_SAMPLE_RATE {
        None
    } else if samples_per_sec / CHUNKS_PER_SECOND > 2 * RESAMPLER_FILTER_LEN {
        Some((samples_per_sec / CHUNKS_PER_SECOND) as usize)
    } else {
        Some((2 * RESAMPLER_FILTER_LEN) as usize)
    }
}

/// Finds how many frames the resampler gets at a time.
pub fn resampler_chunk_size(samples_per_sec: u32) -> (frames: Option<usize>)
    ensures
        frames == chunk_frames(samples_per_sec),
{
    if samples_per_sec == TARGET_SAMPLE_RATE {
        return None;
    }
    let frames: usize = (samples_per_sec / CHUNKS_PER_SECOND) as usize;
    let least: usize = 2 * RESAMPLER_FILTER_LEN;
    if frames > least {
        Some(frames)
    } else {
        Some(least)
    }
}

/// What to do after waiting for the stop event and for the audio event.
#[derive(Debug, Clone, Copy, PartialEq, Eq, Structural)]
pub enum WaitDecision {
    /// The stop event has come: end the capture.
    Stop,
    /// Audio has come: fetch every packet.
    Drain,
    /// The wait has failed.
    Fail,
}

/// Decides what to do by the number of the event that has come.
pub fn wait_decision(event: u32) -> (decision: WaitDecision)
    ensures
        decision == if event == 0 {
            WaitDecision::Stop
        } else if event == 1 {
            WaitDecision::Drain
        } else {
            WaitDecision::Fail
        },
{
    if event == 0 {
        WaitDecision::Stop
    } else if event == 1 {
        WaitDecision::Drain
    } else {
        WaitDecision::Fail
    }
}

/// Whether a captured packet holds audio: it is not silent, and there is data in it.
pub open spec fn holds_audio(frames: u32, flags: u32, has_data: bool) -> bool {
    flags & PACKET_SILENT == 0 && frames > 0 && has_data
}

/// Finds out whether a captured packet holds audio.
pub fn packet_has_audio(frames: u32, flags: u32, has_data: bool) -> (yes: bool)
    ensures
        yes == holds_audio(frames, flags, has_data),
{
    flags & PACKET_SILENT == 0 && frames > 0 && has_data
}

/// Reads the samples of a captured packet. A sample takes four bytes.
pub fn packet_samples(bytes: &[u8], bits_per_sample: u16) -> (samples: Result<
    Vec<u32>,
    AudioCaptureError,
>)
    requires
        bits_per_sample >= 8,
    ensures
        match samples {
            Ok(s) => if bits_per_sample / 8 == 4 {
                s@ == crate::samples::samples_of_bytes(bytes@)
            } else {
                bytes@.len() < bits_per_sample / 8 && s@.len() == 0
            },
            Err(e) => bits_per_sample / 8 != 4 && bytes@.len() >= bits_per_sample / 8 && e
                == AudioCaptureError::BytesToSampleConversion,
        },
{
    let width: usize = (bits_per_sample / 8) as usize;
    if width == 4 {
        Ok(bytes_to_samples(bytes))
    } else if bytes.len() < width {
        Ok(Vec::new())
    } else {
        Err(AudioCaptureError::BytesToSampleConversion)
    }
}

/// The packet that is sent for samples; none where there are none.
pub open spec fn packet_of(samples: Seq<u32>, channels: int) -> Option<Seq<u8>> {
    let sent = crate::samples::with_channels(samples, channels, TARGET_CHANNELS as int);
    if samples.len() == 0 || sent.len() == 0 {
        None
    } else {
        Some(crate::samples::bytes_of_samples(sent))
    }
}

/// Makes the packet that is sent for samples.
pub fn process_audio_data(samples: Vec<u32>, channels: usize) -> (packet: Option<InternalUpdate>)
    ensures
        match packet {
            Some(update) => packet_of(samples@, channels as int) is Some && update@
                == InternalUpdateView::AudioDataPacket(packet_of(samples@, channels as int)->0),
            None => packet_of(samples@, channels as int) is None,
        },
{
    if samples.len() == 0 {
        return None;
    }
    let converted: Vec<u32> = convert_channels(samples, channels, TARGET_CHANNELS);
    if converted.len() == 0 {
        return None;
    }
    Some(InternalUpdate::AudioDataPacket(samples_to_bytes(&converted)))
}

/// The error of a packet that could not be sent.
pub fn packet_send_error() -> (error: SmtcError)
    ensures
        error matches SmtcError::AudioCapture(AudioCaptureError::SendError(text)) && text@
            == "Failed to send audio packet. The channel may be closed."@,
{
    SmtcError::AudioCapture(
        AudioCaptureError::SendError(
            "Failed to send audio packet. The channel may be closed.".to_owned(),
        ),
    )
}

/// The update that tells of an error that has ended the capture.
pub fn capture_error_update(error: &SmtcError) -> (update: InternalUpdate)
    ensures
        update@ == InternalUpdateView::AudioCaptureError(error.text()),
{
    InternalUpdate::AudioCaptureError(error.message())
}

/// What ends a capture.
#[derive(Debug, Clone, Copy, PartialEq, Eq, Structural)]
pub struct StopPlan {
    /// Signal the stop event.
    pub signal: bool,
    /// Wait for the capture thread.
    pub join: bool,
}

/// The capture: whether its thread was started, and whether the event that stops it is there.
#[derive(Debug, Clone, Copy, PartialEq, Eq, Structural)]
pub struct AudioCapturer {
    pub has_thread: bool,
    pub has_stop_event: bool,
}

impl AudioCapturer {
    /// A thread that was started can be stopped.
    pub open spec fn wf(self) -> bool {
        self.has_thread ==> self.has_stop_event
    }

    /// A capture that was not started.
    pub fn new() -> (capturer: Self)
        ensures
            capturer == (AudioCapturer { has_thread: false, has_stop_event: false }),
            capturer.wf(),
    {
        AudioCapturer { has_thread: false, has_stop_event: false }
    }

    /// Whether a stop event and a thread have to be made to start the capture. A capture that was
    /// started already goes on.
    pub fn start_capture(&self) -> (needed: bool)
        ensures
            needed == !self.has_thread,
    {
        !self.has_thread
    }

    /// Records that the stop event was made, and whether the thread was.
    pub fn capture_started(&mut self, thread_started: bool)
        requires
            old(self).wf(),
            !old(self).has_thread,
        ensures
            *final(self) == (AudioCapturer { has_thread: thread_started, has_stop_event: true }),
            final(self).wf(),
    {
        self.has_stop_event = true;
        self.has_thread = thread_started;
    }

    /// Ends the capture, where it was started.
    pub fn stop_capture(&mut self) -> (plan: StopPlan)
        requires
            old(self).wf(),
        ensures
            plan == (StopPlan { signal: old(self).has_thread, join: old(self).has_thread }),
            *final(self) == (if old(self).has_thread {
                AudioCapturer { has_thread: false, has_stop_event: false }
            } else {
                *old(self)
            }),
            final(self).wf(),
    {
        if self.has_thread {
            let signal: bool = self.has_stop_event;
            self.has_thread = false;
            self.has_stop_event = false;
            StopPlan { signal, join: true }
        } else {
            StopPlan { signal: false, join: false }
        }
    }
}

/// What the capture waits for.
pub enum CaptureEvent {
    /// One of the two events has come, given by its number.
    Waited(u32),
    /// The next packet has this many frames.
    PacketSize(u32),
    /// A packet was fetched; without data where the system gave none.
    Packet { frames: u32, flags: u32, bytes: Option<Vec<u8>> },
    /// A chunk was resampled: the channels, and how many frames of them count.
    Resampled { channels: Vec<Vec<u32>>, valid_frames: usize },
    /// A packet was sent, or could not be.
    Sent(bool),
}

/// The contents of a `CaptureEvent`.
pub enum CaptureEventView {
    Waited(u32),
    PacketSize(u32),
    Packet { frames: u32, flags: u32, bytes: Option<Seq<u8>> },
    Resampled { channels: Seq<Seq<u32>>, valid_frames: int },
    Sent(bool),
}

/// The samples of each of several channels.
pub open spec fn channel_views(channels: Seq<Vec<u32>>) -> Seq<Seq<u32>> {
    channels.map_values(|channel: Vec<u32>| channel@)
}

impl View for CaptureEvent {
    type V = CaptureEventView;

    open spec fn view(&self) -> CaptureEventView {
        match *self {
            CaptureEvent::Waited(event) => CaptureEventView::Waited(event),
            CaptureEvent::PacketSize(frames) => CaptureEventView::PacketSize(frames),
            CaptureEvent::Packet { frames, flags, bytes } => CaptureEventView::Packet {
                frames,
                flags,
                bytes: crate::api::bytes_of(bytes),
            },
            CaptureEvent::Resampled { channels, valid_frames } => CaptureEventView::Resampled {
                channels: channel_views(channels@),
                valid_frames: valid_frames as int,
            },
            CaptureEvent::Sent(sent) => CaptureEventView::Sent(sent),
        }
    }
}

/// What the capture does next.
pub enum CaptureAction {
    /// Wait for the stop event or for audio.
    Wait,
    /// Ask how large the next packet is.
    AskPacketSize,
    /// Fetch the next packet.
    FetchPacket,
    /// Resample a chunk of every channel.
    Resample(Vec<Vec<u32>>),
    /// Send an update.
    Send(InternalUpdate),
    /// End the capture.
    Finish,
    /// End the capture, because a wait has failed.
    FailWait,
    /// End the capture with an error.
    Fail(SmtcError),
}

/// The contents of a `CaptureAction`.
pub enum CaptureActionView {
    Wait,
    AskPacketSize,
    FetchPacket,
    Resample(Seq<Seq<u32>>),
    Send(InternalUpdateView),
    Finish,
    FailWait,
    Fail(Seq<char>),
}

impl View for CaptureAction {
    type V = CaptureActionView;

    open spec fn view(&self) -> CaptureActionView {
        match *self {
            CaptureAction::Wait => CaptureActionView::Wait,
            CaptureAction::AskPacketSize => CaptureActionView::AskPacketSize,
            CaptureAction::FetchPacket => CaptureActionView::FetchPacket,
            CaptureAction::Resample(channels) => CaptureActionView::Resample(
                channel_views(channels@),
            ),
            CaptureAction::Send(update) => CaptureActionView::Send(update@),
            CaptureAction::Finish => CaptureActionView::Finish,
            CaptureAction::FailWait => CaptureActionView::FailWait,
            CaptureAction::Fail(error) => CaptureActionView::Fail(error.text()),
        }
    }
}

/// A capture in progress.
pub struct CaptureLoop {
    /// How many channels are captured.
    pub channels: usize,
    /// How many bits a captured sample has.
    pub bits_per_sample: u16,
    /// How many frames are resampled at a time; none where nothing is resampled.
    pub chunk: Option<usize>,
    /// The samples that wait to be resampled.
    pub buffer: PlanarBuffer<u32>,
    /// The samples that wait to be sent.
    pub pending: Vec<u32>,
}

/// The contents of a `CaptureLoop`.
#[verifier::ext_equal]
pub struct CaptureView {
    pub channels: int,
    pub bits_per_sample: u16,
    pub chunk: Option<usize>,
    pub buffer: Seq<Seq<u32>>,
    pub pending: Seq<u32>,
}

impl View for CaptureLoop {
    type V = CaptureView;

    open spec fn view(&self) -> CaptureView {
        CaptureView {
            channels: self.channels as int,
            bits_per_sample: self.bits_per_sample,
            chunk: self.chunk,
            buffer: self.buffer@,
            pending: self.pending@,
        }
    }
}

/// The samples of channel after channel, dealt out from interleaved samples behind those that are
/// there.
pub open spec fn dealt(buffer: Seq<Seq<u32>>, samples: Seq<u32>) -> Seq<Seq<u32>> {
    Seq::new(
        buffer.len(),
        |c: int| buffer[c] + crate::samples::channel_of(samples, c, buffer.len() as int),
    )
}

/// How a capture goes on: its next state, and what it does.
#[verifier::ext_equal]
pub struct CaptureStep {
    pub state: CaptureView,
    pub action: CaptureActionView,
}

impl CaptureView {
    /// There is a channel, a buffer for each channel, samples have at least a byte, and chunks are
    /// not empty.
    pub open spec fn wf(self) -> bool {
        &&& self.channels > 0
        &&& self.buffer.len() == self.channels
        &&& self.bits_per_sample >= 8
        &&& self.chunk matches Some(n) ==> n > 0
    }

    /// This state with nothing left to send, after doing something.
    pub open spec fn then_do(self, action: CaptureActionView) -> CaptureStep {
        CaptureStep { state: CaptureView { pending: seq![], ..self }, action }
    }

    /// Sends what waits to be sent.
    pub open spec fn flushed(self) -> CaptureStep {
        match packet_of(self.pending, self.channels) {
            Some(bytes) => self.then_do(
                CaptureActionView::Send(InternalUpdateView::AudioDataPacket(bytes)),
            ),
            None => self.then_do(CaptureActionView::AskPacketSize),
        }
    }

    /// Resamples the next chunk where there is one, else sends what waits to be sent.
    pub open spec fn resampling(self, chunk: int) -> CaptureStep {
        if crate::samples::has_chunk(self.buffer, chunk) {
            CaptureStep {
                state: CaptureView {
                    buffer: self.buffer.map_values(|channel: Seq<u32>| channel.skip(chunk)),
                    ..self
                },
                action: CaptureActionView::Resample(
                    self.buffer.map_values(|channel: Seq<u32>| channel.take(chunk)),
                ),
            }
        } else {
            self.flushed()
        }
    }

    /// Takes captured samples in: they are dealt out to be resampled, or wait to be sent.
    pub open spec fn with_samples(self, samples: Seq<u32>) -> CaptureStep {
        match self.chunk {
            Some(chunk) => CaptureView {
                buffer: dealt(self.buffer, samples),
                ..self
            }.resampling(chunk as int),
            None => CaptureView { pending: self.pending + samples, ..self }.flushed(),
        }
    }

    /// How the capture goes on after an event.
    pub open spec fn after(self, event: CaptureEventView) -> CaptureStep {
        match event {
            CaptureEventView::Waited(number) => CaptureStep {
                state: self,
                action: if number == 0 {
                    CaptureActionView::Finish
                } else if number == 1 {
                    CaptureActionView::AskPacketSize
                } else {
                    CaptureActionView::FailWait
                },
            },
            CaptureEventView::PacketSize(frames) => CaptureStep {
                state: self,
                action: if frames == 0 {
                    CaptureActionView::Wait
                } else {
                    CaptureActionView::FetchPacket
                },
            },
            CaptureEventView::Packet { frames, flags, bytes } => match bytes {
                Some(data) => if !holds_audio(frames, flags, true) {
                    CaptureStep { state: self, action: CaptureActionView::AskPacketSize }
                } else if self.bits_per_sample / 8 == 4 {
                    self.with_samples(crate::samples::samples_of_bytes(data))
                } else if data.len() < self.bits_per_sample / 8 {
                    self.with_samples(seq![])
                } else {
                    CaptureStep {
                        state: self,
                        action: CaptureActionView::Fail(
                            SmtcError::AudioCapture(
                                AudioCaptureError::BytesToSampleConversion,
                            ).text(),
                        ),
                    }
                },
                None => CaptureStep { state: self, action: CaptureActionView::AskPacketSize },
            },
            CaptureEventView::Resampled { channels, valid_frames } => {
                let longer = CaptureView {
                    pending: self.pending + crate::samples::interleaved(
                        channels,
                        valid_frames,
                        channels.len() as int,
                    ),
                    ..self
                };
                match self.chunk {
                    Some(chunk) => longer.resampling(chunk as int),
                    None => longer.flushed(),
                }
            },
            CaptureEventView::Sent(sent) => CaptureStep {
                state: self,
                action: if sent {
                    CaptureActionView::AskPacketSize
                } else {
                    CaptureActionView::Fail(
                        "Audio capture failed: "@ + ("Channel Send Error: "@
                            + "Failed to send audio packet. The channel may be closed."@),
                    )
                },
            },
        }
    }
}

impl CaptureLoop {
    /// A capture that begins.
    pub fn new(channels: usize, bits_per_sample: u16, chunk: Option<usize>) -> (capture: Self)
        ensures
            capture@ == (CaptureView {
                channels: channels as int,
                bits_per_sample,
                chunk,
                buffer: Seq::new(channels as nat, |c: int| Seq::<u32>::empty()),
                pending: seq![],
            }),
    {
        CaptureLoop {
            channels,
            bits_per_sample,
            chunk,
            buffer: PlanarBuffer::new(channels),
            pending: Vec::new(),
        }
    }

    /// Sends what waits to be sent.
    fn flush(&mut self) -> (action: CaptureAction)
        ensures
            (CaptureStep { state: final(self)@, action: action@ }) == old(self)@.flushed(),
    {
        let mut samples: Vec<u32> = Vec::new();
        std::mem::swap(&mut samples, &mut self.pending);
        assert(self@ =~= CaptureView { pending: seq![], ..old(self)@ });
        match process_audio_data(samples, self.channels) {
            Some(update) => CaptureAction::Send(update),
            None => CaptureAction::AskPacketSize,
        }
    }

    /// Resamples the next chunk where there is one, else sends what waits to be sent.
    fn resample_or_flush(&mut self, chunk: usize) -> (action: CaptureAction)
        ensures
            (CaptureStep { state: final(self)@, action: action@ }) == old(self)@.resampling(
                chunk as int,
            ),
    {
        if self.buffer.chunk_ready(chunk) {
            let ghost before = self.buffer@;
            let taken: Vec<Vec<u32>> = self.buffer.take_chunk(chunk);
            assert(channel_views(taken@) =~= before.map_values(
                |channel: Seq<u32>| channel.take(chunk as int),
            ));
            assert(self.buffer@ =~= before.map_values(
                |channel: Seq<u32>| channel.skip(chunk as int),
            ));
            CaptureAction::Resample(taken)
        } else {
            self.flush()
        }
    }

    /// Takes captured samples in.
    fn take_samples(&mut self, samples: Vec<u32>) -> (action: CaptureAction)
        requires
            old(self)@.wf(),
        ensures
            (CaptureStep { state: final(self)@, action: action@ }) == old(self)@.with_samples(
                samples@,
            ),
    {
        match self.chunk {
            Some(chunk) => {
                let ghost before = self.buffer@;
                self.buffer.push_interleaved(samples.as_slice());
                assert(self.buffer@ =~= dealt(before, samples@));
                self.resample_or_flush(chunk)
            },
            None => {
                let mut added: Vec<u32> = samples;
                self.pending.append(&mut added);
                self.flush()
            },
        }
    }

    /// Goes on after an event. What was resampled has as many frames as it claims.
    pub fn advance(&mut self, event: CaptureEvent) -> (action: CaptureAction)
        requires
            old(self)@.wf(),
            event@ matches CaptureEventView::Resampled { channels, valid_frames }
                ==> crate::samples::has_chunk(channels, valid_frames),
        ensures
            (CaptureStep { state: final(self)@, action: action@ }) == old(self)@.after(event@),
            final(self)@.wf(),
    {
        match event {
            CaptureEvent::Waited(number) => match wait_decision(number) {
                WaitDecision::Stop => CaptureAction::Finish,
                WaitDecision::Drain => CaptureAction::AskPacketSize,
                WaitDecision::Fail => CaptureAction::FailWait,
            },
            CaptureEvent::PacketSize(frames) => if frames == 0 {
                CaptureAction::Wait
            } else {
                CaptureAction::FetchPacket
            },
            CaptureEvent::Packet { frames, flags, bytes } => {
                let data: Vec<u8> = match bytes {
                    Some(data) => data,
                    None => {
                        return CaptureAction::AskPacketSize;
                    },
                };
                if !packet_has_audio(frames, flags, true) {
                    return CaptureAction::AskPacketSize;
                }
                match packet_samples(data.as_slice(), self.bits_per_sample) {
                    Ok(samples) => {
                        assert(self.bits_per_sample / 8 != 4 ==> samples@ =~= Seq::<u32>::empty());
                        self.take_samples(samples)
                    },
                    Err(error) => CaptureAction::Fail(SmtcError::AudioCapture(error)),
                }
            },
            CaptureEvent::Resampled { channels, valid_frames } => {
                assert forall|c: int| 0 <= c < channels@.len() implies valid_frames <= (
                #[trigger] channels@[c])@.len() by {
                    assert(channel_views(channels@)[c] == channels@[c]@);
                }
                let mut added: Vec<u32> = interleave(&channels, valid_frames);
                self.pending.append(&mut added);
                match self.chunk {
                    Some(chunk) => self.resample_or_flush(chunk),
                    None => self.flush(),
                }
            },
            CaptureEvent::Sent(sent) => if sent {
                CaptureAction::AskPacketSize
            } else {
                CaptureAction::Fail(packet_send_error())
            },
        }
    }

    /// Ends the capture: what still waits to be resampled is filled up with silence to a whole
    /// chunk, and handed out. Nothing is handed out where nothing waits or nothing is resampled.
    pub fn last_chunk(&mut self) -> (chunk: Option<Vec<Vec<u32>>>)
        ensures
            final(self)@ == (CaptureView {
                buffer: if chunk is Some {
                    Seq::new(old(self)@.buffer.len(), |c: int| Seq::<u32>::empty())
                } else {
                    old(self)@.buffer
                },
                ..old(self)@
            }),
            match chunk {
                Some(channels) => old(self).chunk is Some && crate::samples::has_any(
                    old(self)@.buffer,
                ) && channel_views(channels@) == old(self)@.buffer.map_values(
                    |channel: Seq<u32>|
                        crate::samples::padded(channel, old(self).chunk->0 as int, 0u32),
                ),
                None => old(self).chunk is None || !crate::samples::has_any(old(self)@.buffer),
            },
    {
        match self.chunk {
            Some(frames) => {
                if self.buffer.pad_last(frames, 0) {
                    assert(self.buffer@.len() == old(self)@.buffer.len());
                    let mut last: PlanarBuffer<u32> = PlanarBuffer::new(
                        self.buffer.channels.len(),
                    );
                    std::mem::swap(&mut last, &mut self.buffer);
                    assert(self.buffer@ =~= Seq::new(
                        old(self)@.buffer.len(),
                        |c: int| Seq::<u32>::empty(),
                    ));
                    Some(last.channels)
                } else {
                    None
                }
            },
            None => None,
        }
    }
}

/// Makes the last packet from what the last chunk was resampled to.
pub fn last_packet(channels: Vec<Vec<u32>>, frames: usize) -> (packet: Option<InternalUpdate>)
    requires
        crate::samples::has_chunk(channel_views(channels@), frames as int),
    ensures
        ({
            let samples = crate::samples::interleaved(
                channel_views(channels@),
                frames as int,
                channels@.len() as int,
            );
            match (packet, packet_of(samples, channels@.len() as int)) {
                (Some(update), Some(bytes)) => update@ == InternalUpdateView::AudioDataPacket(
                    bytes,
                ),
                (None, None) => true,
                _ => false,
            }
        }),
{
    assert forall|c: int| 0 <= c < channels@.len() implies frames <= (
    #[trigger] channels@[c])@.len() by {
        assert(channel_views(channels@)[c] == channels@[c]@);
    }
    let n: usize = channels.len();
    let samples: Vec<u32> = interleave(&channels, frames);
    process_audio_data(samples, n)
}

/// Where nothing is resampled, every packet with audio is sent on at once, in stereo, and nothing
/// stays behind.
pub proof fn law_capture_passes_audio_on(
    capture: CaptureView,
    frames: u32,
    flags: u32,
    bytes: Seq<u8>,
)
    requires
        capture.wf(),
        capture.chunk is None,
        capture.bits_per_sample == 32,
        capture.pending.len() == 0,
        holds_audio(frames, flags, true),
    ensures
        ({
            let step = capture.after(
                CaptureEventView::Packet { frames, flags, bytes: Some(bytes) },
            );
            let samples = crate::samples::samples_of_bytes(bytes);
            &&& step.state == capture
            &&& step.action == match packet_of(samples, capture.channels) {
                Some(packet) => CaptureActionView::Send(
                    InternalUpdateView::AudioDataPacket(packet),
                ),
                None => CaptureActionView::AskPacketSize,
            }
        }),
{
    let samples = crate::samples::samples_of_bytes(bytes);
    assert(capture.pending + samples =~= samples);
    assert(capture.pending =~= Seq::<u32>::empty());
}

/// Silent packets change nothing, and the next one is asked for.
pub proof fn law_silence_is_skipped(
    capture: CaptureView,
    frames: u32,
    flags: u32,
    bytes: Option<Seq<u8>>,
)
    requires
        flags & PACKET_SILENT != 0,
    ensures
        capture.after(CaptureEventView::Packet { frames, flags, bytes }) == (CaptureStep {
            state: capture,
            action: CaptureActionView::AskPacketSize,
        }),
{
}

/// No sample gets lost on the way to the resampler: what is handed to it and what stays behind
/// make up what was there and what has come.
pub proof fn law_resampling_loses_nothing(
    capture: CaptureView,
    frames: u32,
    flags: u32,
    bytes: Seq<u8>,
    c: int,
)
    requires
        capture.wf(),
        capture.chunk is Some,
        capture.bits_per_sample == 32,
        holds_audio(frames, flags, true),
        0 <= c < capture.channels,
    ensures
        ({
            let step = capture.after(
                CaptureEventView::Packet { frames, flags, bytes: Some(bytes) },
            );
            let all = capture.buffer[c] + crate::samples::channel_of(
                crate::samples::samples_of_bytes(bytes),
                c,
                capture.channels,
            );
            match step.action {
                CaptureActionView::Resample(chunk) => chunk[c] + step.state.buffer[c] == all,
                _ => step.state.buffer[c] == all,
            }
        }),
{
    let samples = crate::samples::samples_of_bytes(bytes);
    let full = dealt(capture.buffer, samples)[c];
    let chunk = capture.chunk->0 as int;
    if crate::samples::has_chunk(dealt(capture.buffer, samples), chunk) {
        assert(full.take(chunk) + full.skip(chunk) =~= full);
    }
}

/// Only the stop event ends a capture without an error.
pub proof fn law_capture_ends_on_request(capture: CaptureView, event: CaptureEventView)
    ensures
        capture.after(event).action is Finish ==> event == CaptureEventView::Waited(0),
        capture.after(CaptureEventView::Waited(0)).action is Finish,
{
}

/// Audio in stereo is sent unchanged: whoever reads the samples of a packet gets those that were
/// captured.
pub proof fn law_stereo_is_sent_unchanged(samples: Seq<u32>)
    requires
        samples.len() > 0,
    ensures
        packet_of(samples, 2) is Some,
        crate::samples::samples_of_bytes(packet_of(samples, 2)->0) == samples,
{
    crate::samples::law_samples_survive_as_bytes(samples);
}

/// Every packet holds whole frames of two channels, where the captured audio has one channel, or
/// more than two, or two and whole frames.
pub proof fn law_packets_hold_whole_frames(samples: Seq<u32>, channels: int)
    requires
        channels >= 1,
        channels == 2 ==> samples.len() % 2 == 0,
    ensures
        packet_of(samples, channels) matches Some(bytes) ==> bytes.len() > 0 && bytes.len() % 8
            == 0,
{
}

/// Captured audio with any number of channels is sent in stereo, every whole frame of it: a
/// packet holds the first two samples of each frame, or the only one twice, in order and nothing
/// between.
pub proof fn law_every_frame_is_sent_in_stereo(samples: Seq<u32>, channels: int, frame: int)
    requires
        channels >= 1,
        0 <= frame,
        (frame + 1) * channels <= samples.len(),
    ensures
        packet_of(samples, channels) is Some,
        ({
            let sent = crate::samples::samples_of_bytes(packet_of(samples, channels)->0);
            &&& 2 * frame + 1 < sent.len()
            &&& sent[2 * frame] == samples[frame * channels]
            &&& sent[2 * frame + 1] == samples[frame * channels + if channels > 1 {
                1int
            } else {
                0
            }]
            &&& channels != 2 || samples.len() % 2 == 0 ==> sent.len() == 2 * (samples.len() as int
                / channels)
        }),
{
    let len = samples.len() as int;
    assert(frame * channels + channels == (frame + 1) * channels) by (nonlinear_arith);
    assert(0 <= frame * channels) by (nonlinear_arith)
        requires
            0 <= frame,
            channels >= 1,
    ;
    assert(frame + 1 <= len / channels) by {
        vstd::arithmetic::div_mod::lemma_div_is_ordered((frame + 1) * channels, len, channels);
        vstd::arithmetic::div_mod::lemma_div_multiples_vanish(frame + 1, channels);
        assert(channels * (frame + 1) == (frame + 1) * channels) by (nonlinear_arith);
    }
    let stereo = crate::samples::with_channels(samples, channels, 2);
    crate::samples::law_stereo_keeps_front(samples, channels, frame);
    crate::samples::law_samples_survive_as_bytes(stereo);
    crate::samples::law_only_stereo_is_made(samples, channels, 2);
    if channels == 1 {
        assert(len / 1 == len);
        assert(frame * channels == frame) by (nonlinear_arith)
            requires
                channels == 1,
        ;
    }
    assert(frame * 2 == 2 * frame);
}

/// No packet is sent exactly where there is nothing to send: no samples at all, or not one whole
/// frame of more than two channels.
pub proof fn law_nothing_is_sent_of_nothing(samples: Seq<u32>, channels: int)
    requires
        channels >= 1,
    ensures
        packet_of(samples, channels) is None <==> samples.len() == 0 || (channels > 2
            && samples.len() < channels),
{
    let len = samples.len() as int;
    if channels > 2 {
        if len < channels {
            vstd::arithmetic::div_mod::lemma_basic_div(len, channels);
        } else {
            vstd::arithmetic::div_mod::lemma_div_non_zero(len, channels);
        }
    }
}

/// Audio can be captured exactly where its samples are single-precision numbers of 32 bits,
/// either plainly or by an extension that is large enough to say so.
pub proof fn law_supported_formats(format: MixFormat)
    ensures
        is_supported(format) <==> format.bits_per_sample == 32 && (format.format_tag == 3 || (
        format.format_tag == 0xFFFE && format.extension_size >= 22 && format.extension_is_float)),
{
}

/// Audio at the rate that is sent is not resampled. Other audio is resampled in chunks of a tenth
/// of a second, but of no fewer than 256 frames.
pub proof fn law_chunks_last_a_tenth_of_a_second(samples_per_sec: u32)
    ensures
        chunk_frames(samples_per_sec) is None <==> samples_per_sec == 48000,
        chunk_frames(samples_per_sec) matches Some(frames) ==> {
            &&& frames >= 256
            &&& frames == 256 || frames * 10 <= samples_per_sec
            &&& frames * 10 + 10 > samples_per_sec
        },
{
}

/// A packet holds audio exactly where it has frames and data and the bit for silence is not set.
pub proof fn law_audio_is_told_from_silence(frames: u32, flags: u32, has_data: bool)
    ensures
        holds_audio(frames, flags, has_data) <==> frames > 0 && has_data && (flags / 2) % 2 == 0,
{
    assert(flags & 2 == 0 <==> (flags / 2) % 2 == 0) by (bit_vector);
}

/// The first of the two events ends the capture, the second has every packet fetched until none
/// is left, and anything else is a failure. None of this touches the samples that wait.
pub proof fn law_events_drive_the_capture(capture: CaptureView, number: u32)
    ensures
        capture.after(CaptureEventView::Waited(0)).action == CaptureActionView::Finish,
        capture.after(CaptureEventView::Waited(1)).action == CaptureActionView::AskPacketSize,
        number >= 2 ==> capture.after(CaptureEventView::Waited(number)).action
            == CaptureActionView::FailWait,
        capture.after(CaptureEventView::PacketSize(0)).action == CaptureActionView::Wait,
        number > 0 ==> capture.after(CaptureEventView::PacketSize(number)).action
            == CaptureActionView::FetchPacket,
        capture.after(CaptureEventView::Sent(true)).action == CaptureActionView::AskPacketSize,
        capture.after(CaptureEventView::Sent(false)).action is Fail,
        capture.after(CaptureEventView::Waited(number)).state == capture,
        capture.after(CaptureEventView::PacketSize(number)).state == capture,
        capture.after(CaptureEventView::Sent(true)).state == capture,
        capture.after(CaptureEventView::Sent(false)).state == capture,
{
}

/// A packet without audio changes nothing, and the next one is asked for.
pub proof fn law_packet_without_audio_is_skipped(
    capture: CaptureView,
    frames: u32,
    flags: u32,
    bytes: Option<Seq<u8>>,
)
    requires
        bytes is None || frames == 0 || (flags / 2) % 2 == 1,
    ensures
        ({
            let step = capture.after((CaptureEventView::Packet { frames, flags, bytes }));
            step.state == capture && step.action == CaptureActionView::AskPacketSize
        }),
{
    law_audio_is_told_from_silence(frames, flags, true);
}

/// A packet whose samples do not have four bytes ends the capture where it holds one such sample,
/// and nothing of it is taken in where it does not.
pub proof fn law_other_sample_widths_fail(
    capture: CaptureView,
    frames: u32,
    flags: u32,
    bytes: Seq<u8>,
)
    requires
        capture.wf(),
        capture.bits_per_sample < 32 || capture.bits_per_sample >= 40,
        capture.chunk is None,
        frames > 0 && (flags / 2) % 2 == 0,
    ensures
        ({
            let step = capture.after(
                (CaptureEventView::Packet { frames, flags, bytes: Some(bytes) }),
            );
            &&& bytes.len() * 8 + 7 >= capture.bits_per_sample ==> step.action is Fail
                && step.state == capture
            &&& bytes.len() * 8 + 7 < capture.bits_per_sample && capture.pending.len() == 0
                ==> step.action == CaptureActionView::AskPacketSize && step.state == capture
        }),
{
    law_audio_is_told_from_silence(frames, flags, true);
    assert(capture.pending.len() == 0 ==> capture.pending =~= Seq::<u32>::empty());
    assert(capture.pending + Seq::<u32>::empty() =~= capture.pending);
}

/// Where nothing is resampled, what was captured is sent behind what waits to be sent, frame by
/// frame in stereo, and then nothing waits any more.
pub proof fn law_captured_frames_are_sent(
    capture: CaptureView,
    frames: u32,
    flags: u32,
    bytes: Seq<u8>,
    frame: int,
)
    requires
        capture.wf(),
        capture.chunk is None,
        capture.bits_per_sample == 32,
        capture.pending.len() == 0,
        frames > 0 && (flags / 2) % 2 == 0,
        0 <= frame,
        (frame + 1) * capture.channels <= bytes.len() / 4,
    ensures
        ({
            let step = capture.after(
                (CaptureEventView::Packet { frames, flags, bytes: Some(bytes) }),
            );
            let captured = crate::samples::samples_of_bytes(bytes);
            &&& step.state == capture
            &&& step.action matches CaptureActionView::Send(InternalUpdateView::AudioDataPacket(p))
                && ({
                let sent = crate::samples::samples_of_bytes(p);
                &&& 2 * frame + 1 < sent.len()
                &&& sent[2 * frame] == captured[frame * capture.channels]
                &&& sent[2 * frame + 1] == captured[frame * capture.channels + if capture.channels
                    > 1 {
                    1int
                } else {
                    0
                }]
            })
        }),
{
    let captured = crate::samples::samples_of_bytes(bytes);
    law_audio_is_told_from_silence(frames, flags, true);
    law_capture_passes_audio_on(capture, frames, flags, bytes);
    law_every_frame_is_sent_in_stereo(captured, capture.channels, frame);
}

/// Where audio is resampled, a captured packet is dealt out behind what waits; if then every
/// channel holds a chunk, just that chunk of each goes to the resampler and the rest waits on.
pub proof fn law_whole_chunks_are_resampled(
    capture: CaptureView,
    frames: u32,
    flags: u32,
    bytes: Seq<u8>,
    chunk: usize,
)
    requires
        capture.wf(),
        capture.chunk == Some(chunk),
        capture.bits_per_sample == 32,
        frames > 0 && (flags / 2) % 2 == 0,
    ensures
        ({
            let step = capture.after(
                (CaptureEventView::Packet { frames, flags, bytes: Some(bytes) }),
            );
            let captured = crate::samples::samples_of_bytes(bytes);
            let all = |c: int|
                capture.buffer[c] + crate::samples::channel_of(captured, c, capture.channels);
            let ready = forall|c: int|
                0 <= c < capture.channels ==> (#[trigger] all(c)).len() >= chunk;
            &&& ready <==> step.action is Resample
            &&& step.state.buffer.len() == capture.channels
            &&& step.action matches CaptureActionView::Resample(taken) ==> {
                &&& step.state.pending == capture.pending
                &&& taken.len() == capture.channels
                &&& forall|c: int|
                    0 <= c < capture.channels ==> #[trigger] taken[c] == all(c).take(chunk as int)
                &&& forall|c: int|
                    0 <= c < capture.channels ==> #[trigger] step.state.buffer[c] == all(c).skip(
                        chunk as int,
                    )
            }
            &&& !(step.action is Resample) ==> forall|c: int|
                0 <= c < capture.channels ==> #[trigger] step.state.buffer[c] == all(c)
            &&& step.state.channels == capture.channels && step.state.chunk == capture.chunk
            &&& step.state.bits_per_sample == capture.bits_per_sample
        }),
{
    law_audio_is_told_from_silence(frames, flags, true);
    let captured = crate::samples::samples_of_bytes(bytes);
    let all = |c: int|
        capture.buffer[c] + crate::samples::channel_of(captured, c, capture.channels);
    let full = dealt(capture.buffer, captured);
    assert forall|c: int| 0 <= c < capture.channels implies #[trigger] full[c] == all(c) by {}
    if forall|c: int| 0 <= c < capture.channels ==> (#[trigger] all(c)).len() >= chunk {
        assert(crate::samples::has_chunk(full, chunk as int)) by {
            assert forall|c: int| 0 <= c < full.len() implies (#[trigger] full[c]).len()
                >= chunk by {
                assert(full[c] == all(c));
            }
        }
    } else {
        let c = choose|c: int| 0 <= c < capture.channels && (#[trigger] all(c)).len() < chunk;
        assert(full[c].len() < chunk);
    }
}

/// What comes back from the resampler waits behind what waits to be sent; while another chunk is
/// ready that one is resampled first, else everything that waits is sent.
pub proof fn law_resampled_audio_is_sent(
    capture: CaptureView,
    channels: Seq<Seq<u32>>,
    valid_frames: int,
    chunk: usize,
    f: int,
    c: int,
)
    requires
        capture.wf(),
        capture.chunk == Some(chunk),
        0 <= f < valid_frames,
        0 <= c < channels.len(),
    ensures
        ({
            let step = capture.after((CaptureEventView::Resampled { channels, valid_frames }));
            let ready = forall|d: int|
                0 <= d < capture.channels ==> (#[trigger] capture.buffer[d]).len() >= chunk;
            let place = capture.pending.len() + (f * channels.len() + c);
            &&& ready ==> {
                &&& step.action is Resample
                &&& step.state.pending.len() == capture.pending.len() + valid_frames
                    * channels.len()
                &&& step.state.pending.take(capture.pending.len() as int) == capture.pending
                &&& step.state.pending[place] == channels[c][f]
            }
            &&& !ready ==> {
                &&& step.state.pending.len() == 0
                &&& step.state.buffer == capture.buffer
                &&& exists|waiting: Seq<u32>|
                    {
                        &&& waiting.len() == capture.pending.len() + valid_frames * channels.len()
                        &&& waiting.take(capture.pending.len() as int) == capture.pending
                        &&& waiting[place] == channels[c][f]
                        &&& step.action == match #[trigger] packet_of(waiting, capture.channels) {
                            Some(bytes) => CaptureActionView::Send(
                                InternalUpdateView::AudioDataPacket(bytes),
                            ),
                            None => CaptureActionView::AskPacketSize,
                        }
                    }
            }
        }),
{
    let n = channels.len() as int;
    let added = crate::samples::interleaved(channels, valid_frames, n);
    let waiting = capture.pending + added;
    crate::samples::law_frames_stand_together(channels, valid_frames, f, c);
    assert(0 <= f * n + c < valid_frames * n) by (nonlinear_arith)
        requires
            0 <= f < valid_frames,
            0 <= c < n,
    ;
    assert(waiting[capture.pending.len() + (f * n + c)] == added[f * n + c]);
    assert(waiting.take(capture.pending.len() as int) =~= capture.pending);
    let step = capture.after((CaptureEventView::Resampled { channels, valid_frames }));
    if crate::samples::has_chunk(capture.buffer, chunk as int) {
        assert(step.state.pending == waiting);
    } else {
        let p = packet_of(waiting, capture.channels);
    }
}

} // verus!
