//! The errors of the suite, and what they say. Errors of the system and of other crates come as
//! the text that describes them.
use vstd::prelude::*;
use vstd::string::*;

verus! {

/// An error of the audio capture.
#[derive(Debug)]
pub enum AudioCaptureError {
    /// A call of the system has failed.
    ComError(String),
    /// The resampler could not be made.
    ResamplerConstructionError(String),
    /// The resampler has failed.
    ResamplerProcessingError(String),
    /// A packet could not be sent.
    SendError(String),
    /// The system mixes audio in another format than the expected one.
    UnsupportedFormat { format_tag: u16, bits_per_sample: u16 },
    /// The system gave no format.
    GetMixFormatReturnedNull,
    /// Captured bytes do not make up a sample.
    BytesToSampleConversion,
}

/// An error of the suite.
#[derive(Debug)]
pub enum SmtcError {
    /// The worker thread could not be started.
    WorkerThread(String),
    /// A call of the system has failed.
    Windows(String),
    /// The resampler has failed.
    Resample(String),
    /// The resampler could not be made.
    ResamplerConstruction(String),
    /// A command could not be sent.
    CommandSendError,
    /// The audio capture has failed.
    AudioCapture(AudioCaptureError),
    /// A volume could not be changed.
    VolumeControl(String),
    /// The asynchronous runtime could not be made.
    TokioRuntime(String),
    /// The service is running already.
    AlreadyRunning,
    /// A lock was held by a thread that has panicked.
    MutexPoisoned(String),
}

/// The decimal digit of a number below ten.
pub open spec fn digit(n: int) -> char {
    ((n + 48) as u32) as char
}

/// A number in decimal notation.
pub open spec fn decimal(n: nat) -> Seq<char>
    decreases n,
{
    if n < 10 {
        seq![digit(n as int)]
    } else {
        decimal(n / 10).push(digit((n % 10) as int))
    }
}

/// The decimal digit of a number below ten.
fn digit_of(n: u16) -> (c: char)
    requires
        n < 10,
    ensures
        c == digit(n as int),
{
    let code: u8 = n as u8 + 48;
    code as char
}

/// Appends a number in decimal notation.
pub fn append_decimal(text: &mut String, n: u16)
    ensures
        final(text)@ == old(text)@ + decimal(n as nat),
    decreases n,
{
    if n >= 10 {
        append_decimal(text, n / 10);
    }
    text.push(digit_of(n % 10));
    assert(text@ =~= old(text)@ + decimal(n as nat));
}

/// Writes a heading and what it is about.
fn headed(heading: &str, detail: &str) -> (text: String)
    ensures
        text@ == heading@ + detail@,
{
    let mut text: String = heading.to_owned();
    text.append(detail);
    text
}

impl AudioCaptureError {
    /// What the error says.
    pub open spec fn text(self) -> Seq<char> {
        match self {
            AudioCaptureError::ComError(e) => "COM Error: "@ + e@,
            AudioCaptureError::ResamplerConstructionError(e) => "Resampler construction error: "@
                + e@,
            AudioCaptureError::ResamplerProcessingError(e) => "Resampler processing error: "@ + e@,
            AudioCaptureError::SendError(e) => "Channel Send Error: "@ + e@,
            AudioCaptureError::UnsupportedFormat { format_tag, bits_per_sample } =>
                "Unsupported audio format: tag="@ + decimal(format_tag as nat) + ", bits="@
                    + decimal(bits_per_sample as nat),
            AudioCaptureError::GetMixFormatReturnedNull => "GetMixFormat returned a null pointer"@,
            AudioCaptureError::BytesToSampleConversion =>
                "Failed to convert byte slice to f32 sample"@,
        }
    }

    /// What the error says.
    pub fn message(&self) -> (message: String)
        ensures
            message@ == self.text(),
    {
        match self {
            AudioCaptureError::ComError(e) => headed("COM Error: ", e.as_str()),
            AudioCaptureError::ResamplerConstructionError(e) => headed(
                "Resampler construction error: ",
                e.as_str(),
            ),
            AudioCaptureError::ResamplerProcessingError(e) => headed(
                "Resampler processing error: ",
                e.as_str(),
            ),
            AudioCaptureError::SendError(e) => headed("Channel Send Error: ", e.as_str()),
            AudioCaptureError::UnsupportedFormat { format_tag, bits_per_sample } => {
                let mut text: String = "Unsupported audio format: tag=".to_owned();
                append_decimal(&mut text, *format_tag);
                text.append(", bits=");
                append_decimal(&mut text, *bits_per_sample);
                text
            },
            AudioCaptureError::GetMixFormatReturnedNull =>
                "GetMixFormat returned a null pointer".to_owned(),
            AudioCaptureError::BytesToSampleConversion =>
                "Failed to convert byte slice to f32 sample".to_owned(),
        }
    }
}

impl SmtcError {
    /// What the error says.
    pub open spec fn text(self) -> Seq<char> {
        match self {
            SmtcError::WorkerThread(e) => "Unable to start worker thread: "@ + e@,
            SmtcError::Windows(e) => "Windows API call failed: "@ + e@,
            SmtcError::Resample(e) => "Audio resampling process failed: "@ + e@,
            SmtcError::ResamplerConstruction(e) => "Audio resampler creation failed: "@ + e@,
            SmtcError::CommandSendError => "Failed to send external command to worker thread"@,
            SmtcError::AudioCapture(e) => "Audio capture failed: "@ + e.text(),
            SmtcError::VolumeControl(e) => "Volume control failed: "@ + e@,
            SmtcError::TokioRuntime(e) => "Tokio runtime creation failed: "@ + e@,
            SmtcError::AlreadyRunning =>
                "The media service is already running and cannot be started again."@,
            SmtcError::MutexPoisoned(e) => "The lock has been poisoned: "@ + e@,
        }
    }

    /// What the error says.
    pub fn message(&self) -> (message: String)
        ensures
            message@ == self.text(),
    {
        match self {
            SmtcError::WorkerThread(e) => headed("Unable to start worker thread: ", e.as_str()),
            SmtcError::Windows(e) => headed("Windows API call failed: ", e.as_str()),
            SmtcError::Resample(e) => headed("Audio resampling process failed: ", e.as_str()),
            SmtcError::ResamplerConstruction(e) => headed(
                "Audio resampler creation failed: ",
                e.as_str(),
            ),
            SmtcError::CommandSendError =>
                "Failed to send external command to worker thread".to_owned(),
            SmtcError::AudioCapture(e) => headed("Audio capture failed: ", e.message().as_str()),
            SmtcError::VolumeControl(e) => headed("Volume control failed: ", e.as_str()),
            SmtcError::TokioRuntime(e) => headed("Tokio runtime creation failed: ", e.as_str()),
            SmtcError::AlreadyRunning =>
                "The media service is already running and cannot be started again.".to_owned(),
            SmtcError::MutexPoisoned(e) => headed("The lock has been poisoned: ", e.as_str()),
        }
    }
}

/// The number that decimal digits stand for.
pub open spec fn number_in(text: Seq<char>) -> int
    decreases text.len(),
{
    if text.len() == 0 {
        0
    } else {
        10 * number_in(text.drop_last()) + (text.last() as int - '0' as int)
    }
}

/// A number in decimal notation is written in digits, without a zero in front of it, and stands
/// for that number.
pub proof fn law_decimal_reads_back(n: nat)
    ensures
        number_in(decimal(n)) == n,
        decimal(n).len() > 0,
        forall|i: int| 0 <= i < decimal(n).len() ==> '0' <= #[trigger] decimal(n)[i] <= '9',
        n > 0 ==> decimal(n)[0] != '0',
        n == 0 ==> decimal(n) == seq!['0'],
    decreases n,
{
    if n < 10 {
        assert(decimal(n).drop_last() =~= Seq::<char>::empty());
        assert(number_in(Seq::<char>::empty()) == 0);
        assert(decimal(n).last() as int == n + 48);
    } else {
        law_decimal_reads_back(n / 10);
        assert(decimal(n).drop_last() =~= decimal(n / 10));
        assert(decimal(n)[0] == decimal(n / 10)[0]);
        assert(n / 10 > 0);
        assert(decimal(n).last() as int == n % 10 + 48);
    }
}

/// An error of the audio capture says what has failed, and then why.
pub proof fn law_capture_errors_say_what_failed(e: String, format_tag: u16, bits_per_sample: u16)
    ensures
        AudioCaptureError::ComError(e).text() == "COM Error: "@ + e@,
        AudioCaptureError::ResamplerConstructionError(e).text()
            == "Resampler construction error: "@ + e@,
        AudioCaptureError::ResamplerProcessingError(e).text() == "Resampler processing error: "@
            + e@,
        AudioCaptureError::SendError(e).text() == "Channel Send Error: "@ + e@,
        (AudioCaptureError::UnsupportedFormat { format_tag, bits_per_sample }).text()
            == "Unsupported audio format: tag="@ + decimal(format_tag as nat) + ", bits="@
            + decimal(bits_per_sample as nat),
        AudioCaptureError::GetMixFormatReturnedNull.text()
            == "GetMixFormat returned a null pointer"@,
        AudioCaptureError::BytesToSampleConversion.text()
            == "Failed to convert byte slice to f32 sample"@,
{
}

/// An error of the suite says what has failed, and then why; one of the audio capture says both.
pub proof fn law_errors_say_what_failed(e: String, capture: AudioCaptureError)
    ensures
        SmtcError::WorkerThread(e).text() == "Unable to start worker thread: "@ + e@,
        SmtcError::Windows(e).text() == "Windows API call failed: "@ + e@,
        SmtcError::Resample(e).text() == "Audio resampling process failed: "@ + e@,
        SmtcError::ResamplerConstruction(e).text() == "Audio resampler creation failed: "@ + e@,
        SmtcError::CommandSendError.text() == "Failed to send external command to worker thread"@,
        SmtcError::AudioCapture(capture).text() == "Audio capture failed: "@ + capture.text(),
        SmtcError::VolumeControl(e).text() == "Volume control failed: "@ + e@,
        SmtcError::TokioRuntime(e).text() == "Tokio runtime creation failed: "@ + e@,
        SmtcError::AlreadyRunning.text()
            == "The media service is already running and cannot be started again."@,
        SmtcError::MutexPoisoned(e).text() == "The lock has been poisoned: "@ + e@,
{
}

} // verus!
