//! Voice-triggered application launcher: recording sessions, WAV encoding,
//! transcription job control and keyword triggers.
pub mod keywords;
pub mod session;
pub mod transcription;
pub mod wav;

pub use keywords::{contains_word, launch_for, Launcher};
pub use session::RecordingSession;
pub use transcription::{
    job_request_body, job_status_url, Action, ResponseFields, TranscribeError, TranscriptionJob,
    POLL_INTERVAL_SECS,
};
pub use wav::{encode_wav, read_header, WavError, WavHeader, SAMPLE_RATE};
