//! Timing record of one dictation, from the shortcut to the injected text.
//!
//! Points in time are monotonic nanoseconds; durations are nanoseconds.

use crate::transcription::BackendMetrics;
use vstd::prelude::*;

verus! {

/// Size of one captured sample in bytes.
pub const BYTES_PER_SAMPLE: u128 = 4;

/// What a recorder holds, as contracts see it.
pub struct BenchmarkView {
    /// Name of the transcription backend.
    pub provider_label: Seq<char>,
    /// When the shortcut that started the recording was seen.
    pub keybind_start: u64,
    /// When the shortcut that stopped the recording was seen.
    pub keybind_stop: Option<u64>,
    /// When capture began.
    pub recording_start: u64,
    /// When capture ended.
    pub recording_stop: Option<u64>,
    /// When processing of the captured audio began.
    pub processing_start: Option<u64>,
    /// Samples captured.
    pub original_samples: Option<usize>,
    /// Rate of the captured samples.
    pub original_sample_rate: Option<u32>,
    /// Samples left after trimming.
    pub trimmed_samples: Option<usize>,
    /// Rate of the trimmed samples.
    pub trimmed_sample_rate: Option<u32>,
    /// Samples that trimming dropped.
    pub fast_vad_dropped_samples: Option<usize>,
    /// Time spent trimming.
    pub fast_vad_duration: Option<u64>,
    /// Time spent preprocessing.
    pub preprocess_duration: Option<u64>,
    /// Time the backend spent encoding.
    pub encode_duration: Option<u64>,
    /// Size of the encoded audio.
    pub encoded_bytes: Option<usize>,
    /// Time the backend spent uploading.
    pub upload_duration: Option<u64>,
    /// Time the backend waited for the response.
    pub response_duration: Option<u64>,
    /// Time the backend took in all.
    pub transcription_duration: Option<u64>,
    /// Samples handed to the backend.
    pub audio_sent_samples: Option<usize>,
    /// Rate of the samples handed to the backend.
    pub audio_sent_sample_rate: Option<u32>,
    /// When text injection began.
    pub injection_start: Option<u64>,
    /// When text injection ended.
    pub injection_finish: Option<u64>,
    /// Time spent injecting.
    pub injection_duration: Option<u64>,
}

/// Collects the timing of one dictation.
pub struct BenchmarkRecorder {
    provider_label: String,
    keybind_start: u64,
    keybind_stop: Option<u64>,
    recording_start: u64,
    recording_stop: Option<u64>,
    processing_start: Option<u64>,
    original_samples: Option<usize>,
    original_sample_rate: Option<u32>,
    trimmed_samples: Option<usize>,
    trimmed_sample_rate: Option<u32>,
    fast_vad_dropped_samples: Option<usize>,
    fast_vad_duration: Option<u64>,
    preprocess_duration: Option<u64>,
    encode_duration: Option<u64>,
    encoded_bytes: Option<usize>,
    upload_duration: Option<u64>,
    response_duration: Option<u64>,
    transcription_duration: Option<u64>,
    audio_sent_samples: Option<usize>,
    audio_sent_sample_rate: Option<u32>,
    injection_start: Option<u64>,
    injection_finish: Option<u64>,
    injection_duration: Option<u64>,
}

impl View for BenchmarkRecorder {
    type V = BenchmarkView;

    closed spec fn view(&self) -> BenchmarkView {
        BenchmarkView {
            provider_label: self.provider_label@,
            keybind_start: self.keybind_start,
            keybind_stop: self.keybind_stop,
            recording_start: self.recording_start,
            recording_stop: self.recording_stop,
            processing_start: self.processing_start,
            original_samples: self.original_samples,
            original_sample_rate: self.original_sample_rate,
            trimmed_samples: self.trimmed_samples,
            trimmed_sample_rate: self.trimmed_sample_rate,
            fast_vad_dropped_samples: self.fast_vad_dropped_samples,
            fast_vad_duration: self.fast_vad_duration,
            preprocess_duration: self.preprocess_duration,
            encode_duration: self.encode_duration,
            encoded_bytes: self.encoded_bytes,
            upload_duration: self.upload_duration,
            response_duration: self.response_duration,
            transcription_duration: self.transcription_duration,
            audio_sent_samples: self.audio_sent_samples,
            audio_sent_sample_rate: self.audio_sent_sample_rate,
            injection_start: self.injection_start,
            injection_finish: self.injection_finish,
            injection_duration: self.injection_duration,
        }
    }
}

/// Time from `start` to `end`, zero when `end` lies before `start`.
pub open spec fn elapsed(start: u64, end: u64) -> u64 {
    if end >= start {
        (end - start) as u64
    } else {
        0
    }
}

/// Time from `start` to `end` where both are known.
pub open spec fn elapsed_between(start: Option<u64>, end: Option<u64>) -> Option<u64> {
    if start is Some && end is Some {
        Some(elapsed(start->0, end->0))
    } else {
        None
    }
}

/// Play time of `samples` samples at `rate` Hz in microseconds, rounded down.
pub open spec fn audio_micros(samples: Option<usize>, rate: Option<u32>) -> Option<u128> {
    if samples is Some && rate is Some && rate->0 != 0 {
        Some((samples->0 as int * 1_000_000 / rate->0 as int) as u128)
    } else {
        None
    }
}

/// Size of `samples` raw samples in bytes.
pub open spec fn raw_audio_bytes(samples: Option<usize>) -> Option<u128> {
    match samples {
        Some(count) => Some((count * BYTES_PER_SAMPLE) as u128),
        None => None,
    }
}

/// What trimming saved: `original - trimmed` where both are known and the
/// original is not the smaller one.
pub open spec fn saving(original: Option<u128>, trimmed: Option<u128>) -> Option<u128> {
    if original is Some && trimmed is Some && original->0 >= trimmed->0 {
        Some((original->0 - trimmed->0) as u128)
    } else {
        None
    }
}

/// `saved` as a share of `original` in tenths of a percent, rounded down.
pub open spec fn share_permille(saved: Option<u128>, original: Option<u128>) -> Option<u128> {
    if saved is Some && original is Some && original->0 > 0 && saved->0 <= original->0 {
        Some((saved->0 * 1000 / original->0 as int) as u128)
    } else {
        None
    }
}

/// `first` if it is known, else `second`.
pub open spec fn or_else<T>(first: Option<T>, second: Option<T>) -> Option<T> {
    if first is Some {
        first
    } else {
        second
    }
}

/// The figures of one dictation. Durations are nanoseconds, play times
/// microseconds and sizes bytes.
#[derive(Debug, Clone)]
pub struct BenchmarkSummary {
    pub provider_label: String,
    pub keybind_to_record_start: u64,
    pub recording_duration: Option<u64>,
    pub stop_to_processing: Option<u64>,
    pub fast_vad_trim: Option<u64>,
    pub encode: Option<u64>,
    pub upload: Option<u64>,
    pub response: Option<u64>,
    pub transcription: Option<u64>,
    pub injection: Option<u64>,
    pub total: u64,
    pub original_audio_micros: Option<u128>,
    pub original_audio_bytes: Option<u128>,
    pub trimmed_audio_micros: Option<u128>,
    pub trimmed_audio_bytes: Option<u128>,
    pub sent_audio_micros: Option<u128>,
    pub sent_audio_bytes: Option<usize>,
    pub encode_audio_bytes: Option<usize>,
    pub saved_audio_micros: Option<u128>,
    pub saved_audio_bytes: Option<u128>,
    pub fast_vad_saved_micros: Option<u128>,
    pub saved_audio_permille: Option<u128>,
}

/// Computes [`elapsed`].
pub fn diff_nanos(start: u64, end: u64) -> (out: u64)
    ensures
        out == elapsed(start, end),
{
    if end >= start {
        end - start
    } else {
        0
    }
}

/// Computes [`audio_micros`].
pub fn audio_length_micros(samples: Option<usize>, sample_rate: Option<u32>) -> (out: Option<u128>)
    ensures
        out == audio_micros(samples, sample_rate),
        out matches Some(micros) ==> micros <= 0xFFFF_FFFF_FFFF_FFFF * 1_000_000,
{
    match (samples, sample_rate) {
        (Some(count), Some(rate)) => {
            if rate == 0 {
                None
            } else {
                assert(count * 1_000_000 <= 0xFFFF_FFFF_FFFF_FFFF * 1_000_000) by (nonlinear_arith)
                    requires
                        count <= 0xFFFF_FFFF_FFFF_FFFF,
                ;
                Some((count as u128 * 1_000_000) / (rate as u128))
            }
        },
        _ => None,
    }
}

/// Computes [`raw_audio_bytes`].
pub fn raw_audio_size(samples: Option<usize>) -> (out: Option<u128>)
    ensures
        out == raw_audio_bytes(samples),
{
    match samples {
        Some(count) => Some(count as u128 * BYTES_PER_SAMPLE),
        None => None,
    }
}

/// Computes [`saving`].
pub fn saved_amount(original: Option<u128>, trimmed: Option<u128>) -> (out: Option<u128>)
    ensures
        out == saving(original, trimmed),
{
    match (original, trimmed) {
        (Some(a), Some(b)) => if a >= b {
            Some(a - b)
        } else {
            None
        },
        _ => None,
    }
}

/// Computes [`share_permille`] for play times of recordings.
fn saved_share_permille(saved: Option<u128>, original: Option<u128>) -> (out: Option<u128>)
    requires
        saved matches Some(part) ==> part <= 0xFFFF_FFFF_FFFF_FFFF * 1_000_000,
    ensures
        out == share_permille(saved, original),
{
    match (saved, original) {
        (Some(part), Some(whole)) => {
            if whole > 0 && part <= whole {
                Some(part * 1000 / whole)
            } else {
                None
            }
        },
        _ => None,
    }
}

impl BenchmarkRecorder {
    /// A recorder for a recording that the shortcut seen at `keybind_start`
    /// started at `recording_start`.
    pub fn new(provider_label: String, keybind_start: u64, recording_start: u64) -> (out: Self)
        ensures
            out@ == (BenchmarkView {
                provider_label: provider_label@,
                keybind_start,
                recording_start,
                keybind_stop: None,
                recording_stop: None,
                processing_start: None,
                original_samples: None,
                original_sample_rate: None,
                trimmed_samples: None,
                trimmed_sample_rate: None,
                fast_vad_dropped_samples: None,
                fast_vad_duration: None,
                preprocess_duration: None,
                encode_duration: None,
                encoded_bytes: None,
                upload_duration: None,
                response_duration: None,
                transcription_duration: None,
                audio_sent_samples: None,
                audio_sent_sample_rate: None,
                injection_start: None,
                injection_finish: None,
                injection_duration: None,
            }),
    {
        BenchmarkRecorder {
            provider_label,
            keybind_start,
            keybind_stop: None,
            recording_start,
            recording_stop: None,
            processing_start: None,
            original_samples: None,
            original_sample_rate: None,
            trimmed_samples: None,
            trimmed_sample_rate: None,
            fast_vad_dropped_samples: None,
            fast_vad_duration: None,
            preprocess_duration: None,
            encode_duration: None,
            encoded_bytes: None,
            upload_duration: None,
            response_duration: None,
            transcription_duration: None,
            audio_sent_samples: None,
            audio_sent_sample_rate: None,
            injection_start: None,
            injection_finish: None,
            injection_duration: None,
        }
    }

    /// Notes when the shortcut that stops the recording was seen.
    pub fn mark_keybind_stop(&mut self, at: u64)
        ensures
            final(self)@ == (BenchmarkView { keybind_stop: Some(at), ..old(self)@ }),
    {
        self.keybind_stop = Some(at);
    }

    /// Notes when capture ended.
    pub fn mark_recording_stop(&mut self, at: u64)
        ensures
            final(self)@ == (BenchmarkView { recording_stop: Some(at), ..old(self)@ }),
    {
        self.recording_stop = Some(at);
    }

    /// Notes how much audio was captured; ignored for a zero rate.
    pub fn record_original_audio(&mut self, samples: usize, sample_rate: u32)
        ensures
            final(self)@ == if sample_rate > 0 {
                BenchmarkView {
                    original_samples: Some(samples),
                    original_sample_rate: Some(sample_rate),
                    ..old(self)@
                }
            } else {
                old(self)@
            },
    {
        if sample_rate > 0 {
            self.original_samples = Some(samples);
            self.original_sample_rate = Some(sample_rate);
        }
    }

    /// Notes when processing began.
    pub fn mark_processing_start(&mut self, at: u64)
        ensures
            final(self)@ == (BenchmarkView { processing_start: Some(at), ..old(self)@ }),
    {
        self.processing_start = Some(at);
    }

    /// Notes how long preprocessing took; trimming is all of it.
    pub fn record_preprocess_duration(&mut self, duration: u64)
        ensures
            final(self)@ == (BenchmarkView {
                preprocess_duration: Some(duration),
                fast_vad_duration: Some(duration),
                ..old(self)@
            }),
    {
        self.preprocess_duration = Some(duration);
        self.fast_vad_duration = Some(duration);
    }

    /// Notes how much audio trimming left and, where known, how much it
    /// dropped; ignored for a zero rate.
    pub fn record_trimmed_audio(
        &mut self,
        samples: usize,
        sample_rate: u32,
        dropped_samples: Option<usize>,
    )
        ensures
            final(self)@ == if sample_rate > 0 {
                BenchmarkView {
                    trimmed_samples: Some(samples),
                    trimmed_sample_rate: Some(sample_rate),
                    fast_vad_dropped_samples: or_else(
                        dropped_samples,
                        old(self)@.fast_vad_dropped_samples,
                    ),
                    ..old(self)@
                }
            } else {
                old(self)@
            },
    {
        if sample_rate > 0 {
            self.trimmed_samples = Some(samples);
            self.trimmed_sample_rate = Some(sample_rate);
            if let Some(value) = dropped_samples {
                self.fast_vad_dropped_samples = Some(value);
            }
        }
    }

    /// Notes how much audio went to the backend; ignored for a zero rate.
    pub fn record_audio_sent(&mut self, samples: usize, sample_rate: u32)
        ensures
            final(self)@ == if sample_rate > 0 {
                BenchmarkView {
                    audio_sent_samples: Some(samples),
                    audio_sent_sample_rate: Some(sample_rate),
                    ..old(self)@
                }
            } else {
                old(self)@
            },
    {
        if sample_rate > 0 {
            self.audio_sent_samples = Some(samples);
            self.audio_sent_sample_rate = Some(sample_rate);
        }
    }

    /// Takes over what the backend measured.
    pub fn record_backend_metrics(&mut self, metrics: BackendMetrics)
        ensures
            final(self)@ == (BenchmarkView {
                encode_duration: metrics.encode_duration,
                encoded_bytes: metrics.encoded_bytes,
                upload_duration: metrics.upload_duration,
                response_duration: metrics.response_duration,
                transcription_duration: Some(metrics.transcription_duration),
                ..old(self)@
            }),
    {
        self.encode_duration = metrics.encode_duration;
        self.encoded_bytes = metrics.encoded_bytes;
        self.upload_duration = metrics.upload_duration;
        self.response_duration = metrics.response_duration;
        self.transcription_duration = Some(metrics.transcription_duration);
    }

    /// Notes when injection began.
    pub fn mark_injection_start(&mut self, at: u64)
        ensures
            final(self)@ == (BenchmarkView { injection_start: Some(at), ..old(self)@ }),
    {
        self.injection_start = Some(at);
    }

    /// Notes when injection ended, and how long it took if its start is known.
    pub fn mark_injection_end(&mut self, at: u64)
        ensures
            final(self)@ == (BenchmarkView {
                injection_finish: Some(at),
                injection_duration: match old(self)@.injection_start {
                    Some(start) => Some(elapsed(start, at)),
                    None => old(self)@.injection_duration,
                },
                ..old(self)@
            }),
    {
        if let Some(start) = self.injection_start {
            self.injection_duration = Some(diff_nanos(start, at));
        }
        self.injection_finish = Some(at);
    }

    /// Notes that nothing was injected: injection starts and ends at `at`.
    pub fn mark_injection_skipped(&mut self, at: u64)
        ensures
            final(self)@ == (BenchmarkView {
                injection_start: Some(at),
                injection_finish: Some(at),
                injection_duration: Some(0u64),
                ..old(self)@
            }),
    {
        self.injection_start = Some(at);
        self.injection_finish = Some(at);
        self.injection_duration = Some(0);
    }

    /// The figures of the dictation; `None` until injection has ended or was
    /// skipped.
    pub fn finalize(self) -> (out: Option<BenchmarkSummary>)
        ensures
            out is Some <==> self@.injection_finish is Some,
            out matches Some(summary) ==> {
                let v = self@;
                let original_micros = audio_micros(v.original_samples, v.original_sample_rate);
                let trimmed_micros = audio_micros(v.trimmed_samples, v.trimmed_sample_rate);
                &&& summary.provider_label@ == v.provider_label
                &&& summary.keybind_to_record_start == elapsed(v.keybind_start, v.recording_start)
                &&& summary.recording_duration == elapsed_between(
                    Some(v.recording_start),
                    v.recording_stop,
                )
                &&& summary.stop_to_processing == elapsed_between(
                    v.keybind_stop,
                    v.processing_start,
                )
                &&& summary.fast_vad_trim == or_else(v.preprocess_duration, v.fast_vad_duration)
                &&& summary.encode == v.encode_duration
                &&& summary.upload == v.upload_duration
                &&& summary.response == v.response_duration
                &&& summary.transcription == v.transcription_duration
                &&& summary.injection == v.injection_duration
                &&& summary.total == elapsed(v.keybind_start, v.injection_finish->0)
                &&& summary.original_audio_micros == original_micros
                &&& summary.original_audio_bytes == raw_audio_bytes(v.original_samples)
                &&& summary.trimmed_audio_micros == trimmed_micros
                &&& summary.trimmed_audio_bytes == raw_audio_bytes(v.trimmed_samples)
                &&& summary.sent_audio_micros == audio_micros(
                    v.audio_sent_samples,
                    v.audio_sent_sample_rate,
                )
                &&& summary.sent_audio_bytes == v.encoded_bytes
                &&& summary.encode_audio_bytes == v.encoded_bytes
                &&& summary.saved_audio_micros == saving(original_micros, trimmed_micros)
                &&& summary.saved_audio_bytes == saving(
                    raw_audio_bytes(v.original_samples),
                    raw_audio_bytes(v.trimmed_samples),
                )
                &&& summary.fast_vad_saved_micros == or_else(
                    audio_micros(v.fast_vad_dropped_samples, v.original_sample_rate),
                    saving(original_micros, trimmed_micros),
                )
                &&& summary.saved_audio_permille == share_permille(
                    saving(original_micros, trimmed_micros),
                    original_micros,
                )
            },
    {
        let injection_finish = match self.injection_finish {
            Some(at) => at,
            None => {
                return None;
            },
        };
        let recording_duration = match self.recording_stop {
            Some(stop) => Some(diff_nanos(self.recording_start, stop)),
            None => None,
        };
        let stop_to_processing = match (self.keybind_stop, self.processing_start) {
            (Some(stop), Some(processing)) => Some(diff_nanos(stop, processing)),
            _ => None,
        };
        let fast_vad_trim = match self.preprocess_duration {
            Some(d) => Some(d),
            None => self.fast_vad_duration,
        };
        let original_audio_micros = audio_length_micros(
            self.original_samples,
            self.original_sample_rate,
        );
        let original_audio_bytes = raw_audio_size(self.original_samples);
        let trimmed_audio_micros = audio_length_micros(
            self.trimmed_samples,
            self.trimmed_sample_rate,
        );
        let trimmed_audio_bytes = raw_audio_size(self.trimmed_samples);
        let sent_audio_micros = audio_length_micros(
            self.audio_sent_samples,
            self.audio_sent_sample_rate,
        );
        let saved_audio_micros = saved_amount(original_audio_micros, trimmed_audio_micros);
        let saved_audio_bytes = saved_amount(original_audio_bytes, trimmed_audio_bytes);
        let saved_audio_permille = saved_share_permille(saved_audio_micros, original_audio_micros);
        let dropped_micros = audio_length_micros(
            self.fast_vad_dropped_samples,
            self.original_sample_rate,
        );
        let fast_vad_saved_micros = match dropped_micros {
            Some(d) => Some(d),
            None => saved_audio_micros,
        };
        Some(
            BenchmarkSummary {
                provider_label: self.provider_label,
                keybind_to_record_start: diff_nanos(self.keybind_start, self.recording_start),
                recording_duration,
                stop_to_processing,
                fast_vad_trim,
                encode: self.encode_duration,
                upload: self.upload_duration,
                response: self.response_duration,
                transcription: self.transcription_duration,
                injection: self.injection_duration,
                total: diff_nanos(self.keybind_start, injection_finish),
                original_audio_micros,
                original_audio_bytes,
                trimmed_audio_micros,
                trimmed_audio_bytes,
                sent_audio_micros,
                sent_audio_bytes: self.encoded_bytes,
                encode_audio_bytes: self.encoded_bytes,
                saved_audio_micros,
                saved_audio_bytes,
                fast_vad_saved_micros,
                saved_audio_permille,
            },
        )
    }
}

} // verus!
