//! Running the whisper command-line tool: the audio file it reads, the
//! arguments it gets and what counts as its answer.
//!
//! The caller scales the samples to 16 bits, formats the fractional settings,
//! writes the file and runs the tool.

use crate::text::{chars_of, decimal, decimal_digits, spec_trim, string_of, texts_view, trim};
use vstd::prelude::*;

verus! {

/// Rate of the audio handed to the tool, in Hz.
pub const WAV_SAMPLE_RATE: u32 = 16_000;

/// Length of the header of an audio file in bytes.
pub const WAV_HEADER_LEN: usize = 44;

/// The two bytes of `x`, low byte first.
pub open spec fn le_bytes_u16(x: u16) -> Seq<u8> {
    seq![(x % 256) as u8, (x / 256) as u8]
}

/// The four bytes of `x`, lowest byte first.
pub open spec fn le_bytes_u32(x: u32) -> Seq<u8> {
    seq![
        (x % 256) as u8,
        ((x / 256) % 256) as u8,
        ((x / 65_536) % 256) as u8,
        (x / 16_777_216) as u8,
    ]
}

/// The header of a file of 16-bit mono PCM audio at 16 kHz with `data_size`
/// bytes of samples: the `RIFF` chunk, the `fmt ` chunk and the head of the
/// `data` chunk.
pub open spec fn spec_wav_header(data_size: u32) -> Seq<u8>
    recommends
        data_size + 36 <= u32::MAX,
{
    seq![0x52u8, 0x49u8, 0x46u8, 0x46u8] + le_bytes_u32((36 + data_size) as u32)
        + seq![0x57u8, 0x41u8, 0x56u8, 0x45u8] + seq![0x66u8, 0x6Du8, 0x74u8, 0x20u8]
        + le_bytes_u32(16) + le_bytes_u16(1) + le_bytes_u16(1) + le_bytes_u32(WAV_SAMPLE_RATE)
        + le_bytes_u32(32_000) + le_bytes_u16(2) + le_bytes_u16(16)
        + seq![0x64u8, 0x61u8, 0x74u8, 0x61u8] + le_bytes_u32(data_size)
}

/// Appends the two bytes of `x`, low byte first.
fn push_u16(buffer: &mut Vec<u8>, x: u16)
    ensures
        final(buffer)@ == old(buffer)@ + le_bytes_u16(x),
{
    let ghost before = buffer@;
    buffer.push((x % 256) as u8);
    buffer.push((x / 256) as u8);
    assert(buffer@ =~= before + le_bytes_u16(x));
}

/// Appends the four bytes of `x`, lowest byte first.
fn push_u32(buffer: &mut Vec<u8>, x: u32)
    ensures
        final(buffer)@ == old(buffer)@ + le_bytes_u32(x),
{
    let ghost before = buffer@;
    buffer.push((x % 256) as u8);
    buffer.push(((x / 256) % 256) as u8);
    buffer.push(((x / 65_536) % 256) as u8);
    buffer.push((x / 16_777_216) as u8);
    assert(buffer@ =~= before + le_bytes_u32(x));
}

/// Appends four given bytes.
fn push_tag(buffer: &mut Vec<u8>, a: u8, b: u8, c: u8, d: u8)
    ensures
        final(buffer)@ == old(buffer)@ + seq![a, b, c, d],
{
    let ghost before = buffer@;
    buffer.push(a);
    buffer.push(b);
    buffer.push(c);
    buffer.push(d);
    assert(buffer@ =~= before + seq![a, b, c, d]);
}

/// The header of an audio file that holds `sample_count` samples; `None`
/// where so many samples do not fit the format.
pub fn wav_header(sample_count: usize) -> (out: Option<Vec<u8>>)
    ensures
        match out {
            Some(header) => sample_count * 2 + 36 <= u32::MAX && header@ == spec_wav_header(
                (sample_count * 2) as u32,
            ) && header@.len() == WAV_HEADER_LEN,
            None => sample_count * 2 + 36 > u32::MAX,
        },
{
    if sample_count > 2_147_483_629 {
        return None;
    }
    let data_size: u32 = (sample_count * 2) as u32;
    let mut header: Vec<u8> = Vec::new();
    assert(header@ =~= Seq::<u8>::empty());
    push_tag(&mut header, 0x52, 0x49, 0x46, 0x46);
    push_u32(&mut header, 36 + data_size);
    push_tag(&mut header, 0x57, 0x41, 0x56, 0x45);
    push_tag(&mut header, 0x66, 0x6D, 0x74, 0x20);
    push_u32(&mut header, 16);
    push_u16(&mut header, 1);
    push_u16(&mut header, 1);
    push_u32(&mut header, WAV_SAMPLE_RATE);
    push_u32(&mut header, 32_000);
    push_u16(&mut header, 2);
    push_u16(&mut header, 16);
    push_tag(&mut header, 0x64, 0x61, 0x74, 0x61);
    push_u32(&mut header, data_size);
    assert(header@ =~= spec_wav_header(data_size));
    Some(header)
}

/// The bytes of 16-bit samples, each low byte first; a sample is taken as
/// the number between 0 and 65535 that has the same bits.
pub open spec fn spec_pcm_bytes(samples: Seq<i16>) -> Seq<u8>
    decreases samples.len(),
{
    if samples.len() == 0 {
        Seq::<u8>::empty()
    } else {
        spec_pcm_bytes(samples.drop_last()) + le_bytes_u16(unsigned_bits(samples.last()))
    }
}

/// The number between 0 and 65535 with the bits of `sample` in two's
/// complement.
pub open spec fn unsigned_bits(sample: i16) -> u16 {
    if sample >= 0 {
        sample as u16
    } else {
        (sample + 65_536) as u16
    }
}

/// The bytes of 16-bit samples as the audio file holds them.
pub fn pcm_bytes(samples: &Vec<i16>) -> (out: Vec<u8>)
    ensures
        out@ == spec_pcm_bytes(samples@),
{
    let mut out: Vec<u8> = Vec::new();
    let mut i: usize = 0;
    assert(samples@.take(0) =~= Seq::<i16>::empty());
    while i < samples.len()
        invariant
            i <= samples.len(),
            out@ == spec_pcm_bytes(samples@.take(i as int)),
        decreases samples.len() - i,
    {
        let sample = samples[i];
        let bits: u16 = if sample >= 0 {
            sample as u16
        } else {
            (sample as i32 + 65_536) as u16
        };
        proof {
            assert(samples@.take(i + 1).drop_last() =~= samples@.take(i as int));
            assert(samples@.take(i + 1).last() == sample);
        }
        push_u16(&mut out, bits);
        i += 1;
    }
    assert(samples@.take(samples.len() as int) =~= samples@);
    out
}

/// The voice detection settings of the tool that are whole numbers or
/// switches; the fractional ones are formatted by the caller.
#[derive(Debug, Clone)]
pub struct WhisperVadOptions {
    pub enabled: bool,
    pub model_path: Option<String>,
    pub min_speech_ms: u32,
    pub min_silence_ms: u32,
    pub speech_pad_ms: u32,
}

impl WhisperVadOptions {
    /// Voice detection switched off, with the tool's usual timings.
    pub fn disabled() -> (out: Self)
        ensures
            !out.enabled,
            out.model_path is None,
            out.min_speech_ms == 250,
            out.min_silence_ms == 100,
            out.speech_pad_ms == 30,
    {
        WhisperVadOptions {
            enabled: false,
            model_path: None,
            min_speech_ms: 250,
            min_silence_ms: 100,
            speech_pad_ms: 30,
        }
    }

    /// Whether the tool is to detect voice: it must be switched on and have a
    /// model.
    pub fn is_active(&self) -> (out: bool)
        ensures
            out == (self.enabled && self.model_path is Some),
    {
        self.enabled && self.model_path.is_some()
    }
}

/// The fractional voice detection settings, formatted.
#[derive(Debug, Clone)]
pub struct FormattedVadSettings {
    pub threshold: String,
    /// The longest stretch of speech in seconds; `None` for no limit.
    pub max_speech_s: Option<String>,
    pub samples_overlap: String,
}

/// What one run of the tool is given.
#[derive(Debug, Clone)]
pub struct WhisperRun {
    pub model_path: String,
    pub audio_file: String,
    pub threads: usize,
    pub prompt: String,
    /// The threshold below which a segment counts as silence, formatted.
    pub no_speech_threshold: String,
    pub vad: WhisperVadOptions,
    pub vad_settings: FormattedVadSettings,
    /// Zero keeps the tool off the graphics processor.
    pub gpu_layers: i32,
}

/// The arguments for voice detection: none while it is not active.
pub open spec fn spec_vad_args(vad: WhisperVadOptions, settings: FormattedVadSettings) -> Seq<Seq<char>> {
    if vad.enabled && vad.model_path is Some {
        seq![
            "--vad"@,
            "--vad-model"@,
            vad.model_path->0@,
            "--vad-threshold"@,
            settings.threshold@,
            "--vad-min-speech-duration-ms"@,
            decimal(vad.min_speech_ms as nat),
            "--vad-min-silence-duration-ms"@,
            decimal(vad.min_silence_ms as nat),
        ] + (match settings.max_speech_s {
            Some(limit) => seq!["--vad-max-speech-duration-s"@, limit@],
            None => Seq::<Seq<char>>::empty(),
        }) + seq![
            "--vad-speech-pad-ms"@,
            decimal(vad.speech_pad_ms as nat),
            "--vad-samples-overlap"@,
            settings.samples_overlap@,
        ]
    } else {
        Seq::<Seq<char>>::empty()
    }
}

/// The arguments of one run of the tool: model and audio file, plain text
/// output in English, threads and prompt, the silence threshold, voice
/// detection where it is active, and `--no-gpu` for zero GPU layers.
pub open spec fn spec_whisper_args(run: WhisperRun) -> Seq<Seq<char>> {
    seq![
        "-m"@,
        run.model_path@,
        "-f"@,
        run.audio_file@,
        "--output-txt"@,
        "--language"@,
        "en"@,
        "--threads"@,
        decimal(run.threads as nat),
        "--prompt"@,
        run.prompt@,
        "--no-timestamps"@,
        "--no-speech-thold"@,
        run.no_speech_threshold@,
    ] + spec_vad_args(run.vad, run.vad_settings) + (if run.gpu_layers == 0 {
        seq!["--no-gpu"@]
    } else {
        Seq::<Seq<char>>::empty()
    })
}

/// Appends a copy of `text` to `args`.
fn push_arg(args: &mut Vec<String>, text: &str)
    ensures
        texts_view(final(args)@) == texts_view(old(args)@).push(text@),
{
    let ghost before = args@;
    args.push(text.to_owned());
    assert(texts_view(args@) =~= texts_view(before).push(text@));
}

/// Appends `value` in decimal to `args`.
fn push_number(args: &mut Vec<String>, value: u64)
    ensures
        texts_view(final(args)@) == texts_view(old(args)@).push(decimal(value as nat)),
{
    let text = string_of(&decimal_digits(value));
    push_arg(args, text.as_str());
}

/// Builds the arguments of one run of the tool; see [`spec_whisper_args`].
pub fn whisper_args(run: &WhisperRun) -> (out: Vec<String>)
    ensures
        texts_view(out@) == spec_whisper_args(*run),
{
    let mut args: Vec<String> = Vec::new();
    assert(texts_view(args@) =~= Seq::<Seq<char>>::empty());
    push_arg(&mut args, "-m");
    push_arg(&mut args, run.model_path.as_str());
    push_arg(&mut args, "-f");
    push_arg(&mut args, run.audio_file.as_str());
    push_arg(&mut args, "--output-txt");
    push_arg(&mut args, "--language");
    push_arg(&mut args, "en");
    push_arg(&mut args, "--threads");
    push_number(&mut args, run.threads as u64);
    push_arg(&mut args, "--prompt");
    push_arg(&mut args, run.prompt.as_str());
    push_arg(&mut args, "--no-timestamps");
    push_arg(&mut args, "--no-speech-thold");
    push_arg(&mut args, run.no_speech_threshold.as_str());
    let ghost basic = texts_view(args@);
    assert(basic =~= seq![
        "-m"@,
        run.model_path@,
        "-f"@,
        run.audio_file@,
        "--output-txt"@,
        "--language"@,
        "en"@,
        "--threads"@,
        decimal(run.threads as nat),
        "--prompt"@,
        run.prompt@,
        "--no-timestamps"@,
        "--no-speech-thold"@,
        run.no_speech_threshold@,
    ]);
    if run.vad.is_active() {
        if let Some(model_path) = &run.vad.model_path {
            push_arg(&mut args, "--vad");
            push_arg(&mut args, "--vad-model");
            push_arg(&mut args, model_path.as_str());
            push_arg(&mut args, "--vad-threshold");
            push_arg(&mut args, run.vad_settings.threshold.as_str());
            push_arg(&mut args, "--vad-min-speech-duration-ms");
            push_number(&mut args, run.vad.min_speech_ms as u64);
            push_arg(&mut args, "--vad-min-silence-duration-ms");
            push_number(&mut args, run.vad.min_silence_ms as u64);
            if let Some(limit) = &run.vad_settings.max_speech_s {
                push_arg(&mut args, "--vad-max-speech-duration-s");
                push_arg(&mut args, limit.as_str());
            }
            push_arg(&mut args, "--vad-speech-pad-ms");
            push_number(&mut args, run.vad.speech_pad_ms as u64);
            push_arg(&mut args, "--vad-samples-overlap");
            push_arg(&mut args, run.vad_settings.samples_overlap.as_str());
        }
    }
    assert(texts_view(args@) =~= basic + spec_vad_args(run.vad, run.vad_settings));
    if run.gpu_layers == 0 {
        push_arg(&mut args, "--no-gpu");
    }
    assert(texts_view(args@) =~= spec_whisper_args(*run));
    args
}

/// The binary to try next: the first one after `previous` that exists, or
/// the first one of all before any was tried.
pub fn next_binary(exists: &Vec<bool>, previous: Option<usize>) -> (out: Option<usize>)
    ensures
        match out {
            Some(index) => index < exists@.len() && exists@[index as int] && (previous matches Some(
                p,
            ) ==> p < index) && forall|j: int|
                0 <= j < index && (previous matches Some(p) ==> p < j) ==> !exists@[j],
            None => forall|j: int|
                0 <= j < exists@.len() && (previous matches Some(p) ==> p < j) ==> !exists@[j],
        },
{
    let start: usize = match previous {
        Some(p) => {
            if p >= exists.len() {
                return None;
            }
            p + 1
        },
        None => 0,
    };
    let mut i: usize = start;
    while i < exists.len()
        invariant
            start <= i <= exists.len(),
            previous matches Some(p) ==> start == p + 1,
            previous is None ==> start == 0,
            forall|j: int| start <= j < i ==> !exists@[j],
        decreases exists.len() - i,
    {
        if exists[i] {
            return Some(i);
        }
        i += 1;
    }
    None
}

/// The transcript of a run: what the tool wrote to its text file or, where
/// it wrote none, to its output, without the white space around it.
pub fn transcription_text(text_file: Option<&str>, stdout: &str) -> (out: String)
    ensures
        out@ == spec_trim(
            match text_file {
                Some(content) => content@,
                None => stdout@,
            },
        ),
{
    let raw = match text_file {
        Some(content) => content,
        None => stdout,
    };
    string_of(&trim(&chars_of(raw)))
}

} // verus!
