use hyprwhspr_rs::whisper::{
    next_binary, pcm_bytes, transcription_text, wav_header, whisper_args, FormattedVadSettings,
    WhisperRun, WhisperVadOptions,
};

fn run() -> WhisperRun {
    WhisperRun {
        model_path: "/m/ggml.bin".to_string(),
        audio_file: "/t/audio_1.wav".to_string(),
        threads: 12,
        prompt: "Hello.".to_string(),
        no_speech_threshold: "0.6".to_string(),
        vad: WhisperVadOptions::disabled(),
        vad_settings: FormattedVadSettings {
            threshold: "0.5".to_string(),
            max_speech_s: None,
            samples_overlap: "0.1".to_string(),
        },
        gpu_layers: 0,
    }
}

#[test]
fn wav_header_of_one_second() {
    let header = wav_header(16_000).unwrap();
    let expected: Vec<u8> = vec![
        b'R', b'I', b'F', b'F', 0x24, 0x7D, 0x00, 0x00, b'W', b'A', b'V', b'E', b'f', b'm', b't',
        b' ', 16, 0, 0, 0, 1, 0, 1, 0, 0x80, 0x3E, 0, 0, 0x00, 0x7D, 0, 0, 2, 0, 16, 0, b'd',
        b'a', b't', b'a', 0x00, 0x7D, 0x00, 0x00,
    ];
    assert_eq!(header, expected);
    assert_eq!(&header[4..8], &(36u32 + 32_000).to_le_bytes());
    assert_eq!(&header[40..44], &32_000u32.to_le_bytes());
}

#[test]
fn wav_header_limits() {
    let empty = wav_header(0).unwrap();
    assert_eq!(empty.len(), 44);
    assert_eq!(&empty[4..8], &36u32.to_le_bytes());
    let largest = wav_header(2_147_483_629).unwrap();
    assert_eq!(&largest[4..8], &u32::MAX.wrapping_sub(1).to_le_bytes());
    assert_eq!(&largest[40..44], &4_294_967_258u32.to_le_bytes());
    assert_eq!(wav_header(2_147_483_630), None);
}

#[test]
fn pcm_bytes_are_little_endian_twos_complement() {
    let samples: Vec<i16> = vec![0, 1, -1, 256, i16::MIN, i16::MAX, -32_767];
    let mut expected: Vec<u8> = Vec::new();
    for sample in &samples {
        expected.extend_from_slice(&sample.to_le_bytes());
    }
    assert_eq!(pcm_bytes(&samples), expected);
    assert!(pcm_bytes(&Vec::new()).is_empty());
}

#[test]
fn arguments_without_voice_detection() {
    assert_eq!(
        whisper_args(&run()),
        vec![
            "-m", "/m/ggml.bin", "-f", "/t/audio_1.wav", "--output-txt", "--language", "en",
            "--threads", "12", "--prompt", "Hello.", "--no-timestamps", "--no-speech-thold",
            "0.6", "--no-gpu",
        ]
    );
    let mut on_gpu = run();
    on_gpu.gpu_layers = 35;
    on_gpu.threads = 0;
    on_gpu.vad.enabled = true;
    let args = whisper_args(&on_gpu);
    assert_eq!(args.len(), 14);
    assert_eq!(args[8], "0");
    assert_eq!(args[13], "0.6");
}

#[test]
fn arguments_with_voice_detection() {
    let mut with_vad = run();
    with_vad.gpu_layers = -1;
    with_vad.vad.enabled = true;
    with_vad.vad.model_path = Some("/m/vad.bin".to_string());
    assert!(with_vad.vad.is_active());
    let args = whisper_args(&with_vad);
    assert_eq!(
        &args[14..],
        &[
            "--vad", "--vad-model", "/m/vad.bin", "--vad-threshold", "0.5",
            "--vad-min-speech-duration-ms", "250", "--vad-min-silence-duration-ms", "100",
            "--vad-speech-pad-ms", "30", "--vad-samples-overlap", "0.1",
        ]
    );
    with_vad.vad_settings.max_speech_s = Some("12.5".to_string());
    with_vad.gpu_layers = 0;
    let args = whisper_args(&with_vad);
    assert_eq!(&args[23..25], &["--vad-max-speech-duration-s", "12.5"]);
    assert_eq!(args.last().unwrap(), "--no-gpu");
    assert_eq!(args.len(), 30);
    with_vad.vad.enabled = false;
    assert!(!with_vad.vad.is_active());
    assert_eq!(whisper_args(&with_vad).len(), 15);
}

#[test]
fn binaries_are_tried_in_order() {
    let exists = vec![false, true, false, true];
    assert_eq!(next_binary(&exists, None), Some(1));
    assert_eq!(next_binary(&exists, Some(0)), Some(1));
    assert_eq!(next_binary(&exists, Some(1)), Some(3));
    assert_eq!(next_binary(&exists, Some(3)), None);
    assert_eq!(next_binary(&exists, Some(9)), None);
    assert_eq!(next_binary(&exists, Some(usize::MAX)), None);
    assert_eq!(next_binary(&Vec::new(), None), None);
    assert_eq!(next_binary(&vec![false], None), None);
}

#[test]
fn transcript_comes_from_the_file_or_the_output() {
    assert_eq!(transcription_text(Some("  from file \n"), "from stdout"), "from file");
    assert_eq!(transcription_text(None, "\n from stdout "), "from stdout");
    assert_eq!(transcription_text(Some(""), "from stdout"), "");
}
