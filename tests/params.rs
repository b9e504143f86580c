use whisper_rs::{FullParams, SamplingStrategy, WhisperError};

#[test]
fn language_set_many_times_keeps_only_the_last() {
    let mut params = FullParams::new(SamplingStrategy::Greedy { best_of: 1 });
    for _ in 0..1000 {
        assert!(params.set_language(Some("en")).is_ok());
        assert!(params.set_language(Some("es")).is_ok());
        assert!(params.set_language(Some("fr")).is_ok());
    }
    let lang = params.language().expect("a language is set");
    assert_eq!(lang.to_bytes(), b"fr");
    assert_eq!(lang.as_bytes_with_nul(), b"fr\0");
    drop(params);
}

#[test]
fn language_set_twice_leaves_second() {
    let mut params = FullParams::new(SamplingStrategy::BeamSearch { beam_size: 5 });
    params.set_language(Some("de")).unwrap();
    params.set_language(Some("ja")).unwrap();
    assert_eq!(params.language().map(|c| c.to_bytes().to_vec()), Some(b"ja".to_vec()));
}

#[test]
fn language_none_means_detect() {
    let mut params = FullParams::new(SamplingStrategy::Greedy { best_of: 1 });
    params.set_language(Some("en")).unwrap();
    params.set_language(None).unwrap();
    assert!(params.language().is_none());
}

#[test]
fn language_with_nul_is_refused_and_keeps_previous() {
    let mut params = FullParams::new(SamplingStrategy::Greedy { best_of: 1 });
    params.set_language(Some("en")).unwrap();
    assert_eq!(params.set_language(Some("e\0n")), Err(WhisperError::NullByteInString));
    assert_eq!(params.language().unwrap().to_bytes(), b"en");
}

#[test]
fn initial_prompt_set_many_times() {
    let mut params = FullParams::new(SamplingStrategy::Greedy { best_of: 1 });
    for _ in 0..1000 {
        params.set_initial_prompt("First prompt").unwrap();
        params.set_initial_prompt("Second prompt").unwrap();
        params.set_initial_prompt("Third prompt").unwrap();
    }
    assert_eq!(params.initial_prompt().unwrap().to_bytes(), b"Third prompt");
    params.clear_initial_prompt();
    assert!(params.initial_prompt().is_none());
}

#[test]
fn fresh_params_have_engine_defaults() {
    let params = FullParams::new(SamplingStrategy::Greedy { best_of: 2 });
    assert_eq!(params.strategy(), SamplingStrategy::Greedy { best_of: 2 });
    assert!(params.language().is_none());
    assert!(params.initial_prompt().is_none());
    assert!(params.forced_tokens().is_none());
    assert_eq!(params.n_threads(), None);
    assert!(!params.translate());
    assert!(params.no_context());
    assert!(!params.single_segment());
    assert!(!params.print_special());
    assert!(params.print_progress());
    assert!(!params.print_realtime());
    assert!(params.print_timestamps());
    assert!(!params.token_timestamps());
    assert!(!params.skip_encode());
    assert!(!params.capture_top_candidates());
    assert_eq!(params.n_top_candidates(), 0);
}

#[test]
fn setters_change_only_their_field() {
    let mut params = FullParams::new(SamplingStrategy::Greedy { best_of: 1 });
    params.set_n_threads(8);
    params.set_translate(true);
    params.set_print_progress(false);
    params.set_print_realtime(true);
    params.set_capture_top_candidates(true);
    params.set_n_top_candidates(5);
    params.set_skip_encode(true);
    assert_eq!(params.n_threads(), Some(8));
    assert!(params.translate());
    assert!(!params.print_progress());
    assert!(params.print_realtime());
    assert!(params.capture_top_candidates());
    assert_eq!(params.n_top_candidates(), 5);
    assert!(params.skip_encode());
    assert!(params.print_timestamps());
    assert!(!params.token_timestamps());
}
