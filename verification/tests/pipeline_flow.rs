use smwc2wav::pipeline::{
    validate_cover_art, ArchiveReason, FatalError, Pipeline, PipelineStage, ToolReason,
};
use smwc2wav::progress::StageProgress;
use smwc2wav::signature::EmbedEncoding;

#[test]
fn happy_path_without_reencode_ends_done_with_waveform() {
    let mut p = Pipeline::new();
    assert_eq!(p.stage, PipelineStage::Pending);
    p.begin_download();
    assert_eq!(p.stage, PipelineStage::Downloading);
    p.finish_download("123.zip".to_string(), true);
    assert_eq!(p.stage, PipelineStage::Extracting);
    assert_eq!(p.archive.as_deref(), Some("123.zip"));
    p.finish_extract(true, Some("c.spc".to_string()));
    assert_eq!(p.stage, PipelineStage::Converting);
    // the archive is gone once converting begins
    assert!(p.archive.is_none());
    assert_eq!(p.raw_audio.as_deref(), Some("c.spc"));
    p.finish_convert("c.wav".to_string(), Ok(()), false);
    assert_eq!(p.stage, PipelineStage::Done);
    assert!(p.raw_audio.is_none());
    assert_eq!(p.waveform.as_deref(), Some("c.wav"));
    assert!(!p.tagging_failed);
}

#[test]
fn happy_path_with_reencode_and_tagging() {
    let mut p = Pipeline::new();
    p.begin_download();
    p.finish_download("9.zip".to_string(), true);
    p.finish_extract(true, Some("song.spc".to_string()));
    p.finish_convert("song.wav".to_string(), Ok(()), true);
    assert_eq!(p.stage, PipelineStage::Reencoding);
    assert_eq!(p.waveform.as_deref(), Some("song.wav"));
    p.finish_reencode("song.flac".to_string(), Ok(()));
    assert_eq!(p.stage, PipelineStage::Tagging);
    // the waveform is gone once tagging begins
    assert!(p.waveform.is_none());
    assert_eq!(p.final_audio.as_deref(), Some("song.flac"));
    p.finish_tagging(true);
    assert_eq!(p.stage, PipelineStage::Done);
    assert!(!p.tagging_failed);
    assert_eq!(p.final_audio.as_deref(), Some("song.flac"));
}

#[test]
fn tagging_failure_is_caught_and_keeps_the_reencoded_file() {
    let mut p = Pipeline::new();
    p.begin_download();
    p.finish_download("9.zip".to_string(), true);
    p.finish_extract(true, Some("song.spc".to_string()));
    p.finish_convert("song.wav".to_string(), Ok(()), true);
    p.finish_reencode("song.flac".to_string(), Ok(()));
    let before = p.final_audio.clone();
    p.finish_tagging(false);
    // the run still completes, and the just-produced file is untouched
    assert_eq!(p.stage, PipelineStage::Done);
    assert!(p.tagging_failed);
    assert_eq!(p.final_audio, before);
}

#[test]
fn dropped_download_is_a_fatal_network_error() {
    let mut p = Pipeline::new();
    p.begin_download();
    p.finish_download("9.zip".to_string(), false);
    assert_eq!(p.stage, PipelineStage::Failed(FatalError::Network));
    assert!(p.archive.is_none());
}

#[test]
fn zero_matching_entries_is_fatal_and_archive_counts_as_processed() {
    let mut p = Pipeline::new();
    p.begin_download();
    p.finish_download("9.zip".to_string(), true);
    p.finish_extract(true, None);
    assert_eq!(
        p.stage,
        PipelineStage::Failed(FatalError::Archive(ArchiveReason::NoMatchingEntries))
    );
    // the scan completed, so the archive was deleted
    assert!(p.archive.is_none());
}

#[test]
fn incomplete_scan_keeps_the_archive() {
    let mut p = Pipeline::new();
    p.begin_download();
    p.finish_download("9.zip".to_string(), true);
    p.finish_extract(false, None);
    assert_eq!(
        p.stage,
        PipelineStage::Failed(FatalError::Archive(ArchiveReason::Corrupt))
    );
    // the scan did not complete, so the archive was not deleted
    assert_eq!(p.archive.as_deref(), Some("9.zip"));
}

#[test]
fn missing_decoder_is_a_fatal_tool_error_and_keeps_the_raw_audio() {
    let mut p = Pipeline::new();
    p.begin_download();
    p.finish_download("9.zip".to_string(), true);
    p.finish_extract(true, Some("song.spc".to_string()));
    p.finish_convert(
        "song.wav".to_string(),
        Err(ToolReason::MissingExecutable),
        true,
    );
    assert_eq!(
        p.stage,
        PipelineStage::Failed(FatalError::ExternalTool(ToolReason::MissingExecutable))
    );
    assert_eq!(p.raw_audio.as_deref(), Some("song.spc"));
    assert!(p.waveform.is_none());
}

#[test]
fn failed_encoder_keeps_the_waveform() {
    let mut p = Pipeline::new();
    p.begin_download();
    p.finish_download("9.zip".to_string(), true);
    p.finish_extract(true, Some("song.spc".to_string()));
    p.finish_convert("song.wav".to_string(), Ok(()), true);
    p.finish_reencode("song.flac".to_string(), Err(ToolReason::NonZeroExit));
    assert_eq!(
        p.stage,
        PipelineStage::Failed(FatalError::ExternalTool(ToolReason::NonZeroExit))
    );
    assert_eq!(p.waveform.as_deref(), Some("song.wav"));
    assert!(p.final_audio.is_none());
}

#[test]
fn filesystem_failure_aborts_in_place() {
    let mut p = Pipeline::new();
    p.begin_download();
    p.finish_download("9.zip".to_string(), true);
    p.fail(FatalError::Filesystem);
    assert_eq!(p.stage, PipelineStage::Failed(FatalError::Filesystem));
    assert_eq!(p.archive.as_deref(), Some("9.zip"));
}

#[test]
fn cover_art_validation_accepts_only_embeddable_kinds() {
    let png = vec![0x89, 0x50, 0x4E, 0x47, 0x0D, 0x0A, 0x1A, 0x0A];
    assert_eq!(validate_cover_art(&png), Ok(EmbedEncoding::Png));
    let jpeg = vec![0xFF, 0xD8, 0xFF, 0xDB];
    assert_eq!(validate_cover_art(&jpeg), Ok(EmbedEncoding::Jpeg));
    // recognized, but with no embeddable-encoding mapping: a hard failure
    let ogg = vec![0x4F, 0x67, 0x67, 0x53];
    assert_eq!(validate_cover_art(&ogg), Err(FatalError::UnsupportedFormat));
    // unrecognized bytes are a hard failure too
    let junk = vec![0x00, 0x01, 0x02, 0x03];
    assert_eq!(validate_cover_art(&junk), Err(FatalError::UnsupportedFormat));
}

#[test]
fn progress_finish_completes_even_after_partial_advances() {
    let mut bar = StageProgress::begin(PipelineStage::Downloading, 100);
    bar.advance(30);
    bar.advance(30);
    assert_eq!(bar.current, 60);
    bar.finish();
    assert!(bar.finished);
    assert_eq!(bar.current, 100);
}

#[test]
fn progress_advances_clamp_at_the_total() {
    let mut bar = StageProgress::begin(PipelineStage::Extracting, 10);
    bar.advance(7);
    bar.advance(7);
    assert_eq!(bar.current, 10);
    bar.finish();
    assert_eq!(bar.current, 10);
}
