//! The staged acquisition pipeline: Download -> Extract -> Convert ->
//! optional Reencode + Tag.
//!
//! The pipeline owns a single working artifact at a time.  Each stage
//! consumes the predecessor's artifact and deletes it once superseded;
//! the archive is deleted only after the full entry scan completed.
//! The outside work (network, archive reader, decoder and encoder
//! processes, the tag writer) is performed by the surrounding shell,
//! which reports each outcome back as a transition here.

use vstd::prelude::*;
use crate::signature::EmbedEncoding;
use crate::signature::EncodingOutcome;
use crate::signature::detect_spec;
use crate::signature::mime_spec;
use crate::signature::magictype;

verus! {

/// Why an archive could not be processed.
#[derive(Clone, Copy, Debug, PartialEq, Eq, Structural)]
pub enum ArchiveReason {
    /// The archive could not be opened or its entry scan stopped early.
    Corrupt,
    /// A full scan found no entry with the target raw-audio extension.
    NoMatchingEntries,
}

/// Why an external decoder or encoder invocation failed.
#[derive(Clone, Copy, Debug, PartialEq, Eq, Structural)]
pub enum ToolReason {
    /// The executable could not be found.
    MissingExecutable,
    /// The process ran and exited with a non-zero status.
    NonZeroExit,
}

/// A fatal failure: it aborts the whole run.
#[derive(Clone, Copy, Debug, PartialEq, Eq, Structural)]
pub enum FatalError {
    /// Dropped connection or non-success response status.
    Network,
    /// Corrupt archive or zero matching entries.
    Archive(ArchiveReason),
    /// Missing executable or non-zero exit of a decoder/encoder.
    ExternalTool(ToolReason),
    /// Create/delete/rename I/O or permission failure.
    Filesystem,
    /// A recognized signature with no embeddable-encoding mapping.
    UnsupportedFormat,
}

/// The stage the pipeline is in.
#[derive(Clone, Copy, Debug, PartialEq, Eq, Structural)]
pub enum PipelineStage {
    Pending,
    Downloading,
    Extracting,
    Converting,
    Reencoding,
    Tagging,
    Done,
    Failed(FatalError),
}

/// The pipeline and its single working artifact.
///
/// Each `Some(name)` field states that exactly that file currently exists
/// in the working directory; the well-formedness invariant ties the fields
/// to the stage, so that at most one canonical artifact is present at any
/// instant of a run that has not failed.
pub struct Pipeline {
    pub stage: PipelineStage,
    /// The downloaded archive, until the full entry scan completed.
    pub archive: Option<String>,
    /// The extracted raw-audio file, until decoding consumed it.
    pub raw_audio: Option<String>,
    /// The decoded waveform, until re-encoding consumed it (or the run
    /// finished with it).
    pub waveform: Option<String>,
    /// The re-encoded final file.
    pub final_audio: Option<String>,
    /// Whether the run completed with a caught, non-fatal tagging failure.
    pub tagging_failed: bool,
}

impl Pipeline {
    /// Stage/artifact agreement: on the success path the predecessor
    /// artifact of the current stage is gone and only the stage's input
    /// artifact exists.  A failed run keeps whatever was on disk for
    /// diagnosis.
    pub open spec fn wf(&self) -> bool {
        match self.stage {
            PipelineStage::Pending | PipelineStage::Downloading => {
                &&& self.archive is None
                &&& self.raw_audio is None
                &&& self.waveform is None
                &&& self.final_audio is None
                &&& !self.tagging_failed
            },
            PipelineStage::Extracting => {
                &&& self.archive is Some
                &&& self.raw_audio is None
                &&& self.waveform is None
                &&& self.final_audio is None
                &&& !self.tagging_failed
            },
            PipelineStage::Converting => {
                &&& self.archive is None
                &&& self.raw_audio is Some
                &&& self.waveform is None
                &&& self.final_audio is None
                &&& !self.tagging_failed
            },
            PipelineStage::Reencoding => {
                &&& self.archive is None
                &&& self.raw_audio is None
                &&& self.waveform is Some
                &&& self.final_audio is None
                &&& !self.tagging_failed
            },
            PipelineStage::Tagging => {
                &&& self.archive is None
                &&& self.raw_audio is None
                &&& self.waveform is None
                &&& self.final_audio is Some
                &&& !self.tagging_failed
            },
            PipelineStage::Done => {
                &&& self.archive is None
                &&& self.raw_audio is None
                &&& (self.waveform is Some <==> self.final_audio is None)
            },
            PipelineStage::Failed(_) => true,
        }
    }

    /// A fresh pipeline: nothing downloaded, nothing on disk.
    pub fn new() -> (p: Pipeline)
        ensures
            p.wf(),
            p.stage is Pending,
            p.archive is None,
            p.raw_audio is None,
            p.waveform is None,
            p.final_audio is None,
            !p.tagging_failed,
    {
        Pipeline {
            stage: PipelineStage::Pending,
            archive: None,
            raw_audio: None,
            waveform: None,
            final_audio: None,
            tagging_failed: false,
        }
    }

    /// Enter the download stage.  The shell must already hold the
    /// operator's confirmation: the pipeline accepts the "proceed" signal
    /// as its entry precondition.
    pub fn begin_download(&mut self)
        requires
            old(self).wf(),
            old(self).stage is Pending,
        ensures
            final(self).wf(),
            final(self).stage is Downloading,
            final(self).archive == old(self).archive,
            final(self).raw_audio == old(self).raw_audio,
            final(self).waveform == old(self).waveform,
            final(self).final_audio == old(self).final_audio,
            !final(self).tagging_failed,
    {
        self.stage = PipelineStage::Downloading;
    }

    /// Record the download outcome.  On success the archive was streamed
    /// to `archive_name` and extraction may begin; a dropped connection or
    /// non-success status is a fatal network error.
    pub fn finish_download(&mut self, archive_name: String, success: bool)
        requires
            old(self).wf(),
            old(self).stage is Downloading,
        ensures
            final(self).wf(),
            success ==> final(self).stage is Extracting
                && final(self).archive == Some(archive_name),
            !success ==> final(self).stage == PipelineStage::Failed(FatalError::Network)
                && final(self).archive is None,
            final(self).raw_audio is None,
            final(self).waveform is None,
            final(self).final_audio is None,
            !final(self).tagging_failed,
    {
        if success {
            self.archive = Some(archive_name);
            self.stage = PipelineStage::Extracting;
        } else {
            self.stage = PipelineStage::Failed(FatalError::Network);
        }
    }

    /// Record the extraction outcome.
    ///
    /// The archive is deleted exactly when the full entry scan completed:
    /// a scan that stopped early keeps it, and the shell must then leave
    /// the file in place.  A completed scan that found no entry with the
    /// target extension is a fatal archive error, reported with the
    /// archive already processed.
    pub fn finish_extract(&mut self, scan_completed: bool, raw_name: Option<String>)
        requires
            old(self).wf(),
            old(self).stage is Extracting,
        ensures
            final(self).wf(),
            // the source archive is deleted if and only if the scan completed
            final(self).archive is None <==> scan_completed,
            !scan_completed ==> final(self).stage == PipelineStage::Failed(
                FatalError::Archive(ArchiveReason::Corrupt),
            ) && final(self).archive == old(self).archive,
            scan_completed && raw_name is None ==> final(self).stage == PipelineStage::Failed(
                FatalError::Archive(ArchiveReason::NoMatchingEntries),
            ),
            scan_completed && raw_name is Some ==> final(self).stage is Converting
                && final(self).raw_audio == raw_name,
            raw_name is None ==> final(self).raw_audio is None,
            final(self).waveform is None,
            final(self).final_audio is None,
            !final(self).tagging_failed,
    {
        if !scan_completed {
            self.stage = PipelineStage::Failed(FatalError::Archive(ArchiveReason::Corrupt));
        } else {
            self.archive = None;
            match raw_name {
                Some(n) => {
                    self.raw_audio = Some(n);
                    self.stage = PipelineStage::Converting;
                },
                None => {
                    self.stage = PipelineStage::Failed(
                        FatalError::Archive(ArchiveReason::NoMatchingEntries),
                    );
                },
            }
        }
    }

    /// Record the decoder outcome.  On success the raw audio source was a
    /// single-use input and is deleted; `reencode` carries the operator's
    /// already-made choice of whether a re-encode stage follows.
    pub fn finish_convert(
        &mut self,
        waveform_name: String,
        outcome: Result<(), ToolReason>,
        reencode: bool,
    )
        requires
            old(self).wf(),
            old(self).stage is Converting,
        ensures
            final(self).wf(),
            // the raw audio source is deleted exactly when decoding succeeded
            final(self).raw_audio is None <==> outcome is Ok,
            outcome is Ok && reencode ==> final(self).stage is Reencoding
                && final(self).waveform == Some(waveform_name),
            outcome is Ok && !reencode ==> final(self).stage is Done
                && final(self).waveform == Some(waveform_name),
            outcome matches Err(r) ==> final(self).stage == PipelineStage::Failed(
                FatalError::ExternalTool(r),
            ) && final(self).raw_audio == old(self).raw_audio
                && final(self).waveform is None,
            final(self).archive is None,
            final(self).final_audio is None,
            !final(self).tagging_failed,
    {
        match outcome {
            Ok(()) => {
                self.raw_audio = None;
                self.waveform = Some(waveform_name);
                self.stage = if reencode {
                    PipelineStage::Reencoding
                } else {
                    PipelineStage::Done
                };
            },
            Err(r) => {
                self.stage = PipelineStage::Failed(FatalError::ExternalTool(r));
            },
        }
    }

    /// Record the encoder outcome.  On success the waveform was consumed
    /// and deleted, and tagging of the re-encoded file follows.
    pub fn finish_reencode(&mut self, final_name: String, outcome: Result<(), ToolReason>)
        requires
            old(self).wf(),
            old(self).stage is Reencoding,
        ensures
            final(self).wf(),
            // the waveform is deleted exactly when re-encoding succeeded
            final(self).waveform is None <==> outcome is Ok,
            outcome is Ok ==> final(self).stage is Tagging
                && final(self).final_audio == Some(final_name),
            outcome matches Err(r) ==> final(self).stage == PipelineStage::Failed(
                FatalError::ExternalTool(r),
            ) && final(self).waveform == old(self).waveform
                && final(self).final_audio is None,
            final(self).archive is None,
            final(self).raw_audio is None,
            !final(self).tagging_failed,
    {
        match outcome {
            Ok(()) => {
                self.waveform = None;
                self.final_audio = Some(final_name);
                self.stage = PipelineStage::Tagging;
            },
            Err(r) => {
                self.stage = PipelineStage::Failed(FatalError::ExternalTool(r));
            },
        }
    }

    /// Record the tagging outcome.  A tagging failure is caught and
    /// reported, but the run still completes and the just-produced
    /// re-encoded file is left exactly as it is: the transition takes no
    /// file content and neither deletes nor replaces the final artifact.
    pub fn finish_tagging(&mut self, success: bool)
        requires
            old(self).wf(),
            old(self).stage is Tagging,
        ensures
            final(self).wf(),
            final(self).stage is Done,
            // the re-encoded output is untouched whatever the outcome
            final(self).final_audio == old(self).final_audio,
            final(self).waveform == old(self).waveform,
            final(self).archive is None,
            final(self).raw_audio is None,
            final(self).tagging_failed == !success,
    {
        self.tagging_failed = !success;
        self.stage = PipelineStage::Done;
    }

    /// Abort the run with a fatal error, leaving every artifact exactly
    /// where it was for diagnosis.
    pub fn fail(&mut self, error: FatalError)
        requires
            old(self).wf(),
            !(old(self).stage is Done),
            !(old(self).stage is Failed),
        ensures
            final(self).wf(),
            final(self).stage == PipelineStage::Failed(error),
            final(self).archive == old(self).archive,
            final(self).raw_audio == old(self).raw_audio,
            final(self).waveform == old(self).waveform,
            final(self).final_audio == old(self).final_audio,
    {
        self.stage = PipelineStage::Failed(error);
    }
}

/// What pre-flight validation of optional cover art yields: the embeddable
/// encoding of its detected kind, or a hard failure when the buffer is not
/// recognized or its kind has no embeddable encoding.
pub open spec fn cover_validation_spec(d: Seq<u8>) -> Result<EmbedEncoding, FatalError> {
    match detect_spec(d) {
        Option::None => Result::Err(FatalError::UnsupportedFormat),
        Option::Some(k) => match mime_spec(k) {
            EncodingOutcome::Embeddable(e) => Result::Ok(e),
            EncodingOutcome::Unsupported => Result::Err(FatalError::UnsupportedFormat),
        },
    }
}

/// Validate optional cover art before any network activity: classify the
/// bytes and map the kind to an embeddable encoding.  An unrecognized or
/// unmappable kind is a hard validation failure, never a silent skip.
pub fn validate_cover_art(data: &Vec<u8>) -> (r: Result<EmbedEncoding, FatalError>)
    ensures
        r == cover_validation_spec(data@),
{
    match magictype(data) {
        None => Err(FatalError::UnsupportedFormat),
        Some(k) => match k.mime() {
            EncodingOutcome::Embeddable(e) => Ok(e),
            EncodingOutcome::Unsupported => Err(FatalError::UnsupportedFormat),
        },
    }
}

/// After each stage transition of a well-formed, non-failed pipeline the
/// predecessor stage's artifact is absent from the working directory: the
/// archive is gone once converting begins, the raw audio once a waveform
/// exists, and the waveform once a re-encoded file exists.  The one
/// exception is the archive while extraction is still scanning it.
pub proof fn lemma_predecessor_artifact_absent(p: Pipeline)
    requires
        p.wf(),
    ensures
        p.stage is Converting ==> p.archive is None,
        p.stage is Reencoding ==> p.archive is None && p.raw_audio is None,
        p.stage is Tagging ==> p.archive is None && p.raw_audio is None
            && p.waveform is None,
        p.stage is Done ==> p.archive is None && p.raw_audio is None
            && (p.final_audio is Some ==> p.waveform is None),
{
}

/// A caught tagging failure and a successful tagging run leave the same
/// artifacts behind: a completed run's final file does not depend on
/// whether tagging succeeded.
pub proof fn lemma_tagging_failure_keeps_output(p: Pipeline, ok: Pipeline, bad: Pipeline)
    requires
        p.wf(),
        p.stage is Tagging,
        ok == (Pipeline { stage: PipelineStage::Done, tagging_failed: false, ..p }),
        bad == (Pipeline { stage: PipelineStage::Done, tagging_failed: true, ..p }),
    ensures
        ok.final_audio == bad.final_audio,
        ok.final_audio == p.final_audio,
        bad.wf(),
{
}

} // verus!
