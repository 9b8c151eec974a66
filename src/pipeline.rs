use crate::catalog::EntryView;
use crate::error::Fault;
use crate::model::{ArchiveRecord, ExtractedMetaData, FileRecord, ProcessResponse};
use vstd::pervasive::unreached;
use vstd::prelude::*;

verus! {

/// The stages of processing one uploaded file, in the order they run.
#[derive(Debug, Clone, Copy, PartialEq, Eq, Structural)]
pub enum Stage {
    TextExtraction,
    MetadataExtraction,
    ContentAddressing,
    ChainAnchoring,
    CatalogWrite,
}

impl Stage {
    /// The stage's name as failures report it.
    pub fn name(self) -> (r: &'static str)
        ensures
            self is TextExtraction ==> r@ == "text_extraction"@,
            self is MetadataExtraction ==> r@ == "metadata_extraction"@,
            self is ContentAddressing ==> r@ == "content_addressing"@,
            self is ChainAnchoring ==> r@ == "chain_anchoring"@,
            self is CatalogWrite ==> r@ == "catalog_write"@,
    {
        match self {
            Stage::TextExtraction => "text_extraction",
            Stage::MetadataExtraction => "metadata_extraction",
            Stage::ContentAddressing => "content_addressing",
            Stage::ChainAnchoring => "chain_anchoring",
            Stage::CatalogWrite => "catalog_write",
        }
    }
}

/// What a run has computed so far.
#[derive(Debug, Clone, PartialEq, Eq)]
pub struct Partial {
    pub text: Option<String>,
    pub metadata: Option<ExtractedMetaData>,
    pub file_record: Option<FileRecord>,
    pub signature: Option<String>,
}

/// A run that stopped: the stage that failed, why, and what was computed before.
#[derive(Debug, Clone, PartialEq, Eq)]
pub struct PipelineError {
    pub stage: Stage,
    pub cause: Fault,
    pub partial: Partial,
}

/// The work a run asks for next.
#[derive(Debug, Clone, Copy, PartialEq, Eq, Structural)]
pub enum Action {
    ExtractText,
    ExtractMetadata,
    AddressContent,
    Anchor,
    WriteCatalog,
    Done,
}

/// The state of processing one uploaded file. Each stage's outcome is
/// recorded as it comes; the first failure ends the run, and the catalog is
/// written only after every other stage has succeeded.
#[derive(Debug, Clone, PartialEq, Eq)]
pub struct PipelineRun {
    pub partial: Partial,
    pub failure: Option<(Stage, Fault)>,
    pub entry_id: Option<i64>,
}

/// A successful run: the catalog entry written and what the caller is told.
#[derive(Debug, Clone, PartialEq, Eq)]
pub struct PipelineOutput {
    pub entry: ArchiveRecord,
    pub response: ProcessResponse,
}

impl PipelineRun {
    pub open spec fn start() -> PipelineRun {
        PipelineRun {
            partial: Partial { text: None, metadata: None, file_record: None, signature: None },
            failure: None,
            entry_id: None,
        }
    }

    /// Metadata, once held, has every required field; a signature is non-empty.
    pub open spec fn wf(self) -> bool {
        &&& (self.partial.metadata matches Some(m) ==> m.wf())
        &&& (self.partial.file_record matches Some(f) ==> f.wf())
        &&& (self.partial.signature matches Some(s) ==> s@.len() > 0)
        &&& (self.entry_id is Some ==> {
            &&& self.partial.text is Some
            &&& self.partial.metadata is Some
            &&& self.partial.file_record is Some
            &&& self.partial.signature is Some
        })
    }

    pub open spec fn next(self) -> Action {
        if self.failure is Some || self.entry_id is Some {
            Action::Done
        } else if self.partial.text is None {
            Action::ExtractText
        } else if self.partial.metadata is None {
            Action::ExtractMetadata
        } else if self.partial.file_record is None {
            Action::AddressContent
        } else if self.partial.signature is None {
            Action::Anchor
        } else {
            Action::WriteCatalog
        }
    }

    pub open spec fn failed(self, stage: Stage, cause: Fault) -> PipelineRun {
        PipelineRun { failure: Some((stage, cause)), ..self }
    }

    pub open spec fn after_text(self, outcome: Result<String, Fault>) -> PipelineRun {
        match outcome {
            Ok(t) => PipelineRun { partial: Partial { text: Some(t), ..self.partial }, ..self },
            Err(e) => self.failed(Stage::TextExtraction, e),
        }
    }

    pub open spec fn after_metadata(self, outcome: Result<ExtractedMetaData, Fault>) -> PipelineRun {
        match outcome {
            Ok(m) => if m.wf() {
                PipelineRun { partial: Partial { metadata: Some(m), ..self.partial }, ..self }
            } else {
                self.failed(Stage::MetadataExtraction, Fault::MalformedMetadataResponse)
            },
            Err(e) => self.failed(Stage::MetadataExtraction, e),
        }
    }

    pub open spec fn after_content(self, outcome: Result<FileRecord, Fault>) -> PipelineRun {
        match outcome {
            Ok(f) => if f.wf() {
                PipelineRun { partial: Partial { file_record: Some(f), ..self.partial }, ..self }
            } else {
                self.failed(Stage::ContentAddressing, Fault::ContentStoreRejected)
            },
            Err(e) => self.failed(Stage::ContentAddressing, e),
        }
    }

    pub open spec fn after_anchor(self, outcome: Result<String, Fault>) -> PipelineRun {
        match outcome {
            Ok(s) => if s@.len() > 0 {
                PipelineRun { partial: Partial { signature: Some(s), ..self.partial }, ..self }
            } else {
                self.failed(Stage::ChainAnchoring, Fault::AnchorSubmissionFailed)
            },
            Err(e) => self.failed(Stage::ChainAnchoring, e),
        }
    }

    pub open spec fn after_catalog(self, outcome: Result<i64, Fault>) -> PipelineRun {
        match outcome {
            Ok(id) => PipelineRun { entry_id: Some(id), ..self },
            Err(e) => self.failed(Stage::CatalogWrite, e),
        }
    }

    /// A run that has done nothing yet.
    pub fn new() -> (r: PipelineRun)
        ensures
            r == PipelineRun::start(),
            r.wf(),
    {
        PipelineRun {
            partial: Partial { text: None, metadata: None, file_record: None, signature: None },
            failure: None,
            entry_id: None,
        }
    }

    /// The work the run asks for next.
    pub fn next_action(&self) -> (r: Action)
        ensures
            r == self.next(),
    {
        if self.failure.is_some() || self.entry_id.is_some() {
            Action::Done
        } else if self.partial.text.is_none() {
            Action::ExtractText
        } else if self.partial.metadata.is_none() {
            Action::ExtractMetadata
        } else if self.partial.file_record.is_none() {
            Action::AddressContent
        } else if self.partial.signature.is_none() {
            Action::Anchor
        } else {
            Action::WriteCatalog
        }
    }

    /// Records the outcome of text extraction.
    pub fn text_extracted(&mut self, outcome: Result<String, Fault>)
        requires
            old(self).wf(),
            old(self).next() == Action::ExtractText,
        ensures
            *final(self) == old(self).after_text(outcome),
            final(self).wf(),
    {
        match outcome {
            Ok(t) => self.partial.text = Some(t),
            Err(e) => self.failure = Some((Stage::TextExtraction, e)),
        }
    }

    /// Records the outcome of metadata extraction; a record with an empty
    /// required field counts as a malformed reply.
    pub fn metadata_extracted(&mut self, outcome: Result<ExtractedMetaData, Fault>)
        requires
            old(self).wf(),
            old(self).next() == Action::ExtractMetadata,
        ensures
            *final(self) == old(self).after_metadata(outcome),
            final(self).wf(),
    {
        match outcome {
            Ok(m) => {
                if m.title.as_str().is_empty() || m.difficulty.as_str().is_empty()
                    || m.genre.as_str().is_empty() || m.summary.as_str().is_empty() {
                    self.failure = Some((Stage::MetadataExtraction, Fault::MalformedMetadataResponse));
                } else {
                    self.partial.metadata = Some(m);
                }
            },
            Err(e) => self.failure = Some((Stage::MetadataExtraction, e)),
        }
    }

    /// Records the outcome of content addressing; a record without a
    /// well-formed hash and identifier counts as rejected.
    pub fn content_addressed(&mut self, outcome: Result<FileRecord, Fault>)
        requires
            old(self).wf(),
            old(self).next() == Action::AddressContent,
        ensures
            *final(self) == old(self).after_content(outcome),
            final(self).wf(),
    {
        match outcome {
            Ok(f) => {
                if f.is_wf() {
                    self.partial.file_record = Some(f);
                } else {
                    self.failure = Some((Stage::ContentAddressing, Fault::ContentStoreRejected));
                }
            },
            Err(e) => self.failure = Some((Stage::ContentAddressing, e)),
        }
    }

    /// Records the outcome of anchoring; an empty signature counts as a
    /// failed submission.
    pub fn anchored(&mut self, outcome: Result<String, Fault>)
        requires
            old(self).wf(),
            old(self).next() == Action::Anchor,
        ensures
            *final(self) == old(self).after_anchor(outcome),
            final(self).wf(),
    {
        match outcome {
            Ok(s) => {
                if s.as_str().is_empty() {
                    self.failure = Some((Stage::ChainAnchoring, Fault::AnchorSubmissionFailed));
                } else {
                    self.partial.signature = Some(s);
                }
            },
            Err(e) => self.failure = Some((Stage::ChainAnchoring, e)),
        }
    }

    /// Records the outcome of the catalog write: the id the store gave the row.
    pub fn catalog_written(&mut self, outcome: Result<i64, Fault>)
        requires
            old(self).wf(),
            old(self).next() == Action::WriteCatalog,
        ensures
            *final(self) == old(self).after_catalog(outcome),
            final(self).wf(),
    {
        match outcome {
            Ok(id) => self.entry_id = Some(id),
            Err(e) => self.failure = Some((Stage::CatalogWrite, e)),
        }
    }

    /// The end of a finished run: the entry written and the caller's reply,
    /// or the failed stage with its cause and everything computed before it.
    pub fn finish(self) -> (r: Result<PipelineOutput, PipelineError>)
        requires
            self.wf(),
            self.next() == Action::Done,
        ensures
            match self.failure {
                Some((stage, cause)) => r == Err::<PipelineOutput, PipelineError>(
                    PipelineError { stage, cause, partial: self.partial },
                ),
                None => r matches Ok(o) && {
                    &&& self.partial.metadata == Some(o.response.metadata)
                    &&& self.partial.file_record == Some(o.response.file_record)
                    &&& self.partial.signature == Some(o.response.memo)
                    &&& o.entry@ == (EntryView {
                        id: self.entry_id->Some_0 as int,
                        genre: o.response.metadata.genre@,
                        title: o.response.metadata.title@,
                        difficulty: o.response.metadata.difficulty@,
                        summary: o.response.metadata.summary@,
                        file_hash: o.response.file_record.file_hash@,
                        file_cid: o.response.file_record.file_cid@,
                    })
                },
            },
    {
        match self.failure {
            Some((stage, cause)) => Err(PipelineError { stage, cause, partial: self.partial }),
            None => {
                let id = match self.entry_id {
                    Some(id) => id,
                    None => unreached(),
                };
                let (metadata, file_record, memo) = match (
                    self.partial.metadata,
                    self.partial.file_record,
                    self.partial.signature,
                ) {
                    (Some(m), Some(f), Some(s)) => (m, f, s),
                    _ => unreached(),
                };
                let entry = ArchiveRecord {
                    id,
                    genre: metadata.genre.clone(),
                    title: metadata.title.clone(),
                    difficulty: metadata.difficulty.clone(),
                    summary: metadata.summary.clone(),
                    file_hash: file_record.file_hash.clone(),
                    file_cid: file_record.file_cid.clone(),
                };
                Ok(PipelineOutput { entry, response: ProcessResponse { metadata, file_record, memo } })
            },
        }
    }
}

/// The catalog is written only by a run that has failed nowhere and holds
/// complete metadata, a file record and a non-empty anchor signature; a run
/// that has failed asks for nothing more.
pub proof fn lemma_write_only_when_complete(run: PipelineRun)
    requires
        run.wf(),
    ensures
        run.next() == Action::WriteCatalog ==> {
            &&& run.failure is None
            &&& run.entry_id is None
            &&& run.partial.metadata matches Some(m) && m.wf()
            &&& run.partial.file_record is Some
            &&& run.partial.signature matches Some(s) && s@.len() > 0
        },
        run.failure is Some ==> run.next() == Action::Done,
{
}

/// When the upload to the content store fails after text and metadata were
/// extracted, the run stops there: it reports the content-addressing stage
/// with the store's fault, keeps the text and metadata, never asks for the
/// catalog write, and holds no catalog entry.
pub proof fn lemma_store_failure_aborts(text: String, metadata: ExtractedMetaData, fault: Fault)
    requires
        metadata.wf(),
    ensures
        ({
            let s0 = PipelineRun::start();
            let s1 = s0.after_text(Ok(text));
            let s2 = s1.after_metadata(Ok(metadata));
            let s3 = s2.after_content(Err(fault));
            &&& s0.next() == Action::ExtractText
            &&& s1.next() == Action::ExtractMetadata
            &&& s2.next() == Action::AddressContent
            &&& s3.next() == Action::Done
            &&& s3.wf()
            &&& s3.failure == Some((Stage::ContentAddressing, fault))
            &&& s3.entry_id is None
            &&& s3.partial.text == Some(text)
            &&& s3.partial.metadata == Some(metadata)
            &&& s3.partial.file_record is None
            &&& s3.partial.signature is None
        }),
{
}

} // verus!
