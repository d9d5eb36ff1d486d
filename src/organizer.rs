//! The import organizer: for each source file in turn, resolve its capture
//! date, make its date folder, copy or convert it there, and delete the source
//! where asked. The caller performs each action and reports how it went; one
//! file's failure is recorded and the next file is taken up.
use vstd::prelude::*;
use crate::capture_date::{date_tool_args, folder_name_of, has_date, parsed_date, resolve_date};
use crate::error::{ImportError, ToolOutcome};
use crate::text::{chars_of, last_segment, last_segment_of, push_all, push_str, string_of};


verus! {

/// One run of the organizer.
pub struct ImportJob {
    pub sources: Vec<String>,
    pub destination_root: String,
    pub convert: bool,
    pub delete_originals: bool,
}

/// Where the organizer stands with the current file.
#[derive(Debug, PartialEq, Eq)]
pub enum FileStage {
    ResolvingDate,
    CreatingBucket { bucket: String },
    Placing { bucket: String },
    Deleting,
}

/// What the caller is to do next.
#[derive(Debug, PartialEq, Eq)]
pub enum OrganizerAction {
    /// Run the metadata tool with these arguments.
    RunDateTool { args: Vec<String> },
    /// Create this directory and its parents, where missing.
    CreateDir { path: String },
    /// Run the conversion tool with these arguments.
    RunConverter { args: Vec<String> },
    /// Copy a file, overwriting the target.
    Copy { from: String, to: String },
    /// Remove a file.
    Delete { path: String },
    /// Every file has its outcome.
    Done,
}

/// How the last action went.
#[derive(Debug, PartialEq, Eq)]
pub enum OrganizerEvent {
    /// An outside tool ran, or could not be started.
    Tool(ToolOutcome),
    /// A file-system action succeeded, or failed with this text.
    Fs(Result<(), String>),
}

/// The state of a run: the job, the stage of the current file, and the outcome
/// of each file before it, in order.
pub struct Organizer {
    pub job: ImportJob,
    pub stage: FileStage,
    pub outcomes: Vec<Result<(), ImportError>>,
}

/// The date folder of a date under the destination root.
pub open spec fn bucket_of(root: Seq<char>, date_folder: Seq<char>) -> Seq<char> {
    root + seq!['/'] + date_folder
}

/// Where a plain copy of `source` goes in `bucket`: under what follows the last
/// `/` of the source.
pub open spec fn copy_target_of(bucket: Seq<char>, source: Seq<char>) -> Seq<char> {
    bucket + seq!['/'] + last_segment_of(source)
}

impl Organizer {
    pub open spec fn is_done(self) -> bool {
        self.outcomes@.len() >= self.job.sources@.len()
    }

    /// The file being worked on.
    pub open spec fn current(self) -> String {
        self.job.sources@[self.outcomes@.len() as int]
    }

    /// Outcomes never outnumber the files, and a finished run waits at no file.
    pub open spec fn wf(self) -> bool {
        &&& self.outcomes@.len() <= self.job.sources@.len()
        &&& self.is_done() ==> self.stage is ResolvingDate
    }

    /// `new` is `old` with the current file finished as `ok` says; the next file
    /// starts from its first step.
    pub open spec fn finishes(old: Organizer, new: Organizer) -> bool {
        &&& new.outcomes@.len() == old.outcomes@.len() + 1
        &&& new.outcomes@.subrange(0, old.outcomes@.len() as int) == old.outcomes@
        &&& new.stage is ResolvingDate
    }

    pub open spec fn last_outcome(self) -> Result<(), ImportError> {
        self.outcomes@.last()
    }

    /// `new` is `old` with the current file finished successfully.
    pub open spec fn finishes_ok(old: Organizer, new: Organizer) -> bool {
        Self::finishes(old, new) && new.last_outcome() == Ok::<(), ImportError>(())
    }

    /// `new` keeps the outcomes of `old` and moves to `stage`.
    pub open spec fn moves_to(old: Organizer, new: Organizer, stage: FileStage) -> bool {
        new.outcomes@ == old.outcomes@ && new.stage == stage
    }

    /// What follows a successful copy or conversion.
    pub open spec fn after_placing(old: Organizer, new: Organizer) -> bool {
        if old.job.delete_originals {
            Self::moves_to(old, new, FileStage::Deleting)
        } else {
            Self::finishes_ok(old, new)
        }
    }

    /// One step of the current file on an event; an event that does not answer
    /// the current step changes nothing.
    pub open spec fn transition(old: Organizer, event: OrganizerEvent, new: Organizer) -> bool {
        match old.stage {
            FileStage::ResolvingDate => match event {
                OrganizerEvent::Tool(ToolOutcome::NotStarted(m)) => Self::finishes(old, new)
                    && (new.last_outcome() matches Err(ImportError::ToolInvocationFailed(e)) && e@ == m@),
                OrganizerEvent::Tool(ToolOutcome::Exited { success, stdout, stderr }) => if !success {
                    Self::finishes(old, new)
                        && (new.last_outcome() matches Err(ImportError::ToolInvocationFailed(e)) && e@ == stderr@)
                } else if !has_date(stdout@) {
                    Self::finishes(old, new) && new.last_outcome() == Err::<(), ImportError>(ImportError::DateNotFound)
                } else {
                    new.outcomes@ == old.outcomes@ && (new.stage matches FileStage::CreatingBucket { bucket }
                        && bucket@ == bucket_of(old.job.destination_root@, folder_name_of(parsed_date(stdout@))))
                },
                _ => new.outcomes@ == old.outcomes@ && new.stage == old.stage,
            },
            FileStage::CreatingBucket { bucket } => match event {
                OrganizerEvent::Fs(Ok(())) => Self::moves_to(old, new, FileStage::Placing { bucket }),
                OrganizerEvent::Fs(Err(m)) => Self::finishes(old, new)
                    && (new.last_outcome() matches Err(ImportError::DestinationUnavailable(e)) && e@ == m@),
                _ => new.outcomes@ == old.outcomes@ && new.stage == old.stage,
            },
            FileStage::Placing { bucket } => if old.job.convert {
                match event {
                    OrganizerEvent::Tool(ToolOutcome::NotStarted(m)) => Self::finishes(old, new)
                        && (new.last_outcome() matches Err(ImportError::ConversionFailed(e)) && e@ == m@),
                    OrganizerEvent::Tool(ToolOutcome::Exited { success, stdout, stderr }) => if success {
                        Self::after_placing(old, new)
                    } else {
                        Self::finishes(old, new)
                            && (new.last_outcome() matches Err(ImportError::ConversionFailed(e)) && e@ == stderr@)
                    },
                    _ => new.outcomes@ == old.outcomes@ && new.stage == old.stage,
                }
            } else {
                match event {
                    OrganizerEvent::Fs(Ok(())) => Self::after_placing(old, new),
                    OrganizerEvent::Fs(Err(m)) => Self::finishes(old, new)
                        && (new.last_outcome() matches Err(ImportError::CopyFailed(e)) && e@ == m@),
                    _ => new.outcomes@ == old.outcomes@ && new.stage == old.stage,
                }
            },
            FileStage::Deleting => match event {
                OrganizerEvent::Fs(Ok(())) => Self::finishes_ok(old, new),
                OrganizerEvent::Fs(Err(m)) => Self::finishes(old, new)
                    && (new.last_outcome() matches Err(ImportError::DeleteFailed(e)) && e@ == m@),
                _ => new.outcomes@ == old.outcomes@ && new.stage == old.stage,
            },
        }
    }

    /// A run at the first step of the first file.
    pub fn new(job: ImportJob) -> (r: Organizer)
        ensures
            r.job == job,
            r.stage == FileStage::ResolvingDate,
            r.outcomes@.len() == 0,
            r.wf(),
    {
        Organizer { job, stage: FileStage::ResolvingDate, outcomes: Vec::new() }
    }

    fn finish(&mut self, outcome: Result<(), ImportError>)
        requires
            !old(self).is_done(),
            old(self).wf(),
        ensures
            Organizer::finishes(*old(self), *final(self)),
            final(self).last_outcome() == outcome,
            final(self).job == old(self).job,
            final(self).wf(),
    {
        self.outcomes.push(outcome);
        self.stage = FileStage::ResolvingDate;
        assert(self.outcomes@.subrange(0, old(self).outcomes@.len() as int) =~= old(self).outcomes@);
    }

    fn placed(&mut self)
        requires
            !old(self).is_done(),
            old(self).wf(),
        ensures
            Organizer::after_placing(*old(self), *final(self)),
            final(self).job == old(self).job,
            final(self).wf(),
    {
        if self.job.delete_originals {
            self.stage = FileStage::Deleting;
        } else {
            self.finish(Ok(()));
        }
    }

    /// Takes the result of the last action and moves the current file on.
    pub fn handle(&mut self, event: OrganizerEvent)
        requires
            old(self).wf(),
        ensures
            final(self).wf(),
            final(self).job == old(self).job,
            old(self).is_done() ==> final(self).outcomes@ == old(self).outcomes@ && final(self).stage == old(self).stage,
            !old(self).is_done() ==> Organizer::transition(*old(self), event, *final(self)),
    {
        if self.outcomes.len() >= self.job.sources.len() {
            return;
        }
        let mut stage = FileStage::ResolvingDate;
        core::mem::swap(&mut stage, &mut self.stage);
        match stage {
            FileStage::ResolvingDate => match event {
                OrganizerEvent::Tool(outcome) => match resolve_date(&outcome) {
                    Ok(d) => {
                        let mut b: Vec<char> = Vec::new();
                        push_str(&mut b, self.job.destination_root.as_str());
                        b.push('/');
                        let folder = d.folder_name();
                        push_str(&mut b, folder.as_str());
                        assert(b@ =~= bucket_of(self.job.destination_root@, folder_name_of(d)));
                        self.stage = FileStage::CreatingBucket { bucket: string_of(b.as_slice()) };
                    },
                    Err(e) => self.finish(Err(e)),
                },
                _ => {
                    self.stage = FileStage::ResolvingDate;
                },
            },
            FileStage::CreatingBucket { bucket } => match event {
                OrganizerEvent::Fs(Ok(())) => {
                    self.stage = FileStage::Placing { bucket };
                },
                OrganizerEvent::Fs(Err(m)) => self.finish(Err(ImportError::DestinationUnavailable(m))),
                _ => {
                    self.stage = FileStage::CreatingBucket { bucket };
                },
            },
            FileStage::Placing { bucket } => {
                if self.job.convert {
                    match event {
                        OrganizerEvent::Tool(ToolOutcome::NotStarted(m)) => self.finish(Err(ImportError::ConversionFailed(m))),
                        OrganizerEvent::Tool(ToolOutcome::Exited { success, stdout, stderr }) => {
                            if success {
                                self.placed();
                            } else {
                                self.finish(Err(ImportError::ConversionFailed(stderr)));
                            }
                        },
                        _ => {
                            self.stage = FileStage::Placing { bucket };
                        },
                    }
                } else {
                    match event {
                        OrganizerEvent::Fs(Ok(())) => self.placed(),
                        OrganizerEvent::Fs(Err(m)) => self.finish(Err(ImportError::CopyFailed(m))),
                        _ => {
                            self.stage = FileStage::Placing { bucket };
                        },
                    }
                }
            },
            FileStage::Deleting => match event {
                OrganizerEvent::Fs(Ok(())) => self.finish(Ok(())),
                OrganizerEvent::Fs(Err(m)) => self.finish(Err(ImportError::DeleteFailed(m))),
                _ => {
                    self.stage = FileStage::Deleting;
                },
            },
        }
    }

    /// The action that the current step asks for.
    pub open spec fn asks_for(self, r: OrganizerAction) -> bool {
        if self.is_done() {
            r == OrganizerAction::Done
        } else {
            match self.stage {
                FileStage::ResolvingDate => r matches OrganizerAction::RunDateTool { args } && args@.len() == 3
                    && args@[0]@ == "-DateTimeOriginal"@ && args@[1]@ == "-s3"@ && args@[2]@ == self.current()@,
                FileStage::CreatingBucket { bucket } => r matches OrganizerAction::CreateDir { path } && path@ == bucket@,
                FileStage::Placing { bucket } => if self.job.convert {
                    r matches OrganizerAction::RunConverter { args } && args@.len() == 4 && args@[0]@ == "-mp"@
                        && args@[1]@ == "-d"@ && args@[2]@ == bucket@ && args@[3]@ == self.current()@
                } else {
                    r matches OrganizerAction::Copy { from, to } && from@ == self.current()@
                        && to@ == copy_target_of(bucket@, self.current()@)
                },
                FileStage::Deleting => r matches OrganizerAction::Delete { path } && path@ == self.current()@,
            }
        }
    }

    /// The action that the caller is to perform next.
    pub fn next_action(&self) -> (r: OrganizerAction)
        requires
            self.wf(),
        ensures
            self.asks_for(r),
    {
        if self.outcomes.len() >= self.job.sources.len() {
            return OrganizerAction::Done;
        }
        let source = &self.job.sources[self.outcomes.len()];
        match &self.stage {
            FileStage::ResolvingDate => OrganizerAction::RunDateTool { args: date_tool_args(source.as_str()) },
            FileStage::CreatingBucket { bucket } => OrganizerAction::CreateDir { path: bucket.clone() },
            FileStage::Placing { bucket } => {
                if self.job.convert {
                    let mut args: Vec<String> = Vec::new();
                    args.push(String::from_str("-mp"));
                    args.push(String::from_str("-d"));
                    args.push(bucket.clone());
                    args.push(source.clone());
                    OrganizerAction::RunConverter { args }
                } else {
                    let name = last_segment(&chars_of(source.as_str()));
                    let mut to: Vec<char> = chars_of(bucket.as_str());
                    to.push('/');
                    push_all(&mut to, &name);
                    assert(to@ =~= copy_target_of(bucket@, source@));
                    OrganizerAction::Copy { from: source.clone(), to: string_of(to.as_slice()) }
                }
            },
            FileStage::Deleting => OrganizerAction::Delete { path: source.clone() },
        }
    }
}

/// One file's failure never stops the batch: a step keeps the outcomes of the
/// files before, adds at most the current file's own, and once that is added
/// the next file, where there is one, is taken up from its first step.
pub proof fn lemma_failure_stays_with_its_file(old: Organizer, event: OrganizerEvent, new: Organizer)
    requires
        old.wf(),
        !old.is_done(),
        Organizer::transition(old, event, new),
        new.job == old.job,
    ensures
        old.outcomes@.len() <= new.outcomes@.len() <= old.outcomes@.len() + 1,
        new.outcomes@.subrange(0, old.outcomes@.len() as int) == old.outcomes@,
        new.outcomes@.len() == old.outcomes@.len() + 1 ==> {
            &&& new.stage is ResolvingDate
            &&& !new.is_done() ==> new.current() == old.job.sources@[old.outcomes@.len() + 1int]
        },
{
    if new.outcomes@ == old.outcomes@ {
        assert(new.outcomes@.subrange(0, old.outcomes@.len() as int) =~= old.outcomes@);
    }
}

/// A plain copy lands in the date folder: once the metadata tool has given a
/// date and its folder exists, the file is copied to
/// `{destination_root}/{YYYY-MM-DD}/{file name}`, whatever the outcomes of the
/// files before it.
pub proof fn lemma_copy_lands_in_date_folder(
    old: Organizer,
    stdout: String,
    stderr: String,
    mid: Organizer,
    new: Organizer,
)
    requires
        old.wf(),
        !old.is_done(),
        old.stage is ResolvingDate,
        !old.job.convert,
        has_date(stdout@),
        Organizer::transition(old, OrganizerEvent::Tool(ToolOutcome::Exited { success: true, stdout, stderr }), mid),
        mid.job == old.job,
        Organizer::transition(mid, OrganizerEvent::Fs(Ok(())), new),
        new.job == old.job,
    ensures
        new.stage matches FileStage::Placing { bucket } && copy_target_of(bucket@, new.current()@) == old.job.destination_root@
            + seq!['/'] + folder_name_of(parsed_date(stdout@)) + seq!['/'] + last_segment_of(old.current()@),
        new.outcomes@ == old.outcomes@,
{
}

/// With deletion asked for, a successful copy is followed by removing the
/// source, and the file succeeds only once that is done.
pub proof fn lemma_copy_then_delete(old: Organizer, mid: Organizer, new: Organizer)
    requires
        old.wf(),
        !old.is_done(),
        old.stage is Placing,
        !old.job.convert,
        old.job.delete_originals,
        Organizer::transition(old, OrganizerEvent::Fs(Ok(())), mid),
        mid.job == old.job,
        Organizer::transition(mid, OrganizerEvent::Fs(Ok(())), new),
    ensures
        mid.stage is Deleting,
        mid.outcomes@ == old.outcomes@,
        Organizer::finishes_ok(old, new),
{
}

} // verus!
