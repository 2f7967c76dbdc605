//! The upload of a video's directory as a state machine: check the
//! directory, collect its files, connect, upload each file, and, when every
//! upload succeeded and the settings ask for it, delete the local files and
//! prune the emptied directories. The caller performs each action and hands
//! back what came of it; `P` is the caller's handle for a file.

use vstd::prelude::*;
use crate::config::AutoUploadOption;
use crate::error::UploadError;
use crate::text::{joined, texts};

verus! {

/// What to upload: the directory, the ids recorded with each file, and,
/// for a page of a video, the file-name prefix that its files share.
pub struct DirectoryJob {
    pub video_id: Option<i32>,
    pub page_id: Option<i32>,
    pub youtube_video_id: Option<i32>,
    /// The directory, as shown in messages.
    pub dir: String,
    /// Only files whose stem begins with this prefix are uploaded.
    pub name_prefix: Option<String>,
}

/// The job for a page of a video: the directory that holds the page's file
/// (`local_dir`, `None` when the file has no parent), restricted to the
/// files named like the page's file (`name_prefix`, the file's stem).
pub fn upload_downloaded_file(
    video_id: i32,
    page_id: i32,
    local_path: &str,
    local_dir: Option<&str>,
    name_prefix: &str,
) -> (r: Result<DirectoryJob, UploadError>)
    ensures
        local_dir is None ==> (r matches Err(UploadError::NoParentDirectory { path: p }) && p@
            == local_path@),
        local_dir matches Some(d) ==> (r matches Ok(job) && job.video_id == Some(video_id)
            && job.page_id == Some(page_id) && job.youtube_video_id is None && job.dir@ == d@
            && job.name_prefix is Some && job.name_prefix->0@ == name_prefix@),
{
    match local_dir {
        None => Err(UploadError::NoParentDirectory { path: crate::text::owned(local_path) }),
        Some(d) => Ok(
            DirectoryJob {
                video_id: Some(video_id),
                page_id: Some(page_id),
                youtube_video_id: None,
                dir: crate::text::owned(d),
                name_prefix: Some(crate::text::owned(name_prefix)),
            },
        ),
    }
}

/// The job for a YouTube video: every file of the directory that holds the
/// video file (`local_dir`, `None` when the file has no parent).
pub fn upload_youtube_file(youtube_video_id: i32, local_path: &str, local_dir: Option<&str>) -> (r:
    Result<DirectoryJob, UploadError>)
    ensures
        local_dir is None ==> (r matches Err(UploadError::NoYoutubeParentDirectory { path: p })
            && p@ == local_path@),
        local_dir matches Some(d) ==> (r matches Ok(job) && job.video_id is None && job.page_id
            is None && job.youtube_video_id == Some(youtube_video_id) && job.dir@ == d@
            && job.name_prefix is None),
{
    match local_dir {
        None => Err(
            UploadError::NoYoutubeParentDirectory { path: crate::text::owned(local_path) },
        ),
        Some(d) => Ok(
            DirectoryJob {
                video_id: None,
                page_id: None,
                youtube_video_id: Some(youtube_video_id),
                dir: crate::text::owned(d),
                name_prefix: None,
            },
        ),
    }
}

/// What the caller must do next.
#[derive(Debug)]
pub enum DirectoryAction {
    /// Check that the directory exists and is a directory.
    CheckDir,
    /// Collect the files of the directory that the job asks for.
    CollectFiles,
    /// Connect to the OpenList server.
    Connect,
    /// Upload the file with this index.
    UploadFile(usize),
    /// Delete the local file with this index.
    RemoveFile(usize),
    /// Remove the emptied directories from the job's directory up to the
    /// base directory.
    PruneDirs,
    /// The upload of the directory is over, with this outcome.
    Finish(Result<(), UploadError>),
}

/// What came of the last action.
pub enum DirectoryEvent<P> {
    /// Whether the directory exists and is a directory.
    DirChecked(bool),
    /// The files to upload, in upload order, each with its path as shown in
    /// messages.
    FilesCollected(Vec<(P, String)>),
    /// The connection is ready.
    Connected,
    /// The file was uploaded, or failed with this error.
    FileUploaded(Result<(), String>),
    /// The local file was deleted.
    FileRemoved,
    /// The emptied directories were removed.
    DirsPruned,
}

/// Where the upload of the directory stands.
#[derive(Debug)]
pub enum DirectoryPhase {
    Checking,
    Collecting,
    Connecting,
    /// Waiting for the upload of file `index`.
    Uploading { index: usize },
    /// Waiting for the deletion of file `index`.
    Removing { index: usize },
    Pruning,
    Done,
}

/// The upload of one directory.
pub struct DirectoryUpload<P> {
    pub job: DirectoryJob,
    pub delete_after: bool,
    /// The files collected, in upload order, with their paths as shown.
    pub files: Vec<(P, String)>,
    /// The messages of the uploads that failed, in upload order.
    pub errors: Vec<String>,
    pub phase: DirectoryPhase,
}

impl<P> DirectoryUpload<P> {
    /// Indices stay within the files; failures are at most the files tried;
    /// files are deleted only when the settings ask for it and no upload
    /// failed.
    pub open spec fn wf(&self) -> bool {
        match self.phase {
            DirectoryPhase::Uploading { index } => index < self.files@.len() && self.errors@.len()
                <= index,
            DirectoryPhase::Removing { index } => index < self.files@.len() && self.delete_after
                && self.errors@.len() == 0,
            DirectoryPhase::Pruning => self.delete_after && self.errors@.len() == 0,
            DirectoryPhase::Checking | DirectoryPhase::Collecting => self.files@.len() == 0
                && self.errors@.len() == 0,
            DirectoryPhase::Connecting => self.files@.len() > 0 && self.errors@.len() == 0,
            DirectoryPhase::Done => true,
        }
    }

    /// Whether `event` answers the action that this phase waits for.
    pub open spec fn accepts(&self, event: DirectoryEvent<P>) -> bool {
        match (self.phase, event) {
            (DirectoryPhase::Checking, DirectoryEvent::DirChecked(_)) => true,
            (DirectoryPhase::Collecting, DirectoryEvent::FilesCollected(_)) => true,
            (DirectoryPhase::Connecting, DirectoryEvent::Connected) => true,
            (DirectoryPhase::Uploading { .. }, DirectoryEvent::FileUploaded(_)) => true,
            (DirectoryPhase::Removing { .. }, DirectoryEvent::FileRemoved) => true,
            (DirectoryPhase::Pruning, DirectoryEvent::DirsPruned) => true,
            _ => false,
        }
    }

    /// Whether `event` answers the action that this upload waits for.
    pub fn is_expected(&self, event: &DirectoryEvent<P>) -> (r: bool)
        ensures
            r == self.accepts(*event),
    {
        match (&self.phase, event) {
            (DirectoryPhase::Checking, DirectoryEvent::DirChecked(_)) => true,
            (DirectoryPhase::Collecting, DirectoryEvent::FilesCollected(_)) => true,
            (DirectoryPhase::Connecting, DirectoryEvent::Connected) => true,
            (DirectoryPhase::Uploading { .. }, DirectoryEvent::FileUploaded(_)) => true,
            (DirectoryPhase::Removing { .. }, DirectoryEvent::FileRemoved) => true,
            (DirectoryPhase::Pruning, DirectoryEvent::DirsPruned) => true,
            _ => false,
        }
    }

    /// The line that reports the failed upload of the file shown as `path`,
    /// with error `error`.
    pub open spec fn failure_line(path: Seq<char>, error: Seq<char>) -> Seq<char> {
        "上传文件 "@ + path + " 失败："@ + error
    }

    /// Whether `r` is the outcome once every file was tried, with `errors`
    /// the failures' messages: success when none failed, else the messages,
    /// one per line.
    pub open spec fn is_outcome(r: Result<(), UploadError>, errors: Seq<String>) -> bool {
        if errors.len() == 0 {
            r is Ok
        } else {
            r matches Err(UploadError::FilesFailed { messages: m }) && m@ == joined(
                texts(errors),
                seq!['\n'],
            )
        }
    }

    /// The transition on `event`, as `next` and the action it asks for.
    pub open spec fn transition(
        self,
        event: DirectoryEvent<P>,
        next: DirectoryUpload<P>,
        action: DirectoryAction,
    ) -> bool {
        match (self.phase, event) {
            (DirectoryPhase::Checking, DirectoryEvent::DirChecked(is_dir)) => if is_dir {
                next == DirectoryUpload { phase: DirectoryPhase::Collecting, ..self } && action
                    is CollectFiles
            } else {
                next == DirectoryUpload { phase: DirectoryPhase::Done, ..self } && (action matches DirectoryAction::Finish(
                    Err(UploadError::NotADirectory { path: p }),
                ) && p@ == self.job.dir@)
            },
            (DirectoryPhase::Collecting, DirectoryEvent::FilesCollected(files)) => if files@.len()
                == 0 {
                next == DirectoryUpload { phase: DirectoryPhase::Done, files, ..self } && (
                action matches DirectoryAction::Finish(Err(UploadError::EmptyDirectory { path: p }))
                    && p@ == self.job.dir@)
            } else {
                next == DirectoryUpload { phase: DirectoryPhase::Connecting, files, ..self }
                    && action is Connect
            },
            (DirectoryPhase::Connecting, DirectoryEvent::Connected) => next == DirectoryUpload {
                phase: DirectoryPhase::Uploading { index: 0 },
                ..self
            } && action == DirectoryAction::UploadFile(0),
            (DirectoryPhase::Uploading { index }, DirectoryEvent::FileUploaded(outcome)) => {
                let lines = match outcome {
                    Ok(_) => texts(self.errors@),
                    Err(e) => texts(self.errors@).push(
                        Self::failure_line(self.files@[index as int].1@, e@),
                    ),
                };
                let errors = next.errors@;
                &&& next.job == self.job
                &&& next.delete_after == self.delete_after
                &&& next.files == self.files
                &&& texts(next.errors@) == lines
                &&& if index + 1 < self.files@.len() {
                    next.phase == DirectoryPhase::Uploading { index: (index + 1) as usize }
                        && action == DirectoryAction::UploadFile((index + 1) as usize)
                } else if self.delete_after && errors.len() == 0 {
                    next.phase == DirectoryPhase::Removing { index: 0 } && action
                        == DirectoryAction::RemoveFile(0)
                } else {
                    next.phase == DirectoryPhase::Done && (action matches DirectoryAction::Finish(
                        r,
                    ) && Self::is_outcome(r, errors))
                }
            },
            (DirectoryPhase::Removing { index }, DirectoryEvent::FileRemoved) => if index + 1
                < self.files@.len() {
                next == DirectoryUpload {
                    phase: DirectoryPhase::Removing { index: (index + 1) as usize },
                    ..self
                } && action == DirectoryAction::RemoveFile((index + 1) as usize)
            } else {
                next == DirectoryUpload { phase: DirectoryPhase::Pruning, ..self } && action
                    is PruneDirs
            },
            (DirectoryPhase::Pruning, DirectoryEvent::DirsPruned) => next == DirectoryUpload {
                phase: DirectoryPhase::Done,
                ..self
            } && action == DirectoryAction::Finish(Ok(())),
            _ => false,
        }
    }

    /// Starts the upload of a directory: when automatic upload is off there
    /// is nothing to do, else the directory is checked first.
    pub fn start(job: DirectoryJob, config: &AutoUploadOption) -> (r: (
        DirectoryUpload<P>,
        DirectoryAction,
    ))
        ensures
            r.0.wf(),
            r.0.job == job,
            r.0.delete_after == config.delete_local_after_upload,
            r.0.files@.len() == 0,
            r.0.errors@.len() == 0,
            !config.enabled ==> r.0.phase is Done && r.1 == DirectoryAction::Finish(Ok(())),
            config.enabled ==> r.0.phase is Checking && r.1 is CheckDir,
    {
        let enabled = config.enabled;
        let upload = DirectoryUpload {
            job,
            delete_after: config.delete_local_after_upload,
            files: Vec::new(),
            errors: Vec::new(),
            phase: if enabled {
                DirectoryPhase::Checking
            } else {
                DirectoryPhase::Done
            },
        };
        if enabled {
            (upload, DirectoryAction::CheckDir)
        } else {
            (upload, DirectoryAction::Finish(Ok(())))
        }
    }

    /// The file with index `index`.
    pub fn file(&self, index: usize) -> (r: &P)
        requires
            index < self.files@.len(),
        ensures
            *r == self.files@[index as int].0,
    {
        &self.files[index].0
    }

    /// Moves the upload on by one event: the next phase and the action that
    /// it asks for are those of `transition`.
    pub fn step(&mut self, event: DirectoryEvent<P>) -> (action: DirectoryAction)
        requires
            old(self).wf(),
            old(self).accepts(event),
        ensures
            final(self).wf(),
            old(self).transition(event, *final(self), action),
    {
        match event {
            DirectoryEvent::DirChecked(is_dir) => {
                if is_dir {
                    self.phase = DirectoryPhase::Collecting;
                    DirectoryAction::CollectFiles
                } else {
                    self.phase = DirectoryPhase::Done;
                    DirectoryAction::Finish(
                        Err(
                            UploadError::NotADirectory {
                                path: crate::text::owned(self.job.dir.as_str()),
                            },
                        ),
                    )
                }
            },
            DirectoryEvent::FilesCollected(files) => {
                let empty = files.len() == 0;
                self.files = files;
                if empty {
                    self.phase = DirectoryPhase::Done;
                    DirectoryAction::Finish(
                        Err(
                            UploadError::EmptyDirectory {
                                path: crate::text::owned(self.job.dir.as_str()),
                            },
                        ),
                    )
                } else {
                    self.phase = DirectoryPhase::Connecting;
                    DirectoryAction::Connect
                }
            },
            DirectoryEvent::Connected => {
                self.phase = DirectoryPhase::Uploading { index: 0 };
                DirectoryAction::UploadFile(0)
            },
            DirectoryEvent::FileUploaded(outcome) => {
                let index = match self.phase {
                    DirectoryPhase::Uploading { index } => index,
                    _ => {
                        assert(false);
                        0
                    },
                };
                assert(index < self.files@.len());
                match outcome {
                    Ok(_) => {},
                    Err(e) => {
                        let mut line = crate::text::owned("上传文件 ");
                        crate::text::push_str(&mut line, self.files[index].1.as_str());
                        crate::text::push_str(&mut line, " 失败：");
                        crate::text::push_str(&mut line, e.as_str());
                        let ghost before = self.errors@;
                        self.errors.push(line);
                        assert(texts(self.errors@) =~= texts(before).push(line@));
                    },
                }
                let count = self.files.len();
                if index + 1 < count {
                    self.phase = DirectoryPhase::Uploading { index: index + 1 };
                    DirectoryAction::UploadFile(index + 1)
                } else if self.delete_after && self.errors.len() == 0 {
                    self.phase = DirectoryPhase::Removing { index: 0 };
                    DirectoryAction::RemoveFile(0)
                } else {
                    self.phase = DirectoryPhase::Done;
                    if self.errors.len() == 0 {
                        DirectoryAction::Finish(Ok(()))
                    } else {
                        let messages = crate::text::join(&self.errors, "\n");
                        proof {
                            reveal_strlit("\n");
                            assert("\n"@ =~= seq!['\n']);
                        }
                        DirectoryAction::Finish(Err(UploadError::FilesFailed { messages }))
                    }
                }
            },
            DirectoryEvent::FileRemoved => {
                let index = match self.phase {
                    DirectoryPhase::Removing { index } => index,
                    _ => {
                        assert(false);
                        0
                    },
                };
                assert(index < self.files@.len());
                let count = self.files.len();
                if index + 1 < count {
                    self.phase = DirectoryPhase::Removing { index: index + 1 };
                    DirectoryAction::RemoveFile(index + 1)
                } else {
                    self.phase = DirectoryPhase::Pruning;
                    DirectoryAction::PruneDirs
                }
            },
            DirectoryEvent::DirsPruned => {
                self.phase = DirectoryPhase::Done;
                DirectoryAction::Finish(Ok(()))
            },
        }
    }
}

} // verus!

verus! {

/// Local files are deleted only when the settings ask for it and every
/// upload of the directory succeeded.
pub proof fn lemma_removal_needs_full_success<P>(
    u: DirectoryUpload<P>,
    event: DirectoryEvent<P>,
    next: DirectoryUpload<P>,
    action: DirectoryAction,
)
    requires
        u.wf(),
        u.accepts(event),
        u.transition(event, next, action),
        action is RemoveFile,
    ensures
        next.delete_after,
        next.errors@.len() == 0,
{
}

/// The upload of a directory ends in success only when no file failed.
pub proof fn lemma_success_means_no_failure<P>(
    u: DirectoryUpload<P>,
    event: DirectoryEvent<P>,
    next: DirectoryUpload<P>,
    action: DirectoryAction,
)
    requires
        u.wf(),
        u.accepts(event),
        u.transition(event, next, action),
        action == DirectoryAction::Finish(Ok(())),
    ensures
        next.errors@.len() == 0,
{
}

/// Files are uploaded one after the other in the order collected: the first
/// right after connecting, each next one right after the previous one.
pub proof fn lemma_uploads_in_order<P>(
    u: DirectoryUpload<P>,
    event: DirectoryEvent<P>,
    next: DirectoryUpload<P>,
    action: DirectoryAction,
)
    requires
        u.wf(),
        u.accepts(event),
        u.transition(event, next, action),
        action is UploadFile,
    ensures
        match u.phase {
            DirectoryPhase::Connecting => action == DirectoryAction::UploadFile(0),
            DirectoryPhase::Uploading { index } => action == DirectoryAction::UploadFile(
                (index + 1) as usize,
            ),
            _ => false,
        },
        action matches DirectoryAction::UploadFile(i) && i < next.files@.len(),
{
}

} // verus!

verus! {

/// Every collected file is tried, whatever came of the files before it and
/// whatever the delete setting: after the upload of a file that is not the
/// last, the next file is uploaded, and the upload of a directory goes on
/// to deleting or finishing only after its last file. A failed upload adds
/// one line, `上传文件 {path} 失败：{error}`, to the failures, and a
/// successful one none.
pub proof fn lemma_every_file_tried<P>(
    u: DirectoryUpload<P>,
    outcome: Result<(), String>,
    next: DirectoryUpload<P>,
    action: DirectoryAction,
)
    requires
        u.wf(),
        u.phase is Uploading,
        u.transition(DirectoryEvent::FileUploaded(outcome), next, action),
    ensures
        ({
            let index = u.phase->Uploading_index;
            &&& index + 1 < u.files@.len() ==> action == DirectoryAction::UploadFile(
                (index + 1) as usize,
            ) && next.phase == DirectoryPhase::Uploading { index: (index + 1) as usize }
            &&& (action is Finish || action is RemoveFile) ==> index + 1 == u.files@.len()
            &&& next.files == u.files
            &&& match outcome {
                Ok(_) => texts(next.errors@) == texts(u.errors@),
                Err(e) => texts(next.errors@) == texts(u.errors@).push(
                    "上传文件 "@ + u.files@[index as int].1@ + " 失败："@ + e@,
                ),
            }
        }),
{
}

} // verus!
