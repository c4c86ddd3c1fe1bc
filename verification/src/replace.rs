//! Putting a freshly written archive in place of an old one without ever
//! losing the old one: it is moved aside first and moved back when the new
//! one cannot take its place.

use vstd::prelude::*;

use crate::text::{concat3, owned};
use crate::utils::{command_err, command_remove_err};

verus! {

/// One file operation of a replacement, or its end.
pub enum ReplaceAction {
    /// Remove this file.
    RemoveFile(String),
    /// Rename a file.
    Rename { from: String, to: String },
    /// The replacement is over, with this result and the warning to log, if
    /// any.
    Finish(Result<(), String>, Option<String>),
}

/// [`ReplaceAction`] with its texts as characters.
pub enum ReplaceActionView {
    RemoveFile(Seq<char>),
    Rename(Seq<char>, Seq<char>),
    Finish(Result<(), Seq<char>>, Option<Seq<char>>),
}

impl ReplaceAction {
    pub open spec fn view(&self) -> ReplaceActionView {
        match self {
            ReplaceAction::RemoveFile(p) => ReplaceActionView::RemoveFile(p@),
            ReplaceAction::Rename { from, to } => ReplaceActionView::Rename(from@, to@),
            ReplaceAction::Finish(r, w) => ReplaceActionView::Finish(
                match r {
                    Ok(()) => Ok(()),
                    Err(e) => Err(e@),
                },
                crate::patterns::opt_view(*w),
            ),
        }
    }
}

/// Where a replacement stands.
#[derive(Clone, Copy, PartialEq, Eq, Structural, Debug)]
pub enum ReplaceStep {
    /// A stale backup is being removed.
    ClearBackup,
    /// The old file is being moved to the backup.
    MoveAside,
    /// The new file is being moved into place.
    MoveIn,
    /// The new file could not move in; the old one is being moved back.
    Restore,
    /// The backup is being removed.
    DropBackup,
    /// Over.
    Done,
}

/// The state of a replacement.
pub struct ReplaceView {
    pub temp: Seq<char>,
    pub target: Seq<char>,
    pub backup: Seq<char>,
    pub step: ReplaceStep,
    pub error: Option<Seq<char>>,
}

/// The first operation: clear a stale backup if there is one, else move
/// the old file aside.
pub open spec fn replace_start(temp: Seq<char>, target: Seq<char>, backup: Seq<char>, backup_exists: bool) -> (
    ReplaceView,
    ReplaceActionView,
) {
    if backup_exists {
        (
            ReplaceView { temp, target, backup, step: ReplaceStep::ClearBackup, error: None },
            ReplaceActionView::RemoveFile(backup),
        )
    } else {
        (
            ReplaceView { temp, target, backup, step: ReplaceStep::MoveAside, error: None },
            ReplaceActionView::Rename(target, backup),
        )
    }
}

/// The error when the new file could not move in.
pub open spec fn move_in_error(target: Seq<char>, e: Seq<char>) -> Seq<char> {
    "置き換えに失敗しました ["@ + target + "]"@ + ": "@ + e
}

/// The next operation after the current one came back with `outcome`.
pub open spec fn replace_next(r: ReplaceView, outcome: Result<(), Seq<char>>) -> (
    ReplaceView,
    ReplaceActionView,
) {
    match r.step {
        ReplaceStep::ClearBackup => match outcome {
            Ok(()) => (ReplaceView { step: ReplaceStep::MoveAside, ..r }, ReplaceActionView::Rename(r.target, r.backup)),
            Err(e) => (
                ReplaceView { step: ReplaceStep::Done, ..r },
                ReplaceActionView::Finish(
                    Err("削除できませんでした ["@ + r.backup + "]"@ + ": "@ + e),
                    None,
                ),
            ),
        },
        ReplaceStep::MoveAside => match outcome {
            Ok(()) => (ReplaceView { step: ReplaceStep::MoveIn, ..r }, ReplaceActionView::Rename(r.temp, r.target)),
            Err(e) => (
                ReplaceView { step: ReplaceStep::Done, ..r },
                ReplaceActionView::Finish(
                    Err("バックアップへ退避できませんでした ["@ + r.target + "]"@ + ": "@ + e),
                    None,
                ),
            ),
        },
        ReplaceStep::MoveIn => match outcome {
            Ok(()) => (ReplaceView { step: ReplaceStep::DropBackup, ..r }, ReplaceActionView::RemoveFile(r.backup)),
            Err(e) => (
                ReplaceView { step: ReplaceStep::Restore, error: Some(e), ..r },
                ReplaceActionView::Rename(r.backup, r.target),
            ),
        },
        ReplaceStep::Restore => {
            let err = Err(move_in_error(r.target, match r.error {
                Some(e) => e,
                None => Seq::empty(),
            }));
            (
                ReplaceView { step: ReplaceStep::Done, ..r },
                ReplaceActionView::Finish(
                    err,
                    match outcome {
                        Ok(()) => None,
                        Err(re) => Some(
                            "バックアップの復元に失敗しました ["@ + r.backup + " -> "@ + r.target + "]: "@ + re,
                        ),
                    },
                ),
            )
        },
        ReplaceStep::DropBackup => (
            ReplaceView { step: ReplaceStep::Done, ..r },
            ReplaceActionView::Finish(
                Ok(()),
                match outcome {
                    Ok(()) => None,
                    Err(e) => Some(
                        "バックアップの削除に失敗しましたが、アーカイブの置き換えは成功しています ["@
                            + r.backup + "]: "@ + e,
                    ),
                },
            ),
        ),
        ReplaceStep::Done => (r, ReplaceActionView::Finish(Ok(()), None)),
    }
}

/// A replacement of `target` by `temp`, with `backup` as the place the old
/// file waits in.
pub struct FileReplacement {
    temp: String,
    target: String,
    backup: String,
    step: ReplaceStep,
    error: Option<String>,
}

impl FileReplacement {
    pub closed spec fn view(&self) -> ReplaceView {
        ReplaceView {
            temp: self.temp@,
            target: self.target@,
            backup: self.backup@,
            step: self.step,
            error: crate::patterns::opt_view(self.error),
        }
    }

    /// Starts replacing `target` by `temp`, given whether a stale backup
    /// exists.
    pub fn replace_file_atomically(temp: &str, target: &str, backup: &str, backup_exists: bool) -> (r: (
        Self,
        ReplaceAction,
    ))
        ensures
            (r.0@, r.1@) == replace_start(temp@, target@, backup@, backup_exists),
    {
        let step = if backup_exists {
            ReplaceStep::ClearBackup
        } else {
            ReplaceStep::MoveAside
        };
        let s = FileReplacement {
            temp: owned(temp),
            target: owned(target),
            backup: owned(backup),
            step,
            error: None,
        };
        let a = if backup_exists {
            ReplaceAction::RemoveFile(owned(backup))
        } else {
            ReplaceAction::Rename { from: owned(target), to: owned(backup) }
        };
        (s, a)
    }

    /// Reports how the last operation went and returns the next one.
    pub fn advance(&mut self, outcome: Result<(), String>) -> (r: ReplaceAction)
        ensures
            (final(self)@, r@) == replace_next(
                old(self)@,
                match outcome {
                    Ok(()) => Ok(()),
                    Err(e) => Err(e@),
                },
            ),
    {
        match self.step {
            ReplaceStep::ClearBackup => match outcome {
                Ok(()) => {
                    self.step = ReplaceStep::MoveAside;
                    ReplaceAction::Rename { from: self.target.clone(), to: self.backup.clone() }
                },
                Err(e) => {
                    self.step = ReplaceStep::Done;
                    ReplaceAction::Finish(Err(command_remove_err(self.backup.as_str(), e.as_str())), None)
                },
            },
            ReplaceStep::MoveAside => match outcome {
                Ok(()) => {
                    self.step = ReplaceStep::MoveIn;
                    ReplaceAction::Rename { from: self.temp.clone(), to: self.target.clone() }
                },
                Err(e) => {
                    self.step = ReplaceStep::Done;
                    let context = concat3("バックアップへ退避できませんでした [", self.target.as_str(), "]");
                    ReplaceAction::Finish(Err(command_err(context.as_str(), e.as_str())), None)
                },
            },
            ReplaceStep::MoveIn => match outcome {
                Ok(()) => {
                    self.step = ReplaceStep::DropBackup;
                    ReplaceAction::RemoveFile(self.backup.clone())
                },
                Err(e) => {
                    self.step = ReplaceStep::Restore;
                    self.error = Some(e);
                    ReplaceAction::Rename { from: self.backup.clone(), to: self.target.clone() }
                },
            },
            ReplaceStep::Restore => {
                self.step = ReplaceStep::Done;
                let cause = match &self.error {
                    Some(e) => e.clone(),
                    None => String::new(),
                };
                let context = concat3("置き換えに失敗しました [", self.target.as_str(), "]");
                let err = command_err(context.as_str(), cause.as_str());
                let warning = match outcome {
                    Ok(()) => None,
                    Err(re) => {
                        let mut w = concat3("バックアップの復元に失敗しました [", self.backup.as_str(), " -> ");
                        w.append(self.target.as_str());
                        w.append("]: ");
                        w.append(re.as_str());
                        Some(w)
                    },
                };
                ReplaceAction::Finish(Err(err), warning)
            },
            ReplaceStep::DropBackup => {
                self.step = ReplaceStep::Done;
                let warning = match outcome {
                    Ok(()) => None,
                    Err(e) => {
                        let mut w = concat3(
                            "バックアップの削除に失敗しましたが、アーカイブの置き換えは成功しています [",
                            self.backup.as_str(),
                            "]: ",
                        );
                        w.append(e.as_str());
                        Some(w)
                    },
                };
                ReplaceAction::Finish(Ok(()), warning)
            },
            ReplaceStep::Done => ReplaceAction::Finish(Ok(()), None),
        }
    }
}

/// When the new file cannot move in, the next operation moves the old one
/// back from the backup, and the replacement then fails with the move's
/// error, whatever the restoring gave.
pub proof fn law_old_file_is_never_lost(r: ReplaceView, e: Seq<char>, restored: Result<(), Seq<char>>)
    requires
        r.step == ReplaceStep::MoveIn,
    ensures
        replace_next(r, Err(e)).1 == ReplaceActionView::Rename(r.backup, r.target),
        replace_next(replace_next(r, Err(e)).0, restored).1 matches ReplaceActionView::Finish(
            Err(x),
            _,
        ) && x == move_in_error(r.target, e),
{
}

} // verus!
