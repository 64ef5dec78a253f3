//! The widget's state as a whole: the task's name, the timer, the memo and
//! the outcome of the last copy to the clipboard.

use vstd::prelude::*;
use vstd::string::StringExecFns;
use crate::clock::{is_hhmm, wall_clock_now, ClockTime, Moment};
use crate::keys::{any_commit, commits, KeyEvent};
use crate::memo::{rendered, shown, Line, Memo};
use crate::session::{Readout, Session};

verus! {

/// The task's name, and whether it is shown or open in the editor.
#[derive(Clone, Debug)]
pub struct TaskName {
    pub text: String,
    pub editing: bool,
}

impl TaskName {
    /// The name `text`, shown.
    pub fn new(text: String) -> (n: TaskName)
        ensures
            n.text@ == text@,
            !n.editing,
    {
        TaskName { text, editing: false }
    }

    /// A click on the shown name opens the editor.
    pub fn clicked(&mut self)
        ensures
            final(self).text@ == old(self).text@,
            final(self).editing,
    {
        self.editing = true;
    }

    /// One round of the editor, which holds `buffer` after the round's
    /// typing. The name takes over the buffer at once; Escape closes the
    /// editor and keeps the name. While the editor is closed nothing
    /// happens.
    pub fn edit(&mut self, buffer: &str, keys: &Vec<KeyEvent>)
        ensures
            old(self).editing ==> final(self).text@ == buffer@,
            old(self).editing ==> final(self).editing == !commits(keys@),
            !old(self).editing ==> final(self).text@ == old(self).text@ && !final(self).editing,
    {
        if self.editing {
            self.text = buffer.to_owned();
            if any_commit(keys) {
                self.editing = false;
            }
        }
    }
}

/// Why the time could not be copied.
#[derive(Clone, Debug)]
pub enum ClipboardFailure {
    /// No clipboard could be opened; with the reason.
    Unavailable(String),
    /// The clipboard was opened and did not take the text; with the reason.
    WriteFailed(String),
}

/// What the widget does after an attempt to finish.
#[derive(Clone, Copy, Debug, PartialEq, Eq, Structural)]
pub enum Next {
    /// The time is on the clipboard: leave at once.
    Exit,
    /// Nothing was copied: go on, the button can be pressed again.
    Continue,
}

/// The message for a copy that went well.
pub open spec fn copied_message(stamp: Seq<char>) -> Seq<char> {
    stamp + " をクリップボードにコピーしました"@
}

/// The message for a copy that failed.
pub open spec fn failure_message(failure: ClipboardFailure) -> Seq<char> {
    match failure {
        ClipboardFailure::Unavailable(reason) => "クリップボード初期化失敗: "@ + reason@,
        ClipboardFailure::WriteFailed(reason) => "クリップボード保存に失敗: "@ + reason@,
    }
}

/// What stands in the place of the task's name.
#[derive(Clone, Debug)]
pub enum NamePane {
    /// The name, to be clicked.
    Label(String),
    /// The editor, holding the name.
    Editor(String),
}

/// What stands in the place of the memo.
#[derive(Clone, Debug)]
pub enum MemoPane {
    /// The memo line by line, each to be clicked.
    Lines(Vec<Line>),
    /// The editor, holding the memo's text.
    Editor(String),
}

/// All that the widget shows at one moment.
#[derive(Clone, Debug)]
pub struct Screen {
    pub readout: Readout,
    pub name: NamePane,
    pub memo: MemoPane,
    /// What came of the last attempt to finish, if there was one.
    pub status: Option<String>,
}

/// The pane shows the name: as a label while it is not edited, in the
/// editor while it is, and never both.
pub open spec fn name_pane_shows(pane: NamePane, name: TaskName) -> bool {
    match pane {
        NamePane::Label(text) => !name.editing && text@ == name.text@,
        NamePane::Editor(buffer) => name.editing && buffer@ == name.text@,
    }
}

/// The pane shows the memo: line by line while it is not edited, in the
/// editor while it is.
pub open spec fn memo_pane_shows(pane: MemoPane, memo: Memo) -> bool {
    match pane {
        MemoPane::Lines(lines) => !memo.editing && shown(lines@) == rendered(memo.text@),
        MemoPane::Editor(buffer) => memo.editing && buffer@ == memo.text@,
    }
}

/// The widget's state.
#[derive(Clone, Debug)]
pub struct ViewModel {
    pub name: TaskName,
    pub session: Session,
    pub memo: Memo,
    /// What came of the last attempt to finish, in words.
    pub clip_msg: Option<String>,
}

impl ViewModel {
    /// The state at the start: the name and the memo shown, the timer as
    /// given, nothing copied yet.
    pub fn with_session(name: String, memo_default: String, session: Session) -> (vm: ViewModel)
        ensures
            vm.name.text@ == name@,
            !vm.name.editing,
            vm.memo.text@ == memo_default@,
            !vm.memo.editing,
            vm.session == session,
            vm.clip_msg is None,
    {
        ViewModel {
            name: TaskName::new(name),
            session,
            memo: Memo::new(memo_default),
            clip_msg: None,
        }
    }

    /// The state at the start, with the timer started at `start` and due
    /// after `end_minutes` minutes, if any are given. The wall clock is read
    /// for the deadline's label.
    pub fn new(name: String, memo_default: String, start: Moment, end_minutes: Option<u64>) -> (vm:
        ViewModel)
        ensures
            vm.name.text@ == name@,
            !vm.name.editing,
            vm.memo.text@ == memo_default@,
            !vm.memo.editing,
            vm.clip_msg is None,
            vm.session.wf(),
            vm.session.start == start,
            vm.session.deadline is Some <==> end_minutes is Some,
            end_minutes is Some ==> vm.session.deadline->0.at == start.spec_after_minutes(
                end_minutes->0,
            ) || vm.session.deadline->0.at == start,
            end_minutes is Some && end_minutes->0 > i64::MAX ==> vm.session.deadline->0.at
                == start,
            exists|ahead: Option<ClockTime>, now: ClockTime|
                vm.session == #[trigger] Session::spec_plan(start, end_minutes, ahead, now),
    {
        ViewModel::with_session(name, memo_default, Session::begin(start, end_minutes))
    }

    /// The state at the start where nothing was asked for: a stopwatch, with
    /// a name and a memo that invite to be changed.
    pub fn placeholder(start: Moment) -> (vm: ViewModel)
        ensures
            vm.name.text@ == "山田太郎"@,
            !vm.name.editing,
            vm.memo.text@ == "**メモを編集**"@,
            !vm.memo.editing,
            vm.session == (Session { start, deadline: None }),
            vm.clip_msg is None,
    {
        ViewModel::with_session(
            "山田太郎".to_owned(),
            "**メモを編集**".to_owned(),
            Session::stopwatch(start),
        )
    }

    /// All that the widget shows at `now`.
    pub fn screen(&self, now: Moment) -> (screen: Screen)
        ensures
            self.session.shows(now, screen.readout),
            name_pane_shows(screen.name, self.name),
            memo_pane_shows(screen.memo, self.memo),
            match self.clip_msg {
                Some(msg) => screen.status is Some && screen.status->0@ == msg@,
                None => screen.status is None,
            },
    {
        let name = if self.name.editing {
            NamePane::Editor(self.name.text.clone())
        } else {
            NamePane::Label(self.name.text.clone())
        };
        let memo = if self.memo.editing {
            MemoPane::Editor(self.memo.text.clone())
        } else {
            MemoPane::Lines(self.memo.lines())
        };
        let status = match &self.clip_msg {
            Some(msg) => Some(msg.clone()),
            None => None,
        };
        Screen { readout: self.session.readout(now), name, memo, status }
    }

    /// Takes note of an attempt to copy `stamp` to the clipboard. After a
    /// copy that went well the widget is to leave; after a failure it goes
    /// on. Either way the outcome is kept in words.
    pub fn finish(&mut self, stamp: &str, outcome: Result<(), ClipboardFailure>) -> (next: Next)
        ensures
            final(self).name == old(self).name,
            final(self).memo == old(self).memo,
            final(self).session == old(self).session,
            final(self).clip_msg is Some,
            match outcome {
                Ok(_) => next == Next::Exit && final(self).clip_msg->0@ == copied_message(stamp@),
                Err(failure) => next == Next::Continue && final(self).clip_msg->0@
                    == failure_message(failure),
            },
    {
        match outcome {
            Ok(_) => {
                let mut msg = stamp.to_owned();
                msg.append(" をクリップボードにコピーしました");
                self.clip_msg = Some(msg);
                Next::Exit
            },
            Err(ClipboardFailure::Unavailable(reason)) => {
                let mut msg = "クリップボード初期化失敗: ".to_owned();
                msg.append(reason.as_str());
                self.clip_msg = Some(msg);
                Next::Continue
            },
            Err(ClipboardFailure::WriteFailed(reason)) => {
                let mut msg = "クリップボード保存に失敗: ".to_owned();
                msg.append(reason.as_str());
                self.clip_msg = Some(msg);
                Next::Continue
            },
        }
    }
}

/// The text that finishing copies: the local time of day now, as `HHMM`.
pub fn completion_stamp() -> (stamp: String)
    ensures
        is_hhmm(stamp@),
{
    wall_clock_now().hhmm()
}

} // verus!
