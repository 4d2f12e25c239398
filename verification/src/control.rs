//! Application of one command to the session state. The processor decides
//! everything; the driving loop only performs what the returned step names
//! and reports outcomes back in.

use crate::audio::{after_stop, after_toggle, wf_model, AudioSession};
use crate::input::Command;
use crate::selection::{next_idx, prev_idx, Selection};
use vstd::prelude::*;

verus! {

/// What the driving loop must do after one command was applied.
#[derive(Debug)]
pub enum Step {
    /// Keep rendering and polling.
    Continue,
    /// Open and decode this path, then report the outcome through
    /// [`AudioSession::play`].
    StartPlayback(String),
    /// Tear down and exit normally.
    Quit,
}

/// Apply one command to the selection and the session. Navigation commands
/// move only the selection; `TogglePauseResume` and `Stop` touch only the
/// session; `Activate` asks the caller to start playback of the selected
/// entry and is silent without a selection; the seek commands are reserved
/// and do nothing; `Quit` changes nothing and signals termination.
pub fn process(
    cmd: Command,
    entries: &Vec<String>,
    sel: &mut Selection,
    session: &mut AudioSession,
) -> (step: Step)
    requires
        old(sel).wf(),
        wf_model(old(session)@),
        old(sel).len() == entries.len(),
        entries.len() > 0,
    ensures
        final(sel).wf(),
        wf_model(final(session)@),
        final(sel).len() == old(sel).len(),
        !(cmd is MoveNext || cmd is MovePrev || cmd is MoveFirst || cmd is MoveLast
            || cmd is Unselect) ==> final(sel).idx() == old(sel).idx(),
        !(cmd is TogglePauseResume || cmd is Stop) ==> final(session)@ == old(session)@,
        cmd is MoveNext ==> final(sel).idx() == next_idx(old(sel).idx(), old(sel).len()),
        cmd is MovePrev ==> final(sel).idx() == prev_idx(old(sel).idx()),
        cmd is MoveFirst ==> final(sel).idx() == Some(0usize),
        cmd is MoveLast ==> final(sel).idx() == Some((old(sel).len() - 1) as usize),
        cmd is Unselect ==> final(sel).idx() is None,
        cmd is TogglePauseResume ==> final(session)@ == after_toggle(old(session)@),
        cmd is Stop ==> final(session)@ == after_stop(old(session)@),
        step is Quit <==> cmd is Quit,
        step is StartPlayback <==> cmd is Activate && old(sel).idx() is Some,
        step matches Step::StartPlayback(p) ==> old(sel).idx() matches Some(i) && p@ == entries@[
            i as int
        ]@,
{
    match cmd {
        Command::MoveNext => {
            sel.move_next();
            Step::Continue
        }
        Command::MovePrev => {
            sel.move_prev();
            Step::Continue
        }
        Command::MoveFirst => {
            sel.move_first();
            Step::Continue
        }
        Command::MoveLast => {
            sel.move_last();
            Step::Continue
        }
        Command::Unselect => {
            sel.unselect();
            Step::Continue
        }
        Command::TogglePauseResume => {
            session.toggle_pause_resume();
            Step::Continue
        }
        Command::Stop => {
            session.stop();
            Step::Continue
        }
        Command::Activate => {
            match sel.selected() {
                Some(i) => Step::StartPlayback(entries[i].clone()),
                None => Step::Continue,
            }
        }
        Command::SeekForward => Step::Continue,
        Command::SeekBackward => Step::Continue,
        Command::Quit => Step::Quit,
        Command::Noop => Step::Continue,
    }
}

} // verus!
