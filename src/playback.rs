use vstd::prelude::*;
use crate::model::{SessionError, opt_view};

verus! {

/// One installed audio output, identified by the number it was installed under.
#[derive(Debug, Clone, Copy, PartialEq, Eq, Structural)]
pub struct Slot {
    pub id: u64,
    pub paused: bool,
}

/// What the audio side must do to the outputs it holds, in the given order.
#[derive(Debug, Clone, Copy, PartialEq, Eq, Structural)]
pub enum SlotCommand {
    /// Make the output of this slot inaudible.
    Pause(u64),
    /// Make the output of this slot audible again.
    Resume(u64),
    /// Stop the background work that drives this slot.
    Cancel(u64),
    /// Begin audible playback of this slot at full volume.
    Start(u64),
}

/// Owner of the single playback slot and of the title last installed in it.
#[derive(Debug)]
pub struct PlaybackController {
    pub current: Option<Slot>,
    pub title: Option<String>,
    pub next_id: u64,
}

/// The commands that hand the output over from `prev` to a new slot `id`:
/// the previous slot falls silent and is cancelled before the new one starts.
pub open spec fn handover_commands(prev: Option<Slot>, id: u64) -> Seq<SlotCommand> {
    match prev {
        Some(s) => seq![SlotCommand::Pause(s.id), SlotCommand::Cancel(s.id), SlotCommand::Start(id)],
        None => seq![SlotCommand::Start(id)],
    }
}

/// The path of a track `title` inside the library directory `dir`.
pub open spec fn track_path_of(dir: Seq<char>, title: Seq<char>) -> Seq<char> {
    dir + seq!['/'] + title
}

/// Resolves a track title against the configured library directory; without
/// a directory, playback cannot start.
pub fn resolve_track(directory: &Option<String>, title: &str) -> (r: Result<String, SessionError>)
    ensures
        directory.is_none() ==> r == Err::<String, SessionError>(SessionError::NoDirectory),
        directory.is_some() ==> r is Ok && r->Ok_0@ == track_path_of(directory->Some_0@, title@),
{
    match directory {
        None => Err(SessionError::NoDirectory),
        Some(dir) => {
            let mut path = dir.clone();
            path.append("/");
            path.append(title);
            proof {
                reveal_strlit("/");
            }
            assert(path@ == track_path_of(dir@, title@));
            Ok(path)
        }
    }
}

impl PlaybackController {
    /// A controller with no slot and no title.
    pub fn new() -> (r: PlaybackController)
        ensures
            r.current.is_none(),
            r.title.is_none(),
            r.next_id == 0,
    {
        PlaybackController { current: None, title: None, next_id: 0 }
    }

    /// Installs a successfully decoded track as the current slot. The returned
    /// commands silence and cancel the previous slot, if any, and only then
    /// start the new one.
    pub fn install(&mut self, title: String) -> (cmds: Vec<SlotCommand>)
        ensures
            final(self).current == Some(Slot { id: old(self).next_id, paused: false }),
            opt_view(final(self).title) == Some(title@),
            final(self).next_id == old(self).next_id.wrapping_add(1),
            cmds@ == handover_commands(old(self).current, old(self).next_id),
    {
        let id = self.next_id;
        let mut cmds: Vec<SlotCommand> = Vec::new();
        match self.current {
            Some(prev) => {
                cmds.push(SlotCommand::Pause(prev.id));
                cmds.push(SlotCommand::Cancel(prev.id));
            },
            None => {},
        }
        cmds.push(SlotCommand::Start(id));
        self.current = Some(Slot { id, paused: false });
        self.title = Some(title);
        self.next_id = id.wrapping_add(1);
        assert(cmds@ =~= handover_commands(old(self).current, id));
        cmds
    }

    /// Pauses the current slot; with no slot this does nothing.
    pub fn pause(&mut self) -> (cmd: Option<SlotCommand>)
        ensures
            old(self).current.is_none() ==> cmd.is_none() && *final(self) == *old(self),
            old(self).current.is_some() ==> cmd == Some(SlotCommand::Pause(old(self).current->Some_0.id))
                && final(self).current == Some(Slot { id: old(self).current->Some_0.id, paused: true }),
            final(self).title == old(self).title,
            final(self).next_id == old(self).next_id,
    {
        match self.current {
            None => None,
            Some(s) => {
                self.current = Some(Slot { id: s.id, paused: true });
                Some(SlotCommand::Pause(s.id))
            },
        }
    }

    /// Resumes the current slot; with no slot this does nothing.
    pub fn resume(&mut self) -> (cmd: Option<SlotCommand>)
        ensures
            old(self).current.is_none() ==> cmd.is_none() && *final(self) == *old(self),
            old(self).current.is_some() ==> cmd == Some(SlotCommand::Resume(old(self).current->Some_0.id))
                && final(self).current == Some(Slot { id: old(self).current->Some_0.id, paused: false }),
            final(self).title == old(self).title,
            final(self).next_id == old(self).next_id,
    {
        match self.current {
            None => None,
            Some(s) => {
                self.current = Some(Slot { id: s.id, paused: false });
                Some(SlotCommand::Resume(s.id))
            },
        }
    }

    /// The slot a volume change applies to, if any.
    pub fn volume_target(&self) -> (r: Option<u64>)
        ensures
            r == (match self.current {
                Some(s) => Some(s.id),
                None => None::<u64>,
            }),
    {
        match self.current {
            Some(s) => Some(s.id),
            None => None,
        }
    }

    /// Whether `id` is still the installed slot; a superseded slot's driver
    /// stops when this turns false.
    pub fn is_current(&self, id: u64) -> (r: bool)
        ensures
            r == (self.current.is_some() && self.current->Some_0.id == id),
    {
        match self.current {
            Some(s) => s.id == id,
            None => false,
        }
    }

    /// The title of the most recently installed slot, whether it is playing,
    /// paused or finished.
    pub fn current_title(&self) -> (r: Option<String>)
        ensures
            opt_view(r) == opt_view(self.title),
    {
        match &self.title {
            Some(t) => Some(t.clone()),
            None => None,
        }
    }
}

/// Two plays in a row: the second title is current, and the first slot is
/// silenced (and cancelled) before the second becomes audible.
pub proof fn lemma_second_play_supersedes_first(c0: PlaybackController, c1: PlaybackController,
    c2: PlaybackController, a: Seq<char>, b: Seq<char>, cmds_b: Seq<SlotCommand>)
    requires
        c1.current == Some(Slot { id: c0.next_id, paused: false }),
        opt_view(c1.title) == Some(a),
        c1.next_id == c0.next_id.wrapping_add(1),
        c2.current == Some(Slot { id: c1.next_id, paused: false }),
        opt_view(c2.title) == Some(b),
        cmds_b == handover_commands(c1.current, c1.next_id),
    ensures
        opt_view(c2.title) == Some(b),
        cmds_b == seq![SlotCommand::Pause(c0.next_id), SlotCommand::Cancel(c0.next_id), SlotCommand::Start(c1.next_id)],
        forall|i: int, j: int| 0 <= i < cmds_b.len() && 0 <= j < cmds_b.len()
            && cmds_b[i] == SlotCommand::Pause(c0.next_id) && cmds_b[j] == SlotCommand::Start(c1.next_id)
            ==> i < j,
{
}

} // verus!
