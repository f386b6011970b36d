use vstd::prelude::*;
use crate::model::SessionError;

verus! {

/// Store key of a user record.
pub open spec fn user_key(username: Seq<char>) -> Seq<char> {
    "users/"@ + username
}

/// Store key under which a user's outgoing friend edges live.
pub open spec fn friends_key(username: Seq<char>) -> Seq<char> {
    user_key(username) + "/friends"@
}

/// Store key of the directed edge `from -> to`.
pub open spec fn edge_key(from: Seq<char>, to: Seq<char>) -> Seq<char> {
    friends_key(from) + "/"@ + to
}

/// Store key of a sample record.
pub open spec fn sample_key(title: Seq<char>) -> Seq<char> {
    "songs/"@ + title
}

/// Store key of a preset record.
pub open spec fn preset_key(title: Seq<char>) -> Seq<char> {
    "presets/"@ + title
}

/// `users/{username}`
pub fn user_path(username: &str) -> (r: String)
    ensures
        r@ == user_key(username@),
{
    let mut p = String::from_str("users/");
    p.append(username);
    p
}

/// `users/{username}/friends`
pub fn friends_path(username: &str) -> (r: String)
    ensures
        r@ == friends_key(username@),
{
    let mut p = user_path(username);
    p.append("/friends");
    p
}

/// `users/{from}/friends/{to}`
pub fn edge_path(from: &str, to: &str) -> (r: String)
    ensures
        r@ == edge_key(from@, to@),
{
    let mut p = friends_path(from);
    p.append("/");
    p.append(to);
    p
}

/// `songs/{title}`
pub fn sample_path(title: &str) -> (r: String)
    ensures
        r@ == sample_key(title@),
{
    let mut p = String::from_str("songs/");
    p.append(title);
    p
}

/// `presets/{title}`
pub fn preset_path(title: &str) -> (r: String)
    ensures
        r@ == preset_key(title@),
{
    let mut p = String::from_str("presets/");
    p.append(title);
    p
}

/// The first step of adding a friend: the lookup of the friend's user record
/// (`Ok(true)` when something is stored there). A failed lookup is
/// `RemoteUnavailable`, an empty record `NotFound`; only an existing friend
/// lets the edge writes go on.
pub fn check_friend_exists(friend: &String, lookup: Result<bool, String>) -> (r: Result<(), SessionError>)
    ensures
        lookup is Err ==> r is Err && r->Err_0 is RemoteUnavailable
            && r->Err_0->RemoteUnavailable_0@ == "Failed to check if friend exists: "@ + lookup->Err_0@,
        lookup == Ok::<bool, String>(false) ==> r is Err && r->Err_0 is NotFound
            && r->Err_0->NotFound_0@ == "User '"@ + friend@ + "' does not exist."@,
        lookup == Ok::<bool, String>(true) ==> r is Ok,
{
    match lookup {
        Err(e) => {
            let mut msg = String::from_str("Failed to check if friend exists: ");
            msg.append(e.as_str());
            Err(SessionError::RemoteUnavailable(msg))
        },
        Ok(false) => {
            let mut msg = String::from_str("User '");
            msg.append(friend.as_str());
            msg.append("' does not exist.");
            Err(SessionError::NotFound(msg))
        },
        Ok(true) => Ok(()),
    }
}

/// Which of the two directed edges of a friendship a write or delete touched.
#[derive(Debug, Clone, Copy, PartialEq, Eq, Structural)]
pub enum EdgeSide {
    /// The caller's edge towards the friend.
    Mine,
    /// The friend's edge towards the caller.
    Theirs,
}

/// The message that names the failing side of a friendship write.
pub open spec fn write_failure_prefix(side: EdgeSide, friend: Seq<char>) -> Seq<char> {
    match side {
        EdgeSide::Mine => "Failed to add '"@ + friend + "' to your friends list: "@,
        EdgeSide::Theirs => "Failed to add yourself to '"@ + friend + "'s friends list: "@,
    }
}

/// The outcome of writing one edge of a new friendship. The writes are
/// independent: a failure names its side, and a failed first write stops
/// the second, while a failed second write leaves the first in place.
pub fn edge_write_outcome(side: EdgeSide, friend: &String, written: Result<(), String>) -> (r: Result<(), SessionError>)
    ensures
        written is Ok ==> r is Ok,
        written is Err ==> r is Err && r->Err_0 is RemoteUnavailable
            && r->Err_0->RemoteUnavailable_0@ == write_failure_prefix(side, friend@) + written->Err_0@,
{
    match written {
        Ok(()) => Ok(()),
        Err(e) => {
            let mut msg = match side {
                EdgeSide::Mine => String::from_str("Failed to add '"),
                EdgeSide::Theirs => String::from_str("Failed to add yourself to '"),
            };
            msg.append(friend.as_str());
            match side {
                EdgeSide::Mine => msg.append("' to your friends list: "),
                EdgeSide::Theirs => msg.append("'s friends list: "),
            }
            msg.append(e.as_str());
            Err(SessionError::RemoteUnavailable(msg))
        },
    }
}

/// What became of the two deletions of a friend removal.
#[derive(Debug, Clone, Copy, PartialEq, Eq, Structural)]
pub struct RemovalReport {
    pub mine_removed: bool,
    pub theirs_removed: bool,
}

/// Folds the two independent edge deletions of a friend removal into a
/// report. Removal is best effort: a failed deletion is reported, never
/// raised, and does not stop the other.
pub fn removal_report(mine: &Result<(), String>, theirs: &Result<(), String>) -> (r: RemovalReport)
    ensures
        r.mine_removed == mine is Ok,
        r.theirs_removed == theirs is Ok,
{
    RemovalReport { mine_removed: mine.is_ok(), theirs_removed: theirs.is_ok() }
}

/// How far an addition of a friend has come.
#[derive(Debug, Clone, Copy, PartialEq, Eq, Structural)]
pub enum AddStage {
    /// Waiting for the lookup of the friend's user record.
    Lookup,
    /// Waiting for the write of the caller's edge.
    WriteMine,
    /// Waiting for the write of the friend's edge.
    WriteTheirs,
    /// Finished, successfully or not.
    Done,
}

/// What the caller must do next against the remote store.
#[derive(Debug)]
pub enum StoreAction {
    /// Read the record at this path and report whether something is stored.
    Get(String),
    /// Write `true` at this path and report the outcome.
    SetTrue(String),
    /// The operation is over, with this result.
    Finish(Result<(), SessionError>),
}

/// The model of a store action: `(kind, path)` with kind 0 for a read, 1 for
/// a write and 2 for the end.
pub open spec fn action_path(a: StoreAction) -> (int, Seq<char>) {
    match a {
        StoreAction::Get(p) => (0, p@),
        StoreAction::SetTrue(p) => (1, p@),
        StoreAction::Finish(_) => (2, Seq::empty()),
    }
}

/// An addition of `friend` to the friends of `me`: the friend's record is
/// looked up first, and only an existing friend leads to the two edge
/// writes, caller's side first. The writes are not atomic: a failure stops
/// the operation and leaves earlier writes in place.
#[derive(Debug)]
pub struct FriendAddition {
    pub me: String,
    pub friend: String,
    pub stage: AddStage,
}

impl FriendAddition {
    /// Starts an addition: the first action reads the friend's user record.
    pub fn new(me: String, friend: String) -> (r: (FriendAddition, StoreAction))
        ensures
            r.0.me@ == me@,
            r.0.friend@ == friend@,
            r.0.stage == AddStage::Lookup,
            action_path(r.1) == (0int, user_key(friend@)),
    {
        let path = user_path(friend.as_str());
        (FriendAddition { me, friend, stage: AddStage::Lookup }, StoreAction::Get(path))
    }

    /// The friend's record was looked up (`Ok(true)`: something is stored).
    /// An existing friend leads to the write of the caller's edge; otherwise
    /// the addition ends with the error of `check_friend_exists`.
    pub fn on_lookup(&mut self, found: Result<bool, String>) -> (a: StoreAction)
        requires
            old(self).stage == AddStage::Lookup,
        ensures
            final(self).me == old(self).me,
            final(self).friend == old(self).friend,
            found == Ok::<bool, String>(true) ==> final(self).stage == AddStage::WriteMine
                && action_path(a) == (1int, edge_key(old(self).me@, old(self).friend@)),
            found is Err ==> final(self).stage == AddStage::Done
                && a is Finish && a->Finish_0 is Err && a->Finish_0->Err_0 is RemoteUnavailable,
            found == Ok::<bool, String>(false) ==> final(self).stage == AddStage::Done
                && a is Finish && a->Finish_0 is Err && a->Finish_0->Err_0 is NotFound,
    {
        match check_friend_exists(&self.friend, found) {
            Ok(()) => {
                self.stage = AddStage::WriteMine;
                StoreAction::SetTrue(edge_path(self.me.as_str(), self.friend.as_str()))
            },
            Err(e) => {
                self.stage = AddStage::Done;
                StoreAction::Finish(Err(e))
            },
        }
    }

    /// The caller's edge was written, or failed to be. Success leads to the
    /// write of the friend's edge; failure ends the addition, naming the side.
    pub fn on_mine_written(&mut self, written: Result<(), String>) -> (a: StoreAction)
        requires
            old(self).stage == AddStage::WriteMine,
        ensures
            final(self).me == old(self).me,
            final(self).friend == old(self).friend,
            written is Ok ==> final(self).stage == AddStage::WriteTheirs
                && action_path(a) == (1int, edge_key(old(self).friend@, old(self).me@)),
            written is Err ==> final(self).stage == AddStage::Done && a is Finish && a->Finish_0 is Err
                && a->Finish_0->Err_0 is RemoteUnavailable
                && a->Finish_0->Err_0->RemoteUnavailable_0@
                    == write_failure_prefix(EdgeSide::Mine, old(self).friend@) + written->Err_0@,
    {
        match edge_write_outcome(EdgeSide::Mine, &self.friend, written) {
            Ok(()) => {
                self.stage = AddStage::WriteTheirs;
                StoreAction::SetTrue(edge_path(self.friend.as_str(), self.me.as_str()))
            },
            Err(e) => {
                self.stage = AddStage::Done;
                StoreAction::Finish(Err(e))
            },
        }
    }

    /// The friend's edge was written, or failed to be: either way the
    /// addition ends, successfully only if the write succeeded.
    pub fn on_theirs_written(&mut self, written: Result<(), String>) -> (a: StoreAction)
        requires
            old(self).stage == AddStage::WriteTheirs,
        ensures
            final(self).me == old(self).me,
            final(self).friend == old(self).friend,
            final(self).stage == AddStage::Done,
            written is Ok ==> a is Finish && a->Finish_0 is Ok,
            written is Err ==> a is Finish && a->Finish_0 is Err
                && a->Finish_0->Err_0 is RemoteUnavailable
                && a->Finish_0->Err_0->RemoteUnavailable_0@
                    == write_failure_prefix(EdgeSide::Theirs, old(self).friend@) + written->Err_0@,
    {
        self.stage = AddStage::Done;
        StoreAction::Finish(edge_write_outcome(EdgeSide::Theirs, &self.friend, written))
    }
}

} // verus!
