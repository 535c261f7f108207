//! The directory that an identity's data is kept in, and the one it was kept
//! in under the product's earlier name.

use vstd::prelude::*;

verus! {

/// The directories that the environment names, as far as it does. `P` is a
/// directory as the host has it.
#[derive(Debug)]
pub struct EnvRoots<P> {
    /// `LOCALAPPDATA`.
    pub local_app_data: Option<P>,
    /// `XDG_DATA_HOME`.
    pub xdg_data_home: Option<P>,
    /// `HOME`.
    pub home: Option<P>,
}

/// A directory: `below`, seen from `base`.
#[derive(Debug)]
pub struct DataRoot<'a, P> {
    /// A directory that the environment names.
    pub base: &'a P,
    /// The way from there.
    pub below: &'static str,
}

impl<'a, P> Clone for DataRoot<'a, P> {
    fn clone(&self) -> (root: Self)
        ensures
            root == *self,
    {
        DataRoot { base: self.base, below: self.below }
    }
}

impl<'a, P> Copy for DataRoot<'a, P> {

}

/// A [`DataRoot`] with the way as characters.
pub struct Directory<P> {
    /// Where the way starts.
    pub base: P,
    /// The way from there.
    pub below: Seq<char>,
}

impl<'a, P> View for DataRoot<'a, P> {
    type V = Directory<P>;

    open spec fn view(&self) -> Directory<P> {
        Directory { base: *self.base, below: self.below@ }
    }
}

/// The directory under the first of `LOCALAPPDATA`, `XDG_DATA_HOME` and `HOME`
/// that is set, by the way that belongs to that variable.
pub open spec fn first_root<P>(
    roots: EnvRoots<P>,
    local_app_data: Seq<char>,
    xdg_data_home: Seq<char>,
    home: Seq<char>,
) -> Option<Directory<P>> {
    match (roots.local_app_data, roots.xdg_data_home, roots.home) {
        (Some(base), _, _) => Some(Directory { base, below: local_app_data }),
        (None, Some(base), _) => Some(Directory { base, below: xdg_data_home }),
        (None, None, Some(base)) => Some(Directory { base, below: home }),
        (None, None, None) => None,
    }
}

/// The data directory, if the environment names one.
pub open spec fn current_root<P>(roots: EnvRoots<P>) -> Option<Directory<P>> {
    first_root(roots, "Hocket"@, "hocket"@, ".local/share/hocket"@)
}

/// The data directory of the earlier name, if the environment names one.
pub open spec fn earlier_root<P>(roots: EnvRoots<P>) -> Option<Directory<P>> {
    first_root(roots, "Strophe"@, "strophe"@, ".local/share/strophe"@)
}

/// Hocket's data directory, or what to say where the environment names none.
pub fn default_data_root<'a, P>(roots: &'a EnvRoots<P>) -> (root: Result<DataRoot<'a, P>, String>)
    ensures
        match (root, current_root(*roots)) {
            (Ok(found), Some(named)) => found@ == named,
            (Err(message), None) => message@
                == "could not determine Hocket's local data directory"@,
            _ => false,
        },
{
    if let Some(base) = &roots.local_app_data {
        return Ok(DataRoot { base, below: "Hocket" });
    }
    if let Some(base) = &roots.xdg_data_home {
        return Ok(DataRoot { base, below: "hocket" });
    }
    if let Some(base) = &roots.home {
        return Ok(DataRoot { base, below: ".local/share/hocket" });
    }
    Err("could not determine Hocket's local data directory".to_owned())
}

/// The data directory of the earlier name, where the environment names one.
pub fn legacy_data_root<'a, P>(roots: &'a EnvRoots<P>) -> (root: Option<DataRoot<'a, P>>)
    ensures
        match (root, earlier_root(*roots)) {
            (Some(found), Some(named)) => found@ == named,
            (None, None) => true,
            _ => false,
        },
{
    if let Some(base) = &roots.local_app_data {
        return Some(DataRoot { base, below: "Strophe" });
    }
    if let Some(base) = &roots.xdg_data_home {
        return Some(DataRoot { base, below: "strophe" });
    }
    match &roots.home {
        Some(base) => Some(DataRoot { base, below: ".local/share/strophe" }),
        None => None,
    }
}

/// How far the move of the earlier data directory has come, and so what is to
/// be asked of the file system next.
#[derive(Debug)]
pub enum RootAdoption<'a, P> {
    /// Does `data_root` exist?
    CheckCurrent { data_root: DataRoot<'a, P>, earlier: Option<DataRoot<'a, P>> },
    /// Does `legacy` exist?
    CheckLegacy { data_root: DataRoot<'a, P>, legacy: DataRoot<'a, P> },
    /// Move `legacy` to `data_root`.
    MoveLegacy { data_root: DataRoot<'a, P>, legacy: DataRoot<'a, P> },
    /// Nothing more to ask. A failure carries what to say of it.
    Finished { outcome: Result<(), String> },
}

/// A move that failed, in the host's words.
#[derive(Debug)]
pub struct MoveFailure {
    /// What was to be moved.
    pub legacy: String,
    /// Where it was to go.
    pub data_root: String,
    /// What went wrong.
    pub error: String,
}

/// What the file system replied.
#[derive(Debug)]
pub enum RootReply {
    /// Whether the directory that was asked for exists.
    Exists(bool),
    /// The move went well, or failed.
    Moved(Result<(), MoveFailure>),
}

/// A [`RootAdoption`] with its strings as characters.
pub enum RootStage<P> {
    /// Does `data_root` exist?
    CheckCurrent { data_root: Directory<P>, earlier: Option<Directory<P>> },
    /// Does `legacy` exist?
    CheckLegacy { data_root: Directory<P>, legacy: Directory<P> },
    /// Move `legacy` to `data_root`.
    MoveLegacy { data_root: Directory<P>, legacy: Directory<P> },
    /// The end.
    Finished { outcome: Result<(), Seq<char>> },
}

impl<'a, P> View for RootAdoption<'a, P> {
    type V = RootStage<P>;

    open spec fn view(&self) -> RootStage<P> {
        match self {
            RootAdoption::CheckCurrent { data_root, earlier } => RootStage::CheckCurrent {
                data_root: data_root@,
                earlier: match earlier {
                    Some(root) => Some(root@),
                    None => None,
                },
            },
            RootAdoption::CheckLegacy { data_root, legacy } => RootStage::CheckLegacy {
                data_root: data_root@,
                legacy: legacy@,
            },
            RootAdoption::MoveLegacy { data_root, legacy } => RootStage::MoveLegacy {
                data_root: data_root@,
                legacy: legacy@,
            },
            RootAdoption::Finished { outcome: Ok(()) } => RootStage::Finished { outcome: Ok(()) },
            RootAdoption::Finished { outcome: Err(message) } => RootStage::Finished {
                outcome: Err(message@),
            },
        }
    }
}

/// What to say of a move that failed.
pub open spec fn move_failure_text(failure: MoveFailure) -> Seq<char> {
    "move pre-rename identity "@ + failure.legacy@ + " -> "@ + failure.data_root@ + ": "@
        + failure.error@
}

/// The stage of the move once `reply` came in at `stage`. A reply to something
/// that was not asked changes nothing.
pub open spec fn root_stage_after<P>(stage: RootStage<P>, reply: RootReply) -> RootStage<P> {
    match (stage, reply) {
        (RootStage::CheckCurrent { .. }, RootReply::Exists(true)) => RootStage::Finished {
            outcome: Ok(()),
        },
        (RootStage::CheckCurrent { data_root, earlier: Some(legacy) }, RootReply::Exists(false)) =>
            RootStage::CheckLegacy { data_root, legacy },
        (RootStage::CheckCurrent { earlier: None, .. }, RootReply::Exists(false)) =>
            RootStage::Finished { outcome: Ok(()) },
        (RootStage::CheckLegacy { data_root, legacy }, RootReply::Exists(true)) =>
            RootStage::MoveLegacy { data_root, legacy },
        (RootStage::CheckLegacy { .. }, RootReply::Exists(false)) => RootStage::Finished {
            outcome: Ok(()),
        },
        (RootStage::MoveLegacy { .. }, RootReply::Moved(Ok(()))) => RootStage::Finished {
            outcome: Ok(()),
        },
        (RootStage::MoveLegacy { .. }, RootReply::Moved(Err(failure))) => RootStage::Finished {
            outcome: Err(move_failure_text(failure)),
        },
        _ => stage,
    }
}

/// Says what went wrong with a move.
fn move_failure_message(failure: MoveFailure) -> (message: String)
    ensures
        message@ == move_failure_text(failure),
{
    let mut message = "move pre-rename identity ".to_owned();
    message.append(failure.legacy.as_str());
    message.append(" -> ");
    message.append(failure.data_root.as_str());
    message.append(": ");
    message.append(failure.error.as_str());
    message
}

/// Moves a data directory of the earlier name to the current one, once.
///
/// The auto-unlock root is wrapped against the user, not against its path, so
/// it survives the move. The sealed record's associated data is its path
/// *relative to the records root*, which the move also leaves intact.
pub fn adopt_legacy_data_root<'a, P>(stage: RootAdoption<'a, P>, reply: RootReply) -> (next:
    RootAdoption<'a, P>)
    ensures
        next@ == root_stage_after(stage@, reply),
{
    match (stage, reply) {
        (RootAdoption::CheckCurrent { data_root, earlier }, RootReply::Exists(exists)) => {
            if exists {
                return RootAdoption::Finished { outcome: Ok(()) };
            }
            match earlier {
                Some(legacy) => RootAdoption::CheckLegacy { data_root, legacy },
                None => RootAdoption::Finished { outcome: Ok(()) },
            }
        },
        (RootAdoption::CheckLegacy { data_root, legacy }, RootReply::Exists(exists)) => {
            if exists {
                RootAdoption::MoveLegacy { data_root, legacy }
            } else {
                RootAdoption::Finished { outcome: Ok(()) }
            }
        },
        (RootAdoption::MoveLegacy { .. }, RootReply::Moved(Ok(()))) => {
            RootAdoption::Finished { outcome: Ok(()) }
        },
        (RootAdoption::MoveLegacy { .. }, RootReply::Moved(Err(failure))) => {
            RootAdoption::Finished { outcome: Err(move_failure_message(failure)) }
        },
        (stage, _) => stage,
    }
}

/// The earlier data directory lies beside the current one: the environment
/// names both or neither, seen from the same place, and they are never the
/// same directory.
pub proof fn law_roots_lie_side_by_side<P>(roots: EnvRoots<P>)
    ensures
        current_root(roots) is Some <==> earlier_root(roots) is Some,
        current_root(roots) is Some <==> (roots.local_app_data is Some || roots.xdg_data_home
            is Some || roots.home is Some),
        current_root(roots) matches Some(root) ==> earlier_root(roots) matches Some(earlier)
            && root.base == earlier.base && root.below != earlier.below,
{
    reveal_strlit("Hocket");
    reveal_strlit("Strophe");
    reveal_strlit("hocket");
    reveal_strlit("strophe");
    reveal_strlit(".local/share/hocket");
    reveal_strlit(".local/share/strophe");
    assert("Hocket"@.len() != "Strophe"@.len());
    assert("hocket"@.len() != "strophe"@.len());
    assert(".local/share/hocket"@.len() != ".local/share/strophe"@.len());
}

/// A directory is moved only where the current one was found missing and the
/// earlier one was found; and what is moved is the earlier one, to the place
/// of the current one.
pub proof fn law_only_a_missing_root_is_filled<P>(
    data_root: Directory<P>,
    earlier: Option<Directory<P>>,
    first: RootReply,
    second: RootReply,
)
    ensures
        ({
            let start = RootStage::CheckCurrent { data_root, earlier };
            let next = root_stage_after(start, first);
            &&& next !is MoveLegacy
            &&& root_stage_after(next, second) is MoveLegacy ==> {
                &&& first == RootReply::Exists(false)
                &&& second == RootReply::Exists(true)
                &&& earlier matches Some(legacy)
                &&& root_stage_after(next, second) == RootStage::MoveLegacy {
                    data_root,
                    legacy,
                }
            }
        }),
{
}

/// Whether `reply` is one to what is asked at `stage`.
pub open spec fn answers_move<P>(stage: RootStage<P>, reply: RootReply) -> bool {
    match stage {
        RootStage::CheckCurrent { .. } => reply is Exists,
        RootStage::CheckLegacy { .. } => reply is Exists,
        RootStage::MoveLegacy { .. } => reply is Moved,
        RootStage::Finished { .. } => false,
    }
}

/// How many requests there can still be.
pub open spec fn move_requests_left<P>(stage: RootStage<P>) -> nat {
    match stage {
        RootStage::CheckCurrent { .. } => 3,
        RootStage::CheckLegacy { .. } => 2,
        RootStage::MoveLegacy { .. } => 1,
        RootStage::Finished { .. } => 0,
    }
}

/// Every reply to what was asked leaves fewer requests, so the move ends after
/// three of them; any other reply changes nothing.
pub proof fn law_move_ends<P>(stage: RootStage<P>, reply: RootReply)
    ensures
        move_requests_left(stage) <= 3,
        move_requests_left(stage) == 0 <==> stage is Finished,
        answers_move(stage, reply) ==> move_requests_left(root_stage_after(stage, reply))
            < move_requests_left(stage),
        !answers_move(stage, reply) ==> root_stage_after(stage, reply) == stage,
{
}

/// The move is made once: as soon as the data directory exists, nothing is
/// asked for but that.
pub proof fn law_existing_root_stands<P>(data_root: Directory<P>, earlier: Option<Directory<P>>)
    ensures
        root_stage_after(
            RootStage::CheckCurrent { data_root, earlier },
            RootReply::Exists(true),
        ) == (RootStage::<P>::Finished { outcome: Ok(()) }),
{
}

/// `LOCALAPPDATA` comes before the other two, whatever they are, and
/// `XDG_DATA_HOME` before `HOME`. The data directory is seen from the one that
/// counts, and so is that of the earlier name, each by the name that it has
/// there. Without any of the three there is neither.
pub proof fn law_environment_is_read_in_order<P>(roots: EnvRoots<P>)
    ensures
        roots.local_app_data matches Some(base) ==> {
            &&& current_root(roots) == Some(Directory { base, below: "Hocket"@ })
            &&& earlier_root(roots) == Some(Directory { base, below: "Strophe"@ })
        },
        roots.local_app_data is None ==> (roots.xdg_data_home matches Some(base) ==> {
            &&& current_root(roots) == Some(Directory { base, below: "hocket"@ })
            &&& earlier_root(roots) == Some(Directory { base, below: "strophe"@ })
        }),
        roots.local_app_data is None && roots.xdg_data_home is None ==> (roots.home matches Some(
            base,
        ) ==> {
            &&& current_root(roots) == Some(Directory { base, below: ".local/share/hocket"@ })
            &&& earlier_root(roots) == Some(Directory { base, below: ".local/share/strophe"@ })
        }),
        roots.local_app_data is None && roots.xdg_data_home is None && roots.home is None ==> {
            &&& current_root(roots) is None
            &&& earlier_root(roots) is None
        },
{
}

/// What comes after the variable that counts makes no difference: two
/// environments that agree so far name the same directories.
pub proof fn law_later_variables_do_not_count<P>(roots: EnvRoots<P>, other: EnvRoots<P>)
    requires
        roots.local_app_data == other.local_app_data,
        roots.local_app_data is None ==> roots.xdg_data_home == other.xdg_data_home,
        roots.local_app_data is None && roots.xdg_data_home is None ==> roots.home == other.home,
    ensures
        current_root(roots) == current_root(other),
        earlier_root(roots) == earlier_root(other),
{
}

/// The data directory is looked for first; where it is missing and there may be
/// an earlier one, that one is looked for; and where that is found, it is moved
/// to the data directory. Each request is about these two directories.
pub proof fn law_missing_root_is_filled<P>(data_root: Directory<P>, legacy: Directory<P>)
    ensures
        root_stage_after(
            (RootStage::CheckCurrent { data_root, earlier: Some(legacy) }),
            RootReply::Exists(false),
        ) == (RootStage::CheckLegacy { data_root, legacy }),
        root_stage_after((RootStage::CheckLegacy { data_root, legacy }), RootReply::Exists(true))
            == (RootStage::MoveLegacy { data_root, legacy }),
        root_stage_after((RootStage::MoveLegacy { data_root, legacy }), RootReply::Moved(Ok(())))
            == (RootStage::<P>::Finished { outcome: Ok(()) }),
{
}

/// Where the data directory is there, or there is no earlier one, there is
/// nothing to move.
pub proof fn law_nothing_to_move<P>(
    data_root: Directory<P>,
    earlier: Option<Directory<P>>,
    legacy: Directory<P>,
)
    ensures
        root_stage_after((RootStage::CheckCurrent { data_root, earlier }), RootReply::Exists(true))
            == (RootStage::<P>::Finished { outcome: Ok(()) }),
        root_stage_after(
            (RootStage::CheckCurrent { data_root, earlier: None }),
            RootReply::Exists(false),
        ) == (RootStage::<P>::Finished { outcome: Ok(()) }),
        root_stage_after((RootStage::CheckLegacy { data_root, legacy }), RootReply::Exists(false))
            == (RootStage::<P>::Finished { outcome: Ok(()) }),
{
}

/// A move that failed says what was to go where, and what went wrong.
pub proof fn law_failed_move_is_told<P>(
    data_root: Directory<P>,
    legacy: Directory<P>,
    failure: MoveFailure,
)
    ensures
        root_stage_after(
            (RootStage::MoveLegacy { data_root, legacy }),
            RootReply::Moved(Err(failure)),
        ) == (RootStage::<P>::Finished {
            outcome: Err(
                "move pre-rename identity "@ + failure.legacy@ + " -> "@ + failure.data_root@
                    + ": "@ + failure.error@,
            ),
        }),
{
}

/// A reply to something that was not asked changes nothing, and at the end
/// nothing does.
pub proof fn law_unasked_root_reply_changes_nothing<P>(stage: RootStage<P>, reply: RootReply)
    requires
        stage is CheckCurrent || stage is CheckLegacy ==> reply !is Exists,
        stage is MoveLegacy ==> reply !is Moved,
    ensures
        root_stage_after(stage, reply) == stage,
{
}

/// A directory is seen as what it is: its way, from where it starts.
pub proof fn law_directory_is_seen_as_it_is<'a, P>(root: DataRoot<'a, P>)
    ensures
        root@ == (Directory { base: *root.base, below: root.below@ }),
{
}

/// A stage of the move is seen as what it is, with the directories it is about.
pub proof fn law_move_is_seen_as_it_is<'a, P>(stage: RootAdoption<'a, P>)
    ensures
        match stage {
            RootAdoption::CheckCurrent { data_root, earlier: Some(legacy) } => stage@ == (
            RootStage::CheckCurrent { data_root: data_root@, earlier: Some(legacy@) }),
            RootAdoption::CheckCurrent { data_root, earlier: None } => stage@ == (
            RootStage::CheckCurrent { data_root: data_root@, earlier: None }),
            RootAdoption::CheckLegacy { data_root, legacy } => stage@ == (RootStage::CheckLegacy {
                data_root: data_root@,
                legacy: legacy@,
            }),
            RootAdoption::MoveLegacy { data_root, legacy } => stage@ == (RootStage::MoveLegacy {
                data_root: data_root@,
                legacy: legacy@,
            }),
            RootAdoption::Finished { outcome: Ok(_) } => stage@ == (RootStage::<P>::Finished {
                outcome: Ok(()),
            }),
            RootAdoption::Finished { outcome: Err(message) } => stage@ == (RootStage::<
                P,
            >::Finished { outcome: Err(message@) }),
        },
{
}

} // verus!
