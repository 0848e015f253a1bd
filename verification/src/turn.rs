//! One turn of the session: what to do with a line of player text, and what
//! to make of the reply to a submission.
//!
//! The loop itself, the transport and the terminal belong to the caller. The
//! decisions are here.

use vstd::prelude::*;
use crate::batch::{decode_batch, decoded_batch};
use crate::error::{TransportError, TurnError};
use crate::json::{decoded_tree, trees_of, JsonTree, JsonValue};
use crate::render::{render_batch, rendered_batch, styled_lines_of, StyledLine};
use crate::schema::SchemaVersion;
use crate::text::{lowercased, same_text, trimmed};

verus! {

/// What the loop does next with a line of player text.
#[derive(Debug, PartialEq, Eq)]
pub enum TurnAction {
    /// Leave the loop; nothing is submitted.
    Quit,
    /// Submit the command to the service.
    Submit { command: String },
}

impl Clone for TurnAction {
    fn clone(&self) -> (copy: TurnAction)
        ensures
            copy == *self,
    {
        match self {
            TurnAction::Quit => TurnAction::Quit,
            TurnAction::Submit { command } => TurnAction::Submit { command: command.clone() },
        }
    }
}

/// The action that a command calls for: the command `exit` ends the session,
/// every other command is submitted as it is.
pub open spec fn action_fits(action: TurnAction, command: Seq<char>) -> bool {
    if command == "exit"@ {
        action is Quit
    } else {
        action matches TurnAction::Submit { command: submitted } && submitted@ == command
    }
}

/// Decides what to do with a command that is already trimmed and in lower
/// case.
pub fn classify_command(command: String) -> (action: TurnAction)
    ensures
        action_fits(action, command@),
{
    if same_text(command.as_str(), "exit") {
        TurnAction::Quit
    } else {
        TurnAction::Submit { command }
    }
}

/// Decides what to do with a line of player text: the line is trimmed and
/// put in lower case, and the command that is left is classified.
pub fn next_action(raw_line: &str) -> (action: TurnAction)
    ensures
        action_fits(action, lowercased(trimmed(raw_line@))),
{
    classify_command(raw_line.trim().to_lowercase())
}

/// Where the loop stands: still reading lines, or left for good.
#[derive(Debug, Clone, Copy, PartialEq, Eq, Hash, Structural)]
pub enum LoopState {
    Running,
    Ended,
}

/// One step of the loop on a command: the state after it, and the command
/// that goes to the service, if one does. A loop that has ended stays ended
/// and submits nothing; a running loop ends on `exit` and submits every other
/// command.
pub open spec fn step_of(state: LoopState, command: Seq<char>) -> (LoopState, Option<Seq<char>>) {
    if state is Ended || command == "exit"@ {
        (LoopState::Ended, None)
    } else {
        (LoopState::Running, Some(command))
    }
}

/// Whether `action` hands the service what a step submits.
pub open spec fn action_carries(action: TurnAction, submission: Option<Seq<char>>) -> bool {
    match submission {
        Some(command) => action matches TurnAction::Submit { command: submitted } && submitted@
            == command,
        None => action is Quit,
    }
}

/// The state of a loop that started running and has read the given commands
/// in their order.
pub open spec fn state_after(commands: Seq<Seq<char>>) -> LoopState
    decreases commands.len(),
{
    if commands.len() == 0 {
        LoopState::Running
    } else {
        step_of(state_after(commands.drop_last()), commands.last()).0
    }
}

/// The commands that went to the service, in their order, while a loop that
/// started running read the given commands.
pub open spec fn submitted_by(commands: Seq<Seq<char>>) -> Seq<Seq<char>>
    decreases commands.len(),
{
    if commands.len() == 0 {
        Seq::empty()
    } else {
        let earlier = commands.drop_last();
        match step_of(state_after(earlier), commands.last()).1 {
            Some(command) => submitted_by(earlier).push(command),
            None => submitted_by(earlier),
        }
    }
}

/// The command `exit` is never submitted, whatever was read before it and
/// whatever is read after it.
pub proof fn lemma_exit_is_never_submitted(commands: Seq<Seq<char>>)
    ensures
        forall|i: int|
            0 <= i < submitted_by(commands).len() ==> #[trigger] submitted_by(commands)[i]
                != "exit"@,
    decreases commands.len(),
{
    if commands.len() > 0 {
        let earlier = commands.drop_last();
        lemma_exit_is_never_submitted(earlier);
        assert forall|i: int| 0 <= i < submitted_by(commands).len() implies #[trigger] submitted_by(
            commands,
        )[i] != "exit"@ by {
            if i < submitted_by(earlier).len() {
                assert(submitted_by(commands)[i] == submitted_by(earlier)[i]);
            }
        }
    }
}

/// Reading `exit` ends the loop and leaves the number of submissions as it
/// was: what was submitted before it is all that is ever submitted, whatever
/// is read after it.
pub proof fn lemma_exit_ends_submissions(before: Seq<Seq<char>>, after: Seq<Seq<char>>)
    ensures
        state_after(before.push("exit"@) + after) is Ended,
        submitted_by(before.push("exit"@) + after) == submitted_by(before),
    decreases after.len(),
{
    let all = before.push("exit"@) + after;
    if after.len() == 0 {
        assert(all =~= before.push("exit"@));
        assert(all.drop_last() =~= before);
    } else {
        lemma_exit_ends_submissions(before, after.drop_last());
        assert(all.drop_last() =~= before.push("exit"@) + after.drop_last());
    }
}

impl LoopState {
    /// Takes one step on a command that is already trimmed and in lower case.
    pub fn advance(self, command: String) -> (next: (LoopState, TurnAction))
        ensures
            next.0 == step_of(self, command@).0,
            action_carries(next.1, step_of(self, command@).1),
    {
        match self {
            LoopState::Ended => (LoopState::Ended, TurnAction::Quit),
            LoopState::Running => match classify_command(command) {
                TurnAction::Quit => (LoopState::Ended, TurnAction::Quit),
                TurnAction::Submit { command } => (
                    LoopState::Running,
                    TurnAction::Submit { command },
                ),
            },
        }
    }

    /// Takes one step on a line of player text: the line is trimmed and put
    /// in lower case, and the step is taken on the command that is left.
    pub fn step(self, raw_line: &str) -> (next: (LoopState, TurnAction))
        ensures
            next.0 == step_of(self, lowercased(trimmed(raw_line@))).0,
            action_carries(next.1, step_of(self, lowercased(trimmed(raw_line@))).1),
    {
        self.advance(raw_line.trim().to_lowercase())
    }
}

/// The success range of status codes.
pub open spec fn spec_is_success(status: u16) -> bool {
    200 <= status <= 299
}

/// Whether a status code reports success.
#[verifier::when_used_as_spec(spec_is_success)]
pub fn is_success(status: u16) -> (success: bool)
    ensures
        success == spec_is_success(status),
{
    200 <= status && status <= 299
}

/// What the operator is told of a reply that is no list of records.
pub open spec fn not_a_list() -> Seq<char> {
    "the reply is not a list of events"@
}

/// Whether `res` is what a decoded reply calls for. A reply that is no list
/// is a transport failure. A list of records is rendered whole, in order and
/// under the policy of the schema version, or rejected whole with what is
/// wrong with its first faulty record.
pub open spec fn outcome_fits(
    res: Result<Vec<StyledLine>, TurnError>,
    document: JsonTree,
    version: SchemaVersion,
) -> bool {
    match document {
        JsonTree::Array(records) => match decoded_batch(records, version) {
            Ok(events) => res matches Ok(lines) && styled_lines_of(lines@) == rendered_batch(
                events,
                version.spec_policy(),
            ),
            Err(fault) => res matches Err(TurnError::Schema(e)) && e@ == fault,
        },
        _ => res matches Err(TurnError::Transport(TransportError::Decode { detail })) && detail@
            == not_a_list(),
    }
}

/// A batch that is rejected renders nothing: what comes back for it is the
/// fault of its first faulty record, and no line.
pub proof fn lemma_rejected_batch_renders_nothing(
    res: Result<Vec<StyledLine>, TurnError>,
    records: Seq<JsonTree>,
    version: SchemaVersion,
)
    requires
        decoded_batch(records, version) is Err,
        outcome_fits(res, JsonTree::Array(records), version),
    ensures
        res matches Err(TurnError::Schema(fault)) && fault@ == decoded_batch(
            records,
            version,
        )->Err_0,
{
}

/// A batch that is accepted renders whole: the lines of each of its
/// envelopes, in the order of the batch.
pub proof fn lemma_accepted_batch_renders_whole(
    res: Result<Vec<StyledLine>, TurnError>,
    records: Seq<JsonTree>,
    version: SchemaVersion,
)
    requires
        decoded_batch(records, version) is Ok,
        outcome_fits(res, JsonTree::Array(records), version),
    ensures
        res matches Ok(lines) && styled_lines_of(lines@) == rendered_batch(
            decoded_batch(records, version)->Ok_0,
            version.spec_policy(),
        ),
{
}

/// Renders a decoded reply under a schema version.
pub fn render_document(document: &JsonValue, version: SchemaVersion) -> (res: Result<
    Vec<StyledLine>,
    TurnError,
>)
    ensures
        outcome_fits(res, document@, version),
{
    match document {
        JsonValue::Array(records) => {
            proof {
                assert(document@->Array_0 =~= trees_of(records@));
            }
            match decode_batch(records, version) {
                Ok(batch) => Ok(render_batch(&batch, version.policy())),
                Err(fault) => Err(TurnError::Schema(fault)),
            }
        },
        _ => Err(
            TurnError::Transport(
                TransportError::Decode { detail: "the reply is not a list of events".to_owned() },
            ),
        ),
    }
}

/// Makes of a reply what the loop shows: the styled lines of its batch, or
/// the reason why there are none.
///
/// A status outside the success range is a transport failure that carries
/// the status, whatever the body holds. A body that cannot be decoded is a
/// transport failure too. What follows for a decoded body is what
/// [`render_document`] makes of it.
pub fn handle_api_response(status: u16, body: &str, version: SchemaVersion) -> (res: Result<
    Vec<StyledLine>,
    TurnError,
>)
    ensures
        !spec_is_success(status) ==> (res matches Err(
            TurnError::Transport(TransportError::Status { code }),
        ) && code == status),
        spec_is_success(status) ==> match decoded_tree(body@) {
            Some(document) => outcome_fits(res, document, version),
            None => res matches Err(TurnError::Transport(TransportError::Decode { .. })),
        },
{
    if !is_success(status) {
        return Err(TurnError::Transport(TransportError::Status { code: status }));
    }
    match JsonValue::from_text(body) {
        Ok(document) => render_document(&document, version),
        Err(detail) => Err(TurnError::Transport(TransportError::Decode { detail })),
    }
}

} // verus!
