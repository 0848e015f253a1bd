//! The closed vocabulary of command categories.
//!
//! A category travels as a snake_case token. The vocabulary is closed: a
//! token outside it is a schema mismatch, never a default category.

use vstd::prelude::*;
use crate::error::SchemaError;
use crate::text::same_text;

verus! {

/// The kind of action that produced an event. The categories are ordered as
/// they are declared.
#[derive(Debug, Clone, Copy, PartialEq, Eq, PartialOrd, Ord, Hash, Structural)]
pub enum CommandType {
    AttackAgent,
    DisplayHelpText,
    DoNothing,
    DropItem,
    Emote,
    Event,
    GetInventory,
    GetItemFromItem,
    GiveItemToAgent,
    GoExit,
    LookAround,
    LookAtAgent,
    LookAtExit,
    LookAtItem,
    PickUpItem,
    RevealExit,
    RevealItem,
    SearchItem,
    SearchLocation,
    SpawnAgent,
    SpeakToAgent,
    UnlockExit,
    UpdateAgentIntent,
    UpdateAgentMood,
    UpdateItemDescription,
    UseItem,
    Wait,
}

impl CommandType {
    /// The place of the category in the vocabulary, counted from zero in
    /// declaration order.
    pub open spec fn spec_ordinal(self) -> usize {
        match self {
            CommandType::AttackAgent => 0,
            CommandType::DisplayHelpText => 1,
            CommandType::DoNothing => 2,
            CommandType::DropItem => 3,
            CommandType::Emote => 4,
            CommandType::Event => 5,
            CommandType::GetInventory => 6,
            CommandType::GetItemFromItem => 7,
            CommandType::GiveItemToAgent => 8,
            CommandType::GoExit => 9,
            CommandType::LookAround => 10,
            CommandType::LookAtAgent => 11,
            CommandType::LookAtExit => 12,
            CommandType::LookAtItem => 13,
            CommandType::PickUpItem => 14,
            CommandType::RevealExit => 15,
            CommandType::RevealItem => 16,
            CommandType::SearchItem => 17,
            CommandType::SearchLocation => 18,
            CommandType::SpawnAgent => 19,
            CommandType::SpeakToAgent => 20,
            CommandType::UnlockExit => 21,
            CommandType::UpdateAgentIntent => 22,
            CommandType::UpdateAgentMood => 23,
            CommandType::UpdateItemDescription => 24,
            CommandType::UseItem => 25,
            CommandType::Wait => 26,
        }
    }

    /// The place of the category in the vocabulary, counted from zero in
    /// declaration order.
    #[verifier::when_used_as_spec(spec_ordinal)]
    pub fn ordinal(self) -> (place: usize)
        ensures
            place == self.spec_ordinal(),
            place < 27,
    {
        match self {
            CommandType::AttackAgent => 0,
            CommandType::DisplayHelpText => 1,
            CommandType::DoNothing => 2,
            CommandType::DropItem => 3,
            CommandType::Emote => 4,
            CommandType::Event => 5,
            CommandType::GetInventory => 6,
            CommandType::GetItemFromItem => 7,
            CommandType::GiveItemToAgent => 8,
            CommandType::GoExit => 9,
            CommandType::LookAround => 10,
            CommandType::LookAtAgent => 11,
            CommandType::LookAtExit => 12,
            CommandType::LookAtItem => 13,
            CommandType::PickUpItem => 14,
            CommandType::RevealExit => 15,
            CommandType::RevealItem => 16,
            CommandType::SearchItem => 17,
            CommandType::SearchLocation => 18,
            CommandType::SpawnAgent => 19,
            CommandType::SpeakToAgent => 20,
            CommandType::UnlockExit => 21,
            CommandType::UpdateAgentIntent => 22,
            CommandType::UpdateAgentMood => 23,
            CommandType::UpdateItemDescription => 24,
            CommandType::UseItem => 25,
            CommandType::Wait => 26,
        }
    }

    /// The whole vocabulary, in declaration order: every category stands at
    /// its own place, and nothing else is in the list.
    pub fn all() -> (list: Vec<CommandType>)
        ensures
            list.len() == 27,
            forall|c: CommandType| list[c.spec_ordinal() as int] == c,
    {
        vec![
            CommandType::AttackAgent,
            CommandType::DisplayHelpText,
            CommandType::DoNothing,
            CommandType::DropItem,
            CommandType::Emote,
            CommandType::Event,
            CommandType::GetInventory,
            CommandType::GetItemFromItem,
            CommandType::GiveItemToAgent,
            CommandType::GoExit,
            CommandType::LookAround,
            CommandType::LookAtAgent,
            CommandType::LookAtExit,
            CommandType::LookAtItem,
            CommandType::PickUpItem,
            CommandType::RevealExit,
            CommandType::RevealItem,
            CommandType::SearchItem,
            CommandType::SearchLocation,
            CommandType::SpawnAgent,
            CommandType::SpeakToAgent,
            CommandType::UnlockExit,
            CommandType::UpdateAgentIntent,
            CommandType::UpdateAgentMood,
            CommandType::UpdateItemDescription,
            CommandType::UseItem,
            CommandType::Wait,
        ]
    }

    /// The token under which the category travels.
    pub open spec fn token(self) -> Seq<char> {
        match self {
            CommandType::AttackAgent => "attack_agent"@,
            CommandType::DisplayHelpText => "display_help_text"@,
            CommandType::DoNothing => "do_nothing"@,
            CommandType::DropItem => "drop_item"@,
            CommandType::Emote => "emote"@,
            CommandType::Event => "event"@,
            CommandType::GetInventory => "get_inventory"@,
            CommandType::GetItemFromItem => "get_item_from_item"@,
            CommandType::GiveItemToAgent => "give_item_to_agent"@,
            CommandType::GoExit => "go_exit"@,
            CommandType::LookAround => "look_around"@,
            CommandType::LookAtAgent => "look_at_agent"@,
            CommandType::LookAtExit => "look_at_exit"@,
            CommandType::LookAtItem => "look_at_item"@,
            CommandType::PickUpItem => "pick_up_item"@,
            CommandType::RevealExit => "reveal_exit"@,
            CommandType::RevealItem => "reveal_item"@,
            CommandType::SearchItem => "search_item"@,
            CommandType::SearchLocation => "search_location"@,
            CommandType::SpawnAgent => "spawn_agent"@,
            CommandType::SpeakToAgent => "speak_to_agent"@,
            CommandType::UnlockExit => "unlock_exit"@,
            CommandType::UpdateAgentIntent => "update_agent_intent"@,
            CommandType::UpdateAgentMood => "update_agent_mood"@,
            CommandType::UpdateItemDescription => "update_item_description"@,
            CommandType::UseItem => "use_item"@,
            CommandType::Wait => "wait"@,
        }
    }

    /// The category that travels under `token`, if there is one.
    pub open spec fn parse(token: Seq<char>) -> Option<CommandType> {
        if exists|c: CommandType| c.token() == token {
            Some(choose|c: CommandType| c.token() == token)
        } else {
            None
        }
    }

    /// The token under which the category travels.
    pub fn as_token(self) -> (token: &'static str)
        ensures
            token@ == self.token(),
    {
        match self {
            CommandType::AttackAgent => "attack_agent",
            CommandType::DisplayHelpText => "display_help_text",
            CommandType::DoNothing => "do_nothing",
            CommandType::DropItem => "drop_item",
            CommandType::Emote => "emote",
            CommandType::Event => "event",
            CommandType::GetInventory => "get_inventory",
            CommandType::GetItemFromItem => "get_item_from_item",
            CommandType::GiveItemToAgent => "give_item_to_agent",
            CommandType::GoExit => "go_exit",
            CommandType::LookAround => "look_around",
            CommandType::LookAtAgent => "look_at_agent",
            CommandType::LookAtExit => "look_at_exit",
            CommandType::LookAtItem => "look_at_item",
            CommandType::PickUpItem => "pick_up_item",
            CommandType::RevealExit => "reveal_exit",
            CommandType::RevealItem => "reveal_item",
            CommandType::SearchItem => "search_item",
            CommandType::SearchLocation => "search_location",
            CommandType::SpawnAgent => "spawn_agent",
            CommandType::SpeakToAgent => "speak_to_agent",
            CommandType::UnlockExit => "unlock_exit",
            CommandType::UpdateAgentIntent => "update_agent_intent",
            CommandType::UpdateAgentMood => "update_agent_mood",
            CommandType::UpdateItemDescription => "update_item_description",
            CommandType::UseItem => "use_item",
            CommandType::Wait => "wait",
        }
    }

    /// The category whose token is `token`, found by going through the
    /// vocabulary in declaration order.
    fn lookup(token: &str) -> (found: Option<CommandType>)
        ensures
            match found {
                Some(c) => c.token() == token@,
                None => forall|c: CommandType| c.token() != token@,
            },
    {
        let all = Self::all();
        let mut i: usize = 0;
        while i < all.len()
            invariant
                i <= all.len(),
                all.len() == 27,
                forall|c: CommandType| all[c.spec_ordinal() as int] == c,
                forall|j: int| 0 <= j < i ==> (#[trigger] all[j]).token() != token@,
            decreases all.len() - i,
        {
            if same_text(token, all[i].as_token()) {
                return Some(all[i]);
            }
            i += 1;
        }
        proof {
            assert forall|c: CommandType| c.token() != token@ by {
                assert(all[c.spec_ordinal() as int] == c);
            }
        }
        None
    }

    /// Reads a token, case-sensitively and without synonyms. A token outside
    /// the vocabulary is reported as a schema mismatch that carries the token.
    pub fn from_token(token: &str) -> (res: Result<CommandType, SchemaError>)
        ensures
            match Self::parse(token@) {
                Some(c) => res == Ok::<CommandType, SchemaError>(c),
                None => res matches Err(SchemaError::SchemaMismatch { token: t }) && t@ == token@,
            },
    {
        match Self::lookup(token) {
            Some(c) => {
                proof {
                    lemma_parse_token(c);
                }
                Ok(c)
            },
            None => Err(SchemaError::SchemaMismatch { token: token.to_owned() }),
        }
    }
}

/// Whether a token has the given length, the given character at its third
/// place and, where it is long enough to have one, the given character at its
/// ninth place.
spec fn marked(token: Seq<char>, len: nat, third: char, ninth: char) -> bool {
    token.len() == len && token[2] == third && (len > 8 ==> token[8] == ninth)
}

/// Distinct categories travel under distinct tokens.
pub proof fn lemma_token_injective(a: CommandType, b: CommandType)
    requires
        a.token() == b.token(),
    ensures
        a == b,
{
    // No two tokens agree in all three marks.
    reveal_strlit("attack_agent");
    assert(marked("attack_agent"@, 12, 't', 'g'));
    reveal_strlit("display_help_text");
    assert(marked("display_help_text"@, 17, 's', 'h'));
    reveal_strlit("do_nothing");
    assert(marked("do_nothing"@, 10, '_', 'n'));
    reveal_strlit("drop_item");
    assert(marked("drop_item"@, 9, 'o', 'm'));
    reveal_strlit("emote");
    assert(marked("emote"@, 5, 'o', ' '));
    reveal_strlit("event");
    assert(marked("event"@, 5, 'e', ' '));
    reveal_strlit("get_inventory");
    assert(marked("get_inventory"@, 13, 't', 'n'));
    reveal_strlit("get_item_from_item");
    assert(marked("get_item_from_item"@, 18, 't', '_'));
    reveal_strlit("give_item_to_agent");
    assert(marked("give_item_to_agent"@, 18, 'v', 'm'));
    reveal_strlit("go_exit");
    assert(marked("go_exit"@, 7, '_', ' '));
    reveal_strlit("look_around");
    assert(marked("look_around"@, 11, 'o', 'u'));
    reveal_strlit("look_at_agent");
    assert(marked("look_at_agent"@, 13, 'o', 'a'));
    reveal_strlit("look_at_exit");
    assert(marked("look_at_exit"@, 12, 'o', 'e'));
    reveal_strlit("look_at_item");
    assert(marked("look_at_item"@, 12, 'o', 'i'));
    reveal_strlit("pick_up_item");
    assert(marked("pick_up_item"@, 12, 'c', 'i'));
    reveal_strlit("reveal_exit");
    assert(marked("reveal_exit"@, 11, 'v', 'x'));
    reveal_strlit("reveal_item");
    assert(marked("reveal_item"@, 11, 'v', 't'));
    reveal_strlit("search_item");
    assert(marked("search_item"@, 11, 'a', 't'));
    reveal_strlit("search_location");
    assert(marked("search_location"@, 15, 'a', 'o'));
    reveal_strlit("spawn_agent");
    assert(marked("spawn_agent"@, 11, 'a', 'e'));
    reveal_strlit("speak_to_agent");
    assert(marked("speak_to_agent"@, 14, 'e', '_'));
    reveal_strlit("unlock_exit");
    assert(marked("unlock_exit"@, 11, 'l', 'x'));
    reveal_strlit("update_agent_intent");
    assert(marked("update_agent_intent"@, 19, 'd', 'g'));
    reveal_strlit("update_agent_mood");
    assert(marked("update_agent_mood"@, 17, 'd', 'g'));
    reveal_strlit("update_item_description");
    assert(marked("update_item_description"@, 23, 'd', 't'));
    reveal_strlit("use_item");
    assert(marked("use_item"@, 8, 'e', ' '));
    reveal_strlit("wait");
    assert(marked("wait"@, 4, 'i', ' '));
}

/// Reading the token of a category gives that category back.
pub proof fn lemma_parse_token(c: CommandType)
    ensures
        CommandType::parse(c.token()) == Some(c),
{
    let found = choose|d: CommandType| d.token() == c.token();
    lemma_token_injective(found, c);
}

/// A token that is read belongs to the category it is read as, and to no
/// other.
pub proof fn lemma_parse_sound(token: Seq<char>, c: CommandType)
    ensures
        CommandType::parse(token) == Some(c) <==> c.token() == token,
{
    if c.token() == token {
        lemma_parse_token(c);
    }
}

} // verus!
