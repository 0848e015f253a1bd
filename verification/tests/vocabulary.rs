use imagind::{CommandType, SchemaError};

fn whole_vocabulary() -> Vec<(CommandType, &'static str)> {
    vec![
        (CommandType::AttackAgent, "attack_agent"),
        (CommandType::DisplayHelpText, "display_help_text"),
        (CommandType::DoNothing, "do_nothing"),
        (CommandType::DropItem, "drop_item"),
        (CommandType::Emote, "emote"),
        (CommandType::Event, "event"),
        (CommandType::GetInventory, "get_inventory"),
        (CommandType::GetItemFromItem, "get_item_from_item"),
        (CommandType::GiveItemToAgent, "give_item_to_agent"),
        (CommandType::GoExit, "go_exit"),
        (CommandType::LookAround, "look_around"),
        (CommandType::LookAtAgent, "look_at_agent"),
        (CommandType::LookAtExit, "look_at_exit"),
        (CommandType::LookAtItem, "look_at_item"),
        (CommandType::PickUpItem, "pick_up_item"),
        (CommandType::RevealExit, "reveal_exit"),
        (CommandType::RevealItem, "reveal_item"),
        (CommandType::SearchItem, "search_item"),
        (CommandType::SearchLocation, "search_location"),
        (CommandType::SpawnAgent, "spawn_agent"),
        (CommandType::SpeakToAgent, "speak_to_agent"),
        (CommandType::UnlockExit, "unlock_exit"),
        (CommandType::UpdateAgentIntent, "update_agent_intent"),
        (CommandType::UpdateAgentMood, "update_agent_mood"),
        (CommandType::UpdateItemDescription, "update_item_description"),
        (CommandType::UseItem, "use_item"),
        (CommandType::Wait, "wait"),
    ]
}

#[test]
fn every_category_has_its_snake_case_token() {
    for (command, token) in whole_vocabulary() {
        assert_eq!(command.as_token(), token);
    }
}

#[test]
fn every_token_reads_back_as_its_category() {
    for (command, token) in whole_vocabulary() {
        assert_eq!(CommandType::from_token(token), Ok(command));
        assert_eq!(CommandType::from_token(command.as_token()), Ok(command));
    }
}

#[test]
fn distinct_categories_have_distinct_tokens() {
    let all = whole_vocabulary();
    assert_eq!(all.len(), 27);
    for (i, (left, _)) in all.iter().enumerate() {
        for (j, (right, _)) in all.iter().enumerate() {
            assert_eq!(left.as_token() == right.as_token(), i == j);
        }
    }
}

#[test]
fn unknown_token_is_a_schema_mismatch_that_carries_the_token() {
    assert_eq!(
        CommandType::from_token("teleport_agent"),
        Err(SchemaError::SchemaMismatch { token: "teleport_agent".to_string() })
    );
    assert_eq!(
        CommandType::from_token(""),
        Err(SchemaError::SchemaMismatch { token: String::new() })
    );
}

#[test]
fn tokens_are_read_case_sensitively_and_without_synonyms() {
    for token in [
        "Look_Around",
        "LOOK_AROUND",
        "lookAround",
        "look around",
        " look_around",
        "look_around ",
        "look",
        "attack",
    ] {
        assert_eq!(
            CommandType::from_token(token),
            Err(SchemaError::SchemaMismatch { token: token.to_string() })
        );
    }
}

#[test]
fn vocabulary_lists_every_category_at_its_place() {
    let declared: Vec<CommandType> =
        whole_vocabulary().into_iter().map(|(command, _)| command).collect();
    assert_eq!(CommandType::all(), declared);
    for (place, command) in CommandType::all().into_iter().enumerate() {
        assert_eq!(command.ordinal(), place);
    }
    assert_eq!(CommandType::AttackAgent.ordinal(), 0);
    assert_eq!(CommandType::LookAround.ordinal(), 10);
    assert_eq!(CommandType::Wait.ordinal(), 26);
}

#[test]
fn categories_are_ordered_as_they_are_declared() {
    let all = CommandType::all();
    for i in 0..all.len() {
        for j in 0..all.len() {
            assert_eq!(all[i] < all[j], i < j);
            assert_eq!(all[i] == all[j], i == j);
        }
    }
}
