//! The event envelope: one reported outcome of a turn, and how it is read
//! from a decoded record.

use vstd::prelude::*;
use crate::arguments::{
    arguments_of, distinct_names, has_distinct_names, last_named, lemma_lookup_at, unshadowed,
};
use crate::error::{lemma_field_names_distinct, EnvelopeField, SchemaError, SchemaFault};
use crate::json::{copy_entries, entries_of, find_entry, JsonTree, JsonValue};
use crate::schema::SchemaVersion;
use crate::text::{copy_lines, lines_of};
use crate::vocabulary::{lemma_parse_token, CommandType};

verus! {

/// One reported outcome of a turn.
///
/// `command_arguments` is a mapping kept as a list of entries. In a well
/// formed envelope no name occurs twice in it; the order of the entries means
/// nothing, and the values are never interpreted.
#[derive(Debug, PartialEq)]
pub struct GameEventDTO {
    /// The stable identifier of the agent that acted.
    pub agent_id: String,
    /// The label to show for the agent, where the record gave one.
    pub agent_name: Option<String>,
    /// The kind of action that was reported.
    pub command_type: CommandType,
    /// The arguments of the command.
    pub command_arguments: Vec<(String, JsonValue)>,
    /// The principal narrative, one element per display line.
    pub general_description: Vec<String>,
    /// Supplementary narrative lines, where the record gave any.
    pub extra_detail: Option<Vec<String>>,
}

/// The mathematical value of a [`GameEventDTO`].
pub struct GameEventView {
    pub agent_id: Seq<char>,
    pub agent_name: Option<Seq<char>>,
    pub command_type: CommandType,
    pub command_arguments: Map<Seq<char>, JsonTree>,
    pub general_description: Seq<Seq<char>>,
    pub extra_detail: Option<Seq<Seq<char>>>,
}

impl View for GameEventDTO {
    type V = GameEventView;

    open spec fn view(&self) -> GameEventView {
        GameEventView {
            agent_id: self.agent_id@,
            agent_name: match self.agent_name {
                Some(name) => Some(name@),
                None => None,
            },
            command_type: self.command_type,
            command_arguments: arguments_of(entries_of(self.command_arguments@)),
            general_description: lines_of(self.general_description@),
            extra_detail: match self.extra_detail {
                Some(lines) => Some(lines_of(lines@)),
                None => None,
            },
        }
    }
}

impl Clone for GameEventDTO {
    fn clone(&self) -> (copy: GameEventDTO)
        ensures
            copy@ == self@,
            copy.well_formed() == self.well_formed(),
    {
        GameEventDTO {
            agent_id: self.agent_id.clone(),
            agent_name: match &self.agent_name {
                Some(name) => Some(name.clone()),
                None => None,
            },
            command_type: self.command_type,
            command_arguments: copy_entries(&self.command_arguments),
            general_description: copy_lines(&self.general_description),
            extra_detail: match &self.extra_detail {
                Some(lines) => Some(copy_lines(lines)),
                None => None,
            },
        }
    }
}

impl GameEventView {
    /// An envelope names its agent and tells at least one line.
    pub open spec fn well_formed(self) -> bool {
        self.agent_id.len() > 0 && self.general_description.len() > 0
    }

    /// The label under which the agent is shown: its display name, or its
    /// identifier where it has no display name.
    pub open spec fn label(self) -> Seq<char> {
        match self.agent_name {
            Some(name) => name,
            None => self.agent_id,
        }
    }

    /// The supplementary lines; none where the envelope has no extra detail.
    pub open spec fn extra_lines(self) -> Seq<Seq<char>> {
        match self.extra_detail {
            Some(lines) => lines,
            None => Seq::empty(),
        }
    }
}

/// A field that is not there, or is there as a null, counts as absent.
pub open spec fn present(found: Option<JsonTree>) -> Option<JsonTree> {
    if found == Some(JsonTree::Null) {
        None
    } else {
        found
    }
}

/// The display lines of a narrative value: a single text is one line, a list
/// of texts is its elements in their order. Anything else is no narrative.
pub open spec fn narrative_lines(value: JsonTree) -> Option<Seq<Seq<char>>> {
    match value {
        JsonTree::Text(line) => Some(seq![line]),
        _ => value.texts(),
    }
}

/// The agent identifier of a record: a text that is not empty.
pub open spec fn agent_id_of(record: JsonTree, version: SchemaVersion) -> Option<Seq<char>> {
    match record.field(EnvelopeField::AgentId.name(version)) {
        Some(JsonTree::Text(id)) => if id.len() > 0 {
            Some(id)
        } else {
            None
        },
        _ => None,
    }
}

/// The display name of a record: absent, or a text. The outer `None` stands
/// for a field that holds anything else.
pub open spec fn agent_name_of(record: JsonTree, version: SchemaVersion) -> Option<
    Option<Seq<char>>,
> {
    match present(record.field(EnvelopeField::AgentName.name(version))) {
        None => Some(None),
        Some(JsonTree::Text(name)) => Some(Some(name)),
        Some(_) => None,
    }
}

/// The command category of a record: the category of its token. A token
/// outside the vocabulary is a schema mismatch; no token at all is a
/// malformed field.
pub open spec fn command_of(record: JsonTree, version: SchemaVersion) -> Result<
    CommandType,
    SchemaFault,
> {
    match record.field(EnvelopeField::CommandType.name(version)) {
        Some(JsonTree::Text(token)) => match CommandType::parse(token) {
            Some(command) => Ok(command),
            None => Err(SchemaFault::SchemaMismatch { token }),
        },
        _ => Err(SchemaFault::MalformedEnvelope { field: EnvelopeField::CommandType }),
    }
}

/// The arguments of a record: none where the field is absent, the mapping of
/// the entries where it is a record. `None` stands for a field that holds
/// anything else.
pub open spec fn arguments_in(record: JsonTree, version: SchemaVersion) -> Option<
    Map<Seq<char>, JsonTree>,
> {
    match present(record.field(EnvelopeField::CommandArguments.name(version))) {
        None => Some(Map::empty()),
        Some(JsonTree::Object(entries)) => Some(arguments_of(entries)),
        Some(_) => None,
    }
}

/// The narrative of a record: the display lines of its narrative field, of
/// which there is at least one.
pub open spec fn narrative_of(record: JsonTree, version: SchemaVersion) -> Option<
    Seq<Seq<char>>,
> {
    match record.field(EnvelopeField::Narrative.name(version)) {
        Some(value) => match narrative_lines(value) {
            Some(lines) => if lines.len() > 0 {
                Some(lines)
            } else {
                None
            },
            None => None,
        },
        None => None,
    }
}

/// The extra detail of a record: absent, or a list of texts. The outer `None`
/// stands for a field that holds anything else.
pub open spec fn extra_detail_of(record: JsonTree, version: SchemaVersion) -> Option<
    Option<Seq<Seq<char>>>,
> {
    match present(record.field(EnvelopeField::ExtraDetail.name(version))) {
        None => Some(None),
        Some(value) => match value.texts() {
            Some(lines) => Some(Some(lines)),
            None => None,
        },
    }
}

/// The envelope that a record stands for under a schema version, or what is
/// wrong with the record.
///
/// A command token outside the vocabulary is a schema mismatch, whatever else
/// is wrong with the record. After that the fields are looked at in the
/// order: agent identifier, display name, command, arguments, narrative,
/// extra detail, and the first one that is missing or not in order is named.
pub open spec fn decoded_envelope(record: JsonTree, version: SchemaVersion) -> Result<
    GameEventView,
    SchemaFault,
> {
    if command_of(record, version) matches Err(SchemaFault::SchemaMismatch { .. }) {
        Err(command_of(record, version)->Err_0)
    } else if agent_id_of(record, version) is None {
        Err(SchemaFault::MalformedEnvelope { field: EnvelopeField::AgentId })
    } else if agent_name_of(record, version) is None {
        Err(SchemaFault::MalformedEnvelope { field: EnvelopeField::AgentName })
    } else if command_of(record, version) is Err {
        Err(command_of(record, version)->Err_0)
    } else if arguments_in(record, version) is None {
        Err(SchemaFault::MalformedEnvelope { field: EnvelopeField::CommandArguments })
    } else if narrative_of(record, version) is None {
        Err(SchemaFault::MalformedEnvelope { field: EnvelopeField::Narrative })
    } else if extra_detail_of(record, version) is None {
        Err(SchemaFault::MalformedEnvelope { field: EnvelopeField::ExtraDetail })
    } else {
        Ok(
            GameEventView {
                agent_id: agent_id_of(record, version)->0,
                agent_name: agent_name_of(record, version)->0,
                command_type: command_of(record, version)->Ok_0,
                command_arguments: arguments_in(record, version)->0,
                general_description: narrative_of(record, version)->0,
                extra_detail: extra_detail_of(record, version)->0,
            },
        )
    }
}

/// A narrative that is a single text is normalized to one line, which is
/// that text.
pub proof fn lemma_single_text_narrative(record: JsonTree, version: SchemaVersion, line: Seq<char>)
    requires
        record.field(EnvelopeField::Narrative.name(version)) == Some(JsonTree::Text(line)),
    ensures
        narrative_lines(JsonTree::Text(line)) == Some(seq![line]),
        narrative_of(record, version) == Some(seq![line]),
        decoded_envelope(record, version) matches Ok(event) ==> event.general_description
            == seq![line],
{
}

/// A narrative that is a list of texts keeps its lines in their order.
pub proof fn lemma_listed_narrative(record: JsonTree, version: SchemaVersion, lines: Seq<Seq<char>>)
    requires
        lines.len() > 0,
        record.field(EnvelopeField::Narrative.name(version)) == Some(
            JsonTree::Array(Seq::new(lines.len(), |i: int| JsonTree::Text(lines[i]))),
        ),
    ensures
        narrative_of(record, version) == Some(lines),
{
    let listed = JsonTree::Array(Seq::new(lines.len(), |i: int| JsonTree::Text(lines[i])));
    assert(listed.texts() is Some);
    assert(listed.texts()->0 =~= lines);
}

/// An envelope that is read from a record is well formed: it names its agent
/// and tells at least one line.
pub proof fn lemma_decoded_envelope_well_formed(record: JsonTree, version: SchemaVersion)
    ensures
        decoded_envelope(record, version) matches Ok(event) ==> event.well_formed(),
{
}

/// A record whose command token is outside the vocabulary is a schema
/// mismatch that carries the token, whatever else the record holds or lacks.
pub proof fn lemma_unknown_token_is_schema_mismatch(
    record: JsonTree,
    version: SchemaVersion,
    token: Seq<char>,
)
    requires
        record.field(EnvelopeField::CommandType.name(version)) == Some(JsonTree::Text(token)),
        CommandType::parse(token) is None,
    ensures
        decoded_envelope(record, version) == Err::<GameEventView, SchemaFault>(
            SchemaFault::SchemaMismatch { token },
        ),
{
}

/// A record without an agent identifier stands for no envelope, whatever
/// else it holds: it is malformed in that field, unless its command token is
/// outside the vocabulary.
pub proof fn lemma_agent_id_required(record: JsonTree, version: SchemaVersion)
    requires
        record.field(EnvelopeField::AgentId.name(version)) is None,
    ensures
        decoded_envelope(record, version) is Err,
        !(command_of(record, version) matches Err(SchemaFault::SchemaMismatch { .. }))
            ==> decoded_envelope(record, version) == Err::<GameEventView, SchemaFault>(
            SchemaFault::MalformedEnvelope { field: EnvelopeField::AgentId },
        ),
{
}

/// A missing display name is no fault: an envelope that is read from such a
/// record has none, and its agent is shown under its identifier.
pub proof fn lemma_agent_name_optional(record: JsonTree, version: SchemaVersion)
    requires
        record.field(EnvelopeField::AgentName.name(version)) is None,
    ensures
        decoded_envelope(record, version) matches Ok(event) ==> event.agent_name is None
            && event.label() == event.agent_id,
        agent_name_of(record, version) is Some,
{
}

/// Reads the agent identifier; `None` where it is missing or not in order.
fn read_agent_id(record: &JsonValue, version: SchemaVersion) -> (id: Option<String>)
    ensures
        match id {
            Some(text) => agent_id_of(record@, version) == Some(text@),
            None => agent_id_of(record@, version) is None,
        },
{
    match record.field(EnvelopeField::AgentId.wire_name(version)) {
        Some(JsonValue::Text(id)) => if id.as_str().is_empty() {
            None
        } else {
            Some(id.clone())
        },
        _ => None,
    }
}

/// Reads the display name; the outer `None` where it is not in order.
fn read_agent_name(record: &JsonValue, version: SchemaVersion) -> (name: Option<Option<String>>)
    ensures
        match name {
            Some(Some(text)) => agent_name_of(record@, version) == Some(Some(text@)),
            Some(None) => agent_name_of(record@, version) == Some(None::<Seq<char>>),
            None => agent_name_of(record@, version) is None,
        },
{
    match record.field(EnvelopeField::AgentName.wire_name(version)) {
        None => Some(None),
        Some(JsonValue::Null) => Some(None),
        Some(JsonValue::Text(name)) => Some(Some(name.clone())),
        Some(_) => None,
    }
}

/// Reads the command category, or reports what is wrong with its field.
fn read_command(record: &JsonValue, version: SchemaVersion) -> (command: Result<
    CommandType,
    SchemaError,
>)
    ensures
        match command {
            Ok(c) => command_of(record@, version) == Ok::<CommandType, SchemaFault>(c),
            Err(e) => command_of(record@, version) == Err::<CommandType, SchemaFault>(e@),
        },
{
    match record.field(EnvelopeField::CommandType.wire_name(version)) {
        Some(JsonValue::Text(token)) => CommandType::from_token(token.as_str()),
        _ => Err(SchemaError::MalformedEnvelope { field: EnvelopeField::CommandType }),
    }
}

/// Reads the arguments as a copy of their entries, of which the last of each
/// name is kept; `None` where the field is not in order.
fn read_arguments(record: &JsonValue, version: SchemaVersion) -> (arguments: Option<
    Vec<(String, JsonValue)>,
>)
    ensures
        match arguments {
            Some(entries) => arguments_in(record@, version) == Some(
                arguments_of(entries_of(entries@)),
            ) && distinct_names(entries_of(entries@)),
            None => arguments_in(record@, version) is None,
        },
{
    match record.field(EnvelopeField::CommandArguments.wire_name(version)) {
        None => {
            let entries: Vec<(String, JsonValue)> = Vec::new();
            proof {
                assert(arguments_of(entries_of(entries@)) =~= Map::empty());
            }
            Some(entries)
        },
        Some(JsonValue::Null) => {
            let entries: Vec<(String, JsonValue)> = Vec::new();
            proof {
                assert(arguments_of(entries_of(entries@)) =~= Map::empty());
            }
            Some(entries)
        },
        Some(JsonValue::Object(entries)) => {
            let copy = unshadowed(entries);
            proof {
                let value = JsonValue::Object(*entries);
                assert(value@->Object_0 =~= entries_of(entries@));
            }
            Some(copy)
        },
        Some(_) => None,
    }
}

/// Reads the narrative as display lines; `None` where it is missing, not in
/// order, or without a line.
fn read_narrative(record: &JsonValue, version: SchemaVersion) -> (narrative: Option<Vec<String>>)
    ensures
        match narrative {
            Some(lines) => narrative_of(record@, version) == Some(lines_of(lines@)),
            None => narrative_of(record@, version) is None,
        },
{
    match record.field(EnvelopeField::Narrative.wire_name(version)) {
        Some(JsonValue::Text(line)) => {
            let mut lines: Vec<String> = Vec::new();
            lines.push(line.clone());
            proof {
                assert(lines_of(lines@) =~= seq![line@]);
            }
            Some(lines)
        },
        Some(value) => match value.as_texts() {
            Some(lines) => if lines.len() > 0 {
                Some(lines)
            } else {
                None
            },
            None => None,
        },
        None => None,
    }
}

/// Reads the extra detail; the outer `None` where it is not in order.
fn read_extra_detail(record: &JsonValue, version: SchemaVersion) -> (extra: Option<
    Option<Vec<String>>,
>)
    ensures
        match extra {
            Some(Some(lines)) => extra_detail_of(record@, version) == Some(Some(lines_of(lines@))),
            Some(None) => extra_detail_of(record@, version) == Some(None::<Seq<Seq<char>>>),
            None => extra_detail_of(record@, version) is None,
        },
{
    match record.field(EnvelopeField::ExtraDetail.wire_name(version)) {
        None => Some(None),
        Some(JsonValue::Null) => Some(None),
        Some(value) => match value.as_texts() {
            Some(lines) => Some(Some(lines)),
            None => None,
        },
    }
}

impl GameEventDTO {
    /// The invariant of an envelope: it names its agent, it tells at least
    /// one line, and no argument name occurs twice.
    pub open spec fn well_formed(&self) -> bool {
        self@.well_formed() && distinct_names(entries_of(self.command_arguments@))
    }

    /// Whether the envelope is well formed.
    pub fn is_well_formed(&self) -> (ok: bool)
        ensures
            ok == self.well_formed(),
    {
        !self.agent_id.as_str().is_empty() && self.general_description.len() > 0
            && has_distinct_names(&self.command_arguments)
    }

    /// The label under which the agent is shown: its display name, or its
    /// identifier where it has no display name.
    pub fn label(&self) -> (label: &str)
        ensures
            label@ == self@.label(),
    {
        match &self.agent_name {
            Some(name) => name.as_str(),
            None => self.agent_id.as_str(),
        }
    }

    /// The argument of the command that goes by `name`, if there is one.
    pub fn argument(&self, name: &str) -> (found: Option<&JsonValue>)
        ensures
            match found {
                Some(value) => self@.command_arguments.contains_key(name@)
                    && self@.command_arguments[name@] == value@,
                None => !self@.command_arguments.contains_key(name@),
            },
    {
        find_entry(&self.command_arguments, name)
    }

    /// Writes the envelope as a record of the given schema version: the six
    /// fields under their names, a field that the envelope lacks as a null,
    /// and the narrative as a list of its lines.
    ///
    /// Reading the record gives the envelope back, arguments and all. An
    /// envelope without an agent identifier or without a line has no record
    /// that can be read.
    pub fn to_record(&self, version: SchemaVersion) -> (record: JsonValue)
        ensures
            self@.well_formed() ==> decoded_envelope(record@, version) == Ok::<
                GameEventView,
                SchemaFault,
            >(self@),
            !self@.well_formed() ==> decoded_envelope(record@, version) is Err,
    {
        let agent_id = JsonValue::Text(self.agent_id.clone());
        let agent_name = match &self.agent_name {
            Some(name) => JsonValue::Text(name.clone()),
            None => JsonValue::Null,
        };
        let command = JsonValue::Text(self.command_type.as_token().to_owned());
        let arguments = JsonValue::Object(copy_entries(&self.command_arguments));
        let narrative = JsonValue::from_texts(&self.general_description);
        let extra_detail = match &self.extra_detail {
            Some(lines) => JsonValue::from_texts(lines),
            None => JsonValue::Null,
        };
        let ghost fields = seq![
            (EnvelopeField::AgentId.name(version), agent_id@),
            (EnvelopeField::AgentName.name(version), agent_name@),
            (EnvelopeField::CommandType.name(version), command@),
            (EnvelopeField::CommandArguments.name(version), arguments@),
            (EnvelopeField::Narrative.name(version), narrative@),
            (EnvelopeField::ExtraDetail.name(version), extra_detail@),
        ];
        proof {
            assert(arguments@->Object_0 =~= entries_of(self.command_arguments@));
        }
        let mut entries: Vec<(String, JsonValue)> = Vec::new();
        entries.push((EnvelopeField::AgentId.wire_name(version).to_owned(), agent_id));
        entries.push((EnvelopeField::AgentName.wire_name(version).to_owned(), agent_name));
        entries.push((EnvelopeField::CommandType.wire_name(version).to_owned(), command));
        entries.push((EnvelopeField::CommandArguments.wire_name(version).to_owned(), arguments));
        entries.push((EnvelopeField::Narrative.wire_name(version).to_owned(), narrative));
        entries.push((EnvelopeField::ExtraDetail.wire_name(version).to_owned(), extra_detail));
        let record = JsonValue::Object(entries);
        proof {
            assert(record@->Object_0 =~= fields);
            lemma_field_names_distinct(version);
            lemma_parse_token(self.command_type);
            assert(last_named(fields, EnvelopeField::AgentId.name(version), 0));
            assert(last_named(fields, EnvelopeField::AgentName.name(version), 1));
            assert(last_named(fields, EnvelopeField::CommandType.name(version), 2));
            assert(last_named(fields, EnvelopeField::CommandArguments.name(version), 3));
            assert(last_named(fields, EnvelopeField::Narrative.name(version), 4));
            assert(last_named(fields, EnvelopeField::ExtraDetail.name(version), 5));
            lemma_lookup_at(fields, EnvelopeField::AgentId.name(version), 0);
            lemma_lookup_at(fields, EnvelopeField::AgentName.name(version), 1);
            lemma_lookup_at(fields, EnvelopeField::CommandType.name(version), 2);
            lemma_lookup_at(fields, EnvelopeField::CommandArguments.name(version), 3);
            lemma_lookup_at(fields, EnvelopeField::Narrative.name(version), 4);
            lemma_lookup_at(fields, EnvelopeField::ExtraDetail.name(version), 5);
        }
        record
    }

    /// Reads one record under a schema version. The result is the envelope
    /// that the record stands for, or what is wrong with it: a command token
    /// outside the vocabulary before anything else, then the first field that
    /// is missing or not in order.
    pub fn from_record(record: &JsonValue, version: SchemaVersion) -> (res: Result<
        GameEventDTO,
        SchemaError,
    >)
        ensures
            match decoded_envelope(record@, version) {
                Ok(event) => res matches Ok(e) && e@ == event && e.well_formed(),
                Err(fault) => res matches Err(e) && e@ == fault,
            },
    {
        let command = match read_command(record, version) {
            Ok(command) => Some(command),
            Err(SchemaError::SchemaMismatch { token }) => {
                return Err(SchemaError::SchemaMismatch { token });
            },
            Err(SchemaError::MalformedEnvelope { .. }) => None,
        };
        let agent_id = match read_agent_id(record, version) {
            Some(id) => id,
            None => {
                return Err(SchemaError::MalformedEnvelope { field: EnvelopeField::AgentId });
            },
        };
        let agent_name = match read_agent_name(record, version) {
            Some(name) => name,
            None => {
                return Err(SchemaError::MalformedEnvelope { field: EnvelopeField::AgentName });
            },
        };
        let command_type = match command {
            Some(command) => command,
            None => {
                return Err(SchemaError::MalformedEnvelope { field: EnvelopeField::CommandType });
            },
        };
        let command_arguments = match read_arguments(record, version) {
            Some(entries) => entries,
            None => {
                return Err(
                    SchemaError::MalformedEnvelope { field: EnvelopeField::CommandArguments },
                );
            },
        };
        let general_description = match read_narrative(record, version) {
            Some(lines) => lines,
            None => {
                return Err(SchemaError::MalformedEnvelope { field: EnvelopeField::Narrative });
            },
        };
        let extra_detail = match read_extra_detail(record, version) {
            Some(extra) => extra,
            None => {
                return Err(SchemaError::MalformedEnvelope { field: EnvelopeField::ExtraDetail });
            },
        };
        Ok(
            GameEventDTO {
                agent_id,
                agent_name,
                command_type,
                command_arguments,
                general_description,
                extra_detail,
            },
        )
    }
}

} // verus!
