//! What can go wrong with one turn: a record that does not fit the schema,
//! or a transport that did not deliver.

use vstd::prelude::*;
use crate::schema::SchemaVersion;

verus! {

/// A field of an event record.
#[derive(Debug, Clone, Copy, PartialEq, Eq, Hash, Structural)]
pub enum EnvelopeField {
    AgentId,
    AgentName,
    CommandType,
    CommandArguments,
    Narrative,
    ExtraDetail,
}

impl EnvelopeField {
    /// The name of the field in a record of the given schema version.
    pub open spec fn name(self, version: SchemaVersion) -> Seq<char> {
        match self {
            EnvelopeField::AgentId => "agentId"@,
            EnvelopeField::AgentName => "agentName"@,
            EnvelopeField::CommandType => "commandType"@,
            EnvelopeField::CommandArguments => "commandArguments"@,
            EnvelopeField::Narrative => match version {
                SchemaVersion::Early => "description"@,
                SchemaVersion::Later => "generalDescription"@,
            },
            EnvelopeField::ExtraDetail => "extraDetail"@,
        }
    }

    /// The name of the field in a record of the given schema version.
    pub fn wire_name(self, version: SchemaVersion) -> (name: &'static str)
        ensures
            name@ == self.name(version),
    {
        match self {
            EnvelopeField::AgentId => "agentId",
            EnvelopeField::AgentName => "agentName",
            EnvelopeField::CommandType => "commandType",
            EnvelopeField::CommandArguments => "commandArguments",
            EnvelopeField::Narrative => match version {
                SchemaVersion::Early => "description",
                SchemaVersion::Later => "generalDescription",
            },
            EnvelopeField::ExtraDetail => "extraDetail",
        }
    }
}

/// Distinct fields go by distinct names, under either schema version.
pub proof fn lemma_field_names_distinct(version: SchemaVersion)
    ensures
        forall|a: EnvelopeField, b: EnvelopeField|
            a != b ==> #[trigger] a.name(version) != #[trigger] b.name(version),
{
    // No two names agree in their length and in their first character.
    reveal_strlit("agentId");
    reveal_strlit("agentName");
    reveal_strlit("commandType");
    reveal_strlit("commandArguments");
    reveal_strlit("description");
    reveal_strlit("generalDescription");
    reveal_strlit("extraDetail");
    assert("agentId"@.len() == 7 && "agentId"@[0] == 'a');
    assert("agentName"@.len() == 9 && "agentName"@[0] == 'a');
    assert("commandType"@.len() == 11 && "commandType"@[0] == 'c');
    assert("commandArguments"@.len() == 16 && "commandArguments"@[0] == 'c');
    assert("description"@.len() == 11 && "description"@[0] == 'd');
    assert("generalDescription"@.len() == 18 && "generalDescription"@[0] == 'g');
    assert("extraDetail"@.len() == 11 && "extraDetail"@[0] == 'e');
}

/// A record that does not fit the schema in force.
#[derive(Debug, PartialEq, Eq)]
pub enum SchemaError {
    /// The command token is outside the vocabulary.
    SchemaMismatch { token: String },
    /// A field is missing where it is required, or holds what it must not.
    MalformedEnvelope { field: EnvelopeField },
}

/// The mathematical value of a [`SchemaError`].
pub enum SchemaFault {
    SchemaMismatch { token: Seq<char> },
    MalformedEnvelope { field: EnvelopeField },
}

impl View for SchemaError {
    type V = SchemaFault;

    open spec fn view(&self) -> SchemaFault {
        match self {
            SchemaError::SchemaMismatch { token } => SchemaFault::SchemaMismatch { token: token@ },
            SchemaError::MalformedEnvelope { field } => SchemaFault::MalformedEnvelope {
                field: *field,
            },
        }
    }
}

/// A submission that brought no batch back.
#[derive(Debug, PartialEq, Eq)]
pub enum TransportError {
    /// The request did not go through, or the reply could not be read.
    Network { detail: String },
    /// The service replied with a status outside the success range.
    Status { code: u16 },
    /// The body of the reply is no list of records.
    Decode { detail: String },
}

/// Why a turn produced no lines.
#[derive(Debug, PartialEq, Eq)]
pub enum TurnError {
    Schema(SchemaError),
    Transport(TransportError),
}

impl Clone for SchemaError {
    fn clone(&self) -> (copy: SchemaError)
        ensures
            copy == *self,
    {
        match self {
            SchemaError::SchemaMismatch { token } => SchemaError::SchemaMismatch {
                token: token.clone(),
            },
            SchemaError::MalformedEnvelope { field } => SchemaError::MalformedEnvelope {
                field: *field,
            },
        }
    }
}

impl Clone for TransportError {
    fn clone(&self) -> (copy: TransportError)
        ensures
            copy == *self,
    {
        match self {
            TransportError::Network { detail } => TransportError::Network {
                detail: detail.clone(),
            },
            TransportError::Status { code } => TransportError::Status { code: *code },
            TransportError::Decode { detail } => TransportError::Decode { detail: detail.clone() },
        }
    }
}

impl Clone for TurnError {
    fn clone(&self) -> (copy: TurnError)
        ensures
            copy == *self,
    {
        match self {
            TurnError::Schema(fault) => TurnError::Schema(fault.clone()),
            TurnError::Transport(fault) => TurnError::Transport(fault.clone()),
        }
    }
}

} // verus!
