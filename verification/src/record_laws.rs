//! Laws on each record: what its name is made of, how it is referenced, and what reading
//! it back from a stored object gives.

use vstd::prelude::*;

use crate::descriptors::path_table;
use crate::ident::ResourceExt;
use crate::identifiers::{hyphenated, uuid_parse};
use crate::labels::ObjectLabel;
use crate::name::RefView;
use crate::records::{Agent, AgentSkill, Catalog, Column, Credential, ExternalLocation, Function, Provider, Recipient, Schema, Share, StagingTable, Table, TagPolicy, Volume};

verus! {

/// The value of the text field of an agent that `field` names, if it has one.
pub open spec fn agent_text_field(x: Agent, field: Seq<char>) -> Option<Seq<char>> {
    if field == "name"@ {
        Some(x.name@)
    } else if field == "catalog_name"@ {
        Some(x.catalog_name@)
    } else if field == "schema_name"@ {
        Some(x.schema_name@)
    } else if field == "full_name"@ {
        Some(x.full_name@)
    } else if field == "agent_id"@ {
        Some(x.agent_id@)
    } else if field == "endpoint"@ {
        Some(x.endpoint@)
    } else {
        None
    }
}

/// The name of an agent is its catalog_name, schema_name, name fields, in that order: one segment for
/// each field that the descriptor of its label lists as a path name, holding that field's
/// value.
pub proof fn lemma_agent_name_follows_descriptor(x: Agent)
    ensures
        x.label_view() == ObjectLabel::Agent,
        x.name_view() == seq![x.catalog_name@, x.schema_name@, x.name@],
        x.name_view().len() == path_table(ObjectLabel::Agent).len(),
        forall|i: int|
            0 <= i < x.name_view().len() ==> agent_text_field(x, #[trigger] path_table(ObjectLabel::Agent)[i])
                == Some(x.name_view()[i]),
{
    reveal_strlit("name");
    reveal_strlit("agent_id");
    reveal_strlit("endpoint");
    reveal_strlit("full_name");
    reveal_strlit("schema_name");
    reveal_strlit("catalog_name");
    let p = path_table(ObjectLabel::Agent);
    assert("catalog_name"@.len() != "name"@.len());
    assert(p[0] == "catalog_name"@);
    assert(agent_text_field(x, p[0]) == Some(x.catalog_name@));
    assert("schema_name"@.len() != "name"@.len());
    assert("schema_name"@.len() != "catalog_name"@.len());
    assert(p[1] == "schema_name"@);
    assert(agent_text_field(x, p[1]) == Some(x.schema_name@));
    assert(p[2] == "name"@);
    assert(agent_text_field(x, p[2]) == Some(x.name@));
}

/// An agent is referenced by the UUID its id parses to, and by its name where the
/// id does not parse.
pub proof fn lemma_agent_referenced_by_uuid(x: Agent)
    ensures
        uuid_parse(x.agent_id@) matches Some(u) ==> x.ref_view() == RefView::Uuid(u),
        uuid_parse(x.agent_id@) is None ==> x.ref_view() == RefView::Name(seq![x.catalog_name@, x.schema_name@, x.name@]),
{
}

/// An agent read back from a stored object is the decoded agent with the object's id,
/// hyphenated, in place of its own.
pub proof fn lemma_agent_read_back_carries_object_id(x: Agent, d: Agent, oid: u128)
    requires
        x.restored(d, oid),
    ensures
        x.agent_id@ == hyphenated(oid),
        x == (Agent { agent_id: x.agent_id, ..d }),
{
}

/// The value of the text field of an agent skill that `field` names, if it has one.
pub open spec fn agent_skill_text_field(x: AgentSkill, field: Seq<char>) -> Option<Seq<char>> {
    if field == "name"@ {
        Some(x.name@)
    } else if field == "catalog_name"@ {
        Some(x.catalog_name@)
    } else if field == "schema_name"@ {
        Some(x.schema_name@)
    } else if field == "full_name"@ {
        Some(x.full_name@)
    } else if field == "storage_location"@ {
        Some(x.storage_location@)
    } else if field == "agent_skill_id"@ {
        Some(x.agent_skill_id@)
    } else {
        None
    }
}

/// The name of an agent skill is its catalog_name, schema_name, name fields, in that order: one segment for
/// each field that the descriptor of its label lists as a path name, holding that field's
/// value.
pub proof fn lemma_agent_skill_name_follows_descriptor(x: AgentSkill)
    ensures
        x.label_view() == ObjectLabel::AgentSkill,
        x.name_view() == seq![x.catalog_name@, x.schema_name@, x.name@],
        x.name_view().len() == path_table(ObjectLabel::AgentSkill).len(),
        forall|i: int|
            0 <= i < x.name_view().len() ==> agent_skill_text_field(x, #[trigger] path_table(ObjectLabel::AgentSkill)[i])
                == Some(x.name_view()[i]),
{
    reveal_strlit("name");
    reveal_strlit("full_name");
    reveal_strlit("schema_name");
    reveal_strlit("catalog_name");
    reveal_strlit("agent_skill_id");
    reveal_strlit("storage_location");
    let p = path_table(ObjectLabel::AgentSkill);
    assert("catalog_name"@.len() != "name"@.len());
    assert(p[0] == "catalog_name"@);
    assert(agent_skill_text_field(x, p[0]) == Some(x.catalog_name@));
    assert("schema_name"@.len() != "name"@.len());
    assert("schema_name"@.len() != "catalog_name"@.len());
    assert(p[1] == "schema_name"@);
    assert(agent_skill_text_field(x, p[1]) == Some(x.schema_name@));
    assert(p[2] == "name"@);
    assert(agent_skill_text_field(x, p[2]) == Some(x.name@));
}

/// An agent skill is referenced by the UUID its id parses to, and by its name where the
/// id does not parse.
pub proof fn lemma_agent_skill_referenced_by_uuid(x: AgentSkill)
    ensures
        uuid_parse(x.agent_skill_id@) matches Some(u) ==> x.ref_view() == RefView::Uuid(u),
        uuid_parse(x.agent_skill_id@) is None ==> x.ref_view() == RefView::Name(seq![x.catalog_name@, x.schema_name@, x.name@]),
{
}

/// An agent skill read back from a stored object is the decoded agent skill with the object's id,
/// hyphenated, in place of its own.
pub proof fn lemma_agent_skill_read_back_carries_object_id(x: AgentSkill, d: AgentSkill, oid: u128)
    requires
        x.restored(d, oid),
    ensures
        x.agent_skill_id@ == hyphenated(oid),
        x == (AgentSkill { agent_skill_id: x.agent_skill_id, ..d }),
{
}

/// The value of the text field of a catalog that `field` names, if it has one.
pub open spec fn catalog_text_field(x: Catalog, field: Seq<char>) -> Option<Seq<char>> {
    if field == "name"@ {
        Some(x.name@)
    } else {
        None
    }
}

/// The name of a catalog is its name fields, in that order: one segment for
/// each field that the descriptor of its label lists as a path name, holding that field's
/// value.
pub proof fn lemma_catalog_name_follows_descriptor(x: Catalog)
    ensures
        x.label_view() == ObjectLabel::Catalog,
        x.name_view() == seq![x.name@],
        x.name_view().len() == path_table(ObjectLabel::Catalog).len(),
        forall|i: int|
            0 <= i < x.name_view().len() ==> catalog_text_field(x, #[trigger] path_table(ObjectLabel::Catalog)[i])
                == Some(x.name_view()[i]),
{
    reveal_strlit("name");
    let p = path_table(ObjectLabel::Catalog);
    assert(p[0] == "name"@);
    assert(catalog_text_field(x, p[0]) == Some(x.name@));
}

/// A catalog is referenced by the UUID its id parses to, and by its name where it has
/// no id or the id does not parse.
pub proof fn lemma_catalog_referenced_by_uuid(x: Catalog)
    ensures
        x.id matches Some(s) && uuid_parse(s@) is Some ==> x.ref_view() == RefView::Uuid(
            uuid_parse(x.id->0@)->0,
        ),
        !(x.id matches Some(s) && uuid_parse(s@) is Some) ==> x.ref_view() == RefView::Name(
            seq![x.name@],
        ),
{
}

/// A catalog read back from a stored object is the decoded catalog with the object's id,
/// hyphenated, in place of its own, whatever id the decoded catalog held.
pub proof fn lemma_catalog_read_back_carries_object_id(x: Catalog, d: Catalog, oid: u128)
    requires
        x.restored(d, oid),
    ensures
        x.id matches Some(s) && s@ == hyphenated(oid),
        x == (Catalog { id: x.id, ..d }),
{
}

/// The value of the text field of a column that `field` names, if it has one.
pub open spec fn column_text_field(x: Column, field: Seq<char>) -> Option<Seq<char>> {
    if field == "name"@ {
        Some(x.name@)
    } else if field == "type_text"@ {
        Some(x.type_text@)
    } else if field == "type_json"@ {
        Some(x.type_json@)
    } else {
        None
    }
}

/// The name of a column is its name fields, in that order: one segment for
/// each field that the descriptor of its label lists as a path name, holding that field's
/// value.
pub proof fn lemma_column_name_follows_descriptor(x: Column)
    ensures
        x.label_view() == ObjectLabel::Column,
        x.name_view() == seq![x.name@],
        x.name_view().len() == path_table(ObjectLabel::Column).len(),
        forall|i: int|
            0 <= i < x.name_view().len() ==> column_text_field(x, #[trigger] path_table(ObjectLabel::Column)[i])
                == Some(x.name_view()[i]),
{
    reveal_strlit("name");
    reveal_strlit("type_text");
    reveal_strlit("type_json");
    let p = path_table(ObjectLabel::Column);
    assert(p[0] == "name"@);
    assert(column_text_field(x, p[0]) == Some(x.name@));
}

/// A column is referenced by the UUID its id parses to, and by its name where it has
/// no id or the id does not parse.
pub proof fn lemma_column_referenced_by_uuid(x: Column)
    ensures
        x.column_id matches Some(s) && uuid_parse(s@) is Some ==> x.ref_view() == RefView::Uuid(
            uuid_parse(x.column_id->0@)->0,
        ),
        !(x.column_id matches Some(s) && uuid_parse(s@) is Some) ==> x.ref_view() == RefView::Name(
            seq![x.name@],
        ),
{
}

/// A column read back from a stored object is the decoded column with the object's id,
/// hyphenated, in place of its own, whatever id the decoded column held.
pub proof fn lemma_column_read_back_carries_object_id(x: Column, d: Column, oid: u128)
    requires
        x.restored(d, oid),
    ensures
        x.column_id matches Some(s) && s@ == hyphenated(oid),
        x == (Column { column_id: x.column_id, ..d }),
{
}

/// The value of the text field of a credential that `field` names, if it has one.
pub open spec fn credential_text_field(x: Credential, field: Seq<char>) -> Option<Seq<char>> {
    if field == "name"@ {
        Some(x.name@)
    } else {
        None
    }
}

/// The name of a credential is its name fields, in that order: one segment for
/// each field that the descriptor of its label lists as a path name, holding that field's
/// value.
pub proof fn lemma_credential_name_follows_descriptor(x: Credential)
    ensures
        x.label_view() == ObjectLabel::Credential,
        x.name_view() == seq![x.name@],
        x.name_view().len() == path_table(ObjectLabel::Credential).len(),
        forall|i: int|
            0 <= i < x.name_view().len() ==> credential_text_field(x, #[trigger] path_table(ObjectLabel::Credential)[i])
                == Some(x.name_view()[i]),
{
    reveal_strlit("name");
    let p = path_table(ObjectLabel::Credential);
    assert(p[0] == "name"@);
    assert(credential_text_field(x, p[0]) == Some(x.name@));
}

/// A credential is referenced by the UUID its id parses to, and by its name where it has
/// no id or the id does not parse.
pub proof fn lemma_credential_referenced_by_uuid(x: Credential)
    ensures
        x.id matches Some(s) && uuid_parse(s@) is Some ==> x.ref_view() == RefView::Uuid(
            uuid_parse(x.id->0@)->0,
        ),
        !(x.id matches Some(s) && uuid_parse(s@) is Some) ==> x.ref_view() == RefView::Name(
            seq![x.name@],
        ),
{
}

/// A credential read back from a stored object is the decoded credential with the object's id,
/// hyphenated, in place of its own, whatever id the decoded credential held.
pub proof fn lemma_credential_read_back_carries_object_id(x: Credential, d: Credential, oid: u128)
    requires
        x.restored(d, oid),
    ensures
        x.id matches Some(s) && s@ == hyphenated(oid),
        x == (Credential { id: x.id, ..d }),
{
}

/// The value of the text field of an external location that `field` names, if it has one.
pub open spec fn external_location_text_field(x: ExternalLocation, field: Seq<char>) -> Option<Seq<char>> {
    if field == "name"@ {
        Some(x.name@)
    } else if field == "url"@ {
        Some(x.url@)
    } else if field == "credential_name"@ {
        Some(x.credential_name@)
    } else if field == "credential_id"@ {
        Some(x.credential_id@)
    } else {
        None
    }
}

/// The name of an external location is its name fields, in that order: one segment for
/// each field that the descriptor of its label lists as a path name, holding that field's
/// value.
pub proof fn lemma_external_location_name_follows_descriptor(x: ExternalLocation)
    ensures
        x.label_view() == ObjectLabel::ExternalLocation,
        x.name_view() == seq![x.name@],
        x.name_view().len() == path_table(ObjectLabel::ExternalLocation).len(),
        forall|i: int|
            0 <= i < x.name_view().len() ==> external_location_text_field(x, #[trigger] path_table(ObjectLabel::ExternalLocation)[i])
                == Some(x.name_view()[i]),
{
    reveal_strlit("url");
    reveal_strlit("name");
    reveal_strlit("credential_id");
    reveal_strlit("credential_name");
    let p = path_table(ObjectLabel::ExternalLocation);
    assert(p[0] == "name"@);
    assert(external_location_text_field(x, p[0]) == Some(x.name@));
}

/// An external location is referenced by the UUID its id parses to, and by its name where it has
/// no id or the id does not parse.
pub proof fn lemma_external_location_referenced_by_uuid(x: ExternalLocation)
    ensures
        x.external_location_id matches Some(s) && uuid_parse(s@) is Some ==> x.ref_view() == RefView::Uuid(
            uuid_parse(x.external_location_id->0@)->0,
        ),
        !(x.external_location_id matches Some(s) && uuid_parse(s@) is Some) ==> x.ref_view() == RefView::Name(
            seq![x.name@],
        ),
{
}

/// An external location read back from a stored object is the decoded external location with the object's id,
/// hyphenated, in place of its own, whatever id the decoded external location held.
pub proof fn lemma_external_location_read_back_carries_object_id(x: ExternalLocation, d: ExternalLocation, oid: u128)
    requires
        x.restored(d, oid),
    ensures
        x.external_location_id matches Some(s) && s@ == hyphenated(oid),
        x == (ExternalLocation { external_location_id: x.external_location_id, ..d }),
{
}

/// The value of the text field of a function that `field` names, if it has one.
pub open spec fn function_text_field(x: Function, field: Seq<char>) -> Option<Seq<char>> {
    if field == "name"@ {
        Some(x.name@)
    } else if field == "catalog_name"@ {
        Some(x.catalog_name@)
    } else if field == "schema_name"@ {
        Some(x.schema_name@)
    } else if field == "full_name"@ {
        Some(x.full_name@)
    } else if field == "data_type"@ {
        Some(x.data_type@)
    } else if field == "full_data_type"@ {
        Some(x.full_data_type@)
    } else {
        None
    }
}

/// The name of a function is its catalog_name, schema_name, name fields, in that order: one segment for
/// each field that the descriptor of its label lists as a path name, holding that field's
/// value.
pub proof fn lemma_function_name_follows_descriptor(x: Function)
    ensures
        x.label_view() == ObjectLabel::Function,
        x.name_view() == seq![x.catalog_name@, x.schema_name@, x.name@],
        x.name_view().len() == path_table(ObjectLabel::Function).len(),
        forall|i: int|
            0 <= i < x.name_view().len() ==> function_text_field(x, #[trigger] path_table(ObjectLabel::Function)[i])
                == Some(x.name_view()[i]),
{
    reveal_strlit("name");
    reveal_strlit("full_name");
    reveal_strlit("data_type");
    reveal_strlit("schema_name");
    reveal_strlit("catalog_name");
    reveal_strlit("full_data_type");
    let p = path_table(ObjectLabel::Function);
    assert("catalog_name"@.len() != "name"@.len());
    assert(p[0] == "catalog_name"@);
    assert(function_text_field(x, p[0]) == Some(x.catalog_name@));
    assert("schema_name"@.len() != "name"@.len());
    assert("schema_name"@.len() != "catalog_name"@.len());
    assert(p[1] == "schema_name"@);
    assert(function_text_field(x, p[1]) == Some(x.schema_name@));
    assert(p[2] == "name"@);
    assert(function_text_field(x, p[2]) == Some(x.name@));
}

/// A function is referenced by the UUID its id parses to, and by its name where it has
/// no id or the id does not parse.
pub proof fn lemma_function_referenced_by_uuid(x: Function)
    ensures
        x.function_id matches Some(s) && uuid_parse(s@) is Some ==> x.ref_view() == RefView::Uuid(
            uuid_parse(x.function_id->0@)->0,
        ),
        !(x.function_id matches Some(s) && uuid_parse(s@) is Some) ==> x.ref_view() == RefView::Name(
            seq![x.catalog_name@, x.schema_name@, x.name@],
        ),
{
}

/// A function read back from a stored object is the decoded function with the object's id,
/// hyphenated, in place of its own, whatever id the decoded function held.
pub proof fn lemma_function_read_back_carries_object_id(x: Function, d: Function, oid: u128)
    requires
        x.restored(d, oid),
    ensures
        x.function_id matches Some(s) && s@ == hyphenated(oid),
        x == (Function { function_id: x.function_id, ..d }),
{
}

/// The value of the text field of a provider that `field` names, if it has one.
pub open spec fn provider_text_field(x: Provider, field: Seq<char>) -> Option<Seq<char>> {
    if field == "name"@ {
        Some(x.name@)
    } else {
        None
    }
}

/// The name of a provider is its name fields, in that order: one segment for
/// each field that the descriptor of its label lists as a path name, holding that field's
/// value.
pub proof fn lemma_provider_name_follows_descriptor(x: Provider)
    ensures
        x.label_view() == ObjectLabel::Provider,
        x.name_view() == seq![x.name@],
        x.name_view().len() == path_table(ObjectLabel::Provider).len(),
        forall|i: int|
            0 <= i < x.name_view().len() ==> provider_text_field(x, #[trigger] path_table(ObjectLabel::Provider)[i])
                == Some(x.name_view()[i]),
{
    reveal_strlit("name");
    let p = path_table(ObjectLabel::Provider);
    assert(p[0] == "name"@);
    assert(provider_text_field(x, p[0]) == Some(x.name@));
}

/// A provider is referenced by the UUID its id parses to, and by its name where it has
/// no id or the id does not parse.
pub proof fn lemma_provider_referenced_by_uuid(x: Provider)
    ensures
        x.id matches Some(s) && uuid_parse(s@) is Some ==> x.ref_view() == RefView::Uuid(
            uuid_parse(x.id->0@)->0,
        ),
        !(x.id matches Some(s) && uuid_parse(s@) is Some) ==> x.ref_view() == RefView::Name(
            seq![x.name@],
        ),
{
}

/// A provider read back from a stored object is the decoded provider with the object's id,
/// hyphenated, in place of its own, whatever id the decoded provider held.
pub proof fn lemma_provider_read_back_carries_object_id(x: Provider, d: Provider, oid: u128)
    requires
        x.restored(d, oid),
    ensures
        x.id matches Some(s) && s@ == hyphenated(oid),
        x == (Provider { id: x.id, ..d }),
{
}

/// The value of the text field of a recipient that `field` names, if it has one.
pub open spec fn recipient_text_field(x: Recipient, field: Seq<char>) -> Option<Seq<char>> {
    if field == "name"@ {
        Some(x.name@)
    } else if field == "owner"@ {
        Some(x.owner@)
    } else {
        None
    }
}

/// The name of a recipient is its name fields, in that order: one segment for
/// each field that the descriptor of its label lists as a path name, holding that field's
/// value.
pub proof fn lemma_recipient_name_follows_descriptor(x: Recipient)
    ensures
        x.label_view() == ObjectLabel::Recipient,
        x.name_view() == seq![x.name@],
        x.name_view().len() == path_table(ObjectLabel::Recipient).len(),
        forall|i: int|
            0 <= i < x.name_view().len() ==> recipient_text_field(x, #[trigger] path_table(ObjectLabel::Recipient)[i])
                == Some(x.name_view()[i]),
{
    reveal_strlit("name");
    reveal_strlit("owner");
    let p = path_table(ObjectLabel::Recipient);
    assert(p[0] == "name"@);
    assert(recipient_text_field(x, p[0]) == Some(x.name@));
}

/// A recipient is referenced by the UUID its id parses to, and by its name where it has
/// no id or the id does not parse.
pub proof fn lemma_recipient_referenced_by_uuid(x: Recipient)
    ensures
        x.id matches Some(s) && uuid_parse(s@) is Some ==> x.ref_view() == RefView::Uuid(
            uuid_parse(x.id->0@)->0,
        ),
        !(x.id matches Some(s) && uuid_parse(s@) is Some) ==> x.ref_view() == RefView::Name(
            seq![x.name@],
        ),
{
}

/// A recipient read back from a stored object is the decoded recipient with the object's id,
/// hyphenated, in place of its own, whatever id the decoded recipient held.
pub proof fn lemma_recipient_read_back_carries_object_id(x: Recipient, d: Recipient, oid: u128)
    requires
        x.restored(d, oid),
    ensures
        x.id matches Some(s) && s@ == hyphenated(oid),
        x == (Recipient { id: x.id, ..d }),
{
}

/// The value of the text field of a schema that `field` names, if it has one.
pub open spec fn schema_text_field(x: Schema, field: Seq<char>) -> Option<Seq<char>> {
    if field == "name"@ {
        Some(x.name@)
    } else if field == "catalog_name"@ {
        Some(x.catalog_name@)
    } else if field == "full_name"@ {
        Some(x.full_name@)
    } else {
        None
    }
}

/// The name of a schema is its catalog_name, name fields, in that order: one segment for
/// each field that the descriptor of its label lists as a path name, holding that field's
/// value.
pub proof fn lemma_schema_name_follows_descriptor(x: Schema)
    ensures
        x.label_view() == ObjectLabel::Schema,
        x.name_view() == seq![x.catalog_name@, x.name@],
        x.name_view().len() == path_table(ObjectLabel::Schema).len(),
        forall|i: int|
            0 <= i < x.name_view().len() ==> schema_text_field(x, #[trigger] path_table(ObjectLabel::Schema)[i])
                == Some(x.name_view()[i]),
{
    reveal_strlit("name");
    reveal_strlit("full_name");
    reveal_strlit("catalog_name");
    let p = path_table(ObjectLabel::Schema);
    assert("catalog_name"@.len() != "name"@.len());
    assert(p[0] == "catalog_name"@);
    assert(schema_text_field(x, p[0]) == Some(x.catalog_name@));
    assert(p[1] == "name"@);
    assert(schema_text_field(x, p[1]) == Some(x.name@));
}

/// A schema is referenced by the UUID its id parses to, and by its name where it has
/// no id or the id does not parse.
pub proof fn lemma_schema_referenced_by_uuid(x: Schema)
    ensures
        x.schema_id matches Some(s) && uuid_parse(s@) is Some ==> x.ref_view() == RefView::Uuid(
            uuid_parse(x.schema_id->0@)->0,
        ),
        !(x.schema_id matches Some(s) && uuid_parse(s@) is Some) ==> x.ref_view() == RefView::Name(
            seq![x.catalog_name@, x.name@],
        ),
{
}

/// A schema read back from a stored object is the decoded schema with the object's id,
/// hyphenated, in place of its own, whatever id the decoded schema held.
pub proof fn lemma_schema_read_back_carries_object_id(x: Schema, d: Schema, oid: u128)
    requires
        x.restored(d, oid),
    ensures
        x.schema_id matches Some(s) && s@ == hyphenated(oid),
        x == (Schema { schema_id: x.schema_id, ..d }),
{
}

/// The value of the text field of a share that `field` names, if it has one.
pub open spec fn share_text_field(x: Share, field: Seq<char>) -> Option<Seq<char>> {
    if field == "name"@ {
        Some(x.name@)
    } else {
        None
    }
}

/// The name of a share is its name fields, in that order: one segment for
/// each field that the descriptor of its label lists as a path name, holding that field's
/// value.
pub proof fn lemma_share_name_follows_descriptor(x: Share)
    ensures
        x.label_view() == ObjectLabel::Share,
        x.name_view() == seq![x.name@],
        x.name_view().len() == path_table(ObjectLabel::Share).len(),
        forall|i: int|
            0 <= i < x.name_view().len() ==> share_text_field(x, #[trigger] path_table(ObjectLabel::Share)[i])
                == Some(x.name_view()[i]),
{
    reveal_strlit("name");
    let p = path_table(ObjectLabel::Share);
    assert(p[0] == "name"@);
    assert(share_text_field(x, p[0]) == Some(x.name@));
}

/// A share is referenced by the UUID its id parses to, and by its name where it has
/// no id or the id does not parse.
pub proof fn lemma_share_referenced_by_uuid(x: Share)
    ensures
        x.id matches Some(s) && uuid_parse(s@) is Some ==> x.ref_view() == RefView::Uuid(
            uuid_parse(x.id->0@)->0,
        ),
        !(x.id matches Some(s) && uuid_parse(s@) is Some) ==> x.ref_view() == RefView::Name(
            seq![x.name@],
        ),
{
}

/// A share read back from a stored object is the decoded share with the object's id,
/// hyphenated, in place of its own, whatever id the decoded share held.
pub proof fn lemma_share_read_back_carries_object_id(x: Share, d: Share, oid: u128)
    requires
        x.restored(d, oid),
    ensures
        x.id matches Some(s) && s@ == hyphenated(oid),
        x == (Share { id: x.id, ..d }),
{
}

/// The value of the text field of a staging table that `field` names, if it has one.
pub open spec fn staging_table_text_field(x: StagingTable, field: Seq<char>) -> Option<Seq<char>> {
    if field == "id"@ {
        Some(x.id@)
    } else if field == "name"@ {
        Some(x.name@)
    } else if field == "schema_name"@ {
        Some(x.schema_name@)
    } else if field == "catalog_name"@ {
        Some(x.catalog_name@)
    } else if field == "staging_location"@ {
        Some(x.staging_location@)
    } else {
        None
    }
}

/// The name of a staging table is its name fields, in that order: one segment for
/// each field that the descriptor of its label lists as a path name, holding that field's
/// value.
pub proof fn lemma_staging_table_name_follows_descriptor(x: StagingTable)
    ensures
        x.label_view() == ObjectLabel::StagingTable,
        x.name_view() == seq![x.name@],
        x.name_view().len() == path_table(ObjectLabel::StagingTable).len(),
        forall|i: int|
            0 <= i < x.name_view().len() ==> staging_table_text_field(x, #[trigger] path_table(ObjectLabel::StagingTable)[i])
                == Some(x.name_view()[i]),
{
    reveal_strlit("id");
    reveal_strlit("name");
    reveal_strlit("schema_name");
    reveal_strlit("catalog_name");
    reveal_strlit("staging_location");
    let p = path_table(ObjectLabel::StagingTable);
    assert("name"@.len() != "id"@.len());
    assert(p[0] == "name"@);
    assert(staging_table_text_field(x, p[0]) == Some(x.name@));
}

/// A staging table is referenced by the UUID its id parses to, and by its name where the
/// id does not parse.
pub proof fn lemma_staging_table_referenced_by_uuid(x: StagingTable)
    ensures
        uuid_parse(x.id@) matches Some(u) ==> x.ref_view() == RefView::Uuid(u),
        uuid_parse(x.id@) is None ==> x.ref_view() == RefView::Name(seq![x.name@]),
{
}

/// A staging table read back from a stored object is the decoded staging table with the object's id,
/// hyphenated, in place of its own.
pub proof fn lemma_staging_table_read_back_carries_object_id(x: StagingTable, d: StagingTable, oid: u128)
    requires
        x.restored(d, oid),
    ensures
        x.id@ == hyphenated(oid),
        x == (StagingTable { id: x.id, ..d }),
{
}

/// The value of the text field of a table that `field` names, if it has one.
pub open spec fn table_text_field(x: Table, field: Seq<char>) -> Option<Seq<char>> {
    if field == "name"@ {
        Some(x.name@)
    } else if field == "catalog_name"@ {
        Some(x.catalog_name@)
    } else if field == "schema_name"@ {
        Some(x.schema_name@)
    } else if field == "full_name"@ {
        Some(x.full_name@)
    } else {
        None
    }
}

/// The name of a table is its catalog_name, schema_name, name fields, in that order: one segment for
/// each field that the descriptor of its label lists as a path name, holding that field's
/// value.
pub proof fn lemma_table_name_follows_descriptor(x: Table)
    ensures
        x.label_view() == ObjectLabel::Table,
        x.name_view() == seq![x.catalog_name@, x.schema_name@, x.name@],
        x.name_view().len() == path_table(ObjectLabel::Table).len(),
        forall|i: int|
            0 <= i < x.name_view().len() ==> table_text_field(x, #[trigger] path_table(ObjectLabel::Table)[i])
                == Some(x.name_view()[i]),
{
    reveal_strlit("name");
    reveal_strlit("full_name");
    reveal_strlit("schema_name");
    reveal_strlit("catalog_name");
    let p = path_table(ObjectLabel::Table);
    assert("catalog_name"@.len() != "name"@.len());
    assert(p[0] == "catalog_name"@);
    assert(table_text_field(x, p[0]) == Some(x.catalog_name@));
    assert("schema_name"@.len() != "name"@.len());
    assert("schema_name"@.len() != "catalog_name"@.len());
    assert(p[1] == "schema_name"@);
    assert(table_text_field(x, p[1]) == Some(x.schema_name@));
    assert(p[2] == "name"@);
    assert(table_text_field(x, p[2]) == Some(x.name@));
}

/// A table is referenced by the UUID its id parses to, and by its name where it has
/// no id or the id does not parse.
pub proof fn lemma_table_referenced_by_uuid(x: Table)
    ensures
        x.table_id matches Some(s) && uuid_parse(s@) is Some ==> x.ref_view() == RefView::Uuid(
            uuid_parse(x.table_id->0@)->0,
        ),
        !(x.table_id matches Some(s) && uuid_parse(s@) is Some) ==> x.ref_view() == RefView::Name(
            seq![x.catalog_name@, x.schema_name@, x.name@],
        ),
{
}

/// A table read back from a stored object is the decoded table with the object's id,
/// hyphenated, in place of its own, whatever id the decoded table held.
pub proof fn lemma_table_read_back_carries_object_id(x: Table, d: Table, oid: u128)
    requires
        x.restored(d, oid),
    ensures
        x.table_id matches Some(s) && s@ == hyphenated(oid),
        x == (Table { table_id: x.table_id, ..d }),
{
}

/// The value of the text field of a tag policy that `field` names, if it has one.
pub open spec fn tag_policy_text_field(x: TagPolicy, field: Seq<char>) -> Option<Seq<char>> {
    if field == "tag_key"@ {
        Some(x.tag_key@)
    } else {
        None
    }
}

/// The name of a tag policy is its tag_key fields, in that order: one segment for
/// each field that the descriptor of its label lists as a path name, holding that field's
/// value.
pub proof fn lemma_tag_policy_name_follows_descriptor(x: TagPolicy)
    ensures
        x.label_view() == ObjectLabel::TagPolicy,
        x.name_view() == seq![x.tag_key@],
        x.name_view().len() == path_table(ObjectLabel::TagPolicy).len(),
        forall|i: int|
            0 <= i < x.name_view().len() ==> tag_policy_text_field(x, #[trigger] path_table(ObjectLabel::TagPolicy)[i])
                == Some(x.name_view()[i]),
{
    reveal_strlit("tag_key");
    let p = path_table(ObjectLabel::TagPolicy);
    assert(p[0] == "tag_key"@);
    assert(tag_policy_text_field(x, p[0]) == Some(x.tag_key@));
}

/// A tag policy is referenced by the UUID its id parses to, and by its name where it has
/// no id or the id does not parse.
pub proof fn lemma_tag_policy_referenced_by_uuid(x: TagPolicy)
    ensures
        x.id matches Some(s) && uuid_parse(s@) is Some ==> x.ref_view() == RefView::Uuid(
            uuid_parse(x.id->0@)->0,
        ),
        !(x.id matches Some(s) && uuid_parse(s@) is Some) ==> x.ref_view() == RefView::Name(
            seq![x.tag_key@],
        ),
{
}

/// A tag policy read back from a stored object is the decoded tag policy with the object's id,
/// hyphenated, in place of its own, whatever id the decoded tag policy held.
pub proof fn lemma_tag_policy_read_back_carries_object_id(x: TagPolicy, d: TagPolicy, oid: u128)
    requires
        x.restored(d, oid),
    ensures
        x.id matches Some(s) && s@ == hyphenated(oid),
        x == (TagPolicy { id: x.id, ..d }),
{
}

/// The value of the text field of a volume that `field` names, if it has one.
pub open spec fn volume_text_field(x: Volume, field: Seq<char>) -> Option<Seq<char>> {
    if field == "name"@ {
        Some(x.name@)
    } else if field == "catalog_name"@ {
        Some(x.catalog_name@)
    } else if field == "schema_name"@ {
        Some(x.schema_name@)
    } else if field == "full_name"@ {
        Some(x.full_name@)
    } else if field == "storage_location"@ {
        Some(x.storage_location@)
    } else if field == "volume_id"@ {
        Some(x.volume_id@)
    } else {
        None
    }
}

/// The name of a volume is its catalog_name, schema_name, name fields, in that order: one segment for
/// each field that the descriptor of its label lists as a path name, holding that field's
/// value.
pub proof fn lemma_volume_name_follows_descriptor(x: Volume)
    ensures
        x.label_view() == ObjectLabel::Volume,
        x.name_view() == seq![x.catalog_name@, x.schema_name@, x.name@],
        x.name_view().len() == path_table(ObjectLabel::Volume).len(),
        forall|i: int|
            0 <= i < x.name_view().len() ==> volume_text_field(x, #[trigger] path_table(ObjectLabel::Volume)[i])
                == Some(x.name_view()[i]),
{
    reveal_strlit("name");
    reveal_strlit("volume_id");
    reveal_strlit("full_name");
    reveal_strlit("schema_name");
    reveal_strlit("catalog_name");
    reveal_strlit("storage_location");
    let p = path_table(ObjectLabel::Volume);
    assert("catalog_name"@.len() != "name"@.len());
    assert(p[0] == "catalog_name"@);
    assert(volume_text_field(x, p[0]) == Some(x.catalog_name@));
    assert("schema_name"@.len() != "name"@.len());
    assert("schema_name"@.len() != "catalog_name"@.len());
    assert(p[1] == "schema_name"@);
    assert(volume_text_field(x, p[1]) == Some(x.schema_name@));
    assert(p[2] == "name"@);
    assert(volume_text_field(x, p[2]) == Some(x.name@));
}

/// A volume is referenced by the UUID its id parses to, and by its name where the
/// id does not parse.
pub proof fn lemma_volume_referenced_by_uuid(x: Volume)
    ensures
        uuid_parse(x.volume_id@) matches Some(u) ==> x.ref_view() == RefView::Uuid(u),
        uuid_parse(x.volume_id@) is None ==> x.ref_view() == RefView::Name(seq![x.catalog_name@, x.schema_name@, x.name@]),
{
}

/// A volume read back from a stored object is the decoded volume with the object's id,
/// hyphenated, in place of its own.
pub proof fn lemma_volume_read_back_carries_object_id(x: Volume, d: Volume, oid: u128)
    requires
        x.restored(d, oid),
    ensures
        x.volume_id@ == hyphenated(oid),
        x == (Volume { volume_id: x.volume_id, ..d }),
{
}

/// A resource type whose name has three segments names them by catalog, schema and name;
/// one with two by catalog and name; one with a single segment by its name or its tag key.
pub proof fn lemma_path_names_outermost_first(l: ObjectLabel)
    ensures
        path_table(l).len() == 3 ==> path_table(l) == seq!["catalog_name"@, "schema_name"@, "name"@],
        path_table(l).len() == 2 ==> path_table(l) == seq!["catalog_name"@, "name"@],
        path_table(l).len() == 1 ==> path_table(l)[0] == "name"@ || path_table(l)[0] == "tag_key"@,
        1 <= path_table(l).len() <= 3,
{
}

} // verus!
