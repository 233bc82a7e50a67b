//! Laws of the library: what holds across its functions.

use vstd::prelude::*;
use vstd::std_specs::convert::{FromSpec, TryFromSpec};

use crate::descriptors::path_table;
use crate::error::Error;
use crate::identifiers::{hyphenated, lemma_hyphenated_parses};
use crate::ident::ResourceExt;
use crate::labels::{all_labels, label_name, parse_label, ObjectLabel};
use crate::object::Object;
use crate::records::{Agent, AgentSkill, Catalog, Column, Credential, ExternalLocation, Function, Provider, Recipient, Schema, Share, StagingTable, Table, TagPolicy, Volume};
use crate::resource::Resource;
use crate::name::{display_name, display_segment, needs_quotes};
use crate::text::{ascii_lower, join_with, lemma_split_nonempty, lower_chars, split_on};

verus! {


/// A label's string form reads back as the same label.
pub proof fn lemma_label_string_round_trip(label: ObjectLabel)
    ensures
        parse_label(label_name(label)) == Some(label),
{
    reveal_strlit("agent");
    reveal_strlit("agent_skill");
    reveal_strlit("catalog");
    reveal_strlit("column");
    reveal_strlit("credential");
    reveal_strlit("external_location");
    reveal_strlit("function");
    reveal_strlit("provider");
    reveal_strlit("recipient");
    reveal_strlit("schema");
    reveal_strlit("share");
    reveal_strlit("staging_table");
    reveal_strlit("table");
    reveal_strlit("tag_policy");
    reveal_strlit("volume");
    match label {
        ObjectLabel::Agent => {
            assert(lower_chars("agent"@) =~= "agent"@);
        },
        ObjectLabel::AgentSkill => {
            assert(lower_chars("agent_skill"@) =~= "agent_skill"@);
            assert("agent_skill"@.len() != "agent"@.len());
        },
        ObjectLabel::Catalog => {
            assert(lower_chars("catalog"@) =~= "catalog"@);
            assert("catalog"@.len() != "agent"@.len());
            assert("catalog"@.len() != "agent_skill"@.len());
        },
        ObjectLabel::Column => {
            assert(lower_chars("column"@) =~= "column"@);
            assert("column"@.len() != "agent"@.len());
            assert("column"@.len() != "agent_skill"@.len());
            assert("column"@.len() != "catalog"@.len());
        },
        ObjectLabel::Credential => {
            assert(lower_chars("credential"@) =~= "credential"@);
            assert("credential"@.len() != "agent"@.len());
            assert("credential"@.len() != "agent_skill"@.len());
            assert("credential"@.len() != "catalog"@.len());
            assert("credential"@.len() != "column"@.len());
        },
        ObjectLabel::ExternalLocation => {
            assert(lower_chars("external_location"@) =~= "external_location"@);
            assert("external_location"@.len() != "agent"@.len());
            assert("external_location"@.len() != "agent_skill"@.len());
            assert("external_location"@.len() != "catalog"@.len());
            assert("external_location"@.len() != "column"@.len());
            assert("external_location"@.len() != "credential"@.len());
        },
        ObjectLabel::Function => {
            assert(lower_chars("function"@) =~= "function"@);
            assert("function"@.len() != "agent"@.len());
            assert("function"@.len() != "agent_skill"@.len());
            assert("function"@.len() != "catalog"@.len());
            assert("function"@.len() != "column"@.len());
            assert("function"@.len() != "credential"@.len());
            assert("function"@.len() != "external_location"@.len());
        },
        ObjectLabel::Provider => {
            assert(lower_chars("provider"@) =~= "provider"@);
            assert("provider"@.len() != "agent"@.len());
            assert("provider"@.len() != "agent_skill"@.len());
            assert("provider"@.len() != "catalog"@.len());
            assert("provider"@.len() != "column"@.len());
            assert("provider"@.len() != "credential"@.len());
            assert("provider"@.len() != "external_location"@.len());
            assert("provider"@[0] != "function"@[0]);
        },
        ObjectLabel::Recipient => {
            assert(lower_chars("recipient"@) =~= "recipient"@);
            assert("recipient"@.len() != "agent"@.len());
            assert("recipient"@.len() != "agent_skill"@.len());
            assert("recipient"@.len() != "catalog"@.len());
            assert("recipient"@.len() != "column"@.len());
            assert("recipient"@.len() != "credential"@.len());
            assert("recipient"@.len() != "external_location"@.len());
            assert("recipient"@.len() != "function"@.len());
            assert("recipient"@.len() != "provider"@.len());
        },
        ObjectLabel::Schema => {
            assert(lower_chars("schema"@) =~= "schema"@);
            assert("schema"@.len() != "agent"@.len());
            assert("schema"@.len() != "agent_skill"@.len());
            assert("schema"@.len() != "catalog"@.len());
            assert("schema"@[0] != "column"@[0]);
            assert("schema"@.len() != "credential"@.len());
            assert("schema"@.len() != "external_location"@.len());
            assert("schema"@.len() != "function"@.len());
            assert("schema"@.len() != "provider"@.len());
            assert("schema"@.len() != "recipient"@.len());
        },
        ObjectLabel::Share => {
            assert(lower_chars("share"@) =~= "share"@);
            assert("share"@[0] != "agent"@[0]);
            assert("share"@.len() != "agent_skill"@.len());
            assert("share"@.len() != "catalog"@.len());
            assert("share"@.len() != "column"@.len());
            assert("share"@.len() != "credential"@.len());
            assert("share"@.len() != "external_location"@.len());
            assert("share"@.len() != "function"@.len());
            assert("share"@.len() != "provider"@.len());
            assert("share"@.len() != "recipient"@.len());
            assert("share"@.len() != "schema"@.len());
        },
        ObjectLabel::StagingTable => {
            assert(lower_chars("staging_table"@) =~= "staging_table"@);
            assert("staging_table"@.len() != "agent"@.len());
            assert("staging_table"@.len() != "agent_skill"@.len());
            assert("staging_table"@.len() != "catalog"@.len());
            assert("staging_table"@.len() != "column"@.len());
            assert("staging_table"@.len() != "credential"@.len());
            assert("staging_table"@.len() != "external_location"@.len());
            assert("staging_table"@.len() != "function"@.len());
            assert("staging_table"@.len() != "provider"@.len());
            assert("staging_table"@.len() != "recipient"@.len());
            assert("staging_table"@.len() != "schema"@.len());
            assert("staging_table"@.len() != "share"@.len());
        },
        ObjectLabel::Table => {
            assert(lower_chars("table"@) =~= "table"@);
            assert("table"@[0] != "agent"@[0]);
            assert("table"@.len() != "agent_skill"@.len());
            assert("table"@.len() != "catalog"@.len());
            assert("table"@.len() != "column"@.len());
            assert("table"@.len() != "credential"@.len());
            assert("table"@.len() != "external_location"@.len());
            assert("table"@.len() != "function"@.len());
            assert("table"@.len() != "provider"@.len());
            assert("table"@.len() != "recipient"@.len());
            assert("table"@.len() != "schema"@.len());
            assert("table"@[0] != "share"@[0]);
            assert("table"@.len() != "staging_table"@.len());
        },
        ObjectLabel::TagPolicy => {
            assert(lower_chars("tag_policy"@) =~= "tag_policy"@);
            assert("tag_policy"@.len() != "agent"@.len());
            assert("tag_policy"@.len() != "agent_skill"@.len());
            assert("tag_policy"@.len() != "catalog"@.len());
            assert("tag_policy"@.len() != "column"@.len());
            assert("tag_policy"@[0] != "credential"@[0]);
            assert("tag_policy"@.len() != "external_location"@.len());
            assert("tag_policy"@.len() != "function"@.len());
            assert("tag_policy"@.len() != "provider"@.len());
            assert("tag_policy"@.len() != "recipient"@.len());
            assert("tag_policy"@.len() != "schema"@.len());
            assert("tag_policy"@.len() != "share"@.len());
            assert("tag_policy"@.len() != "staging_table"@.len());
            assert("tag_policy"@.len() != "table"@.len());
        },
        ObjectLabel::Volume => {
            assert(lower_chars("volume"@) =~= "volume"@);
            assert("volume"@.len() != "agent"@.len());
            assert("volume"@.len() != "agent_skill"@.len());
            assert("volume"@.len() != "catalog"@.len());
            assert("volume"@[0] != "column"@[0]);
            assert("volume"@.len() != "credential"@.len());
            assert("volume"@.len() != "external_location"@.len());
            assert("volume"@.len() != "function"@.len());
            assert("volume"@.len() != "provider"@.len());
            assert("volume"@.len() != "recipient"@.len());
            assert("volume"@[0] != "schema"@[0]);
            assert("volume"@.len() != "share"@.len());
            assert("volume"@.len() != "staging_table"@.len());
            assert("volume"@.len() != "table"@.len());
            assert("volume"@.len() != "tag_policy"@.len());
        },
    }
}

/// Reading a label ignores ASCII case: a text names the label its lowercase form names.
pub proof fn lemma_label_parse_ignores_case(s: Seq<char>)
    ensures
        parse_label(s) == parse_label(lower_chars(s)),
{
    assert forall|i: int| 0 <= i < s.len() implies ascii_lower(ascii_lower(#[trigger] s[i]))
        == ascii_lower(s[i]) by {}
    assert(lower_chars(lower_chars(s)) =~= lower_chars(s));
}

/// Different labels have different string forms.
pub proof fn lemma_label_names_distinct(a: ObjectLabel, b: ObjectLabel)
    ensures
        label_name(a) == label_name(b) ==> a == b,
{
    lemma_label_string_round_trip(a);
    lemma_label_string_round_trip(b);
}

/// The list of all labels holds every label exactly once.
pub proof fn lemma_all_labels_complete(label: ObjectLabel)
    ensures
        all_labels().contains(label),
        all_labels().len() == 15,
        forall|i: int, j: int|
            0 <= i < j < all_labels().len() ==> all_labels()[i] != all_labels()[j],
{
    match label {
        ObjectLabel::Agent => assert(all_labels()[0] == label),
        ObjectLabel::AgentSkill => assert(all_labels()[1] == label),
        ObjectLabel::Catalog => assert(all_labels()[2] == label),
        ObjectLabel::Column => assert(all_labels()[3] == label),
        ObjectLabel::Credential => assert(all_labels()[4] == label),
        ObjectLabel::ExternalLocation => assert(all_labels()[5] == label),
        ObjectLabel::Function => assert(all_labels()[6] == label),
        ObjectLabel::Provider => assert(all_labels()[7] == label),
        ObjectLabel::Recipient => assert(all_labels()[8] == label),
        ObjectLabel::Schema => assert(all_labels()[9] == label),
        ObjectLabel::Share => assert(all_labels()[10] == label),
        ObjectLabel::StagingTable => assert(all_labels()[11] == label),
        ObjectLabel::Table => assert(all_labels()[12] == label),
        ObjectLabel::TagPolicy => assert(all_labels()[13] == label),
        ObjectLabel::Volume => assert(all_labels()[14] == label),
    }
}

/// Wrapping an agent into a resource and taking it out again gives it back; the
/// resource carries the agent label.
pub proof fn lemma_agent_resource_round_trip(x: Agent)
    ensures
        <Agent as TryFromSpec<Resource>>::try_from_spec(<Resource as FromSpec<Agent>>::from_spec(x))
            == Ok::<Agent, Error>(x),
        <Resource as FromSpec<Agent>>::from_spec(x).label_of() == ObjectLabel::Agent,
{
}

/// Storing an agent whose id is the canonical text of UUID `u`, and reading it back
/// from the stored object's properties, gives the same agent; the object carries `u`.
pub proof fn lemma_agent_object_round_trip(
    x: Agent,
    u: u128,
    properties: String,
    stored: Result<Object, Error>,
    back: Agent,
)
    requires
        x.has_canonical_id(u),
        x.stored_as(properties, stored),
        stored matches Ok(o) ==> back.restored(x, o.id),
    ensures
        stored matches Ok(o) && o.id == u && o.label == ObjectLabel::Agent,
        back.same_values(x),
{
    lemma_hyphenated_parses(u);
}

/// Wrapping an agent skill into a resource and taking it out again gives it back; the
/// resource carries the agent skill label.
pub proof fn lemma_agent_skill_resource_round_trip(x: AgentSkill)
    ensures
        <AgentSkill as TryFromSpec<Resource>>::try_from_spec(<Resource as FromSpec<AgentSkill>>::from_spec(x))
            == Ok::<AgentSkill, Error>(x),
        <Resource as FromSpec<AgentSkill>>::from_spec(x).label_of() == ObjectLabel::AgentSkill,
{
}

/// Storing an agent skill whose id is the canonical text of UUID `u`, and reading it back
/// from the stored object's properties, gives the same agent skill; the object carries `u`.
pub proof fn lemma_agent_skill_object_round_trip(
    x: AgentSkill,
    u: u128,
    properties: String,
    stored: Result<Object, Error>,
    back: AgentSkill,
)
    requires
        x.has_canonical_id(u),
        x.stored_as(properties, stored),
        stored matches Ok(o) ==> back.restored(x, o.id),
    ensures
        stored matches Ok(o) && o.id == u && o.label == ObjectLabel::AgentSkill,
        back.same_values(x),
{
    lemma_hyphenated_parses(u);
}

/// Wrapping a catalog into a resource and taking it out again gives it back; the
/// resource carries the catalog label.
pub proof fn lemma_catalog_resource_round_trip(x: Catalog)
    ensures
        <Catalog as TryFromSpec<Resource>>::try_from_spec(<Resource as FromSpec<Catalog>>::from_spec(x))
            == Ok::<Catalog, Error>(x),
        <Resource as FromSpec<Catalog>>::from_spec(x).label_of() == ObjectLabel::Catalog,
{
}

/// Storing a catalog whose id is the canonical text of UUID `u`, and reading it back
/// from the stored object's properties, gives the same catalog; the object carries `u`.
pub proof fn lemma_catalog_object_round_trip(
    x: Catalog,
    u: u128,
    properties: String,
    stored: Result<Object, Error>,
    back: Catalog,
)
    requires
        x.has_canonical_id(u),
        x.stored_as(properties, stored),
        stored matches Ok(o) ==> back.restored(x, o.id),
    ensures
        stored matches Ok(o) && o.id == u && o.label == ObjectLabel::Catalog,
        back.same_values(x),
{
    lemma_hyphenated_parses(u);
}

/// Wrapping a column into a resource and taking it out again gives it back; the
/// resource carries the column label.
pub proof fn lemma_column_resource_round_trip(x: Column)
    ensures
        <Column as TryFromSpec<Resource>>::try_from_spec(<Resource as FromSpec<Column>>::from_spec(x))
            == Ok::<Column, Error>(x),
        <Resource as FromSpec<Column>>::from_spec(x).label_of() == ObjectLabel::Column,
{
}

/// Storing a column whose id is the canonical text of UUID `u`, and reading it back
/// from the stored object's properties, gives the same column; the object carries `u`.
pub proof fn lemma_column_object_round_trip(
    x: Column,
    u: u128,
    properties: String,
    stored: Result<Object, Error>,
    back: Column,
)
    requires
        x.has_canonical_id(u),
        x.stored_as(properties, stored),
        stored matches Ok(o) ==> back.restored(x, o.id),
    ensures
        stored matches Ok(o) && o.id == u && o.label == ObjectLabel::Column,
        back.same_values(x),
{
    lemma_hyphenated_parses(u);
}

/// Wrapping a credential into a resource and taking it out again gives it back; the
/// resource carries the credential label.
pub proof fn lemma_credential_resource_round_trip(x: Credential)
    ensures
        <Credential as TryFromSpec<Resource>>::try_from_spec(<Resource as FromSpec<Credential>>::from_spec(x))
            == Ok::<Credential, Error>(x),
        <Resource as FromSpec<Credential>>::from_spec(x).label_of() == ObjectLabel::Credential,
{
}

/// Storing a credential whose id is the canonical text of UUID `u`, and reading it back
/// from the stored object's properties, gives the same credential; the object carries `u`.
pub proof fn lemma_credential_object_round_trip(
    x: Credential,
    u: u128,
    properties: String,
    stored: Result<Object, Error>,
    back: Credential,
)
    requires
        x.has_canonical_id(u),
        x.stored_as(properties, stored),
        stored matches Ok(o) ==> back.restored(x, o.id),
    ensures
        stored matches Ok(o) && o.id == u && o.label == ObjectLabel::Credential,
        back.same_values(x),
{
    lemma_hyphenated_parses(u);
}

/// Wrapping an external location into a resource and taking it out again gives it back; the
/// resource carries the external location label.
pub proof fn lemma_external_location_resource_round_trip(x: ExternalLocation)
    ensures
        <ExternalLocation as TryFromSpec<Resource>>::try_from_spec(<Resource as FromSpec<ExternalLocation>>::from_spec(x))
            == Ok::<ExternalLocation, Error>(x),
        <Resource as FromSpec<ExternalLocation>>::from_spec(x).label_of() == ObjectLabel::ExternalLocation,
{
}

/// Storing an external location whose id is the canonical text of UUID `u`, and reading it back
/// from the stored object's properties, gives the same external location; the object carries `u`.
pub proof fn lemma_external_location_object_round_trip(
    x: ExternalLocation,
    u: u128,
    properties: String,
    stored: Result<Object, Error>,
    back: ExternalLocation,
)
    requires
        x.has_canonical_id(u),
        x.stored_as(properties, stored),
        stored matches Ok(o) ==> back.restored(x, o.id),
    ensures
        stored matches Ok(o) && o.id == u && o.label == ObjectLabel::ExternalLocation,
        back.same_values(x),
{
    lemma_hyphenated_parses(u);
}

/// Wrapping a function into a resource and taking it out again gives it back; the
/// resource carries the function label.
pub proof fn lemma_function_resource_round_trip(x: Function)
    ensures
        <Function as TryFromSpec<Resource>>::try_from_spec(<Resource as FromSpec<Function>>::from_spec(x))
            == Ok::<Function, Error>(x),
        <Resource as FromSpec<Function>>::from_spec(x).label_of() == ObjectLabel::Function,
{
}

/// Storing a function whose id is the canonical text of UUID `u`, and reading it back
/// from the stored object's properties, gives the same function; the object carries `u`.
pub proof fn lemma_function_object_round_trip(
    x: Function,
    u: u128,
    properties: String,
    stored: Result<Object, Error>,
    back: Function,
)
    requires
        x.has_canonical_id(u),
        x.stored_as(properties, stored),
        stored matches Ok(o) ==> back.restored(x, o.id),
    ensures
        stored matches Ok(o) && o.id == u && o.label == ObjectLabel::Function,
        back.same_values(x),
{
    lemma_hyphenated_parses(u);
}

/// Wrapping a provider into a resource and taking it out again gives it back; the
/// resource carries the provider label.
pub proof fn lemma_provider_resource_round_trip(x: Provider)
    ensures
        <Provider as TryFromSpec<Resource>>::try_from_spec(<Resource as FromSpec<Provider>>::from_spec(x))
            == Ok::<Provider, Error>(x),
        <Resource as FromSpec<Provider>>::from_spec(x).label_of() == ObjectLabel::Provider,
{
}

/// Storing a provider whose id is the canonical text of UUID `u`, and reading it back
/// from the stored object's properties, gives the same provider; the object carries `u`.
pub proof fn lemma_provider_object_round_trip(
    x: Provider,
    u: u128,
    properties: String,
    stored: Result<Object, Error>,
    back: Provider,
)
    requires
        x.has_canonical_id(u),
        x.stored_as(properties, stored),
        stored matches Ok(o) ==> back.restored(x, o.id),
    ensures
        stored matches Ok(o) && o.id == u && o.label == ObjectLabel::Provider,
        back.same_values(x),
{
    lemma_hyphenated_parses(u);
}

/// Wrapping a recipient into a resource and taking it out again gives it back; the
/// resource carries the recipient label.
pub proof fn lemma_recipient_resource_round_trip(x: Recipient)
    ensures
        <Recipient as TryFromSpec<Resource>>::try_from_spec(<Resource as FromSpec<Recipient>>::from_spec(x))
            == Ok::<Recipient, Error>(x),
        <Resource as FromSpec<Recipient>>::from_spec(x).label_of() == ObjectLabel::Recipient,
{
}

/// Storing a recipient whose id is the canonical text of UUID `u`, and reading it back
/// from the stored object's properties, gives the same recipient; the object carries `u`.
pub proof fn lemma_recipient_object_round_trip(
    x: Recipient,
    u: u128,
    properties: String,
    stored: Result<Object, Error>,
    back: Recipient,
)
    requires
        x.has_canonical_id(u),
        x.stored_as(properties, stored),
        stored matches Ok(o) ==> back.restored(x, o.id),
    ensures
        stored matches Ok(o) && o.id == u && o.label == ObjectLabel::Recipient,
        back.same_values(x),
{
    lemma_hyphenated_parses(u);
}

/// Wrapping a schema into a resource and taking it out again gives it back; the
/// resource carries the schema label.
pub proof fn lemma_schema_resource_round_trip(x: Schema)
    ensures
        <Schema as TryFromSpec<Resource>>::try_from_spec(<Resource as FromSpec<Schema>>::from_spec(x))
            == Ok::<Schema, Error>(x),
        <Resource as FromSpec<Schema>>::from_spec(x).label_of() == ObjectLabel::Schema,
{
}

/// Storing a schema whose id is the canonical text of UUID `u`, and reading it back
/// from the stored object's properties, gives the same schema; the object carries `u`.
pub proof fn lemma_schema_object_round_trip(
    x: Schema,
    u: u128,
    properties: String,
    stored: Result<Object, Error>,
    back: Schema,
)
    requires
        x.has_canonical_id(u),
        x.stored_as(properties, stored),
        stored matches Ok(o) ==> back.restored(x, o.id),
    ensures
        stored matches Ok(o) && o.id == u && o.label == ObjectLabel::Schema,
        back.same_values(x),
{
    lemma_hyphenated_parses(u);
}

/// Wrapping a share into a resource and taking it out again gives it back; the
/// resource carries the share label.
pub proof fn lemma_share_resource_round_trip(x: Share)
    ensures
        <Share as TryFromSpec<Resource>>::try_from_spec(<Resource as FromSpec<Share>>::from_spec(x))
            == Ok::<Share, Error>(x),
        <Resource as FromSpec<Share>>::from_spec(x).label_of() == ObjectLabel::Share,
{
}

/// Storing a share whose id is the canonical text of UUID `u`, and reading it back
/// from the stored object's properties, gives the same share; the object carries `u`.
pub proof fn lemma_share_object_round_trip(
    x: Share,
    u: u128,
    properties: String,
    stored: Result<Object, Error>,
    back: Share,
)
    requires
        x.has_canonical_id(u),
        x.stored_as(properties, stored),
        stored matches Ok(o) ==> back.restored(x, o.id),
    ensures
        stored matches Ok(o) && o.id == u && o.label == ObjectLabel::Share,
        back.same_values(x),
{
    lemma_hyphenated_parses(u);
}

/// Wrapping a staging table into a resource and taking it out again gives it back; the
/// resource carries the staging table label.
pub proof fn lemma_staging_table_resource_round_trip(x: StagingTable)
    ensures
        <StagingTable as TryFromSpec<Resource>>::try_from_spec(<Resource as FromSpec<StagingTable>>::from_spec(x))
            == Ok::<StagingTable, Error>(x),
        <Resource as FromSpec<StagingTable>>::from_spec(x).label_of() == ObjectLabel::StagingTable,
{
}

/// Storing a staging table whose id is the canonical text of UUID `u`, and reading it back
/// from the stored object's properties, gives the same staging table; the object carries `u`.
pub proof fn lemma_staging_table_object_round_trip(
    x: StagingTable,
    u: u128,
    properties: String,
    stored: Result<Object, Error>,
    back: StagingTable,
)
    requires
        x.has_canonical_id(u),
        x.stored_as(properties, stored),
        stored matches Ok(o) ==> back.restored(x, o.id),
    ensures
        stored matches Ok(o) && o.id == u && o.label == ObjectLabel::StagingTable,
        back.same_values(x),
{
    lemma_hyphenated_parses(u);
}

/// Wrapping a table into a resource and taking it out again gives it back; the
/// resource carries the table label.
pub proof fn lemma_table_resource_round_trip(x: Table)
    ensures
        <Table as TryFromSpec<Resource>>::try_from_spec(<Resource as FromSpec<Table>>::from_spec(x))
            == Ok::<Table, Error>(x),
        <Resource as FromSpec<Table>>::from_spec(x).label_of() == ObjectLabel::Table,
{
}

/// Storing a table whose id is the canonical text of UUID `u`, and reading it back
/// from the stored object's properties, gives the same table; the object carries `u`.
pub proof fn lemma_table_object_round_trip(
    x: Table,
    u: u128,
    properties: String,
    stored: Result<Object, Error>,
    back: Table,
)
    requires
        x.has_canonical_id(u),
        x.stored_as(properties, stored),
        stored matches Ok(o) ==> back.restored(x, o.id),
    ensures
        stored matches Ok(o) && o.id == u && o.label == ObjectLabel::Table,
        back.same_values(x),
{
    lemma_hyphenated_parses(u);
}

/// Wrapping a tag policy into a resource and taking it out again gives it back; the
/// resource carries the tag policy label.
pub proof fn lemma_tag_policy_resource_round_trip(x: TagPolicy)
    ensures
        <TagPolicy as TryFromSpec<Resource>>::try_from_spec(<Resource as FromSpec<TagPolicy>>::from_spec(x))
            == Ok::<TagPolicy, Error>(x),
        <Resource as FromSpec<TagPolicy>>::from_spec(x).label_of() == ObjectLabel::TagPolicy,
{
}

/// Storing a tag policy whose id is the canonical text of UUID `u`, and reading it back
/// from the stored object's properties, gives the same tag policy; the object carries `u`.
pub proof fn lemma_tag_policy_object_round_trip(
    x: TagPolicy,
    u: u128,
    properties: String,
    stored: Result<Object, Error>,
    back: TagPolicy,
)
    requires
        x.has_canonical_id(u),
        x.stored_as(properties, stored),
        stored matches Ok(o) ==> back.restored(x, o.id),
    ensures
        stored matches Ok(o) && o.id == u && o.label == ObjectLabel::TagPolicy,
        back.same_values(x),
{
    lemma_hyphenated_parses(u);
}

/// Wrapping a volume into a resource and taking it out again gives it back; the
/// resource carries the volume label.
pub proof fn lemma_volume_resource_round_trip(x: Volume)
    ensures
        <Volume as TryFromSpec<Resource>>::try_from_spec(<Resource as FromSpec<Volume>>::from_spec(x))
            == Ok::<Volume, Error>(x),
        <Resource as FromSpec<Volume>>::from_spec(x).label_of() == ObjectLabel::Volume,
{
}

/// Storing a volume whose id is the canonical text of UUID `u`, and reading it back
/// from the stored object's properties, gives the same volume; the object carries `u`.
pub proof fn lemma_volume_object_round_trip(
    x: Volume,
    u: u128,
    properties: String,
    stored: Result<Object, Error>,
    back: Volume,
)
    requires
        x.has_canonical_id(u),
        x.stored_as(properties, stored),
        stored matches Ok(o) ==> back.restored(x, o.id),
    ensures
        stored matches Ok(o) && o.id == u && o.label == ObjectLabel::Volume,
        back.same_values(x),
{
    lemma_hyphenated_parses(u);
}

/// Taking a record out of a resource of another kind fails with the kind that was asked for.
pub proof fn lemma_resource_mismatch(r: Resource)
    ensures
        r.label_of() != ObjectLabel::Agent ==> <Agent as TryFromSpec<Resource>>::try_from_spec(r)
            == Err::<Agent, Error>(Error::ResourceMismatch(ObjectLabel::Agent)),
        r.label_of() != ObjectLabel::AgentSkill ==> <AgentSkill as TryFromSpec<Resource>>::try_from_spec(r)
            == Err::<AgentSkill, Error>(Error::ResourceMismatch(ObjectLabel::AgentSkill)),
        r.label_of() != ObjectLabel::Catalog ==> <Catalog as TryFromSpec<Resource>>::try_from_spec(r)
            == Err::<Catalog, Error>(Error::ResourceMismatch(ObjectLabel::Catalog)),
        r.label_of() != ObjectLabel::Column ==> <Column as TryFromSpec<Resource>>::try_from_spec(r)
            == Err::<Column, Error>(Error::ResourceMismatch(ObjectLabel::Column)),
        r.label_of() != ObjectLabel::Credential ==> <Credential as TryFromSpec<Resource>>::try_from_spec(r)
            == Err::<Credential, Error>(Error::ResourceMismatch(ObjectLabel::Credential)),
        r.label_of() != ObjectLabel::ExternalLocation ==> <ExternalLocation as TryFromSpec<Resource>>::try_from_spec(r)
            == Err::<ExternalLocation, Error>(Error::ResourceMismatch(ObjectLabel::ExternalLocation)),
        r.label_of() != ObjectLabel::Function ==> <Function as TryFromSpec<Resource>>::try_from_spec(r)
            == Err::<Function, Error>(Error::ResourceMismatch(ObjectLabel::Function)),
        r.label_of() != ObjectLabel::Provider ==> <Provider as TryFromSpec<Resource>>::try_from_spec(r)
            == Err::<Provider, Error>(Error::ResourceMismatch(ObjectLabel::Provider)),
        r.label_of() != ObjectLabel::Recipient ==> <Recipient as TryFromSpec<Resource>>::try_from_spec(r)
            == Err::<Recipient, Error>(Error::ResourceMismatch(ObjectLabel::Recipient)),
        r.label_of() != ObjectLabel::Schema ==> <Schema as TryFromSpec<Resource>>::try_from_spec(r)
            == Err::<Schema, Error>(Error::ResourceMismatch(ObjectLabel::Schema)),
        r.label_of() != ObjectLabel::Share ==> <Share as TryFromSpec<Resource>>::try_from_spec(r)
            == Err::<Share, Error>(Error::ResourceMismatch(ObjectLabel::Share)),
        r.label_of() != ObjectLabel::StagingTable ==> <StagingTable as TryFromSpec<Resource>>::try_from_spec(r)
            == Err::<StagingTable, Error>(Error::ResourceMismatch(ObjectLabel::StagingTable)),
        r.label_of() != ObjectLabel::Table ==> <Table as TryFromSpec<Resource>>::try_from_spec(r)
            == Err::<Table, Error>(Error::ResourceMismatch(ObjectLabel::Table)),
        r.label_of() != ObjectLabel::TagPolicy ==> <TagPolicy as TryFromSpec<Resource>>::try_from_spec(r)
            == Err::<TagPolicy, Error>(Error::ResourceMismatch(ObjectLabel::TagPolicy)),
        r.label_of() != ObjectLabel::Volume ==> <Volume as TryFromSpec<Resource>>::try_from_spec(r)
            == Err::<Volume, Error>(Error::ResourceMismatch(ObjectLabel::Volume)),
{
}

/// Joining the last segment extended by one character extends the joined text by it.
proof fn lemma_join_extend_last(segs: Seq<Seq<char>>, c: char, sep: char)
    requires
        segs.len() >= 1,
    ensures
        join_with(segs.update(segs.len() - 1, segs.last().push(c)), sep) == join_with(segs, sep).push(c),
{
    let u = segs.update(segs.len() - 1, segs.last().push(c));
    if segs.len() == 1 {
        assert(u[0] == segs[0].push(c));
    } else {
        assert(u.drop_last() =~= segs.drop_last());
        assert(join_with(u, sep) == join_with(u.drop_last(), sep).push(sep) + u.last());
        assert(join_with(segs, sep) == join_with(segs.drop_last(), sep).push(sep) + segs.last());
        assert(join_with(u, sep) =~= join_with(segs, sep).push(c));
    }
}

/// Splitting a text at a separator and joining the pieces with it gives the text back.
pub proof fn lemma_split_then_join(s: Seq<char>, sep: char)
    ensures
        join_with(split_on(s, sep), sep) == s,
    decreases s.len(),
{
    if s.len() == 0 {
        assert(join_with(split_on(s, sep), sep) =~= s);
    } else {
        let t = s.drop_last();
        lemma_split_then_join(t, sep);
        lemma_split_nonempty(t, sep);
        let rest = split_on(t, sep);
        if s.last() == sep {
            let p = rest.push(Seq::<char>::empty());
            assert(p.drop_last() =~= rest);
            assert(join_with(p, sep) =~= t.push(sep));
            assert(t.push(sep) =~= s);
        } else {
            lemma_join_extend_last(rest, s.last(), sep);
            assert(t.push(s.last()) =~= s);
        }
    }
}

/// A path none of whose segments needs quoting is written as its segments joined by dots.
pub proof fn lemma_plain_path_display(path: Seq<Seq<char>>)
    requires
        forall|i: int| 0 <= i < path.len() ==> !needs_quotes(#[trigger] path[i]),
    ensures
        display_name(path) == join_with(path, '.'),
{
    assert(path.map_values(|s: Seq<char>| display_segment(s)) =~= path);
}

/// The dotted form of a name made from a text of plain segments, by `resource_name` or by
/// splitting at dots, is that text again, where no segment needs quoting.
pub proof fn lemma_plain_name_round_trip(s: Seq<char>)
    requires
        forall|i: int|
            0 <= i < split_on(s, '.').len() ==> !needs_quotes(#[trigger] split_on(s, '.')[i]),
    ensures
        display_name(split_on(s, '.')) == s,
{
    lemma_plain_path_display(split_on(s, '.'));
    lemma_split_then_join(s, '.');
}

/// Where no segment of a resource's name needs quoting, its qualified name (the segments
/// joined by dots) is the dotted form of its resource name.
pub proof fn lemma_qualified_name_is_dotted_name<T: ResourceExt>(x: T)
    requires
        forall|i: int|
            0 <= i < x.name_view().len() ==> !needs_quotes(#[trigger] x.name_view()[i]),
    ensures
        join_with(x.name_view(), '.') == display_name(x.name_view()),
{
    lemma_plain_path_display(x.name_view());
}

/// The name of every resource has one segment for each field that its type's descriptor
/// lists as making up the name.
pub proof fn lemma_resource_name_follows_path(r: Resource)
    ensures
        r.name_view().len() == path_table(r.label_view()).len(),
{
}

/// A resource whose id is a UUID, and the object it is stored as, identify the same
/// resource: the same label, the same name and the same reference.
pub proof fn lemma_stored_object_identifies_resource(
    r: Resource,
    properties: String,
    stored: Result<Object, Error>,
)
    requires
        r.ref_view() is Uuid,
        r.stored_as(properties, stored),
    ensures
        stored matches Ok(o) && o.label_view() == r.label_view() && o.name_view() == r.name_view()
            && o.ref_view() == r.ref_view(),
{
}

/// Storing a table that has no id and reading it back gives the same table, with the
/// hyphenated nil UUID as its id; the object carries the nil UUID.
pub proof fn lemma_table_without_id_reads_back_nil(
    x: Table,
    properties: String,
    stored: Result<Object, Error>,
    back: Table,
)
    requires
        x.table_id is None,
        x.stored_as(properties, stored),
        stored matches Ok(o) ==> back.restored(x, o.id),
    ensures
        stored matches Ok(o) && o.id == 0,
        back == (Table { table_id: Some(back.table_id->0), ..x }),
        back.table_id matches Some(s) && s@ == hyphenated(0),
{
}

} // verus!
