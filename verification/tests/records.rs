use std::collections::BTreeMap;

use unitycatalog_common::{
    Agent, Catalog, Column, Error, ObjectLabel, Resource, ResourceExt, ResourceIdent,
    ResourceName, ResourceRef, Schema, StagingTable, Table, TableSummary, TagPolicy, Volume,
};

const UUID_TEXT: &str = "123e4567-e89b-12d3-a456-426614174000";
const UUID: u128 = 0x123e4567_e89b_12d3_a456_426614174000;

fn name_of(parts: &[&str]) -> ResourceName {
    ResourceName::new(parts.iter().map(|p| p.to_string()).collect())
}

fn table(id: Option<&str>) -> Table {
    Table {
        name: "events".to_string(),
        catalog_name: "main".to_string(),
        schema_name: "default".to_string(),
        table_id: id.map(|s| s.to_string()),
        full_name: "main.default.events".to_string(),
        table_type: 1,
        ..Default::default()
    }
}

#[test]
fn qualified_names_join_name_parts() {
    assert_eq!(table(None).qualified_name(), "main.default.events");
    let s = Schema { name: "default".into(), catalog_name: "main".into(), schema_id: None, ..Default::default() };
    assert_eq!(s.qualified_name(), "main.default");
    let c = Catalog { name: "main".into(), id: None, ..Default::default() };
    assert_eq!(c.qualified_name(), "main");
    let t = TagPolicy { tag_key: "pii".into(), id: None, ..Default::default() };
    assert_eq!(t.qualified_name(), "pii");
    let v = Volume {
        name: "files".into(),
        catalog_name: "main".into(),
        schema_name: "raw".into(),
        volume_id: String::new(),
        ..Default::default()
    };
    assert_eq!(v.qualified_name(), "main.raw.files");
}

#[test]
fn qualified_name_does_not_quote_segments() {
    let c = Catalog { name: "a.b".into(), id: None, ..Default::default() };
    assert_eq!(c.qualified_name(), "a.b");
    assert_eq!(c.resource_name().to_string(), "`a.b`");
}

#[test]
fn resource_name_and_ref() {
    let t = table(None);
    assert_eq!(t.resource_name(), name_of(&["main", "default", "events"]));
    assert_eq!(t.resource_ref(), ResourceRef::Name(name_of(&["main", "default", "events"])));
    let t = table(Some(UUID_TEXT));
    assert_eq!(t.resource_ref(), ResourceRef::Uuid(UUID));
    assert_eq!(t.resource_ident(), ResourceIdent::table(ResourceRef::Uuid(UUID)));
    let t = table(Some("not-a-uuid"));
    assert_eq!(t.resource_ref(), ResourceRef::Name(name_of(&["main", "default", "events"])));
}

#[test]
fn uppercase_and_simple_uuids_are_accepted() {
    let c = Catalog { name: "c".into(), id: Some("123E4567-E89B-12D3-A456-426614174000".into()), ..Default::default() };
    assert_eq!(c.resource_ref(), ResourceRef::Uuid(UUID));
    let c = Catalog { name: "c".into(), id: Some("123e4567e89b12d3a456426614174000".into()), ..Default::default() };
    assert_eq!(c.resource_ref(), ResourceRef::Uuid(UUID));
}

#[test]
fn resource_wraps_and_unwraps() {
    let c = Catalog { name: "main".into(), id: None, ..Default::default() };
    let r = Resource::from(c.clone());
    assert_eq!(r.resource_label(), ObjectLabel::Catalog);
    assert_eq!(Catalog::try_from(r.clone()), Ok(c));
    assert_eq!(Schema::try_from(r), Err(Error::ResourceMismatch(ObjectLabel::Schema)));
}

#[test]
fn mismatch_message_names_the_type_asked_for() {
    let r = Resource::from(table(None));
    let e = Column::try_from(r).unwrap_err();
    assert_eq!(e.message(), "Resource is not a Column");
    let r = Resource::from(Catalog { name: "x".into(), id: None, ..Default::default() });
    let e = StagingTable::try_from(r).unwrap_err();
    assert_eq!(e.message(), "Resource is not a StagingTable");
}

#[test]
fn into_object_fills_the_object() {
    let t = table(Some(UUID_TEXT));
    let o = t.into_object("{}".to_string()).unwrap();
    assert_eq!(o.id, UUID);
    assert_eq!(o.label, ObjectLabel::Table);
    assert_eq!(o.name, name_of(&["main", "default", "events"]));
    assert_eq!(o.properties, Some("{}".to_string()));
    assert_eq!(o.version, 0);
    assert_eq!(o.updated_at, None);
    assert_eq!(o.resource_ident(), ResourceIdent::table(ResourceRef::Uuid(UUID)));
}

#[test]
fn into_object_without_id_uses_nil() {
    let o = Catalog { name: "main".into(), id: None, ..Default::default() }.into_object("{}".into()).unwrap();
    assert_eq!(o.id, 0);
}

#[test]
fn into_object_refuses_bad_optional_id() {
    let e = table(Some("bogus")).into_object("{}".into()).unwrap_err();
    assert_eq!(e, Error::InvalidUuid("bogus".to_string()));
    assert_eq!(e.message(), "invalid uuid: bogus");
}

#[test]
fn into_object_required_id_falls_back_to_nil() {
    let a = Agent {
        name: "bot".into(),
        catalog_name: "main".into(),
        schema_name: "ai".into(),
        agent_id: "bogus".into(),
        ..Default::default()
    };
    let o = a.into_object("{}".into()).unwrap();
    assert_eq!(o.id, 0);
    assert_eq!(o.label, ObjectLabel::Agent);
}

#[test]
fn object_round_trip_keeps_record() {
    let t = table(Some(UUID_TEXT));
    let o = t.clone().into_object("{}".into()).unwrap();
    let back = Table::try_from_object(o, Ok(t.clone())).unwrap();
    assert_eq!(back, t);
}

#[test]
fn read_back_record_carries_object_id() {
    let t = table(None);
    let o = t.clone().into_object("{}".into()).unwrap();
    let back = Table::try_from_object(o, Ok(t)).unwrap();
    assert_eq!(back.table_id, Some("00000000-0000-0000-0000-000000000000".to_string()));
}

#[test]
fn missing_properties_is_an_error() {
    let mut o = table(Some(UUID_TEXT)).into_object("{}".into()).unwrap();
    o.properties = None;
    let e = Table::try_from_object(o.clone(), Ok(table(None))).unwrap_err();
    assert_eq!(e, Error::MissingProperties);
    assert_eq!(e.message(), "expected properties");
    assert_eq!(
        Resource::try_from_object(o, Ok(Resource::from(table(None)))),
        Err(Error::MissingProperties)
    );
}

#[test]
fn decode_failure_is_passed_on() {
    let o = table(None).into_object("{".into()).unwrap();
    let e = Table::try_from_object(o, Err(Error::Serialization("EOF".into()))).unwrap_err();
    assert_eq!(e, Error::Serialization("EOF".into()));
    assert_eq!(e.message(), "EOF");
}

#[test]
fn resource_round_trip_through_object() {
    let t = table(Some(UUID_TEXT));
    let r = Resource::from(t.clone());
    let o = r.clone().into_object("{}".into()).unwrap();
    assert_eq!(o.label, ObjectLabel::Table);
    assert_eq!(Resource::try_from_object(o, Ok(r.clone())), Ok(r));
}

#[test]
fn resource_of_other_kind_is_refused() {
    let o = table(Some(UUID_TEXT)).into_object("{}".into()).unwrap();
    let other = Resource::from(Catalog { name: "main".into(), id: None, ..Default::default() });
    assert_eq!(
        Resource::try_from_object(o, Ok(other)),
        Err(Error::ResourceMismatch(ObjectLabel::Table))
    );
}

#[test]
fn table_summary_takes_name_and_type() {
    let s = TableSummary::from(table(None));
    assert_eq!(s, TableSummary { table_type: 1, full_name: "main.default.events".to_string() });
}

#[test]
fn qualified_name_matches_display_for_simple_parts() {
    let t = table(None);
    assert_eq!(t.qualified_name(), t.resource_name().to_string());
    let s = Schema { name: "default".into(), catalog_name: "main".into(), schema_id: None, ..Default::default() };
    assert_eq!(s.qualified_name(), s.resource_name().to_string());
}

#[test]
fn every_record_kind_round_trips_through_resource() {
    let a = Agent {
        name: "bot".into(),
        catalog_name: "main".into(),
        schema_name: "ai".into(),
        agent_id: UUID_TEXT.into(),
        ..Default::default()
    };
    assert_eq!(Agent::try_from(Resource::from(a.clone())), Ok(a));
    let v = Volume {
        name: "files".into(),
        catalog_name: "main".into(),
        schema_name: "raw".into(),
        volume_id: UUID_TEXT.into(),
        ..Default::default()
    };
    assert_eq!(Volume::try_from(Resource::from(v.clone())), Ok(v.clone()));
    assert_eq!(Resource::from(v).resource_label(), ObjectLabel::Volume);
}

#[test]
fn braced_and_urn_uuids_are_accepted() {
    let c = Catalog { name: "c".into(), id: Some("{123e4567-e89b-12d3-a456-426614174000}".into()), ..Default::default() };
    assert_eq!(c.resource_ref(), ResourceRef::Uuid(UUID));
    let c = Catalog { name: "c".into(), id: Some("URN:uuid:123e4567-e89b-12d3-a456-426614174000".into()), ..Default::default() };
    assert_eq!(c.resource_ref(), ResourceRef::Uuid(UUID));
    let c = Catalog { name: "c".into(), id: Some("123e4567-e89b-12d3-a456_426614174000".into()), ..Default::default() };
    assert_eq!(c.resource_ref(), ResourceRef::Name(name_of(&["c"])));
    let c = Catalog { name: "c".into(), id: Some("123e4567e89b12d3a45642661417400g".into()), ..Default::default() };
    assert_eq!(c.resource_ref(), ResourceRef::Name(name_of(&["c"])));
}

#[test]
fn uppercase_id_is_read_back_lowercase() {
    let t = table(Some("123E4567-E89B-12D3-A456-426614174000"));
    let o = t.clone().into_object("{}".into()).unwrap();
    assert_eq!(o.id, UUID);
    let back = Table::try_from_object(o, Ok(t)).unwrap();
    assert_eq!(back.table_id, Some(UUID_TEXT.to_string()));
}

#[test]
fn stored_object_identifies_the_same_resource() {
    let r = Resource::from(table(Some(UUID_TEXT)));
    let o = r.clone().into_object("{}".into()).unwrap();
    assert_eq!(o.resource_ident(), r.resource_ident());
    assert_eq!(o.resource_name(), r.resource_name());
    assert_eq!(o.resource_ref(), r.resource_ref());
}

#[test]
fn stored_table_keeps_every_field() {
    let mut props = BTreeMap::new();
    props.insert("delta.appendOnly".to_string(), "true".to_string());
    let t = Table {
        name: "events".into(),
        catalog_name: "main".into(),
        schema_name: "default".into(),
        table_type: 1,
        data_source_format: 2,
        columns: vec![Column {
            name: "id".into(),
            type_text: "bigint".into(),
            column_type: 5,
            nullable: Some(false),
            ..Default::default()
        }],
        storage_location: Some("s3://bucket/events".into()),
        view_dependencies: Some("{\"dependencies\":[]}".into()),
        owner: Some("me".into()),
        comment: Some("all events".into()),
        properties: props,
        full_name: "main.default.events".into(),
        created_at: Some(1704067200000),
        table_id: Some(UUID_TEXT.into()),
        ..Default::default()
    };
    let o = t.clone().into_object("{}".into()).unwrap();
    let back = Table::try_from_object(o, Ok(t.clone())).unwrap();
    assert_eq!(back, t);
    assert_eq!(back.columns[0].name, "id");
    assert_eq!(back.properties.get("delta.appendOnly").map(String::as_str), Some("true"));
}

#[test]
fn stored_object_keeps_creation_time_below_the_second() {
    let o = table(None).into_object("{}".into()).unwrap();
    assert!(o.created_at.secs > 1_600_000_000);
    assert!(o.created_at.nanos < 2_000_000_000);
}
