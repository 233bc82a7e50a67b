use unitycatalog_common::descriptors::FieldRole;
use unitycatalog_common::{ObjectLabel, Resource, ResourceExt, Table};

#[test]
fn path_names_per_type() {
    assert_eq!(ObjectLabel::Table.path_names(), vec!["catalog_name", "schema_name", "name"]);
    assert_eq!(ObjectLabel::Schema.path_names(), vec!["catalog_name", "name"]);
    assert_eq!(ObjectLabel::Catalog.path_names(), vec!["name"]);
    assert_eq!(ObjectLabel::TagPolicy.path_names(), vec!["tag_key"]);
}

#[test]
fn parents_follow_nesting() {
    assert_eq!(ObjectLabel::Table.parent_label(), Some(ObjectLabel::Catalog));
    assert_eq!(ObjectLabel::Schema.parent_label(), Some(ObjectLabel::Catalog));
    assert_eq!(ObjectLabel::Catalog.parent_label(), None);
    assert_eq!(ObjectLabel::Column.parent_label(), None);
    for l in ObjectLabel::all() {
        let nested = l.path_names().len() > 1;
        assert_eq!(l.parent_label().is_some(), nested);
        if nested {
            assert_eq!(l.parent_label(), Some(ObjectLabel::Catalog));
        }
    }
}

#[test]
fn every_type_has_one_identifier_and_data_path_fields() {
    for l in ObjectLabel::all() {
        let fields = l.fields();
        let ids: Vec<_> = fields.iter().filter(|f| f.role == FieldRole::Identifier).collect();
        assert_eq!(ids.len(), 1);
        for p in l.path_names() {
            assert!(fields.iter().any(|f| f.name == p && f.role == FieldRole::Data));
        }
    }
}

#[test]
fn identifier_fields() {
    let id_of = |l: ObjectLabel| {
        l.fields().into_iter().find(|f| f.role == FieldRole::Identifier).unwrap().name
    };
    assert_eq!(id_of(ObjectLabel::Table), "table_id");
    assert_eq!(id_of(ObjectLabel::Catalog), "id");
    assert_eq!(id_of(ObjectLabel::Agent), "agent_id");
    assert_eq!(id_of(ObjectLabel::Volume), "volume_id");
}

#[test]
fn managed_fields_are_marked() {
    let f = ObjectLabel::Catalog.fields();
    let created = f.iter().find(|d| d.name == "created_at").unwrap();
    assert_eq!(created.role, FieldRole::Managed);
    assert_eq!(f[0].name, "name");
    assert_eq!(f[0].role, FieldRole::Data);
}

#[test]
fn resource_name_has_one_segment_per_path_name() {
    let t = Table {
        name: "events".into(),
        catalog_name: "main".into(),
        schema_name: "default".into(),
        table_id: None,
        full_name: "main.default.events".into(),
        table_type: 1,
        ..Default::default()
    };
    let r = Resource::from(t);
    assert_eq!(r.resource_name().path().len(), r.resource_label().path_names().len());
}
