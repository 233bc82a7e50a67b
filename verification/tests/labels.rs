use unitycatalog_common::{ObjectLabel, ResourceIdent, ResourceRef, ResourceName};

#[test]
fn label_names_are_snake_case() {
    assert_eq!(ObjectLabel::ExternalLocation.as_str(), "external_location");
    assert_eq!(ObjectLabel::AgentSkill.as_str(), "agent_skill");
    assert_eq!(ObjectLabel::TagPolicy.as_str(), "tag_policy");
    assert_eq!(ObjectLabel::Table.as_str(), "table");
}

#[test]
fn label_parse_ignores_ascii_case() {
    assert_eq!(ObjectLabel::from_label_str("Agent_Skill"), Some(ObjectLabel::AgentSkill));
    assert_eq!(ObjectLabel::from_label_str("CATALOG"), Some(ObjectLabel::Catalog));
    assert_eq!(ObjectLabel::from_label_str("staging_table"), Some(ObjectLabel::StagingTable));
}

#[test]
fn unknown_label_is_refused() {
    assert_eq!(ObjectLabel::from_label_str("tables"), None);
    assert_eq!(ObjectLabel::from_label_str(""), None);
    assert_eq!(ObjectLabel::from_label_str("external-location"), None);
}

#[test]
fn every_label_round_trips_through_its_name() {
    let all = ObjectLabel::all();
    assert_eq!(all.len(), 15);
    for l in &all {
        assert_eq!(ObjectLabel::from_label_str(l.as_str()), Some(*l));
        assert_eq!(ObjectLabel::from_label_str(&l.as_str().to_uppercase()), Some(*l));
    }
    for (i, a) in all.iter().enumerate() {
        for b in all.iter().skip(i + 1) {
            assert_ne!(a.as_str(), b.as_str());
        }
    }
}

#[test]
fn idents_carry_label_and_ref() {
    let r = ResourceRef::Uuid(42);
    let id = ResourceIdent::schema(r.clone());
    assert_eq!(id.label(), ObjectLabel::Schema);
    assert_eq!(id.reference(), &r);
    assert_eq!(ObjectLabel::from(id.clone()), ObjectLabel::Schema);
    assert_eq!(ResourceRef::from(id), r);
}

#[test]
fn label_to_ident_matches_constructors() {
    for l in ObjectLabel::all() {
        let id = l.to_ident(ResourceRef::Undefined);
        assert_eq!(id.label(), l);
        assert_eq!(id.reference(), &ResourceRef::Undefined);
    }
    assert_eq!(
        ObjectLabel::Volume.to_ident(ResourceRef::Uuid(1)),
        ResourceIdent::volume(ResourceRef::Uuid(1))
    );
}

#[test]
fn ident_display() {
    assert_eq!(ResourceIdent::share(ResourceRef::Undefined).to_string(), "share:*");
    let name = ResourceName::new(vec!["main".to_string(), "default".to_string()]);
    assert_eq!(ResourceIdent::schema(ResourceRef::Name(name)).to_string(), "schema:main.default");
    assert_eq!(
        ResourceIdent::external_location(ResourceRef::Uuid(0x123e4567_e89b_12d3_a456_426614174000))
            .to_string(),
        "external_location:123e4567-e89b-12d3-a456-426614174000"
    );
    assert_eq!(ResourceIdent::agent_skill(ResourceRef::Undefined).to_string(), "agent_skill:*");
}
