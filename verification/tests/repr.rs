use unitycatalog_common::repr::{
    CatalogInfo, ColumnInfo, CredentialInfo, ExternalLocationInfo, RecipientInfo, RecipientToken,
    SchemaInfo, TableInfo,
};
use unitycatalog_common::Share;

#[test]
fn catalog_info_repr() {
    let c = CatalogInfo {
        id: Some("c1".into()),
        name: "main".into(),
        owner: None,
        comment: Some("hi".into()),
        storage_root: None,
        provider_name: None,
        share_name: None,
        catalog_type: Some(1),
        created_at: Some(1704067200000),
        created_by: None,
        updated_at: None,
        updated_by: None,
    };
    assert_eq!(
        c.repr(),
        "CatalogInfo(id=c1, name=main, owner=None, comment=hi, storage_root=None, \
         provider_name=None, share_name=None, catalog_type=1, created_at=1704067200000, \
         created_by=None, updated_at=None, updated_by=None)"
    );
}

#[test]
fn schema_and_table_info_repr() {
    let s = SchemaInfo {
        name: "default".into(),
        catalog_name: "main".into(),
        comment: None,
        full_name: "main.default".into(),
        owner: Some("me".into()),
        created_at: None,
        created_by: None,
        updated_at: Some(-1),
        updated_by: None,
        schema_id: None,
    };
    assert_eq!(
        s.repr(),
        "SchemaInfo(name=default, catalog_name=main, comment=None, full_name=main.default, \
         owner=me, created_at=None, created_by=None, updated_at=-1, updated_by=None, \
         schema_id=None)"
    );
    let t = TableInfo {
        name: "events".into(),
        catalog_name: "main".into(),
        schema_name: "default".into(),
        table_type: 1,
        data_source_format: 0,
        comment: None,
        owner: None,
        storage_location: Some("s3://b/t".into()),
        created_at: None,
        created_by: None,
        updated_at: None,
        updated_by: None,
        table_id: Some("t1".into()),
    };
    assert_eq!(
        t.repr(),
        "TableInfo(name=events, catalog_name=main, schema_name=default, table_type=1, \
         data_source_format=0, comment=None, owner=None, storage_location=s3://b/t, \
         created_at=None, created_by=None, updated_at=None, updated_by=None, table_id=t1)"
    );
}

#[test]
fn column_info_repr() {
    let c = ColumnInfo {
        name: "id".into(),
        type_text: "bigint".into(),
        type_json: "{}".into(),
        column_type: 5,
        type_precision: None,
        type_scale: Some(0),
        type_interval_type: None,
        position: Some(3),
        comment: None,
        nullable: Some(false),
        partition_index: None,
    };
    assert_eq!(
        c.repr(),
        "ColumnInfo(name=id, type_text=bigint, type_json={}, type_name=5, type_precision=None, \
         type_scale=0, type_interval_type=None, position=3, comment=None, nullable=false, \
         partition_index=None)"
    );
}

fn token(id: &str) -> RecipientToken {
    RecipientToken {
        id: id.into(),
        created_at: 1,
        created_by: "a".into(),
        activation_url: "http://x".into(),
        expiration_time: 2,
        updated_at: 3,
        updated_by: "b".into(),
    }
}

#[test]
fn recipient_repr_lists_tokens() {
    assert_eq!(
        token("t1").repr(),
        "RecipientToken(id=t1, created_at=1, created_by=a, activation_url=http://x, \
         expiration_time=2, updated_at=3, updated_by=b)"
    );
    let mut r = RecipientInfo {
        id: None,
        name: "r".into(),
        authentication_type: 2,
        owner: "o".into(),
        comment: None,
        created_at: None,
        created_by: None,
        updated_at: None,
        updated_by: None,
        tokens: vec![],
    };
    assert_eq!(
        r.repr(),
        "RecipientInfo(id=None, name=r, authentication_type=2, owner=o, comment=None, \
         created_at=None, created_by=None, updated_at=None, updated_by=None, tokens=[])"
    );
    r.tokens = vec![token("t1"), token("t2")];
    let expected = format!(
        "RecipientInfo(id=None, name=r, authentication_type=2, owner=o, comment=None, \
         created_at=None, created_by=None, updated_at=None, updated_by=None, tokens=[{}, {}])",
        token("t1").repr(),
        token("t2").repr()
    );
    assert_eq!(r.repr(), expected);
}

#[test]
fn credential_repr_masks_secret() {
    let c = CredentialInfo {
        id: Some("id".into()),
        name: "cred".into(),
        purpose: 1,
        credential: None,
        read_only: true,
        owner: None,
        comment: None,
        created_at: None,
        created_by: None,
        updated_at: None,
        updated_by: None,
    };
    assert_eq!(
        c.repr(),
        "CredentialInfo(id=id, name=cred, purpose=1, credential='***', read_only=true, \
         owner=None, comment=None, created_at=None, created_by=None, updated_at=None, \
         updated_by=None)"
    );
}

#[test]
fn external_location_repr() {
    let e = ExternalLocationInfo {
        name: "loc".into(),
        url: "s3://b".into(),
        credential_name: "cred".into(),
        read_only: false,
        comment: None,
        owner: None,
        credential_id: "cid".into(),
        created_at: None,
        created_by: None,
        updated_at: None,
        updated_by: None,
        browse_only: Some(true),
        external_location_id: None,
    };
    assert_eq!(
        e.repr(),
        "ExternalLocationInfo(name=loc, url=s3://b, credential_name=cred, read_only=false, \
         comment=None, owner=None, credential_id=cid, created_at=None, created_by=None, \
         updated_at=None, updated_by=None, browse_only=true, external_location_id=None)"
    );
}

#[test]
fn share_repr() {
    let s = Share {
        name: "sh".into(),
        id: None,
        comment: None,
        owner: Some("me".into()),
        created_at: Some(5),
        created_by: None,
        updated_at: None,
        updated_by: None,
        ..Default::default()
    };
    assert_eq!(
        s.repr(),
        "Share(id=None, name=sh, comment=None, owner=me, created_at=5, created_by=None, \
         updated_at=None, updated_by=None)"
    );
}
