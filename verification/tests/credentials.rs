use unitycatalog_common::credentials::{
    AzureManagedIdentity, AzureServicePrincipal, AzureStorageKey, ManagedIdentityIdentifier,
    ServicePrincipalCredential,
};
use unitycatalog_common::sharing::{DataObject, DataObjectUpdate};

#[test]
fn storage_key_keeps_fields() {
    let k = AzureStorageKey::new("acct".into(), "key".into());
    assert_eq!(k.account_name, "acct");
    assert_eq!(k.account_key, "key");
}

#[test]
fn client_secret_is_preferred() {
    let p = AzureServicePrincipal::new(
        "app".into(),
        "dir".into(),
        Some("secret".into()),
        Some("/token".into()),
    );
    assert_eq!(p.application_id, "app");
    assert_eq!(p.directory_id, "dir");
    assert_eq!(p.credential, Some(ServicePrincipalCredential::ClientSecret("secret".into())));
    let p = AzureServicePrincipal::new("app".into(), "dir".into(), None, Some("/token".into()));
    assert_eq!(
        p.credential,
        Some(ServicePrincipalCredential::FederatedTokenFile("/token".into()))
    );
    let p = AzureServicePrincipal::new("app".into(), "dir".into(), None, None);
    assert_eq!(p.credential, None);
}

#[test]
fn managed_identity_takes_first_given() {
    let m = AzureManagedIdentity::new(Some("a".into()), Some("o".into()), Some("m".into()));
    assert_eq!(m.identifier, Some(ManagedIdentityIdentifier::ApplicationId("a".into())));
    let m = AzureManagedIdentity::new(None, Some("o".into()), Some("m".into()));
    assert_eq!(m.identifier, Some(ManagedIdentityIdentifier::ObjectId("o".into())));
    let m = AzureManagedIdentity::new(None, None, Some("m".into()));
    assert_eq!(m.identifier, Some(ManagedIdentityIdentifier::MsiResourceId("m".into())));
    assert_eq!(AzureManagedIdentity::new(None, None, None).identifier, None);
}

fn sample() -> DataObject {
    DataObject::new(
        "main.default.events".into(),
        2,
        Some(-17),
        Some("me".into()),
        None,
        Some("ev".into()),
        Some(vec!["p=1".into(), "q=2".into()]),
        Some(true),
        None,
        Some(40),
    )
}

#[test]
fn data_object_defaults_partitions() {
    let d = DataObject::new("t".into(), 0, None, None, None, None, None, None, None, None);
    assert!(d.partitions.is_empty());
    assert_eq!(sample().partitions, vec!["p=1".to_string(), "q=2".to_string()]);
}

#[test]
fn data_object_repr() {
    assert_eq!(
        sample().repr(),
        "DataObject(name=main.default.events, data_object_type=2, added_at=-17, added_by=me, \
         comment=None, shared_as=ev, partitions=[p=1, q=2], enable_cdf=true, \
         history_data_sharing_status=None, start_version=40)"
    );
    let d = DataObject::new("t".into(), -3, None, None, None, None, None, Some(false), Some(1), None);
    assert_eq!(
        d.repr(),
        "DataObject(name=t, data_object_type=-3, added_at=None, added_by=None, comment=None, \
         shared_as=None, partitions=[], enable_cdf=false, history_data_sharing_status=1, \
         start_version=None)"
    );
}

#[test]
fn data_object_update_repr() {
    let d = DataObject::new("t".into(), 0, None, None, None, None, Some(vec!["x".into()]), None, None, None);
    let u = DataObjectUpdate::new(1, d.clone());
    assert_eq!(u.action, 1);
    assert_eq!(u.data_object, Some(d));
    assert_eq!(
        u.repr(),
        "DataObjectUpdate(action=1, data_object=DataObject(name=t, data_object_type=0, \
         added_at=None, added_by=None, comment=None, shared_as=None, partitions=[x], \
         enable_cdf=None, history_data_sharing_status=None, start_version=None))"
    );
    let empty = DataObjectUpdate { action: 2, data_object: None };
    assert_eq!(empty.repr(), "DataObjectUpdate(action=2, data_object=None)");
}

#[test]
fn repr_writes_extreme_numbers() {
    let d = DataObject::new("t".into(), i32::MIN, Some(i64::MIN), None, None, None, None, None, Some(i32::MAX), Some(i64::MAX));
    assert_eq!(
        d.repr(),
        "DataObject(name=t, data_object_type=-2147483648, added_at=-9223372036854775808, \
         added_by=None, comment=None, shared_as=None, partitions=[], enable_cdf=None, \
         history_data_sharing_status=2147483647, start_version=9223372036854775807)"
    );
}
