use unitycatalog_common::api::{
    AzureAad, ListFunctionsResponse, TemporaryCredential, TemporaryCredentials,
    UpdateAgentRequest,
};
use unitycatalog_common::messages::{FunctionParameterInfo, FunctionParameterInfos};
use unitycatalog_common::Function;

#[test]
fn api_messages_hold_their_fields() {
    let f = Function {
        name: "f".into(),
        catalog_name: "main".into(),
        schema_name: "default".into(),
        input_params: Some(FunctionParameterInfos {
            parameters: vec![FunctionParameterInfo { name: "x".into(), position: Some(0), ..Default::default() }],
        }),
        is_deterministic: true,
        ..Default::default()
    };
    let r = ListFunctionsResponse { functions: vec![f.clone()], next_page_token: Some("p2".into()) };
    assert_eq!(r.functions[0], f);
    assert_eq!(r.functions[0].input_params.as_ref().unwrap().parameters[0].name, "x");
    assert_eq!(f.qualified_name(), "main.default.f");

    let u = UpdateAgentRequest { name: "a".into(), invocation_protocol: Some(2), ..Default::default() };
    assert_eq!(u.invocation_protocol, Some(2));

    let t = TemporaryCredential {
        expiration_time: 10,
        url: "s3://b".into(),
        credentials: Some(TemporaryCredentials::AzureAad(AzureAad { aad_token: "tok".into() })),
    };
    assert!(matches!(t.credentials, Some(TemporaryCredentials::AzureAad(_))));
}
