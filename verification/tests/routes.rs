use unitycatalog_common::routes::{
    unimplemented_reply, EntityTagAssignmentsMethod, FunctionsMethod, TagPoliciesMethod,
};

#[test]
fn function_paths_route_back() {
    let all = [
        FunctionsMethod::ListFunctions,
        FunctionsMethod::CreateFunction,
        FunctionsMethod::GetFunction,
        FunctionsMethod::UpdateFunction,
        FunctionsMethod::DeleteFunction,
    ];
    for m in all {
        assert_eq!(FunctionsMethod::route(m.path()), Some(m));
    }
    assert_eq!(
        FunctionsMethod::GetFunction.path(),
        "/unitycatalog.functions.v1.FunctionsService/GetFunction"
    );
    assert_eq!(FunctionsMethod::service_name(), "unitycatalog.functions.v1.FunctionsService");
}

#[test]
fn unknown_paths_are_unrouted() {
    assert_eq!(FunctionsMethod::route("/unitycatalog.functions.v1.FunctionsService/Nope"), None);
    assert_eq!(FunctionsMethod::route("/unitycatalog.tags.v1.TagPoliciesService/GetTagPolicy"), None);
    assert_eq!(TagPoliciesMethod::route(""), None);
    assert_eq!(
        EntityTagAssignmentsMethod::route("/unitycatalog.tags.v1.EntityTagAssignmentsService/getEntityTagAssignment"),
        None
    );
}

#[test]
fn tag_paths_route_back() {
    assert_eq!(
        TagPoliciesMethod::route("/unitycatalog.tags.v1.TagPoliciesService/UpdateTagPolicy"),
        Some(TagPoliciesMethod::UpdateTagPolicy)
    );
    assert_eq!(
        EntityTagAssignmentsMethod::route(
            "/unitycatalog.tags.v1.EntityTagAssignmentsService/DeleteEntityTagAssignment"
        ),
        Some(EntityTagAssignmentsMethod::DeleteEntityTagAssignment)
    );
    assert_eq!(
        EntityTagAssignmentsMethod::service_name(),
        "unitycatalog.tags.v1.EntityTagAssignmentsService"
    );
}

#[test]
fn unimplemented_reply_is_grpc_status_12() {
    let r = unimplemented_reply();
    assert_eq!(r.http_status, 200);
    assert_eq!(r.grpc_status, 12);
    assert_eq!(r.content_type, "application/grpc");
}
