//! Request routing for the gRPC services: which method a request path names, and the
//! answer to a path that names none.

use vstd::prelude::*;

verus! {

/// Character-wise equality of two texts.
fn same_text(a: &str, b: &str) -> (r: bool)
    ensures
        r == (a@ == b@),
{
    let n = a.unicode_len();
    if n != b.unicode_len() {
        return false;
    }
    for i in 0..n
        invariant
            n == a@.len(),
            n == b@.len(),
            forall|j: int| 0 <= j < i ==> a@[j] == b@[j],
    {
        if a.get_char(i) != b.get_char(i) {
            return false;
        }
    }
    assert(a@ =~= b@);
    true
}

/// The reply to a request whose path names no method of a service: HTTP status 200 with
/// gRPC status 12 (unimplemented), an empty body and the gRPC content type.
#[derive(Debug, Clone, Copy, PartialEq, Eq)]
pub struct UnimplementedReply {
    pub http_status: u16,
    pub grpc_status: i32,
    pub content_type: &'static str,
}

/// The reply to a request for a method that a service does not have.
pub fn unimplemented_reply() -> (r: UnimplementedReply)
    ensures
        r.http_status == 200,
        r.grpc_status == 12,
        r.content_type@ == "application/grpc"@,
{
    UnimplementedReply { http_status: 200, grpc_status: 12, content_type: "application/grpc" }
}

/// A method of the functions service.
#[derive(Debug, Clone, Copy, PartialEq, Eq, Structural, Hash)]
pub enum FunctionsMethod {
    ListFunctions,
    CreateFunction,
    GetFunction,
    UpdateFunction,
    DeleteFunction,
}

/// The full name of the functions service.
pub open spec fn functions_service_name() -> Seq<char> {
    "unitycatalog.functions.v1.FunctionsService"@
}

/// The request path of a method of the functions service: `/`, the service, `/`, the method.
pub open spec fn functions_path(m: FunctionsMethod) -> Seq<char> {
    match m {
        FunctionsMethod::ListFunctions => "/unitycatalog.functions.v1.FunctionsService/ListFunctions"@,
        FunctionsMethod::CreateFunction => "/unitycatalog.functions.v1.FunctionsService/CreateFunction"@,
        FunctionsMethod::GetFunction => "/unitycatalog.functions.v1.FunctionsService/GetFunction"@,
        FunctionsMethod::UpdateFunction => "/unitycatalog.functions.v1.FunctionsService/UpdateFunction"@,
        FunctionsMethod::DeleteFunction => "/unitycatalog.functions.v1.FunctionsService/DeleteFunction"@,
    }
}

/// The method of the functions service that a request path names, if any.
pub open spec fn functions_route(p: Seq<char>) -> Option<FunctionsMethod> {
    if p == functions_path(FunctionsMethod::ListFunctions) {
        Some(FunctionsMethod::ListFunctions)
    } else if p == functions_path(FunctionsMethod::CreateFunction) {
        Some(FunctionsMethod::CreateFunction)
    } else if p == functions_path(FunctionsMethod::GetFunction) {
        Some(FunctionsMethod::GetFunction)
    } else if p == functions_path(FunctionsMethod::UpdateFunction) {
        Some(FunctionsMethod::UpdateFunction)
    } else if p == functions_path(FunctionsMethod::DeleteFunction) {
        Some(FunctionsMethod::DeleteFunction)
    } else {
        None
    }
}

impl FunctionsMethod {
    /// The full name of the service.
    pub fn service_name() -> (r: &'static str)
        ensures
            r@ == functions_service_name(),
    {
        "unitycatalog.functions.v1.FunctionsService"
    }

    /// The request path of this method.
    pub fn path(&self) -> (r: &'static str)
        ensures
            r@ == functions_path(*self),
    {
        match self {
            FunctionsMethod::ListFunctions => "/unitycatalog.functions.v1.FunctionsService/ListFunctions",
            FunctionsMethod::CreateFunction => "/unitycatalog.functions.v1.FunctionsService/CreateFunction",
            FunctionsMethod::GetFunction => "/unitycatalog.functions.v1.FunctionsService/GetFunction",
            FunctionsMethod::UpdateFunction => "/unitycatalog.functions.v1.FunctionsService/UpdateFunction",
            FunctionsMethod::DeleteFunction => "/unitycatalog.functions.v1.FunctionsService/DeleteFunction",
        }
    }

    /// The method that a request path names, or `None` where it names none.
    pub fn route(path: &str) -> (r: Option<FunctionsMethod>)
        ensures
            r == functions_route(path@),
    {
        if same_text(path, FunctionsMethod::ListFunctions.path()) {
            return Some(FunctionsMethod::ListFunctions);
        }
        if same_text(path, FunctionsMethod::CreateFunction.path()) {
            return Some(FunctionsMethod::CreateFunction);
        }
        if same_text(path, FunctionsMethod::GetFunction.path()) {
            return Some(FunctionsMethod::GetFunction);
        }
        if same_text(path, FunctionsMethod::UpdateFunction.path()) {
            return Some(FunctionsMethod::UpdateFunction);
        }
        if same_text(path, FunctionsMethod::DeleteFunction.path()) {
            return Some(FunctionsMethod::DeleteFunction);
        }
        None
    }
}

/// The name of a method of the functions service.
pub open spec fn functions_method_name(m: FunctionsMethod) -> Seq<char> {
    match m {
        FunctionsMethod::ListFunctions => "ListFunctions"@,
        FunctionsMethod::CreateFunction => "CreateFunction"@,
        FunctionsMethod::GetFunction => "GetFunction"@,
        FunctionsMethod::UpdateFunction => "UpdateFunction"@,
        FunctionsMethod::DeleteFunction => "DeleteFunction"@,
    }
}

/// The path of a method of the functions service is `/`, the service's full name, `/`, and
/// the method's own name.
pub proof fn lemma_functions_path_shape(m: FunctionsMethod)
    ensures
        functions_path(m) == seq!['/'] + functions_service_name() + seq!['/'] + functions_method_name(m),
{
    reveal_strlit("unitycatalog.functions.v1.FunctionsService");
    reveal_strlit("ListFunctions");
    reveal_strlit("/unitycatalog.functions.v1.FunctionsService/ListFunctions");
    reveal_strlit("CreateFunction");
    reveal_strlit("/unitycatalog.functions.v1.FunctionsService/CreateFunction");
    reveal_strlit("GetFunction");
    reveal_strlit("/unitycatalog.functions.v1.FunctionsService/GetFunction");
    reveal_strlit("UpdateFunction");
    reveal_strlit("/unitycatalog.functions.v1.FunctionsService/UpdateFunction");
    reveal_strlit("DeleteFunction");
    reveal_strlit("/unitycatalog.functions.v1.FunctionsService/DeleteFunction");
    assert(functions_path(m) =~= seq!['/'] + functions_service_name() + seq!['/'] + functions_method_name(m));
}

/// Each method of the functions service is reached by its own path, and by no other.
pub proof fn lemma_functions_routes(m: FunctionsMethod, p: Seq<char>)
    ensures
        functions_route(functions_path(m)) == Some(m),
        functions_route(p) == Some(m) ==> p == functions_path(m),
{
    reveal_strlit("/unitycatalog.functions.v1.FunctionsService/ListFunctions");
    reveal_strlit("/unitycatalog.functions.v1.FunctionsService/CreateFunction");
    reveal_strlit("/unitycatalog.functions.v1.FunctionsService/GetFunction");
    reveal_strlit("/unitycatalog.functions.v1.FunctionsService/UpdateFunction");
    reveal_strlit("/unitycatalog.functions.v1.FunctionsService/DeleteFunction");
    match m {
        FunctionsMethod::ListFunctions => {
        },
        FunctionsMethod::CreateFunction => {
            assert(functions_path(FunctionsMethod::CreateFunction).len() != functions_path(FunctionsMethod::ListFunctions).len());
        },
        FunctionsMethod::GetFunction => {
            assert(functions_path(FunctionsMethod::GetFunction).len() != functions_path(FunctionsMethod::ListFunctions).len());
            assert(functions_path(FunctionsMethod::GetFunction).len() != functions_path(FunctionsMethod::CreateFunction).len());
        },
        FunctionsMethod::UpdateFunction => {
            assert(functions_path(FunctionsMethod::UpdateFunction).len() != functions_path(FunctionsMethod::ListFunctions).len());
            assert(functions_path(FunctionsMethod::UpdateFunction)[44] != functions_path(FunctionsMethod::CreateFunction)[44]);
            assert(functions_path(FunctionsMethod::UpdateFunction).len() != functions_path(FunctionsMethod::GetFunction).len());
        },
        FunctionsMethod::DeleteFunction => {
            assert(functions_path(FunctionsMethod::DeleteFunction).len() != functions_path(FunctionsMethod::ListFunctions).len());
            assert(functions_path(FunctionsMethod::DeleteFunction)[44] != functions_path(FunctionsMethod::CreateFunction)[44]);
            assert(functions_path(FunctionsMethod::DeleteFunction).len() != functions_path(FunctionsMethod::GetFunction).len());
            assert(functions_path(FunctionsMethod::DeleteFunction)[44] != functions_path(FunctionsMethod::UpdateFunction)[44]);
        },
    }
}

/// A method of the tag policies service.
#[derive(Debug, Clone, Copy, PartialEq, Eq, Structural, Hash)]
pub enum TagPoliciesMethod {
    ListTagPolicies,
    CreateTagPolicy,
    GetTagPolicy,
    UpdateTagPolicy,
    DeleteTagPolicy,
}

/// The full name of the tag policies service.
pub open spec fn tag_policies_service_name() -> Seq<char> {
    "unitycatalog.tags.v1.TagPoliciesService"@
}

/// The request path of a method of the tag policies service: `/`, the service, `/`, the method.
pub open spec fn tag_policies_path(m: TagPoliciesMethod) -> Seq<char> {
    match m {
        TagPoliciesMethod::ListTagPolicies => "/unitycatalog.tags.v1.TagPoliciesService/ListTagPolicies"@,
        TagPoliciesMethod::CreateTagPolicy => "/unitycatalog.tags.v1.TagPoliciesService/CreateTagPolicy"@,
        TagPoliciesMethod::GetTagPolicy => "/unitycatalog.tags.v1.TagPoliciesService/GetTagPolicy"@,
        TagPoliciesMethod::UpdateTagPolicy => "/unitycatalog.tags.v1.TagPoliciesService/UpdateTagPolicy"@,
        TagPoliciesMethod::DeleteTagPolicy => "/unitycatalog.tags.v1.TagPoliciesService/DeleteTagPolicy"@,
    }
}

/// The method of the tag policies service that a request path names, if any.
pub open spec fn tag_policies_route(p: Seq<char>) -> Option<TagPoliciesMethod> {
    if p == tag_policies_path(TagPoliciesMethod::ListTagPolicies) {
        Some(TagPoliciesMethod::ListTagPolicies)
    } else if p == tag_policies_path(TagPoliciesMethod::CreateTagPolicy) {
        Some(TagPoliciesMethod::CreateTagPolicy)
    } else if p == tag_policies_path(TagPoliciesMethod::GetTagPolicy) {
        Some(TagPoliciesMethod::GetTagPolicy)
    } else if p == tag_policies_path(TagPoliciesMethod::UpdateTagPolicy) {
        Some(TagPoliciesMethod::UpdateTagPolicy)
    } else if p == tag_policies_path(TagPoliciesMethod::DeleteTagPolicy) {
        Some(TagPoliciesMethod::DeleteTagPolicy)
    } else {
        None
    }
}

impl TagPoliciesMethod {
    /// The full name of the service.
    pub fn service_name() -> (r: &'static str)
        ensures
            r@ == tag_policies_service_name(),
    {
        "unitycatalog.tags.v1.TagPoliciesService"
    }

    /// The request path of this method.
    pub fn path(&self) -> (r: &'static str)
        ensures
            r@ == tag_policies_path(*self),
    {
        match self {
            TagPoliciesMethod::ListTagPolicies => "/unitycatalog.tags.v1.TagPoliciesService/ListTagPolicies",
            TagPoliciesMethod::CreateTagPolicy => "/unitycatalog.tags.v1.TagPoliciesService/CreateTagPolicy",
            TagPoliciesMethod::GetTagPolicy => "/unitycatalog.tags.v1.TagPoliciesService/GetTagPolicy",
            TagPoliciesMethod::UpdateTagPolicy => "/unitycatalog.tags.v1.TagPoliciesService/UpdateTagPolicy",
            TagPoliciesMethod::DeleteTagPolicy => "/unitycatalog.tags.v1.TagPoliciesService/DeleteTagPolicy",
        }
    }

    /// The method that a request path names, or `None` where it names none.
    pub fn route(path: &str) -> (r: Option<TagPoliciesMethod>)
        ensures
            r == tag_policies_route(path@),
    {
        if same_text(path, TagPoliciesMethod::ListTagPolicies.path()) {
            return Some(TagPoliciesMethod::ListTagPolicies);
        }
        if same_text(path, TagPoliciesMethod::CreateTagPolicy.path()) {
            return Some(TagPoliciesMethod::CreateTagPolicy);
        }
        if same_text(path, TagPoliciesMethod::GetTagPolicy.path()) {
            return Some(TagPoliciesMethod::GetTagPolicy);
        }
        if same_text(path, TagPoliciesMethod::UpdateTagPolicy.path()) {
            return Some(TagPoliciesMethod::UpdateTagPolicy);
        }
        if same_text(path, TagPoliciesMethod::DeleteTagPolicy.path()) {
            return Some(TagPoliciesMethod::DeleteTagPolicy);
        }
        None
    }
}

/// The name of a method of the tag policies service.
pub open spec fn tag_policies_method_name(m: TagPoliciesMethod) -> Seq<char> {
    match m {
        TagPoliciesMethod::ListTagPolicies => "ListTagPolicies"@,
        TagPoliciesMethod::CreateTagPolicy => "CreateTagPolicy"@,
        TagPoliciesMethod::GetTagPolicy => "GetTagPolicy"@,
        TagPoliciesMethod::UpdateTagPolicy => "UpdateTagPolicy"@,
        TagPoliciesMethod::DeleteTagPolicy => "DeleteTagPolicy"@,
    }
}

/// The path of a method of the tag policies service is `/`, the service's full name, `/`, and
/// the method's own name.
pub proof fn lemma_tag_policies_path_shape(m: TagPoliciesMethod)
    ensures
        tag_policies_path(m) == seq!['/'] + tag_policies_service_name() + seq!['/'] + tag_policies_method_name(m),
{
    reveal_strlit("unitycatalog.tags.v1.TagPoliciesService");
    reveal_strlit("ListTagPolicies");
    reveal_strlit("/unitycatalog.tags.v1.TagPoliciesService/ListTagPolicies");
    reveal_strlit("CreateTagPolicy");
    reveal_strlit("/unitycatalog.tags.v1.TagPoliciesService/CreateTagPolicy");
    reveal_strlit("GetTagPolicy");
    reveal_strlit("/unitycatalog.tags.v1.TagPoliciesService/GetTagPolicy");
    reveal_strlit("UpdateTagPolicy");
    reveal_strlit("/unitycatalog.tags.v1.TagPoliciesService/UpdateTagPolicy");
    reveal_strlit("DeleteTagPolicy");
    reveal_strlit("/unitycatalog.tags.v1.TagPoliciesService/DeleteTagPolicy");
    assert(tag_policies_path(m) =~= seq!['/'] + tag_policies_service_name() + seq!['/'] + tag_policies_method_name(m));
}

/// Each method of the tag policies service is reached by its own path, and by no other.
pub proof fn lemma_tag_policies_routes(m: TagPoliciesMethod, p: Seq<char>)
    ensures
        tag_policies_route(tag_policies_path(m)) == Some(m),
        tag_policies_route(p) == Some(m) ==> p == tag_policies_path(m),
{
    reveal_strlit("/unitycatalog.tags.v1.TagPoliciesService/ListTagPolicies");
    reveal_strlit("/unitycatalog.tags.v1.TagPoliciesService/CreateTagPolicy");
    reveal_strlit("/unitycatalog.tags.v1.TagPoliciesService/GetTagPolicy");
    reveal_strlit("/unitycatalog.tags.v1.TagPoliciesService/UpdateTagPolicy");
    reveal_strlit("/unitycatalog.tags.v1.TagPoliciesService/DeleteTagPolicy");
    match m {
        TagPoliciesMethod::ListTagPolicies => {
        },
        TagPoliciesMethod::CreateTagPolicy => {
            assert(tag_policies_path(TagPoliciesMethod::CreateTagPolicy)[41] != tag_policies_path(TagPoliciesMethod::ListTagPolicies)[41]);
        },
        TagPoliciesMethod::GetTagPolicy => {
            assert(tag_policies_path(TagPoliciesMethod::GetTagPolicy).len() != tag_policies_path(TagPoliciesMethod::ListTagPolicies).len());
            assert(tag_policies_path(TagPoliciesMethod::GetTagPolicy).len() != tag_policies_path(TagPoliciesMethod::CreateTagPolicy).len());
        },
        TagPoliciesMethod::UpdateTagPolicy => {
            assert(tag_policies_path(TagPoliciesMethod::UpdateTagPolicy)[41] != tag_policies_path(TagPoliciesMethod::ListTagPolicies)[41]);
            assert(tag_policies_path(TagPoliciesMethod::UpdateTagPolicy)[41] != tag_policies_path(TagPoliciesMethod::CreateTagPolicy)[41]);
            assert(tag_policies_path(TagPoliciesMethod::UpdateTagPolicy).len() != tag_policies_path(TagPoliciesMethod::GetTagPolicy).len());
        },
        TagPoliciesMethod::DeleteTagPolicy => {
            assert(tag_policies_path(TagPoliciesMethod::DeleteTagPolicy)[41] != tag_policies_path(TagPoliciesMethod::ListTagPolicies)[41]);
            assert(tag_policies_path(TagPoliciesMethod::DeleteTagPolicy)[41] != tag_policies_path(TagPoliciesMethod::CreateTagPolicy)[41]);
            assert(tag_policies_path(TagPoliciesMethod::DeleteTagPolicy).len() != tag_policies_path(TagPoliciesMethod::GetTagPolicy).len());
            assert(tag_policies_path(TagPoliciesMethod::DeleteTagPolicy)[41] != tag_policies_path(TagPoliciesMethod::UpdateTagPolicy)[41]);
        },
    }
}

/// A method of the entity tag assignments service.
#[derive(Debug, Clone, Copy, PartialEq, Eq, Structural, Hash)]
pub enum EntityTagAssignmentsMethod {
    ListEntityTagAssignments,
    CreateEntityTagAssignment,
    GetEntityTagAssignment,
    UpdateEntityTagAssignment,
    DeleteEntityTagAssignment,
}

/// The full name of the entity tag assignments service.
pub open spec fn entity_tag_assignments_service_name() -> Seq<char> {
    "unitycatalog.tags.v1.EntityTagAssignmentsService"@
}

/// The request path of a method of the entity tag assignments service: `/`, the service, `/`, the method.
pub open spec fn entity_tag_assignments_path(m: EntityTagAssignmentsMethod) -> Seq<char> {
    match m {
        EntityTagAssignmentsMethod::ListEntityTagAssignments => "/unitycatalog.tags.v1.EntityTagAssignmentsService/ListEntityTagAssignments"@,
        EntityTagAssignmentsMethod::CreateEntityTagAssignment => "/unitycatalog.tags.v1.EntityTagAssignmentsService/CreateEntityTagAssignment"@,
        EntityTagAssignmentsMethod::GetEntityTagAssignment => "/unitycatalog.tags.v1.EntityTagAssignmentsService/GetEntityTagAssignment"@,
        EntityTagAssignmentsMethod::UpdateEntityTagAssignment => "/unitycatalog.tags.v1.EntityTagAssignmentsService/UpdateEntityTagAssignment"@,
        EntityTagAssignmentsMethod::DeleteEntityTagAssignment => "/unitycatalog.tags.v1.EntityTagAssignmentsService/DeleteEntityTagAssignment"@,
    }
}

/// The method of the entity tag assignments service that a request path names, if any.
pub open spec fn entity_tag_assignments_route(p: Seq<char>) -> Option<EntityTagAssignmentsMethod> {
    if p == entity_tag_assignments_path(EntityTagAssignmentsMethod::ListEntityTagAssignments) {
        Some(EntityTagAssignmentsMethod::ListEntityTagAssignments)
    } else if p == entity_tag_assignments_path(EntityTagAssignmentsMethod::CreateEntityTagAssignment) {
        Some(EntityTagAssignmentsMethod::CreateEntityTagAssignment)
    } else if p == entity_tag_assignments_path(EntityTagAssignmentsMethod::GetEntityTagAssignment) {
        Some(EntityTagAssignmentsMethod::GetEntityTagAssignment)
    } else if p == entity_tag_assignments_path(EntityTagAssignmentsMethod::UpdateEntityTagAssignment) {
        Some(EntityTagAssignmentsMethod::UpdateEntityTagAssignment)
    } else if p == entity_tag_assignments_path(EntityTagAssignmentsMethod::DeleteEntityTagAssignment) {
        Some(EntityTagAssignmentsMethod::DeleteEntityTagAssignment)
    } else {
        None
    }
}

impl EntityTagAssignmentsMethod {
    /// The full name of the service.
    pub fn service_name() -> (r: &'static str)
        ensures
            r@ == entity_tag_assignments_service_name(),
    {
        "unitycatalog.tags.v1.EntityTagAssignmentsService"
    }

    /// The request path of this method.
    pub fn path(&self) -> (r: &'static str)
        ensures
            r@ == entity_tag_assignments_path(*self),
    {
        match self {
            EntityTagAssignmentsMethod::ListEntityTagAssignments => "/unitycatalog.tags.v1.EntityTagAssignmentsService/ListEntityTagAssignments",
            EntityTagAssignmentsMethod::CreateEntityTagAssignment => "/unitycatalog.tags.v1.EntityTagAssignmentsService/CreateEntityTagAssignment",
            EntityTagAssignmentsMethod::GetEntityTagAssignment => "/unitycatalog.tags.v1.EntityTagAssignmentsService/GetEntityTagAssignment",
            EntityTagAssignmentsMethod::UpdateEntityTagAssignment => "/unitycatalog.tags.v1.EntityTagAssignmentsService/UpdateEntityTagAssignment",
            EntityTagAssignmentsMethod::DeleteEntityTagAssignment => "/unitycatalog.tags.v1.EntityTagAssignmentsService/DeleteEntityTagAssignment",
        }
    }

    /// The method that a request path names, or `None` where it names none.
    pub fn route(path: &str) -> (r: Option<EntityTagAssignmentsMethod>)
        ensures
            r == entity_tag_assignments_route(path@),
    {
        if same_text(path, EntityTagAssignmentsMethod::ListEntityTagAssignments.path()) {
            return Some(EntityTagAssignmentsMethod::ListEntityTagAssignments);
        }
        if same_text(path, EntityTagAssignmentsMethod::CreateEntityTagAssignment.path()) {
            return Some(EntityTagAssignmentsMethod::CreateEntityTagAssignment);
        }
        if same_text(path, EntityTagAssignmentsMethod::GetEntityTagAssignment.path()) {
            return Some(EntityTagAssignmentsMethod::GetEntityTagAssignment);
        }
        if same_text(path, EntityTagAssignmentsMethod::UpdateEntityTagAssignment.path()) {
            return Some(EntityTagAssignmentsMethod::UpdateEntityTagAssignment);
        }
        if same_text(path, EntityTagAssignmentsMethod::DeleteEntityTagAssignment.path()) {
            return Some(EntityTagAssignmentsMethod::DeleteEntityTagAssignment);
        }
        None
    }
}

/// The name of a method of the entity tag assignments service.
pub open spec fn entity_tag_assignments_method_name(m: EntityTagAssignmentsMethod) -> Seq<char> {
    match m {
        EntityTagAssignmentsMethod::ListEntityTagAssignments => "ListEntityTagAssignments"@,
        EntityTagAssignmentsMethod::CreateEntityTagAssignment => "CreateEntityTagAssignment"@,
        EntityTagAssignmentsMethod::GetEntityTagAssignment => "GetEntityTagAssignment"@,
        EntityTagAssignmentsMethod::UpdateEntityTagAssignment => "UpdateEntityTagAssignment"@,
        EntityTagAssignmentsMethod::DeleteEntityTagAssignment => "DeleteEntityTagAssignment"@,
    }
}

/// The path of a method of the entity tag assignments service is `/`, the service's full name, `/`, and
/// the method's own name.
pub proof fn lemma_entity_tag_assignments_path_shape(m: EntityTagAssignmentsMethod)
    ensures
        entity_tag_assignments_path(m) == seq!['/'] + entity_tag_assignments_service_name() + seq!['/'] + entity_tag_assignments_method_name(m),
{
    reveal_strlit("unitycatalog.tags.v1.EntityTagAssignmentsService");
    reveal_strlit("ListEntityTagAssignments");
    reveal_strlit("/unitycatalog.tags.v1.EntityTagAssignmentsService/ListEntityTagAssignments");
    reveal_strlit("CreateEntityTagAssignment");
    reveal_strlit("/unitycatalog.tags.v1.EntityTagAssignmentsService/CreateEntityTagAssignment");
    reveal_strlit("GetEntityTagAssignment");
    reveal_strlit("/unitycatalog.tags.v1.EntityTagAssignmentsService/GetEntityTagAssignment");
    reveal_strlit("UpdateEntityTagAssignment");
    reveal_strlit("/unitycatalog.tags.v1.EntityTagAssignmentsService/UpdateEntityTagAssignment");
    reveal_strlit("DeleteEntityTagAssignment");
    reveal_strlit("/unitycatalog.tags.v1.EntityTagAssignmentsService/DeleteEntityTagAssignment");
    assert(entity_tag_assignments_path(m) =~= seq!['/'] + entity_tag_assignments_service_name() + seq!['/'] + entity_tag_assignments_method_name(m));
}

/// Each method of the entity tag assignments service is reached by its own path, and by no other.
pub proof fn lemma_entity_tag_assignments_routes(m: EntityTagAssignmentsMethod, p: Seq<char>)
    ensures
        entity_tag_assignments_route(entity_tag_assignments_path(m)) == Some(m),
        entity_tag_assignments_route(p) == Some(m) ==> p == entity_tag_assignments_path(m),
{
    reveal_strlit("/unitycatalog.tags.v1.EntityTagAssignmentsService/ListEntityTagAssignments");
    reveal_strlit("/unitycatalog.tags.v1.EntityTagAssignmentsService/CreateEntityTagAssignment");
    reveal_strlit("/unitycatalog.tags.v1.EntityTagAssignmentsService/GetEntityTagAssignment");
    reveal_strlit("/unitycatalog.tags.v1.EntityTagAssignmentsService/UpdateEntityTagAssignment");
    reveal_strlit("/unitycatalog.tags.v1.EntityTagAssignmentsService/DeleteEntityTagAssignment");
    match m {
        EntityTagAssignmentsMethod::ListEntityTagAssignments => {
        },
        EntityTagAssignmentsMethod::CreateEntityTagAssignment => {
            assert(entity_tag_assignments_path(EntityTagAssignmentsMethod::CreateEntityTagAssignment).len() != entity_tag_assignments_path(EntityTagAssignmentsMethod::ListEntityTagAssignments).len());
        },
        EntityTagAssignmentsMethod::GetEntityTagAssignment => {
            assert(entity_tag_assignments_path(EntityTagAssignmentsMethod::GetEntityTagAssignment).len() != entity_tag_assignments_path(EntityTagAssignmentsMethod::ListEntityTagAssignments).len());
            assert(entity_tag_assignments_path(EntityTagAssignmentsMethod::GetEntityTagAssignment).len() != entity_tag_assignments_path(EntityTagAssignmentsMethod::CreateEntityTagAssignment).len());
        },
        EntityTagAssignmentsMethod::UpdateEntityTagAssignment => {
            assert(entity_tag_assignments_path(EntityTagAssignmentsMethod::UpdateEntityTagAssignment).len() != entity_tag_assignments_path(EntityTagAssignmentsMethod::ListEntityTagAssignments).len());
            assert(entity_tag_assignments_path(EntityTagAssignmentsMethod::UpdateEntityTagAssignment)[50] != entity_tag_assignments_path(EntityTagAssignmentsMethod::CreateEntityTagAssignment)[50]);
            assert(entity_tag_assignments_path(EntityTagAssignmentsMethod::UpdateEntityTagAssignment).len() != entity_tag_assignments_path(EntityTagAssignmentsMethod::GetEntityTagAssignment).len());
        },
        EntityTagAssignmentsMethod::DeleteEntityTagAssignment => {
            assert(entity_tag_assignments_path(EntityTagAssignmentsMethod::DeleteEntityTagAssignment).len() != entity_tag_assignments_path(EntityTagAssignmentsMethod::ListEntityTagAssignments).len());
            assert(entity_tag_assignments_path(EntityTagAssignmentsMethod::DeleteEntityTagAssignment)[50] != entity_tag_assignments_path(EntityTagAssignmentsMethod::CreateEntityTagAssignment)[50]);
            assert(entity_tag_assignments_path(EntityTagAssignmentsMethod::DeleteEntityTagAssignment).len() != entity_tag_assignments_path(EntityTagAssignmentsMethod::GetEntityTagAssignment).len());
            assert(entity_tag_assignments_path(EntityTagAssignmentsMethod::DeleteEntityTagAssignment)[50] != entity_tag_assignments_path(EntityTagAssignmentsMethod::UpdateEntityTagAssignment)[50]);
        },
    }
}

} // verus!
