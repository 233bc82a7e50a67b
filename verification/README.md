# unitycatalog-common (verified core)

The common models of a Unity Catalog service, written in Verus. The functions in `src/`
are proved against their contracts, except the few trusted wrappers (`external_body`)
that call outside crates: UUID parsing and printing, the store's name splitting and
printing, the clock, and `String::push`. Their contracts are believed, not proved; the
clock's has none.

## Layout

- `src/labels.rs` – the resource labels, their snake_case names and case-insensitive parsing.
- `src/name.rs` – hierarchical resource names (dotted, backtick-quoted form) and references.
- `src/identifiers.rs` – UUIDs as 128-bit integers, their text forms, and the proof that the
  hyphenated form reads back as the same UUID.
- `src/ident.rs` – resource identifiers (label + reference) and the `ResourceExt` trait.
- `src/records.rs`, `src/resource.rs`, `src/object.rs` – the resource records, the `Resource`
  enum, and stored objects: turning a record into an object and reading it back.
- `src/descriptors.rs` – what the store is told of each resource type (fields and roles, name
  components, parent type).
- `src/routes.rs` – which gRPC method a request path names.
- `src/repr.rs`, `src/sharing.rs`, `src/credentials.rs` – the records and text forms that the
  Python bindings expose.
- `src/delta.rs` – the Delta REST API models.
- `src/api.rs`, `src/messages.rs` – the request, response and nested messages of the gRPC APIs.
- `src/laws.rs` – properties that span several functions, stated and proved.
- `app/` – ordinary Rust around the library: the JSON forms (serde), the store's label and
  object types, and the compile-time checked `resource_name!` macro.
- `tests/` – tests of the library on concrete values.
