//! A schema-agnostic apply engine for cluster resources.
//!
//! Given a manifest whose kind is known only at runtime, the library
//! resolves that kind against a discovery snapshot, selects the correctly
//! scoped addressing mode (cluster-wide, an explicit namespace, or the
//! fixed default namespace), and plans a declarative merge-apply. It also
//! derives and extracts a database credential stored as an opaque secret.
//!
//! All remote I/O (the cluster transport, the live discovery refresh, the
//! manifest decoder) lives outside this crate; callers hand in plain
//! values and receive plans and typed results back.

pub mod apply;
pub mod credential;
pub mod model;
pub mod scope;

pub use apply::{plan_apply, finish_apply, locate, ApplyError, ApplyPlan};
pub use credential::{
    extract_database_password, password_key, secret_name_for_instance, CredentialError,
    SecretData, SecretEntry,
};
pub use model::{
    Document, DiscoveryEntry, DiscoverySnapshot, KindDescriptor, ResourceCapabilities,
    ResourceMetadata, ResourceScope,
};
pub use scope::{default_namespace, select_scope, ScopeSelection};
