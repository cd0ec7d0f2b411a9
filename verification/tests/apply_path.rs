use moonscale::{
    finish_apply, plan_apply, select_scope, ApplyError, Document, DiscoveryEntry,
    DiscoverySnapshot, KindDescriptor, ResourceCapabilities, ResourceMetadata,
    ResourceScope, ScopeSelection,
};

fn descriptor(group: &str, version: &str, kind: &str) -> KindDescriptor {
    KindDescriptor {
        group: group.to_string(),
        version: version.to_string(),
        kind: kind.to_string(),
    }
}

fn entry(
    group: &str,
    version: &str,
    kind: &str,
    plural: &str,
    scope: ResourceScope,
) -> DiscoveryEntry {
    DiscoveryEntry {
        descriptor: descriptor(group, version, kind),
        metadata: ResourceMetadata { plural: plural.to_string() },
        capabilities: ResourceCapabilities { scope },
    }
}

fn core_snapshot() -> DiscoverySnapshot {
    DiscoverySnapshot {
        entries: vec![
            entry("", "v1", "ConfigMap", "configmaps", ResourceScope::Namespaced),
            entry(
                "rbac.authorization.k8s.io",
                "v1",
                "ClusterRole",
                "clusterroles",
                ResourceScope::Cluster,
            ),
        ],
    }
}

#[test]
fn missing_type_metadata_is_rejected() {
    let doc = Document { type_meta: None, name: Some("cfg".to_string()), namespace: None };
    let r = plan_apply(&doc, &core_snapshot(), false);
    assert!(matches!(r, Err(ApplyError::MissingTypeMetadata)));
}

#[test]
fn unknown_kind_is_rejected() {
    let doc = Document {
        type_meta: Some(descriptor("example.io", "v1", "Widget")),
        name: Some("w".to_string()),
        namespace: None,
    };
    let r = plan_apply(&doc, &core_snapshot(), false);
    match r {
        Err(ApplyError::UnknownResourceType(kd)) => {
            assert_eq!(kd.group, "example.io");
            assert_eq!(kd.version, "v1");
            assert_eq!(kd.kind, "Widget");
        }
        other => panic!("expected UnknownResourceType, got {:?}", other),
    }
}

#[test]
fn unknown_kind_in_empty_snapshot() {
    let doc = Document {
        type_meta: Some(descriptor("", "v1", "ConfigMap")),
        name: None,
        namespace: None,
    };
    let snapshot = DiscoverySnapshot { entries: vec![] };
    assert!(matches!(
        plan_apply(&doc, &snapshot, false),
        Err(ApplyError::UnknownResourceType(_))
    ));
}

#[test]
fn scope_selection_decision_table() {
    let cluster = ResourceCapabilities { scope: ResourceScope::Cluster };
    let namespaced = ResourceCapabilities { scope: ResourceScope::Namespaced };
    let ns = Some("shop".to_string());

    assert!(matches!(select_scope(&cluster, &ns, false), ScopeSelection::Cluster));
    assert!(matches!(select_scope(&cluster, &None, false), ScopeSelection::Cluster));
    assert!(matches!(select_scope(&namespaced, &ns, true), ScopeSelection::Cluster));
    match select_scope(&namespaced, &ns, false) {
        ScopeSelection::ExplicitNamespace(n) => assert_eq!(n, "shop"),
        other => panic!("expected ExplicitNamespace, got {:?}", other),
    }
    assert!(matches!(
        select_scope(&namespaced, &None, false),
        ScopeSelection::DefaultNamespace
    ));
}

#[test]
fn configmap_defaults_to_default_namespace() {
    let doc = Document {
        type_meta: Some(descriptor("", "v1", "ConfigMap")),
        name: Some("cfg".to_string()),
        namespace: None,
    };
    let snapshot = core_snapshot();
    let plan = plan_apply(&doc, &snapshot, false).expect("plan should succeed");
    assert!(matches!(plan.scope, ScopeSelection::DefaultNamespace));
    assert_eq!(plan.scope.resolved_namespace(), Some("moonscale".to_string()));
    assert_eq!(plan.name, "cfg");
    assert_eq!(plan.metadata.plural, "configmaps");

    // The first apply succeeds; re-applying the identical document plans
    // identically and succeeds again.
    assert!(finish_apply(&plan, Ok(())).is_ok());
    let again = plan_apply(&doc, &snapshot, false).expect("re-plan should succeed");
    assert!(matches!(again.scope, ScopeSelection::DefaultNamespace));
    assert_eq!(again.name, plan.name);
    assert_eq!(again.metadata.plural, plan.metadata.plural);
    assert!(finish_apply(&again, Ok(())).is_ok());
}

#[test]
fn clusterrole_ignores_document_namespace() {
    let doc = Document {
        type_meta: Some(descriptor("rbac.authorization.k8s.io", "v1", "ClusterRole")),
        name: Some("admin-role".to_string()),
        namespace: Some("shop".to_string()),
    };
    let plan = plan_apply(&doc, &core_snapshot(), false).expect("plan should succeed");
    assert!(matches!(plan.scope, ScopeSelection::Cluster));
    assert_eq!(plan.scope.resolved_namespace(), None);
    assert_eq!(plan.name, "admin-role");
    assert_eq!(plan.metadata.plural, "clusterroles");
}

#[test]
fn explicit_namespace_is_kept() {
    let doc = Document {
        type_meta: Some(descriptor("", "v1", "ConfigMap")),
        name: Some("cfg".to_string()),
        namespace: Some("shop".to_string()),
    };
    let plan = plan_apply(&doc, &core_snapshot(), false).expect("plan should succeed");
    match plan.scope {
        ScopeSelection::ExplicitNamespace(ns) => assert_eq!(ns, "shop"),
        other => panic!("expected ExplicitNamespace, got {:?}", other),
    }
}

#[test]
fn name_defaults_to_empty_when_absent() {
    let doc = Document {
        type_meta: Some(descriptor("", "v1", "ConfigMap")),
        name: None,
        namespace: None,
    };
    let plan = plan_apply(&doc, &core_snapshot(), false).expect("plan should succeed");
    assert_eq!(plan.name, "");
}

#[test]
fn first_matching_entry_wins() {
    let snapshot = DiscoverySnapshot {
        entries: vec![
            entry("", "v1", "ConfigMap", "configmaps", ResourceScope::Namespaced),
            entry("", "v1", "ConfigMap", "shadowed", ResourceScope::Cluster),
        ],
    };
    let doc = Document {
        type_meta: Some(descriptor("", "v1", "ConfigMap")),
        name: Some("cfg".to_string()),
        namespace: None,
    };
    let plan = plan_apply(&doc, &snapshot, false).expect("plan should succeed");
    assert_eq!(plan.metadata.plural, "configmaps");
    assert!(matches!(plan.scope, ScopeSelection::DefaultNamespace));
}

#[test]
fn remote_failure_is_wrapped() {
    let doc = Document {
        type_meta: Some(descriptor("", "v1", "ConfigMap")),
        name: Some("cfg".to_string()),
        namespace: None,
    };
    let plan = plan_apply(&doc, &core_snapshot(), false).expect("plan should succeed");
    match finish_apply(&plan, Err("server rejected the patch".to_string())) {
        Err(ApplyError::ApplyFailed { kind, name, cause }) => {
            assert_eq!(kind, "ConfigMap");
            assert_eq!(name, "cfg");
            assert_eq!(cause, "server rejected the patch");
        }
        other => panic!("expected ApplyFailed, got {:?}", other),
    }
}
