use kubecore::discovery::{
    ApiCapabilities, ApiResource, ApiResourceFromCrdHint, CrdNames, CrdVersion,
    CustomResourceDefinition, GroupVersionKind, Scope,
};
use kubecore::backoff::Backoff;
use kubecore::object::PartialObject;
use kubecore::request::{
    Create, Delete, DeleteCollection, Get, GetApiserverVersion, List, ListApiGroupResources,
    ListApiGroups, ListCoreApiVersions, Method, Patch, PatchDocument, Query, QueryBuilder,
    Replace, RequestScope, Watch, i64_to_string, u64_to_string, url_path, Error,
};
use kubecore::subresource::{AttachParams, ExecParams, LogParams, Resource};
use kubecore::config::{
    AuthInfo, Cluster, ConfigError, ConfigLoader, Context, Kubeconfig, NamedAuthInfo,
    NamedCluster, NamedContext,
};

fn pods() -> ApiResource {
    ApiResource {
        group: String::new(),
        version: "v1".to_owned(),
        api_version: "v1".to_owned(),
        kind: "Pod".to_owned(),
        plural: "pods".to_owned(),
    }
}

fn deployments() -> ApiResource {
    ApiResource {
        group: "apps".to_owned(),
        version: "v1".to_owned(),
        api_version: "apps/v1".to_owned(),
        kind: "Deployment".to_owned(),
        plural: "deployments".to_owned(),
    }
}

#[test]
fn log_path() {
    let r = Resource::namespaced::<PartialObject>(&pods(), "ns");
    let mut lp = LogParams::default();
    lp.container = Some("blah".into());
    let req = r.logs("foo", &lp);
    assert_eq!(req.uri, "/api/v1/namespaces/ns/pods/foo/log?&container=blah");
}

#[test]
fn log_params_all_fields() {
    let r = Resource::namespaced::<PartialObject>(&pods(), "ns");
    let lp = LogParams {
        container: Some("app".to_owned()),
        follow: true,
        limit_bytes: Some(1024),
        pretty: true,
        previous: true,
        since_seconds: Some(-5),
        tail_lines: Some(10),
        timestamps: true,
    };
    let req = r.logs("foo", &lp);
    assert_eq!(
        req.uri,
        "/api/v1/namespaces/ns/pods/foo/log?&container=app&follow=true&limitBytes=1024\
         &pretty=true&previous=true&sinceSeconds=-5&tailLines=10&timestamps=true"
    );
}

#[test]
fn url_paths() {
    assert_eq!(url_path(&pods(), Some("ns")), "/api/v1/namespaces/ns/pods");
    assert_eq!(url_path(&pods(), None), "/api/v1/pods");
    assert_eq!(
        url_path(&deployments(), Some("kube-system")),
        "/apis/apps/v1/namespaces/kube-system/deployments"
    );
}

#[test]
fn get_request() {
    let scope = RequestScope::Namespaced("ns".to_owned());
    let dt = pods();
    let req = Get { name: "mypod", scope: &scope, dyn_type: &dt }.to_http_request();
    assert_eq!(req.method, Method::Get);
    assert_eq!(req.uri, "/api/v1/namespaces/ns/pods/mypod");
    assert!(req.body.is_empty());
    assert!(req.content_type.is_none());
}

#[test]
fn list_request_with_selectors_and_paging() {
    let scope = RequestScope::Cluster;
    let dt = pods();
    let query = Query { label_selector: Some("app=web"), field_selector: None };
    let req = List {
        scope: &scope,
        dyn_type: &dt,
        query: &query,
        limit: Some(500),
        continue_token: Some("NEXT"),
    }
    .to_http_request();
    assert_eq!(req.method, Method::Get);
    assert_eq!(
        req.uri,
        "/api/v1/pods?&labelSelector=app%3Dweb&limit=500&continue=NEXT"
    );
}

#[test]
fn list_request_never_emits_empty_keys() {
    let scope = RequestScope::Cluster;
    let dt = pods();
    let query = Query::default();
    let req = List {
        scope: &scope,
        dyn_type: &dt,
        query: &query,
        limit: None,
        continue_token: None,
    }
    .to_http_request();
    assert_eq!(req.uri, "/api/v1/pods?");
}

#[test]
fn watch_request() {
    let scope = RequestScope::Namespaced("ns".to_owned());
    let dt = pods();
    let query = Query::default();
    let req = Watch {
        scope: &scope,
        dyn_type: &dt,
        query: &query,
        version: "123",
        timeout_seconds: Some(290),
    }
    .to_http_request();
    assert_eq!(
        req.uri,
        "/api/v1/namespaces/ns/pods?&watch=1&resourceVersion=123\
         &allowWatchBookmarks=1&timeoutSeconds=290"
    );
}

#[test]
fn create_request_requires_name() {
    let scope = RequestScope::Namespaced("ns".to_owned());
    let dt = pods();
    let body = b"{}".to_vec();
    let req = Create { name: Some("mypod"), body: &body, scope: &scope, dyn_type: &dt }
        .to_http_request()
        .unwrap();
    assert_eq!(req.method, Method::Post);
    assert_eq!(req.uri, "/api/v1/namespaces/ns/pods/mypod");
    assert_eq!(req.body, b"{}".to_vec());

    let unnamed = Create { name: None, body: &body, scope: &scope, dyn_type: &dt }
        .to_http_request();
    assert_eq!(unnamed.unwrap_err(), Error::UnnamedObject);
}

#[test]
fn delete_requests() {
    let scope = RequestScope::Namespaced("ns".to_owned());
    let dt = pods();
    let one = Delete { name: "mypod", scope: &scope, dyn_type: &dt }.to_http_request();
    assert_eq!(one.method, Method::Delete);
    assert_eq!(one.uri, "/api/v1/namespaces/ns/pods/mypod");
    let many = DeleteCollection { scope: &scope, dyn_type: &dt }.to_http_request();
    assert_eq!(many.method, Method::Delete);
    assert_eq!(many.uri, "/api/v1/namespaces/ns/pods");
}

#[test]
fn patch_content_types() {
    let scope = RequestScope::Namespaced("ns".to_owned());
    let dt = pods();
    let cases: Vec<(PatchDocument, &str)> = vec![
        (PatchDocument::Json(b"[]".to_vec()), "application/json-patch+json"),
        (PatchDocument::Merge(b"{}".to_vec()), "application/merge-patch+json"),
        (
            PatchDocument::Strategic(b"{}".to_vec()),
            "application/strategic-merge-patch+json",
        ),
    ];
    for (doc, expected) in cases {
        let req = Patch {
            name: "mypod",
            scope: &scope,
            dyn_type: &dt,
            patch: &doc,
            field_manager: None,
        }
        .to_http_request();
        assert_eq!(req.method, Method::Patch);
        assert_eq!(req.uri, "/api/v1/namespaces/ns/pods/mypod");
        assert_eq!(req.content_type.as_deref(), Some(expected));
    }
}

#[test]
fn apply_patch_carries_field_manager() {
    let scope = RequestScope::Namespaced("ns".to_owned());
    let dt = pods();
    let doc = PatchDocument::Apply(b"{}".to_vec());
    let req = Patch {
        name: "mypod",
        scope: &scope,
        dyn_type: &dt,
        patch: &doc,
        field_manager: Some("mycontroller"),
    }
    .to_http_request();
    assert_eq!(
        req.uri,
        "/api/v1/namespaces/ns/pods/mypod?&fieldManager=mycontroller"
    );
    assert_eq!(req.content_type.as_deref(), Some("application/apply-patch+yaml"));
}

#[test]
fn replace_uses_put() {
    let scope = RequestScope::Cluster;
    let dt = pods();
    let body = b"{}".to_vec();
    let req = Replace { name: Some("mypod"), body: &body, scope: &scope, dyn_type: &dt }
        .to_http_request()
        .unwrap();
    assert_eq!(req.method, Method::Put);
    assert_eq!(req.uri, "/api/v1/pods/mypod");
}

#[test]
fn discovery_requests() {
    assert_eq!(GetApiserverVersion.to_http_request().uri, "/version");
    assert_eq!(ListApiGroups.to_http_request().uri, "/apis");
    assert_eq!(ListCoreApiVersions.to_http_request().uri, "/api");
    assert_eq!(
        ListApiGroupResources { group: "apps", version: "v1" }.to_http_request().uri,
        "/apis/apps/v1"
    );
    assert_eq!(
        ListApiGroupResources { group: "", version: "v1" }.to_http_request().uri,
        "/api/v1"
    );
}

#[test]
fn query_builder_encodes_components() {
    let mut qp = QueryBuilder::new("x?".to_owned());
    qp.append_pair("labelSelector", "app in (a, b)");
    assert_eq!(qp.finish(), "x?&labelSelector=app+in+%28a%2C+b%29");
}

#[test]
fn query_builder_percent_encodes_utf8() {
    let mut qp = QueryBuilder::new("x?".to_owned());
    qp.append_pair("labelSelector", "appü");
    assert_eq!(qp.finish(), "x?&labelSelector=app%C3%BC");
}

#[test]
fn decimal_rendering() {
    assert_eq!(u64_to_string(0), "0");
    assert_eq!(u64_to_string(500), "500");
    assert_eq!(u64_to_string(18446744073709551615), "18446744073709551615");
    assert_eq!(i64_to_string(-42), "-42");
    assert_eq!(i64_to_string(7), "7");
    assert_eq!(i64_to_string(i64::MIN), "-9223372036854775808");
}

#[test]
fn exec_and_attach_paths() {
    let r = Resource::namespaced::<PartialObject>(&pods(), "ns");
    let mut ep = ExecParams::default();
    ep.command = Some(vec!["sh".to_owned(), "-c".to_owned(), "echo hi".to_owned()]);
    ep.tty = true;
    let req = r.exec("mypod", &ep);
    assert_eq!(
        req.uri,
        "/api/v1/namespaces/ns/pods/mypod/exec?&stdout=true&stderr=true&tty=true\
         &command=sh&command=-c&command=echo+hi"
    );

    let mut ap = AttachParams::default();
    ap.stdin = true;
    ap.container = Some("main".to_owned());
    let req = r.attach("mypod", &ap);
    assert_eq!(
        req.uri,
        "/api/v1/namespaces/ns/pods/mypod/attach?&stdin=true&stdout=true&stderr=true\
         &container=main"
    );
}

#[test]
fn scale_and_status_subresources() {
    let r = Resource::namespaced::<PartialObject>(&pods(), "ns");
    assert_eq!(r.get_scale("web").uri, "/api/v1/namespaces/ns/pods/web/scale");
    let patch = PatchDocument::Merge(b"{}".to_vec());
    let req = r.patch_scale("web", &patch);
    assert_eq!(req.method, Method::Patch);
    assert_eq!(req.content_type.as_deref(), Some("application/merge-patch+json"));
    let req = r.replace_scale("web", b"{\"spec\":{}}");
    assert_eq!(req.method, Method::Put);
    assert_eq!(req.uri, "/api/v1/namespaces/ns/pods/web/scale");
    assert_eq!(r.get_status("web").uri, "/api/v1/namespaces/ns/pods/web/status");
    let req = r.patch_status("web", &patch);
    assert_eq!(req.uri, "/api/v1/namespaces/ns/pods/web/status");
    let req = r.replace_status("web", b"{}");
    assert_eq!(req.method, Method::Put);
    assert_eq!(req.uri, "/api/v1/namespaces/ns/pods/web/status");
}

#[test]
fn backoff_doubles_caps_and_resets() {
    let mut backoff = Backoff::watcher_default();
    let first = backoff.next_delay_millis();
    assert!(720 <= first && first <= 880, "first delay near 800ms, got {first}");
    let second = backoff.next_delay_millis();
    assert!(1440 <= second && second <= 1760, "second delay near 1600ms, got {second}");
    for _ in 0..10 {
        backoff.next_delay_millis();
    }
    let capped = backoff.next_delay_millis();
    assert!(27_000 <= capped && capped <= 33_000, "capped near 30s, got {capped}");
    backoff.reset();
    let fresh = backoff.next_delay_millis();
    assert!(720 <= fresh && fresh <= 880, "reset back to the minimum, got {fresh}");
}

#[test]
fn gvk_pluralization_and_erasure() {
    let gvk = GroupVersionKind {
        group: "networking.k8s.io".to_owned(),
        version: "v1".to_owned(),
        kind: "NetworkPolicy".to_owned(),
    };
    let ar = ApiResource::from_gvk(&gvk);
    assert_eq!(ar.plural, "networkpolicies");
    assert_eq!(ar.api_version, "networking.k8s.io/v1");

    let with_plural = ApiResource::from_gvk_with_plural(&gvk, "netpols");
    assert_eq!(with_plural.plural, "netpols");

    let erased = ApiResource::erase::<PartialObject>(&pods());
    assert_eq!(erased.api_version, "v1");
    assert_eq!(erased.plural, "pods");
}

#[test]
fn crd_version_selection() {
    let crd = CustomResourceDefinition {
        group: "example.io".to_owned(),
        names: CrdNames { kind: "Widget".to_owned(), plural: "widgets".to_owned() },
        versions: vec![
            CrdVersion { name: "v1alpha1".to_owned(), storage: false },
            CrdVersion { name: "v1".to_owned(), storage: true },
        ],
    };
    assert!(ApiResource::from_crd(&crd, &ApiResourceFromCrdHint::SingleVersioned).is_none());
    let storage = ApiResource::from_crd(&crd, &ApiResourceFromCrdHint::Storage).unwrap();
    assert_eq!(storage.version, "v1");
    assert_eq!(storage.api_version, "example.io/v1");
    assert_eq!(storage.plural, "widgets");
    let exact = ApiResource::from_crd(
        &crd,
        &ApiResourceFromCrdHint::Exact("v1alpha1".to_owned()),
    )
    .unwrap();
    assert_eq!(exact.version, "v1alpha1");
    assert!(ApiResource::from_crd(
        &crd,
        &ApiResourceFromCrdHint::Exact("v9".to_owned())
    )
    .is_none());
}

#[test]
fn capabilities_operations() {
    let caps = ApiCapabilities {
        scope: Scope::Namespaced,
        subresources: Vec::new(),
        operations: vec!["get".to_owned(), "list".to_owned(), "watch".to_owned()],
    };
    assert!(caps.supports_operation("watch"));
    assert!(!caps.supports_operation("deletecollection"));
}

#[test]
fn config_loading() {
    let config = Kubeconfig {
        current_context: "dev".to_owned(),
        contexts: vec![NamedContext {
            name: "dev".to_owned(),
            context: Context { cluster: "devcluster".to_owned(), user: "alice".to_owned() },
        }],
        clusters: vec![NamedCluster {
            name: "devcluster".to_owned(),
            cluster: Cluster {
                server: "https://example:6443".to_owned(),
                certificate_authority_data: Some("CADATA".to_owned()),
            },
        }],
        auth_infos: vec![
            NamedAuthInfo {
                name: "alice".to_owned(),
                auth_info: AuthInfo {
                    token: Some("SECRET-REDACTED".to_owned()),
                    client_certificate_data: Some("CERT".to_owned()),
                    client_key_data: Some("KEY".to_owned()),
                },
            },
            NamedAuthInfo {
                name: "alice".to_owned(),
                auth_info: AuthInfo {
                    token: Some("SECRET-REDACTED-2".to_owned()),
                    client_certificate_data: None,
                    client_key_data: None,
                },
            },
        ],
    };

    let loader = ConfigLoader::load(&config, None, None, None).unwrap();
    assert_eq!(loader.cluster.server, "https://example:6443");
    assert_eq!(
        loader.user.token.as_deref(),
        Some("SECRET-REDACTED-2"),
        "a later user entry of the same name wins"
    );
    assert_eq!(loader.ca_bundle().as_deref(), Some("CADATA"));
    assert!(loader.identity().is_none(), "the winning entry has no certificate");

    let missing = ConfigLoader::load(&config, Some(&"prod".to_owned()), None, None);
    assert_eq!(
        missing.unwrap_err(),
        ConfigError::LoadContext { context_name: "prod".to_owned() }
    );
    let missing_cluster =
        ConfigLoader::load(&config, None, Some(&"other".to_owned()), None);
    assert_eq!(
        missing_cluster.unwrap_err(),
        ConfigError::LoadClusterOfContext { cluster_name: "other".to_owned() }
    );
    let missing_user = ConfigLoader::load(&config, None, None, Some(&"bob".to_owned()));
    assert_eq!(
        missing_user.unwrap_err(),
        ConfigError::FindUser { user_name: "bob".to_owned() }
    );
}

#[test]
fn identity_concatenates_cert_and_key() {
    let loader = ConfigLoader {
        current_context: Context { cluster: "c".to_owned(), user: "u".to_owned() },
        cluster: Cluster { server: "s".to_owned(), certificate_authority_data: None },
        user: AuthInfo {
            token: None,
            client_certificate_data: Some("CERT\n".to_owned()),
            client_key_data: Some("KEY\n".to_owned()),
        },
    };
    assert_eq!(loader.identity().as_deref(), Some("CERT\nKEY\n"));
    assert!(loader.ca_bundle().is_none());
}
