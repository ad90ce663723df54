use golem_worker_executor::api_binding::{
    stored_definition_from_message, ApiDefinitionMessage, ApiDeployment, HttpApiDefinition, Route,
    binding_from_message, binding_to_message, definition_from_message, route_from_message,
    route_to_message, ApiDefinitionRequestMessage, BindingError, GolemWorkerBinding,
    HttpRouteMessage, MethodPattern, VersionedComponentId, WorkerBindingMessage,
    WorkerBindingType,
};

fn message(
    component: bool,
    worker_name: Option<&str>,
    response: Option<&str>,
    binding_type: Option<i32>,
) -> WorkerBindingMessage {
    WorkerBindingMessage {
        component: if component {
            Some(VersionedComponentId { component_id: "shopping-cart".to_string(), version: 3 })
        } else {
            None
        },
        worker_name: worker_name.map(|s| s.to_string()),
        idempotency_key: None,
        response: response.map(|s| s.to_string()),
        binding_type,
    }
}

#[test]
fn test_method_pattern() {
    for method in 0..8 {
        let method_pattern: MethodPattern = MethodPattern::from_code(method).unwrap();
        let method_grpc = method_pattern.code();
        assert_eq!(method, method_grpc);
    }
}

#[test]
fn unknown_method_code_is_refused() {
    assert_eq!(MethodPattern::from_code(9), Err(BindingError::UnknownMethod(9)));
    assert_eq!(MethodPattern::from_code(-1), Err(BindingError::UnknownMethod(-1)));
    assert_eq!(MethodPattern::from_code(8), Ok(MethodPattern::Trace));
    assert_eq!(MethodPattern::Post.code(), 6);
}

#[test]
fn binding_type_codes_and_names() {
    assert_eq!(WorkerBindingType::from_code(1), WorkerBindingType::FileServer);
    assert_eq!(WorkerBindingType::from_code(0), WorkerBindingType::Default);
    assert_eq!(WorkerBindingType::from_code(7), WorkerBindingType::Default);
    assert_eq!(WorkerBindingType::FileServer.code(), 1);
    assert_eq!(WorkerBindingType::Default.name(), "Default");
    assert_eq!(WorkerBindingType::FileServer.name(), "FileServer");
}

#[test]
fn binding_needs_response_first() {
    let m = message(false, None, None, None);
    assert_eq!(binding_from_message(&m).unwrap_err(), BindingError::ResponseMissing);
    assert_eq!(BindingError::ResponseMissing.message(), "response is missing");
}

#[test]
fn default_binding_needs_worker_name() {
    let m = message(true, None, Some("${response}"), Some(0));
    assert_eq!(binding_from_message(&m).unwrap_err(), BindingError::WorkerNameMissing);
    assert_eq!(BindingError::WorkerNameMissing.message(), "worker name is missing");
}

#[test]
fn file_server_binding_may_be_anonymous() {
    let m = message(true, None, Some("${response}"), Some(1));
    let b = binding_from_message(&m).unwrap();
    assert_eq!(b.worker_name, "");
    assert_eq!(b.binding_type, Some(WorkerBindingType::FileServer));
    assert_eq!(b.component_id.component_id, "shopping-cart");
    assert_eq!(b.component_id.version, 3);
}

#[test]
fn binding_needs_component() {
    let m = message(false, Some("cart-1"), Some("${response}"), None);
    assert_eq!(binding_from_message(&m).unwrap_err(), BindingError::ComponentMissing);
    assert_eq!(BindingError::ComponentMissing.message(), "component is missing");
}

#[test]
fn binding_round_trips_through_message() {
    let b = GolemWorkerBinding {
        component_id: VersionedComponentId { component_id: "c".to_string(), version: 1 },
        worker_name: "w-${request.path.id}".to_string(),
        idempotency_key: Some("k".to_string()),
        response: "${response}".to_string(),
        binding_type: Some(WorkerBindingType::Default),
    };
    let m = binding_to_message(&b);
    assert_eq!(m.binding_type, Some(0));
    let back = binding_from_message(&m).unwrap();
    assert_eq!(back.worker_name, b.worker_name);
    assert_eq!(back.idempotency_key, b.idempotency_key);
    assert_eq!(back.response, b.response);
    assert_eq!(back.binding_type, b.binding_type);
}

#[test]
fn route_conversion_checks_binding_then_method() {
    let missing = HttpRouteMessage { method: 0, path: "/a".to_string(), binding: None };
    assert_eq!(route_from_message(&missing).unwrap_err(), BindingError::BindingMissing);
    let bad_method = HttpRouteMessage {
        method: 12,
        path: "/a".to_string(),
        binding: Some(message(true, Some("w"), Some("r"), None)),
    };
    assert_eq!(route_from_message(&bad_method).unwrap_err(), BindingError::UnknownMethod(12));
    let good = HttpRouteMessage {
        method: 7,
        path: "/cart/{id}".to_string(),
        binding: Some(message(true, Some("w"), Some("r"), None)),
    };
    let route = route_from_message(&good).unwrap();
    assert_eq!(route.method, MethodPattern::Put);
    assert_eq!(route.path, "/cart/{id}");
    let back = route_to_message(&route);
    assert_eq!(back.method, 7);
    assert_eq!(back.path, "/cart/{id}");
}

#[test]
fn definition_conversion_reports_first_error() {
    let no_def = ApiDefinitionRequestMessage {
        id: Some("api".to_string()),
        version: "0.1".to_string(),
        routes: None,
        draft: true,
    };
    assert_eq!(definition_from_message(&no_def).unwrap_err(), BindingError::DefinitionMissing);
    let bad_route = ApiDefinitionRequestMessage {
        id: None,
        version: "0.1".to_string(),
        routes: Some(vec![
            HttpRouteMessage {
                method: 0,
                path: "/a".to_string(),
                binding: Some(message(true, Some("w"), Some("r"), None)),
            },
            HttpRouteMessage { method: 0, path: "/b".to_string(), binding: None },
        ]),
        draft: false,
    };
    assert_eq!(definition_from_message(&bad_route).unwrap_err(), BindingError::BindingMissing);
    let no_id = ApiDefinitionRequestMessage {
        id: None,
        version: "0.1".to_string(),
        routes: Some(vec![]),
        draft: false,
    };
    assert_eq!(definition_from_message(&no_id).unwrap_err(), BindingError::IdMissing);
    assert_eq!(BindingError::IdMissing.message(), "Api Definition ID is missing");
    let ok = ApiDefinitionRequestMessage {
        id: Some("api".to_string()),
        version: "0.2".to_string(),
        routes: Some(vec![HttpRouteMessage {
            method: 6,
            path: "/a".to_string(),
            binding: Some(message(true, Some("w"), Some("r"), Some(0))),
        }]),
        draft: true,
    };
    let d = definition_from_message(&ok).unwrap();
    assert_eq!(d.id, "api");
    assert_eq!(d.version, "0.2");
    assert!(d.draft);
    assert_eq!(d.routes.len(), 1);
    assert_eq!(d.routes[0].method, MethodPattern::Post);
}

#[test]
fn stored_definition_round_trip() {
    let d = HttpApiDefinition {
        id: "shop".to_string(),
        version: "1.0".to_string(),
        routes: vec![Route {
            method: MethodPattern::Get,
            path: "/items".to_string(),
            binding: GolemWorkerBinding {
                component_id: VersionedComponentId { component_id: "c".to_string(), version: 2 },
                worker_name: "w".to_string(),
                idempotency_key: None,
                response: "${response}".to_string(),
                binding_type: Some(WorkerBindingType::FileServer),
            },
        }],
        draft: false,
        created_at: 1_720_000_000,
    };
    let m = d.to_message();
    assert_eq!(m.created_at, Some(1_720_000_000));
    let back = stored_definition_from_message(&m).unwrap();
    assert_eq!(back.id, "shop");
    assert_eq!(back.created_at, 1_720_000_000);
    assert_eq!(back.routes[0].path, "/items");
    assert_eq!(back.routes[0].binding.binding_type, Some(WorkerBindingType::FileServer));
    let no_time = ApiDefinitionMessage { created_at: None, ..m };
    assert_eq!(
        stored_definition_from_message(&no_time).unwrap_err(),
        BindingError::CreatedAtMissing
    );
    assert_eq!(BindingError::CreatedAtMissing.message(), "Created At is missing");
}

#[test]
fn deployment_lists_its_definitions() {
    let keys = vec![
        ("a".to_string(), "1".to_string()),
        ("b".to_string(), "2".to_string()),
    ];
    let d = ApiDeployment::from_keys(&keys, &"example.com".to_string(), 99);
    assert_eq!(d.api_definitions.len(), 2);
    assert_eq!(d.api_definitions[1].id, "b");
    assert_eq!(d.api_definitions[1].version, "2");
    assert_eq!(d.site, "example.com");
    assert_eq!(d.created_at, Some(99));
}
