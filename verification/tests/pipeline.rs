use opentelemetry_datadog_cloudflare::entries::KeyValue;
use opentelemetry_datadog_cloudflare::pipeline::{remove_key, TraceConfig};
use opentelemetry_datadog_cloudflare::{new_pipeline, DatadogPipelineBuilder, Error};

fn pairs(entries: &[KeyValue]) -> Vec<(&str, &str)> {
    entries.iter().map(|e| (e.key.as_str(), e.value.as_str())).collect()
}

#[test]
fn defaults() {
    let builder: DatadogPipelineBuilder<u8> = new_pipeline();
    assert_eq!(builder.agent_endpoint, "https://trace.agent.datadoghq.eu/");
    assert!(builder.service_name.is_none());
    assert!(builder.api_key.is_none());
    assert!(builder.client.is_none());
    assert!(builder.tags.is_none());
    assert!(builder.flush_size.is_none());
    let exporter = match builder
        .with_http_client(1)
        .with_api_key(Some("k".to_string()))
        .build_exporter("unknown_service".to_string())
    {
        Ok(exporter) => exporter,
        Err(_) => panic!("client and key are set"),
    };
    assert_eq!(exporter.service_name, "unknown_service");
    assert_eq!(exporter.request_url, "https://trace.agent.datadoghq.eu/api/v0.2/traces");
    assert_eq!(exporter.key, "k");
    assert_eq!(exporter.client, 1);
    assert_eq!(exporter.env, "");
    assert_eq!(exporter.host_name, "");
    assert_eq!(exporter.runtime_id, "");
    assert_eq!(exporter.container_id, "");
    assert_eq!(exporter.app_version, "");
    assert!(exporter.tags.is_empty());
    assert_eq!(exporter.flush_size, 500);
}

#[test]
fn settings_reach_the_exporter() {
    let exporter = match new_pipeline::<&'static str>()
        .with_service_name("billing".to_string())
        .with_endpoint("http://localhost:8126/".to_string())
        .with_api_key(Some("k2".to_string()))
        .with_http_client("client")
        .with_env("staging".to_string())
        .with_host_name("h".to_string())
        .with_runtime_id("r".to_string())
        .with_container_id("c".to_string())
        .with_app_version("v".to_string())
        .with_tags(vec![KeyValue::new("b", "2"), KeyValue::new("a", "1")])
        .with_flush_size(3)
        .build_exporter("detected".to_string())
    {
        Ok(exporter) => exporter,
        Err(_) => panic!("the configuration is complete"),
    };
    assert_eq!(exporter.service_name, "billing");
    assert_eq!(exporter.request_url, "http://localhost:8126/api/v0.2/traces");
    assert_eq!(exporter.key, "k2");
    assert_eq!(exporter.client, "client");
    assert_eq!(exporter.env, "staging");
    assert_eq!(exporter.host_name, "h");
    assert_eq!(exporter.runtime_id, "r");
    assert_eq!(exporter.container_id, "c");
    assert_eq!(exporter.app_version, "v");
    assert_eq!(pairs(&exporter.tags), vec![("b", "2"), ("a", "1")]);
    assert_eq!(exporter.flush_size, 3);
}

#[test]
fn missing_client_is_an_error() {
    let outcome = new_pipeline::<u8>()
        .with_api_key(Some("k".to_string()))
        .build_exporter("s".to_string());
    assert!(matches!(outcome, Err(Error::NoHttpClient)));
    let outcome = new_pipeline::<u8>()
        .with_endpoint("not a uri".to_string())
        .build_exporter("s".to_string());
    assert!(matches!(outcome, Err(Error::NoHttpClient)));
}

#[test]
fn malformed_endpoint_is_an_error() {
    let outcome = new_pipeline::<u8>()
        .with_http_client(1)
        .with_api_key(Some("k".to_string()))
        .with_endpoint("http://exa mple.com/".to_string())
        .build_exporter("s".to_string());
    assert!(matches!(outcome, Err(Error::InvalidUri(_))));
    let outcome = new_pipeline::<u8>()
        .with_http_client(1)
        .with_endpoint("http://exa mple.com/".to_string())
        .build_exporter("s".to_string());
    assert!(matches!(outcome, Err(Error::InvalidUri(_))));
}

#[test]
fn missing_api_key_is_an_error() {
    let outcome = new_pipeline::<u8>().with_http_client(1).build_exporter("s".to_string());
    match outcome {
        Err(Error::Other(message)) => assert_eq!(message, "APIKey not provied"),
        _ => panic!("the key is missing"),
    }
    let outcome = new_pipeline::<u8>()
        .with_http_client(1)
        .with_api_key(Some("k".to_string()))
        .with_api_key(None)
        .build_exporter("s".to_string());
    assert!(matches!(outcome, Err(Error::Other(_))));
}

#[test]
fn service_name_is_taken_out_of_the_resource() {
    let mut builder = new_pipeline::<u8>()
        .with_service_name("mine".to_string())
        .with_trace_config(TraceConfig {
            resource: Some(vec![
                KeyValue::new("service.name", "theirs"),
                KeyValue::new("deployment", "blue"),
                KeyValue::new("service.name", "again"),
                KeyValue::new("service.namespace", "shop"),
            ]),
        });
    let (config, name) = builder.build_config_and_service_name("detected".to_string());
    assert_eq!(name, "mine");
    let resource = config.resource.expect("a resource was given");
    assert_eq!(pairs(&resource), vec![("deployment", "blue"), ("service.namespace", "shop")]);
    assert!(builder.service_name.is_none());
    assert!(builder.trace_config.is_none());
}

#[test]
fn detected_service_name_comes_with_an_empty_resource() {
    let mut builder = new_pipeline::<u8>().with_trace_config(TraceConfig {
        resource: Some(vec![KeyValue::new("service.name", "theirs")]),
    });
    let (config, name) = builder.build_config_and_service_name("detected".to_string());
    assert_eq!(name, "detected");
    assert_eq!(config.resource.map(|r| r.len()), Some(0));
    assert!(builder.trace_config.is_some());
}

#[test]
fn set_service_name_without_configuration() {
    let mut builder = new_pipeline::<u8>().with_service_name("mine".to_string());
    let (config, name) = builder.build_config_and_service_name("detected".to_string());
    assert_eq!(name, "mine");
    assert_eq!(config.resource.map(|r| r.len()), Some(0));
    let mut builder = new_pipeline::<u8>()
        .with_service_name("mine".to_string())
        .with_trace_config(TraceConfig { resource: None });
    let (config, _) = builder.build_config_and_service_name("detected".to_string());
    assert!(config.resource.is_none());
}

#[test]
fn remove_key_keeps_the_rest_in_order() {
    let kept = remove_key(
        vec![KeyValue::new("x", "1"), KeyValue::new("y", "2"), KeyValue::new("x", "3")],
        "x",
    );
    assert_eq!(pairs(&kept), vec![("y", "2")]);
    assert!(remove_key(Vec::new(), "x").is_empty());
}

#[test]
fn install_hands_out_the_parts() {
    let outcome = new_pipeline::<u8>()
        .with_http_client(1)
        .with_api_key(Some("k".to_string()))
        .with_flush_size(7)
        .install::<u32>("svc".to_string());
    match outcome {
        Ok((exporter, processor, config)) => {
            assert_eq!(exporter.service_name, "svc");
            assert_eq!(exporter.flush_size, 7);
            assert_eq!(processor.len(), 0);
            assert_eq!(config.resource.map(|r| r.len()), Some(0));
        },
        Err(_) => panic!("the configuration is complete"),
    }
    let outcome = new_pipeline::<u8>().install::<u32>("svc".to_string());
    assert!(matches!(outcome, Err(Error::NoHttpClient)));
}

#[test]
fn endpoint_and_path_are_checked_together() {
    let build = |endpoint: &str| {
        new_pipeline::<u8>()
            .with_http_client(1)
            .with_api_key(Some("k".to_string()))
            .with_endpoint(endpoint.to_string())
            .build_exporter("s".to_string())
    };
    assert!(matches!(build(""), Err(Error::InvalidUri(_))));
    assert!(matches!(build("http:///"), Err(Error::InvalidUri(_))));
    assert!(build("http://").is_ok());
    assert!(matches!(build(&"a".repeat(70_000)), Err(Error::InvalidUri(_))));
    match build("/") {
        Ok(exporter) => assert_eq!(exporter.request_url, "/api/v0.2/traces"),
        Err(_) => panic!("a path alone is a URI"),
    }
    match build("https://intake.example:8443/prefix/") {
        Ok(exporter) => {
            assert_eq!(exporter.request_url, "https://intake.example:8443/prefix/api/v0.2/traces")
        },
        Err(_) => panic!("an absolute address is a URI"),
    }
}

#[test]
fn parsed_address_decides_the_outcome() {
    let complete = || new_pipeline::<u8>().with_http_client(1).with_api_key(Some("k".to_string()));
    let good = || "http://localhost/".parse::<http::Uri>();
    let bad = || "http://local host/".parse::<http::Uri>();
    match complete().build_exporter_with_address("s".to_string(), good()) {
        Ok(exporter) => {
            assert_eq!(exporter.service_name, "s");
            assert_eq!(exporter.request_url, "https://trace.agent.datadoghq.eu/api/v0.2/traces");
        },
        Err(_) => panic!("the address was accepted"),
    }
    assert!(matches!(
        complete().build_exporter_with_address("s".to_string(), bad()),
        Err(Error::InvalidUri(_))
    ));
    assert!(matches!(
        new_pipeline::<u8>().build_exporter_with_address("s".to_string(), bad()),
        Err(Error::NoHttpClient)
    ));
    assert!(matches!(
        new_pipeline::<u8>().with_http_client(1).build_exporter_with_address("s".to_string(), bad()),
        Err(Error::InvalidUri(_))
    ));
    assert!(matches!(
        new_pipeline::<u8>().with_http_client(1).build_exporter_with_address("s".to_string(), good()),
        Err(Error::Other(_))
    ));
}
