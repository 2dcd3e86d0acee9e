//! Putting an exporter together: the builder, its defaults, and the checks
//! that a configuration must pass.

use vstd::prelude::*;
use vstd::string::*;
use crate::buffer::WASMWorkerSpanProcessor;
use crate::entries::{entries_view, KeyValue};
use crate::error::{parse_uri, uri_text_is_valid, Error};
use crate::exporter::{DatadogExporter, DEFAULT_DD_TRACES_PATH};
use crate::order::{key_order, KeyOrder};

verus! {

/// The endpoint that spans go to unless another is given.
pub const DEFAULT_SITE_ENDPOINT: &'static str = "https://trace.agent.datadoghq.eu/";

/// The flush size unless another is given.
pub const DEFAULT_FLUSH_SIZE: usize = 500;

/// The resource attribute that names the service.
pub const SERVICE_NAME_KEY: &'static str = "service.name";

/// What is said of a configuration without an API key.
pub const MISSING_API_KEY: &'static str = "APIKey not provied";

/// The part of the tracing configuration that the builder works on: the
/// attributes of the resource that spans are reported for, if one is set.
#[derive(Debug)]
pub struct TraceConfig {
    pub resource: Option<Vec<KeyValue>>,
}

/// Builder for the exporter and what is installed around it.
pub struct DatadogPipelineBuilder<C> {
    pub service_name: Option<String>,
    pub agent_endpoint: String,
    pub api_key: Option<String>,
    pub trace_config: Option<TraceConfig>,
    pub client: Option<C>,
    pub env: Option<String>,
    pub tags: Option<Vec<KeyValue>>,
    pub host_name: Option<String>,
    pub runtime_id: Option<String>,
    pub container_id: Option<String>,
    pub app_version: Option<String>,
    pub flush_size: Option<usize>,
}

/// The entries whose key is not `key`, in their order.
pub open spec fn entries_without_key(
    entries: Seq<(Seq<char>, Seq<char>)>,
    key: Seq<char>,
) -> Seq<(Seq<char>, Seq<char>)>
    decreases entries.len(),
{
    if entries.len() == 0 {
        Seq::empty()
    } else {
        let front = entries_without_key(entries.drop_last(), key);
        if entries.last().0 == key {
            front
        } else {
            front.push(entries.last())
        }
    }
}

/// The text of an optional setting, empty where it is not set.
pub open spec fn text_or_empty(setting: Option<String>) -> Seq<char> {
    match setting {
        Some(text) => text@,
        None => Seq::empty(),
    }
}

/// The resource that is left for the tracing side once the service name is
/// settled, as attributes: a resource that was given, without its service
/// name; none if a configuration was given without one; the empty resource
/// otherwise.
pub open spec fn resource_left(
    service_name: Option<String>,
    trace_config: Option<TraceConfig>,
) -> Option<Seq<(Seq<char>, Seq<char>)>> {
    match (service_name, trace_config) {
        (Some(_), Some(config)) => match config.resource {
            Some(resource) => Some(
                entries_without_key(entries_view(resource@), SERVICE_NAME_KEY@),
            ),
            None => None,
        },
        _ => Some(Seq::empty()),
    }
}

/// The resource of a configuration, as attributes.
pub open spec fn resource_view(config: TraceConfig) -> Option<Seq<(Seq<char>, Seq<char>)>> {
    match config.resource {
        Some(resource) => Some(entries_view(resource@)),
        None => None,
    }
}

/// Takes the entries with the given key out of a list.
pub fn remove_key(entries: Vec<KeyValue>, key: &str) -> (kept: Vec<KeyValue>)
    ensures
        entries_view(kept@) == entries_without_key(entries_view(entries@), key@),
{
    let ghost all = entries_view(entries@);
    let mut kept: Vec<KeyValue> = Vec::new();
    proof {
        assert(all.take(0) =~= Seq::empty());
        assert(entries_view(kept@) =~= Seq::empty());
    }
    for entry in it: entries
        invariant
            entries_view(it.seq()) == all,
            entries_view(kept@) == entries_without_key(all.take(it.index()), key@),
    {
        proof {
            let i = it.index();
            assert(all.take(i + 1).drop_last() =~= all.take(i));
            assert(all.take(i + 1).last() == entry@);
        }
        if key_order(entry.key.as_str(), key) != KeyOrder::Same {
            proof {
                assert(entries_view(kept@.push(entry)) =~= entries_view(kept@).push(entry@));
            }
            kept.push(entry);
        }
    }
    proof {
        assert(all.take(all.len() as int) =~= all);
    }
    kept
}

impl<C> Default for DatadogPipelineBuilder<C> {
    fn default() -> (builder: Self)
        ensures
            builder == (DatadogPipelineBuilder::<C> {
                service_name: None,
                agent_endpoint: builder.agent_endpoint,
                api_key: None,
                trace_config: None,
                client: None,
                env: None,
                tags: None,
                host_name: None,
                runtime_id: None,
                container_id: None,
                app_version: None,
                flush_size: None,
            }),
            builder.agent_endpoint@ == DEFAULT_SITE_ENDPOINT@,
    {
        DatadogPipelineBuilder {
            service_name: None,
            agent_endpoint: String::from_str(DEFAULT_SITE_ENDPOINT),
            trace_config: None,
            api_key: None,
            client: None,
            env: None,
            tags: None,
            host_name: None,
            runtime_id: None,
            container_id: None,
            app_version: None,
            flush_size: None,
        }
    }
}

/// Create a new Datadog exporter pipeline builder.
#[must_use]
pub fn new_pipeline<C>() -> (builder: DatadogPipelineBuilder<C>)
    ensures
        builder == (DatadogPipelineBuilder::<C> {
            service_name: None,
            agent_endpoint: builder.agent_endpoint,
            api_key: None,
            trace_config: None,
            client: None,
            env: None,
            tags: None,
            host_name: None,
            runtime_id: None,
            container_id: None,
            app_version: None,
            flush_size: None,
        }),
        builder.agent_endpoint@ == DEFAULT_SITE_ENDPOINT@,
{
    DatadogPipelineBuilder::default()
}

impl<C> DatadogPipelineBuilder<C> {
    /// The address that requests go to: the endpoint followed by the
    /// intake's path.
    pub open spec fn request_url(&self) -> Seq<char> {
        self.agent_endpoint@ + DEFAULT_DD_TRACES_PATH@
    }

    /// The flush size that the exporter gets.
    pub open spec fn flush_size_or_default(&self) -> usize {
        match self.flush_size {
            Some(n) => n,
            None => DEFAULT_FLUSH_SIZE,
        }
    }

    /// `exporter` is the exporter that this builder describes, reporting as
    /// `service_name`: what was set as it was set, and the default for what
    /// was not.
    pub open spec fn describes(&self, exporter: DatadogExporter<C>, service_name: String) -> bool {
        &&& Some(exporter.client) == self.client
        &&& exporter.request_url@ == self.request_url()
        &&& exporter.service_name == service_name
        &&& Some(exporter.key) == self.api_key
        &&& exporter.env@ == text_or_empty(self.env)
        &&& entries_view(exporter.tags@) == (match self.tags {
            Some(tags) => entries_view(tags@),
            None => Seq::empty(),
        })
        &&& exporter.host_name@ == text_or_empty(self.host_name)
        &&& exporter.runtime_id@ == text_or_empty(self.runtime_id)
        &&& exporter.container_id@ == text_or_empty(self.container_id)
        &&& exporter.app_version@ == text_or_empty(self.app_version)
        &&& exporter.flush_size == self.flush_size_or_default()
    }

    /// What building comes to, given what the URI parser said of the address.
    /// It fails without a transport; else with the parser's error; else
    /// without an API key. Otherwise it succeeds with the exporter that the
    /// builder describes.
    pub open spec fn is_outcome_for(
        &self,
        outcome: Result<DatadogExporter<C>, Error>,
        service_name: String,
        address: Result<http::Uri, http::uri::InvalidUri>,
    ) -> bool {
        match outcome {
            Ok(exporter) => {
                &&& self.client is Some
                &&& address is Ok
                &&& self.api_key is Some
                &&& self.describes(exporter, service_name)
            },
            Err(Error::NoHttpClient) => self.client is None,
            Err(Error::InvalidUri(e)) => self.client is Some && address == Err::<
                http::Uri,
                http::uri::InvalidUri,
            >(e),
            Err(Error::Other(message)) => {
                &&& self.client is Some
                &&& address is Ok
                &&& self.api_key is None
                &&& message@ == MISSING_API_KEY@
            },
            Err(_) => false,
        }
    }

    /// What building comes to. It fails without a transport; else with an
    /// address that is no URI; else without an API key. Otherwise it
    /// succeeds with the exporter that the builder describes.
    pub open spec fn is_build_outcome(
        &self,
        outcome: Result<DatadogExporter<C>, Error>,
        service_name: String,
    ) -> bool {
        match outcome {
            Ok(exporter) => {
                &&& self.client is Some
                &&& uri_text_is_valid(self.request_url())
                &&& self.api_key is Some
                &&& self.describes(exporter, service_name)
            },
            Err(Error::NoHttpClient) => self.client is None,
            Err(Error::InvalidUri(_)) => self.client is Some && !uri_text_is_valid(
                self.request_url(),
            ),
            Err(Error::Other(message)) => {
                &&& self.client is Some
                &&& uri_text_is_valid(self.request_url())
                &&& self.api_key is None
                &&& message@ == MISSING_API_KEY@
            },
            Err(_) => false,
        }
    }

    /// Building a new exporter. `detected_service_name` is the name that the
    /// surroundings suggest; it is used where none was set.
    ///
    /// This is useful if you are manually constructing a pipeline.
    ///
    /// # Errors
    ///
    /// If the Endpoint or the `APIKey` are not properly set.
    pub fn build_exporter(self, detected_service_name: String) -> (outcome: Result<
        DatadogExporter<C>,
        Error,
    >)
        ensures
            self.is_build_outcome(
                outcome,
                match self.service_name {
                    Some(name) => name,
                    None => detected_service_name,
                },
            ),
    {
        let mut builder = self;
        let (_, service_name) = builder.build_config_and_service_name(detected_service_name);
        builder.build_exporter_with_service_name(service_name)
    }

    /// Settles the service name and the resource that goes with it. A name
    /// that was set wins over the detected one; the resource then loses its
    /// own service name, so that the two cannot disagree. What is settled is
    /// taken out of the builder.
    pub fn build_config_and_service_name(&mut self, detected_service_name: String) -> (settled: (
        TraceConfig,
        String,
    ))
        ensures
            settled.1 == (match old(self).service_name {
                Some(name) => name,
                None => detected_service_name,
            }),
            resource_view(settled.0) == resource_left(
                old(self).service_name,
                old(self).trace_config,
            ),
            *final(self) == (DatadogPipelineBuilder {
                service_name: None,
                trace_config: if old(self).service_name is Some {
                    None
                } else {
                    old(self).trace_config
                },
                ..*old(self)
            }),
    {
        let service_name = self.service_name.take();
        if let Some(service_name) = service_name {
            let config = if let Some(cfg) = self.trace_config.take() {
                match cfg.resource {
                    Some(resource) => TraceConfig {
                        resource: Some(remove_key(resource, SERVICE_NAME_KEY)),
                    },
                    None => TraceConfig { resource: None },
                }
            } else {
                let empty: Vec<KeyValue> = Vec::new();
                assert(entries_view(empty@) =~= Seq::empty());
                TraceConfig { resource: Some(empty) }
            };
            (config, service_name)
        } else {
            let empty: Vec<KeyValue> = Vec::new();
            assert(entries_view(empty@) =~= Seq::empty());
            (TraceConfig { resource: Some(empty) }, detected_service_name)
        }
    }

    /// Builds the exporter that reports as `service_name`.
    pub fn build_exporter_with_service_name(self, service_name: String) -> (outcome: Result<
        DatadogExporter<C>,
        Error,
    >)
        ensures
            self.is_build_outcome(outcome, service_name),
    {
        if self.client.is_none() {
            return Err(Error::NoHttpClient);
        }
        let endpoint = self.agent_endpoint.clone().concat(DEFAULT_DD_TRACES_PATH);
        let address = parse_uri(endpoint.as_str());
        self.build_exporter_with_address(service_name, address)
    }

    /// Builds the exporter once its address has been put to the URI parser;
    /// `address` is what the parser said of it.
    pub fn build_exporter_with_address(
        self,
        service_name: String,
        address: Result<http::Uri, http::uri::InvalidUri>,
    ) -> (outcome: Result<DatadogExporter<C>, Error>)
        ensures
            self.is_outcome_for(outcome, service_name, address),
    {
        if let Some(client) = self.client {
            match address {
                Ok(_) => {},
                Err(e) => {
                    return Err(Error::InvalidUri(e));
                },
            }
            let key = match self.api_key {
                Some(key) => key,
                None => {
                    return Err(Error::Other(String::from_str(MISSING_API_KEY)));
                },
            };
            let tags = match self.tags {
                Some(tags) => tags,
                None => Vec::new(),
            };
            let flush_size = match self.flush_size {
                Some(n) => n,
                None => DEFAULT_FLUSH_SIZE,
            };
            let exporter = DatadogExporter::new(
                service_name,
                self.agent_endpoint.concat(DEFAULT_DD_TRACES_PATH),
                client,
                key,
                text_or_default(self.env),
                tags,
                text_or_default(self.host_name),
                text_or_default(self.runtime_id),
                text_or_default(self.container_id),
                text_or_default(self.app_version),
                flush_size,
            );
            assert(entries_view(exporter.tags@) =~= (match self.tags {
                Some(tags) => entries_view(tags@),
                None => Seq::empty(),
            }));
            Ok(exporter)
        } else {
            Err(Error::NoHttpClient)
        }
    }

    /// Builds what a pipeline is made of: the exporter, an empty buffer for
    /// spans of type `T` with the exporter's flush size, and the configuration left for
    /// the tracing side.
    ///
    /// # Errors
    ///
    /// If the Endpoint or the `APIKey` are not properly set.
    pub fn install<T>(self, detected_service_name: String) -> (outcome: Result<
        (DatadogExporter<C>, WASMWorkerSpanProcessor<T>, TraceConfig),
        Error,
    >)
        ensures
            match outcome {
                Ok(parts) => {
                    &&& self.is_build_outcome(
                        Ok(parts.0),
                        match self.service_name {
                            Some(name) => name,
                            None => detected_service_name,
                        },
                    )
                    &&& parts.1@ == Seq::<T>::empty()
                    &&& parts.1.flush_size() == self.flush_size_or_default()
                    &&& resource_view(parts.2) == resource_left(
                        self.service_name,
                        self.trace_config,
                    )
                },
                Err(e) => self.is_build_outcome(
                    Err(e),
                    match self.service_name {
                        Some(name) => name,
                        None => detected_service_name,
                    },
                ),
            },
    {
        let mut builder = self;
        let (config, service_name) = builder.build_config_and_service_name(detected_service_name);
        let exporter = match builder.build_exporter_with_service_name(service_name) {
            Ok(exporter) => exporter,
            Err(e) => {
                return Err(e);
            },
        };
        let flush_size = exporter.flush_size;
        let span_processor = WASMWorkerSpanProcessor::new(flush_size);
        Ok((exporter, span_processor, config))
    }

    /// Assign the service name under which to group traces
    #[must_use]
    pub fn with_service_name(self, name: String) -> (builder: Self)
        ensures
            builder == (DatadogPipelineBuilder { service_name: Some(name), ..self }),
    {
        let mut builder = self;
        builder.service_name = Some(name);
        builder
    }

    /// Assign the Datadog trace endpoint
    #[must_use]
    pub fn with_endpoint(self, endpoint: String) -> (builder: Self)
        ensures
            builder == (DatadogPipelineBuilder { agent_endpoint: endpoint, ..self }),
    {
        let mut builder = self;
        builder.agent_endpoint = endpoint;
        builder
    }

    /// Assign the API key, or take it away
    #[must_use]
    pub fn with_api_key(self, key: Option<String>) -> (builder: Self)
        ensures
            builder == (DatadogPipelineBuilder { api_key: key, ..self }),
    {
        let mut builder = self;
        builder.api_key = key;
        builder
    }

    /// Choose the http client used by uploader
    #[must_use]
    pub fn with_http_client(self, client: C) -> (builder: Self)
        ensures
            builder == (DatadogPipelineBuilder { client: Some(client), ..self }),
    {
        let mut builder = self;
        builder.client = Some(client);
        builder
    }

    /// Assign the SDK trace configuration
    #[must_use]
    pub fn with_trace_config(self, config: TraceConfig) -> (builder: Self)
        ensures
            builder == (DatadogPipelineBuilder { trace_config: Some(config), ..self }),
    {
        let mut builder = self;
        builder.trace_config = Some(config);
        builder
    }

    /// Assign the env
    #[must_use]
    pub fn with_env(self, env: String) -> (builder: Self)
        ensures
            builder == (DatadogPipelineBuilder { env: Some(env), ..self }),
    {
        let mut builder = self;
        builder.env = Some(env);
        builder
    }

    /// Assign the `host_name`
    #[must_use]
    pub fn with_host_name(self, host_name: String) -> (builder: Self)
        ensures
            builder == (DatadogPipelineBuilder { host_name: Some(host_name), ..self }),
    {
        let mut builder = self;
        builder.host_name = Some(host_name);
        builder
    }

    /// Assign the `runtime_id`
    #[must_use]
    pub fn with_runtime_id(self, runtime_id: String) -> (builder: Self)
        ensures
            builder == (DatadogPipelineBuilder { runtime_id: Some(runtime_id), ..self }),
    {
        let mut builder = self;
        builder.runtime_id = Some(runtime_id);
        builder
    }

    /// Assign the `container_id`
    #[must_use]
    pub fn with_container_id(self, container_id: String) -> (builder: Self)
        ensures
            builder == (DatadogPipelineBuilder { container_id: Some(container_id), ..self }),
    {
        let mut builder = self;
        builder.container_id = Some(container_id);
        builder
    }

    /// Assign the `app_version`
    #[must_use]
    pub fn with_app_version(self, app_version: String) -> (builder: Self)
        ensures
            builder == (DatadogPipelineBuilder { app_version: Some(app_version), ..self }),
    {
        let mut builder = self;
        builder.app_version = Some(app_version);
        builder
    }

    /// Assign the tags
    #[must_use]
    pub fn with_tags(self, tags: Vec<KeyValue>) -> (builder: Self)
        ensures
            builder == (DatadogPipelineBuilder { tags: Some(tags), ..self }),
    {
        let mut builder = self;
        builder.tags = Some(tags);
        builder
    }

    /// Assign the flush size
    #[must_use]
    pub fn with_flush_size(self, flush_size: usize) -> (builder: Self)
        ensures
            builder == (DatadogPipelineBuilder { flush_size: Some(flush_size), ..self }),
    {
        let mut builder = self;
        builder.flush_size = Some(flush_size);
        builder
    }
}

/// The text of an optional setting, or the empty text.
fn text_or_default(setting: Option<String>) -> (text: String)
    ensures
        text@ == text_or_empty(setting),
{
    match setting {
        Some(text) => text,
        None => String::new(),
    }
}

} // verus!
