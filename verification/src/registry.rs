//! The single initialization of the pipeline.
//!
//! A process keeps one registry. `init` hands out the pipeline once; a
//! second call is an error of its own, and a configuration that is turned
//! down leaves the registry as it was.

use vstd::prelude::*;
use crate::endpoint::{accepts_endpoint, endpoint_accepted, local_collector};
use crate::error::{ConfigError, InitError};
use crate::exporter::{BatchExporter, ExporterModel, ExporterSettings, RetryPolicy};
use crate::filter::{parse_threshold, parsed_threshold, RuleModel};
use crate::level::{Level, Threshold};
use crate::pipeline::{
    config_error, configured, Config, LayerModel, OutputStream, Pipeline, PipelineModel,
    DEFAULT_BASE_DELAY, DEFAULT_CAPACITY, DEFAULT_MAX_RETRIES,
};

verus! {

/// The address of the collector that [`init_logger`] sets up.
pub open spec fn default_endpoint() -> Seq<char> {
    local_collector()
}

/// The name of the service that [`init_logger`] sets up.
pub open spec fn default_service() -> Seq<char> {
    "test"@
}

/// The severity filter that [`init_logger`] uses where none is given.
pub open spec fn default_severity() -> Seq<char> {
    "warn"@
}

/// How many spans a batch of [`init_logger`] holds at most.
pub const DEFAULT_BATCH_SIZE: usize = 512;

/// How long, in milliseconds, a batch of [`init_logger`] waits at most.
pub const DEFAULT_BATCH_DELAY: u64 = 5000;

/// What the result of an initialization must be: an error of its own when
/// the registry has been used, the configuration error when there is one,
/// and else the configured pipeline.
pub open spec fn init_outcome(
    was_initialized: bool,
    now_initialized: bool,
    config: Config,
    threshold: Option<Threshold>,
    endpoint_ok: bool,
    r: Result<Pipeline, InitError>,
) -> bool {
    if was_initialized {
        r is Err && r->Err_0 == InitError::AlreadyInitialized && now_initialized
    } else {
        match config_error(config, threshold, endpoint_ok) {
            Some(e) => r is Err && r->Err_0 == InitError::Config(e) && !now_initialized,
            None => r is Ok && now_initialized && r->Ok_0.wf() && r->Ok_0@ == configured(
                config,
                threshold->0,
            ) && r->Ok_0.endpoint_spec() == config.endpoint@,
        }
    }
}

/// Remembers whether the pipeline of this process has been initialized.
pub struct Registry {
    initialized: bool,
}

impl Registry {
    pub closed spec fn initialized(&self) -> bool {
        self.initialized
    }

    /// A registry whose pipeline has not been initialized.
    pub fn new() -> (r: Registry)
        ensures
            !r.initialized(),
    {
        Registry { initialized: false }
    }

    pub fn is_initialized(&self) -> (r: bool)
        ensures
            r == self.initialized(),
    {
        self.initialized
    }

    /// Initializes the pipeline from `config` and hands it out. A second
    /// initialization fails with `AlreadyInitialized`. A configuration
    /// with an invalid severity filter or a malformed endpoint is turned
    /// down, and the registry can be initialized later. The severity
    /// filter `warn` and the address of a collector on this machine are
    /// never turned down.
    pub fn init(&mut self, config: Config) -> (r: Result<Pipeline, InitError>)
        ensures
            init_outcome(
                old(self).initialized(),
                final(self).initialized(),
                config,
                parsed_threshold(config.severity_filter@),
                endpoint_accepted(config.endpoint@),
                r,
            ),
            config.severity_filter@ == default_severity() ==> parsed_threshold(
                config.severity_filter@,
            ) == Some(Threshold::AtLeast(Level::Warn)),
            config.endpoint@ == default_endpoint() ==> endpoint_accepted(config.endpoint@),
    {
        let threshold = parse_threshold(config.severity_filter.as_str());
        let endpoint_ok = accepts_endpoint(config.endpoint.as_str());
        self.init_checked(config, threshold, endpoint_ok)
    }

    /// Initializes the pipeline from a configuration that has been looked
    /// at already: `threshold` is what its severity filter names,
    /// `endpoint_ok` whether its endpoint is well formed.
    pub fn init_checked(&mut self, config: Config, threshold: Option<Threshold>, endpoint_ok: bool)
        -> (r: Result<Pipeline, InitError>)
        ensures
            init_outcome(
                old(self).initialized(),
                final(self).initialized(),
                config,
                threshold,
                endpoint_ok,
                r,
            ),
    {
        if self.initialized {
            return Err(InitError::AlreadyInitialized);
        }
        match Pipeline::assemble(config, threshold, endpoint_ok) {
            Ok(pipeline) => {
                self.initialized = true;
                Ok(pipeline)
            },
            Err(e) => Err(InitError::Config(e)),
        }
    }
}

/// The configuration that [`init_logger`] uses: the given severity filter
/// or else `warn`, no scope, the collector on this machine, the service
/// name `test`, and the console on standard error.
pub open spec fn logger_config(config: Config, severity: Option<String>) -> bool {
    &&& config.severity_filter@ == severity_text(severity)
    &&& config.scope is None
    &&& config.endpoint@ == default_endpoint()
    &&& config.service_identity@ == default_service()
    &&& config.max_batch_size == DEFAULT_BATCH_SIZE
    &&& config.max_batch_delay == DEFAULT_BATCH_DELAY
    &&& config.output_stream == OutputStream::Stderr
}

/// The severity filter that [`init_logger`] goes by.
pub open spec fn severity_text(severity: Option<String>) -> Seq<char> {
    match severity {
        Some(s) => s@,
        None => default_severity(),
    }
}

/// Makes the configuration that [`init_logger`] uses.
pub fn default_config(severity: Option<String>) -> (config: Config)
    ensures
        logger_config(config, severity),
{
    let severity_filter = match severity {
        Some(s) => s,
        None => String::from_str("warn"),
    };
    Config {
        severity_filter,
        scope: None,
        endpoint: String::from_str("http://localhost:4317"),
        service_identity: String::from_str("test"),
        max_batch_size: DEFAULT_BATCH_SIZE,
        max_batch_delay: DEFAULT_BATCH_DELAY,
        output_stream: OutputStream::Stderr,
    }
}

/// The state of the pipeline that [`init_logger`] hands out for a
/// threshold.
pub open spec fn logger_pipeline(threshold: Threshold) -> PipelineModel {
    PipelineModel {
        layers: seq![
            LayerModel::Filter(RuleModel { threshold, scope: None }),
            LayerModel::Export,
            LayerModel::ErrorContext,
            LayerModel::Console,
        ],
        output: OutputStream::Stderr,
        console: Seq::empty(),
        exporter: ExporterModel::fresh(
            default_service(),
            DEFAULT_BATCH_SIZE as nat,
            DEFAULT_BATCH_DELAY,
            DEFAULT_CAPACITY as nat,
            RetryPolicy { max_retries: DEFAULT_MAX_RETRIES, base_delay: DEFAULT_BASE_DELAY },
        ),
        active: true,
        offered_events: 0,
        vetoed_events: 0,
        emitted: 0,
        admitted: Seq::empty(),
    }
}

/// What the result of [`init_logger`] must be, given what the severity
/// filter names: the usual endpoint is always accepted.
pub open spec fn logger_outcome(
    was_initialized: bool,
    now_initialized: bool,
    threshold: Option<Threshold>,
    r: Result<Pipeline, InitError>,
) -> bool {
    if was_initialized {
        r is Err && r->Err_0 == InitError::AlreadyInitialized && now_initialized
    } else if threshold is None {
        r is Err && r->Err_0 == InitError::Config(ConfigError::InvalidSeverityFilter)
            && !now_initialized
    } else {
        r is Ok && now_initialized && r->Ok_0.wf() && r->Ok_0@ == logger_pipeline(threshold->0)
            && r->Ok_0.endpoint_spec() == default_endpoint()
    }
}

/// Initializes the pipeline of the process with the usual configuration.
/// `severity` is the severity filter that the environment asks for, if
/// it asks for one; without one, records below `Warn` are filtered out,
/// and the first initialization succeeds.
pub fn init_logger(registry: &mut Registry, severity: Option<String>) -> (r: Result<
    Pipeline,
    InitError,
>)
    ensures
        logger_outcome(
            old(registry).initialized(),
            final(registry).initialized(),
            parsed_threshold(severity_text(severity)),
            r,
        ),
        severity is None ==> parsed_threshold(severity_text(severity)) == Some(
            Threshold::AtLeast(Level::Warn),
        ),
        severity is None && !old(registry).initialized() ==> r is Ok,
{
    let config = default_config(severity);
    let r = registry.init(config);
    proof {
        if r is Ok {
            assert(r->Ok_0@.layers =~= logger_pipeline(
                parsed_threshold(severity_text(severity))->0,
            ).layers);
        }
    }
    r
}

/// The settings of the exporter for the collector at `otlp_endpoint`, as
/// [`configure_opentelemetry_layer`] makes them.
pub open spec fn export_settings(settings: ExporterSettings, otlp_endpoint: Seq<char>) -> bool {
    &&& settings.endpoint@ == otlp_endpoint
    &&& settings.service@ == default_service()
    &&& settings.max_batch_size == DEFAULT_BATCH_SIZE
    &&& settings.max_batch_delay == DEFAULT_BATCH_DELAY
    &&& settings.capacity == DEFAULT_CAPACITY
    &&& settings.retry == (RetryPolicy {
        max_retries: DEFAULT_MAX_RETRIES,
        base_delay: DEFAULT_BASE_DELAY,
    })
}

/// Sets up the export side for the collector at `otlp_endpoint`: a batch
/// exporter for the service `test`. A malformed address is reported at
/// once; the address of a collector on this machine is not malformed.
pub fn configure_opentelemetry_layer(otlp_endpoint: &str) -> (r: Result<BatchExporter, ConfigError>)
    ensures
        match r {
            Ok(e) => endpoint_accepted(otlp_endpoint@) && e.wf() && e.endpoint_spec()
                == otlp_endpoint@ && e@ == ExporterModel::fresh(
                default_service(),
                DEFAULT_BATCH_SIZE as nat,
                DEFAULT_BATCH_DELAY,
                DEFAULT_CAPACITY as nat,
                RetryPolicy { max_retries: DEFAULT_MAX_RETRIES, base_delay: DEFAULT_BASE_DELAY },
            ),
            Err(e) => !endpoint_accepted(otlp_endpoint@) && e == ConfigError::MalformedEndpoint,
        },
        otlp_endpoint@ == default_endpoint() ==> r is Ok,
{
    let settings = ExporterSettings {
        endpoint: String::from_str(otlp_endpoint),
        service: String::from_str("test"),
        max_batch_size: DEFAULT_BATCH_SIZE,
        max_batch_delay: DEFAULT_BATCH_DELAY,
        capacity: DEFAULT_CAPACITY,
        retry: RetryPolicy { max_retries: DEFAULT_MAX_RETRIES, base_delay: DEFAULT_BASE_DELAY },
    };
    BatchExporter::connect(settings)
}

} // verus!
