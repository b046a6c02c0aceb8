//! A Redis-backed job queue library whose queue rules, wire encodings and
//! reply decoders are verified with Verus.
use vstd::prelude::*;

pub mod connection;
pub mod error;
pub mod flow_producer;
pub mod json;
pub mod queue;
pub mod queue_events;
pub mod repeat;
pub mod resp;
pub mod scheduler;
pub mod scripts;
pub mod text;
pub mod types;

pub use connection::RedisConnection;
pub use error::BullmqError;
pub use flow_producer::{FlowJob, FlowProducer, FlowProducerBuilder, FlowStep};
pub use queue::QueueBuilder;
pub use queue_events::{QueueEvent, QueueEventsBuilder};
pub use types::{
    BackoffStrategy, DeduplicationOptions, JobOptions, JobOptionsBuilder, JobSchedulerTemplate,
    JobState, Metrics, MetricsMeta, MetricsOptions, RateLimiterOptions, RepeatOptions,
    RepeatOptionsBuilder, WorkerOptions,
};

verus! {
} // verus!
