//! The runtime host of an indexing node: it derives event subscriptions from a
//! dataset definition, dispatches chain events to a mapping module, and
//! republishes the module's entity mutations on a bounded, single-consumer
//! outbound stream.

pub mod address;
pub mod dispatch;
pub mod entity;
pub mod host;
pub mod manifest;
pub mod outbound;
pub mod server;
pub mod subscription;

pub use address::{parse_address, Address};
pub use dispatch::{
    lemma_invocations_keep_order, ExecutionError, ExecutionErrorKind, ForwardOutcome,
    InvocationFailure, SubscriptionTask,
};
pub use entity::{Entity, RuntimeHostEvent, StoreKey, Value};
pub use host::{
    lemma_event_stream_taken_once, lemma_no_handlers_no_subscriptions, RuntimeHost,
    RuntimeHostBuilder, RuntimeHostConfig,
};
pub use manifest::{DataSet, DataSourceDefinition, EventHandler, HostError, Mapping};
pub use outbound::{
    lemma_backpressure, lemma_same_event_sent_twice, lemma_silent_channel_yields_nothing,
    OutboundChannel, RecvOutcome, SendError, OUTBOUND_CAPACITY,
};
pub use server::{
    not_found_response, query_response, route, GraphQLServerError, HttpResponse,
    MockGraphQLServer, Route, StreamError,
};
pub use subscription::{
    prepare_subscriptions, subscriptions_for, BlockNumberRange, EventSubscription,
};
