use vstd::prelude::*;

use crate::address::is_address_text;
use crate::dispatch::SubscriptionTask;
use crate::manifest::{DataSourceDefinition, HostError};
use crate::subscription::{
    is_subscription_for, is_subscription_id, prepare_subscriptions, EventSubscription,
};

verus! {

/// What a runtime host is built from.
#[derive(Clone, Debug)]
pub struct RuntimeHostConfig {
    pub data_source_definition: DataSourceDefinition,
}

/// Owns the subscriptions of one dataset and the outbound stream of its
/// mutation events, which it hands to exactly one consumer.
pub struct RuntimeHost<S> {
    config: RuntimeHostConfig,
    mapping_location: String,
    subscriptions: Vec<EventSubscription>,
    output: Option<S>,
}

/// `def` has a data set, and `subs` are the subscriptions of the first one: one
/// per event handler, in the handlers' order, each under a generated id.
pub open spec fn subscriptions_of(def: DataSourceDefinition, subs: Seq<EventSubscription>) -> bool {
    let dataset = def.datasets[0];
    &&& def.datasets.len() > 0
    &&& subs.len() == dataset.mapping.event_handlers.len()
    &&& forall|i: int|
        0 <= i < subs.len() ==> {
            let sub = #[trigger] subs[i];
            &&& is_subscription_id(sub.subscription_id@)
            &&& is_subscription_for(
                sub,
                sub.subscription_id@,
                dataset.address@,
                dataset.mapping.event_handlers[i],
            )
        }
}

/// Whether a host can be built from `def`: it has a data set, and the first
/// one's contract address is an address text.
pub open spec fn is_buildable(def: DataSourceDefinition) -> bool {
    def.datasets.len() > 0 && is_address_text(def.datasets[0].address@)
}

/// `host` is a fresh host for `def`: it keeps the definition, the location of
/// the first data set's mapping, that data set's subscriptions, and `output`
/// as its untaken outbound stream.
pub open spec fn built_from<S>(host: RuntimeHost<S>, def: DataSourceDefinition, output: S) -> bool {
    &&& host.definition() == def
    &&& host.location() == def.datasets[0].mapping.source_path@
    &&& subscriptions_of(def, host.subscription_list())
    &&& host.output() == Some(output)
}

/// The effect of taking the stream from `before`, which became `after`, with
/// result `r`: the untaken stream, if any, is handed out and none is left.
pub open spec fn took_stream<S>(before: RuntimeHost<S>, after: RuntimeHost<S>, r: Option<S>) -> bool {
    &&& r == before.output()
    &&& after.output() is None
    &&& after.definition() == before.definition()
    &&& after.location() == before.location()
    &&& after.subscription_list() == before.subscription_list()
}

impl<S> RuntimeHost<S> {
    pub closed spec fn definition(&self) -> DataSourceDefinition {
        self.config.data_source_definition
    }

    pub closed spec fn location(&self) -> Seq<char> {
        self.mapping_location@
    }

    pub closed spec fn subscription_list(&self) -> Seq<EventSubscription> {
        self.subscriptions@
    }

    /// The outbound stream, while no consumer has taken it.
    pub closed spec fn output(&self) -> Option<S> {
        self.output
    }

    /// Builds the host of the first data set of `config`'s definition: the
    /// mapping program's location and one subscription per event handler.
    /// `output` is the receiving end of the host's outbound stream.
    pub fn new(config: RuntimeHostConfig, output: S) -> (r: Result<RuntimeHost<S>, HostError>)
        ensures
            r is Ok <==> is_buildable(config.data_source_definition),
            config.data_source_definition.datasets.len() == 0 ==> r == Err::<
                RuntimeHost<S>,
                HostError,
            >(HostError::NoDataSets),
            config.data_source_definition.datasets.len() > 0 && !is_address_text(
                config.data_source_definition.datasets[0].address@,
            ) ==> r == Err::<RuntimeHost<S>, HostError>(HostError::InvalidAddress),
            r is Ok ==> built_from(r->Ok_0, config.data_source_definition, output),
    {
        let dataset = match config.data_source_definition.first_dataset() {
            Ok(d) => d,
            Err(e) => {
                return Err(e);
            },
        };
        let subscriptions = match prepare_subscriptions(dataset) {
            Ok(subs) => subs,
            Err(e) => {
                return Err(e);
            },
        };
        let mapping_location = dataset.mapping.source_path.clone();
        Ok(RuntimeHost { config, mapping_location, subscriptions, output: Some(output) })
    }

    /// The dataset definition the host was built for.
    pub fn data_source_definition(&self) -> (r: &DataSourceDefinition)
        ensures
            *r == self.definition(),
    {
        &self.config.data_source_definition
    }

    /// Where the mapping program is to be loaded from.
    pub fn mapping_location(&self) -> (r: &String)
        ensures
            r@ == self.location(),
    {
        &self.mapping_location
    }

    /// The host's subscriptions, one per event handler.
    pub fn subscriptions(&self) -> (r: &Vec<EventSubscription>)
        ensures
            r@ == self.subscription_list(),
    {
        &self.subscriptions
    }

    /// Hands the outbound stream to the caller the first time, and `None` on
    /// every later call.
    pub fn take_event_stream(&mut self) -> (r: Option<S>)
        ensures
            took_stream(*old(self), *final(self), r),
    {
        self.output.take()
    }

    /// The dispatch task of subscription `i`, bound to the handler of the
    /// event handler it was made from.
    pub fn subscription_task(&self, i: usize) -> (r: SubscriptionTask)
        requires
            subscriptions_of(self.definition(), self.subscription_list()),
            i < self.subscription_list().len(),
        ensures
            r.idle(),
            r.subscription_id_spec() == self.subscription_list()[i as int].subscription_id@,
            r.event_signature_spec() == self.subscription_list()[i as int].event_signature@,
            r.handler_spec()
                == self.definition().datasets[0].mapping.event_handlers[i as int].handler@,
    {
        let sub = &self.subscriptions[i];
        let handler = &self.config.data_source_definition.datasets[0].mapping.event_handlers[i];
        SubscriptionTask::new(
            sub.subscription_id.clone(),
            sub.event_signature.clone(),
            handler.handler.clone(),
        )
    }
}

/// Builds runtime hosts for datasets; the only thing shared between the hosts
/// it builds is the handle on the chain adapter.
pub struct RuntimeHostBuilder<A> {
    chain_adapter: A,
}

impl<A> RuntimeHostBuilder<A> {
    pub closed spec fn adapter(&self) -> A {
        self.chain_adapter
    }

    pub fn new(chain_adapter: A) -> (r: RuntimeHostBuilder<A>)
        ensures
            r.adapter() == chain_adapter,
    {
        RuntimeHostBuilder { chain_adapter }
    }

    /// The handle on the chain adapter that the hosts register their
    /// subscriptions with.
    pub fn chain_adapter(&self) -> (r: &A)
        ensures
            *r == self.adapter(),
    {
        &self.chain_adapter
    }

    /// Builds a host for `data_source_definition`; fails, without a host, when
    /// the definition has no data set or its address does not parse.
    pub fn build<S>(&mut self, data_source_definition: DataSourceDefinition, output: S) -> (r:
        Result<RuntimeHost<S>, HostError>)
        ensures
            final(self).adapter() == old(self).adapter(),
            r is Ok <==> is_buildable(data_source_definition),
            data_source_definition.datasets.len() == 0 ==> r == Err::<
                RuntimeHost<S>,
                HostError,
            >(HostError::NoDataSets),
            data_source_definition.datasets.len() > 0 && !is_address_text(
                data_source_definition.datasets[0].address@,
            ) ==> r == Err::<RuntimeHost<S>, HostError>(HostError::InvalidAddress),
            r is Ok ==> built_from(r->Ok_0, data_source_definition, output),
    {
        RuntimeHost::new(RuntimeHostConfig { data_source_definition }, output)
    }
}

/// A freshly built host hands out its outbound stream exactly once: the first
/// take returns it, and the host is left without one, so that every later
/// take returns `None`.
pub proof fn lemma_event_stream_taken_once<S>(
    def: DataSourceDefinition,
    output: S,
    h0: RuntimeHost<S>,
    h1: RuntimeHost<S>,
    h2: RuntimeHost<S>,
    first: Option<S>,
    second: Option<S>,
)
    requires
        is_buildable(def),
        built_from(h0, def, output),
        took_stream(h0, h1, first),
        took_stream(h1, h2, second),
    ensures
        first == Some(output),
        second is None,
        h2.output() is None,
{
}

/// A data set without event handlers gives a host without subscriptions,
/// whose stream is still there to be taken.
pub proof fn lemma_no_handlers_no_subscriptions<S>(
    def: DataSourceDefinition,
    output: S,
    host: RuntimeHost<S>,
)
    requires
        is_buildable(def),
        def.datasets[0].mapping.event_handlers.len() == 0,
        built_from(host, def, output),
    ensures
        host.subscription_list().len() == 0,
        host.output() == Some(output),
{
}

} // verus!
