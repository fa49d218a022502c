use thegraph_runtime::{
    parse_address, prepare_subscriptions, DataSet, DataSourceDefinition, Entity, EventHandler,
    ExecutionError, ExecutionErrorKind, ForwardOutcome, HostError, Mapping, OutboundChannel,
    RecvOutcome, RuntimeHost, RuntimeHostBuilder, RuntimeHostConfig, RuntimeHostEvent, SendError,
    StoreKey, Value, OUTBOUND_CAPACITY,
};

const TRANSFER: &str = "Transfer(address,address,uint256)";
const ADDRESS: &str = "0x22843e74c59580b3eaf6c233fa67d8b7c561a835";

fn handler(event: &str, name: &str) -> EventHandler {
    EventHandler { event: event.to_string(), handler: name.to_string() }
}

fn definition(handlers: Vec<EventHandler>) -> DataSourceDefinition {
    DataSourceDefinition {
        id: "sg1".to_string(),
        datasets: vec![DataSet {
            address: ADDRESS.to_string(),
            mapping: Mapping {
                source_path: "mappings/token.wasm".to_string(),
                event_handlers: handlers,
            },
        }],
    }
}

fn account(balance: &str) -> RuntimeHostEvent {
    let mut entity = Entity::new();
    entity.set("balance".to_string(), Value::String(balance.to_string()));
    RuntimeHostEvent::EntitySet(
        StoreKey::new("sg1".to_string(), "Account".to_string(), "0xabc".to_string()),
        entity,
    )
}

fn balance_of(event: &RuntimeHostEvent) -> Option<String> {
    match event {
        RuntimeHostEvent::EntitySet(_, entity) => match entity.get(&"balance".to_string()) {
            Some(Value::String(s)) => Some(s.clone()),
            _ => None,
        },
        RuntimeHostEvent::EntityRemoved(_) => None,
    }
}

fn recv_balance(channel: &mut OutboundChannel) -> Option<String> {
    match channel.try_recv() {
        RecvOutcome::Item(event) => balance_of(&event),
        _ => None,
    }
}

#[test]
fn happy_path_yields_exactly_the_emitted_event() {
    let mut builder = RuntimeHostBuilder::new(());
    let mut host = builder.build(definition(vec![handler(TRANSFER, "handleTransfer")]), 7u32).unwrap();
    assert_eq!(host.subscriptions().len(), 1);
    assert_eq!(host.subscriptions()[0].event_signature, TRANSFER);
    assert_eq!(host.subscriptions()[0].range.from, Some(0));
    assert_eq!(host.subscriptions()[0].range.to, None);
    assert_eq!(host.mapping_location(), "mappings/token.wasm");
    assert_eq!(host.take_event_stream(), Some(7u32));

    let mut channel = OutboundChannel::new();
    let mut task = host.subscription_task(0);
    assert_eq!(task.handler(), "handleTransfer");
    assert!(task.on_invocation(Ok(vec![account("100")])).is_none());
    assert_eq!(task.forward(&mut channel), ForwardOutcome::Done);
    match channel.try_recv() {
        RecvOutcome::Item(RuntimeHostEvent::EntitySet(key, entity)) => {
            assert_eq!(key.subgraph, "sg1");
            assert_eq!(key.entity, "Account");
            assert_eq!(key.id, "0xabc");
            assert_eq!(entity.len(), 1);
            assert!(matches!(entity.get(&"balance".to_string()), Some(Value::String(s)) if s == "100"));
        }
        other => panic!("unexpected outcome {:?}", other),
    }
    assert!(matches!(channel.try_recv(), RecvOutcome::Empty));
}

#[test]
fn decode_failure_emits_nothing_and_host_continues() {
    let host = RuntimeHost::new(
        RuntimeHostConfig { data_source_definition: definition(vec![handler(TRANSFER, "handleTransfer")]) },
        (),
    )
    .unwrap();
    let mut channel = OutboundChannel::new();
    let mut task = host.subscription_task(0);
    let failure = task
        .on_invocation(Err(ExecutionError {
            kind: ExecutionErrorKind::Decode,
            message: "cannot decode uint256".to_string(),
        }))
        .unwrap();
    assert_eq!(failure.subscription_id, host.subscriptions()[0].subscription_id);
    assert_eq!(failure.event_signature, TRANSFER);
    assert_eq!(failure.handler, "handleTransfer");
    assert_eq!(failure.error.kind, ExecutionErrorKind::Decode);
    assert!(task.is_idle());
    assert_eq!(task.forward(&mut channel), ForwardOutcome::Done);
    assert!(matches!(channel.try_recv(), RecvOutcome::Empty));

    assert!(task.on_invocation(Ok(vec![account("5")])).is_none());
    assert_eq!(task.forward(&mut channel), ForwardOutcome::Done);
    assert_eq!(recv_balance(&mut channel), Some("5".to_string()));
}

#[test]
fn empty_dataset_list_fails_to_build() {
    let mut builder = RuntimeHostBuilder::new(());
    let def = DataSourceDefinition { id: "sg1".to_string(), datasets: vec![] };
    assert!(matches!(builder.build(def, ()), Err(HostError::NoDataSets)));
}

#[test]
fn unparseable_address_fails_to_build() {
    let mut def = definition(vec![handler(TRANSFER, "handleTransfer")]);
    def.datasets[0].address = "0xnothex".to_string();
    let mut builder = RuntimeHostBuilder::new(());
    assert!(matches!(builder.build(def, ()), Err(HostError::InvalidAddress)));
}

#[test]
fn event_stream_is_taken_once() {
    let mut builder = RuntimeHostBuilder::new(());
    let mut host = builder.build(definition(vec![handler(TRANSFER, "h")]), "stream").unwrap();
    assert_eq!(host.take_event_stream(), Some("stream"));
    assert_eq!(host.take_event_stream(), None);
    assert_eq!(host.take_event_stream(), None);
}

#[test]
fn builder_builds_independent_hosts() {
    let mut builder = RuntimeHostBuilder::new(42u8);
    let a = builder.build(definition(vec![handler(TRANSFER, "h")]), 1u8).unwrap();
    let b = builder.build(definition(vec![handler(TRANSFER, "h")]), 2u8).unwrap();
    assert_eq!(*builder.chain_adapter(), 42u8);
    assert_ne!(a.subscriptions()[0].subscription_id, b.subscriptions()[0].subscription_id);
    assert_eq!(a.data_source_definition().id, "sg1");
}

#[test]
fn no_handlers_gives_no_subscriptions_and_a_silent_open_stream() {
    let mut host = RuntimeHost::new(RuntimeHostConfig { data_source_definition: definition(vec![]) }, ())
        .unwrap();
    assert_eq!(host.subscriptions().len(), 0);
    assert_eq!(host.take_event_stream(), Some(()));
    let mut channel = OutboundChannel::new();
    for _ in 0..3 {
        assert!(matches!(channel.try_recv(), RecvOutcome::Empty));
    }
    assert!(!channel.is_closed());
    channel.close();
    assert!(matches!(channel.try_recv(), RecvOutcome::Ended));
}

#[test]
fn same_event_dispatched_twice_gives_two_events() {
    let mut channel = OutboundChannel::new();
    assert!(channel.try_send(account("100")).is_ok());
    assert!(channel.try_send(account("100")).is_ok());
    assert_eq!(channel.len(), 2);
    assert_eq!(recv_balance(&mut channel), Some("100".to_string()));
    assert_eq!(recv_balance(&mut channel), Some("100".to_string()));
    assert!(matches!(channel.try_recv(), RecvOutcome::Empty));
}

#[test]
fn full_channel_refuses_until_a_read() {
    let mut channel = OutboundChannel::new();
    for i in 0..OUTBOUND_CAPACITY {
        assert!(channel.try_send(account(&i.to_string())).is_ok());
    }
    assert_eq!(channel.len(), 100);
    match channel.try_send(account("extra")) {
        Err(SendError::Full(event)) => assert_eq!(balance_of(&event), Some("extra".to_string())),
        other => panic!("unexpected {:?}", other),
    }
    assert_eq!(channel.len(), 100);
    assert_eq!(recv_balance(&mut channel), Some("0".to_string()));
    assert!(channel.try_send(account("extra")).is_ok());
    assert_eq!(channel.len(), 100);
}

#[test]
fn closed_channel_refuses_and_drains() {
    let mut channel = OutboundChannel::new();
    assert!(channel.try_send(account("1")).is_ok());
    channel.close();
    assert!(matches!(channel.try_send(account("2")), Err(SendError::Closed(_))));
    assert_eq!(recv_balance(&mut channel), Some("1".to_string()));
    assert!(matches!(channel.try_recv(), RecvOutcome::Ended));
}

#[test]
fn invocations_of_one_subscription_keep_their_order() {
    let host = RuntimeHost::new(
        RuntimeHostConfig { data_source_definition: definition(vec![handler(TRANSFER, "h")]) },
        (),
    )
    .unwrap();
    let mut channel = OutboundChannel::new();
    let mut task = host.subscription_task(0);
    assert!(task.on_invocation(Ok(vec![account("a1"), account("a2")])).is_none());
    assert_eq!(task.forward(&mut channel), ForwardOutcome::Done);
    assert!(task.on_invocation(Ok(vec![account("b1")])).is_none());
    assert_eq!(task.forward(&mut channel), ForwardOutcome::Done);
    assert_eq!(recv_balance(&mut channel), Some("a1".to_string()));
    assert_eq!(recv_balance(&mut channel), Some("a2".to_string()));
    assert_eq!(recv_balance(&mut channel), Some("b1".to_string()));
}

#[test]
fn forward_blocks_on_a_full_channel_and_resumes() {
    let host = RuntimeHost::new(
        RuntimeHostConfig { data_source_definition: definition(vec![handler(TRANSFER, "h")]) },
        (),
    )
    .unwrap();
    let mut channel = OutboundChannel::new();
    for i in 0..99 {
        assert!(channel.try_send(account(&i.to_string())).is_ok());
    }
    let mut task = host.subscription_task(0);
    assert!(task.on_invocation(Ok(vec![account("x"), account("y")])).is_none());
    assert_eq!(task.forward(&mut channel), ForwardOutcome::Blocked);
    assert!(!task.is_idle());
    assert_eq!(channel.len(), 100);
    assert_eq!(recv_balance(&mut channel), Some("0".to_string()));
    assert_eq!(task.forward(&mut channel), ForwardOutcome::Done);
    assert!(task.is_idle());
    for _ in 1..99 {
        assert!(recv_balance(&mut channel).is_some());
    }
    assert_eq!(recv_balance(&mut channel), Some("x".to_string()));
    assert_eq!(recv_balance(&mut channel), Some("y".to_string()));
}

#[test]
fn forward_stops_on_a_closed_channel() {
    let host = RuntimeHost::new(
        RuntimeHostConfig { data_source_definition: definition(vec![handler(TRANSFER, "h")]) },
        (),
    )
    .unwrap();
    let mut channel = OutboundChannel::new();
    channel.close();
    let mut task = host.subscription_task(0);
    assert!(task.on_invocation(Ok(vec![account("x")])).is_none());
    assert_eq!(task.forward(&mut channel), ForwardOutcome::Closed);
    assert!(!task.is_idle());
}

#[test]
fn subscriptions_follow_the_handlers() {
    let dataset = &definition(vec![handler(TRANSFER, "a"), handler("Approval(address,address,uint256)", "b")])
        .datasets[0]
        .clone();
    let subs = prepare_subscriptions(dataset).unwrap();
    assert_eq!(subs.len(), 2);
    assert_eq!(subs[1].event_signature, "Approval(address,address,uint256)");
    assert_eq!(subs[0].address, parse_address(ADDRESS).unwrap());
    for sub in &subs {
        assert_eq!(sub.subscription_id.len(), 32);
        assert!(sub.subscription_id.chars().all(|c| c.is_ascii_digit() || ('a'..='f').contains(&c)));
    }
    assert_ne!(subs[0].subscription_id, subs[1].subscription_id);
}
