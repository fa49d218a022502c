use vstd::prelude::*;

use crate::address::{is_address_text, parse_address, spells_address, Address};
use crate::manifest::{DataSet, EventHandler, HostError};

verus! {

/// A range of block numbers; `None` leaves an end open.
#[derive(Clone, Copy, Debug, PartialEq, Eq)]
pub struct BlockNumberRange {
    pub from: Option<u64>,
    pub to: Option<u64>,
}

/// A filter registered with the chain adapter: the events of one signature
/// emitted by one contract within a block range.
#[derive(Clone, Debug)]
pub struct EventSubscription {
    pub subscription_id: String,
    pub address: Address,
    pub event_signature: String,
    pub range: BlockNumberRange,
}

/// The range a subscription watches by default: from genesis, open-ended.
pub open spec fn default_range() -> BlockNumberRange {
    BlockNumberRange { from: Some(0), to: None }
}

/// A lowercase hexadecimal digit.
pub open spec fn is_lower_hex_digit(c: char) -> bool {
    ('0' <= c && c <= '9') || ('a' <= c && c <= 'f')
}

/// The shape of a generated subscription id: 32 lowercase hexadecimal digits.
pub open spec fn is_subscription_id(s: Seq<char>) -> bool {
    s.len() == 32 && forall|i: int| 0 <= i < 32 ==> is_lower_hex_digit(#[trigger] s[i])
}

/// `sub` is the subscription of `handler` on the contract whose address text is
/// `address`, under the id `id`.
pub open spec fn is_subscription_for(
    sub: EventSubscription,
    id: Seq<char>,
    address: Seq<char>,
    handler: EventHandler,
) -> bool {
    &&& sub.subscription_id@ == id
    &&& spells_address(address, sub.address.bytes@)
    &&& sub.event_signature@ == handler.event@
    &&& sub.range == default_range()
}

/// Builds one subscription per event handler of `dataset`, the `i`-th under
/// `ids[i]`, all on the data set's contract address.
pub fn subscriptions_for(dataset: &DataSet, ids: &Vec<String>) -> (r: Result<
    Vec<EventSubscription>,
    HostError,
>)
    requires
        ids.len() == dataset.mapping.event_handlers.len(),
    ensures
        r is Err <==> !is_address_text(dataset.address@),
        r is Err ==> r == Err::<Vec<EventSubscription>, HostError>(HostError::InvalidAddress),
        r is Ok ==> r->Ok_0.len() == ids.len(),
        r is Ok ==> forall|i: int|
            0 <= i < ids.len() ==> is_subscription_for(
                #[trigger] r->Ok_0[i],
                ids[i]@,
                dataset.address@,
                dataset.mapping.event_handlers[i],
            ),
{
    let address = match parse_address(dataset.address.as_str()) {
        Some(a) => a,
        None => {
            return Err(HostError::InvalidAddress);
        },
    };
    let handlers = &dataset.mapping.event_handlers;
    let mut subs: Vec<EventSubscription> = Vec::new();
    let mut i: usize = 0;
    while i < handlers.len()
        invariant
            handlers == &dataset.mapping.event_handlers,
            ids.len() == handlers.len(),
            i <= handlers.len(),
            subs.len() == i,
            spells_address(dataset.address@, address.bytes@),
            forall|j: int|
                0 <= j < i ==> is_subscription_for(
                    #[trigger] subs[j],
                    ids[j]@,
                    dataset.address@,
                    handlers[j],
                ),
        decreases handlers.len() - i,
    {
        let sub = EventSubscription {
            subscription_id: ids[i].clone(),
            address,
            event_signature: handlers[i].event.clone(),
            range: BlockNumberRange { from: Some(0), to: None },
        };
        subs.push(sub);
        i = i + 1;
    }
    Ok(subs)
}

/// Relies on `uuid::Uuid::new_v4` and its `simple` text form: a random
/// version-4 UUID written as 32 lowercase hexadecimal digits.
#[verifier::external_body]
fn new_subscription_id() -> (r: String)
    ensures
        is_subscription_id(r@),
{
    uuid::Uuid::new_v4().simple().to_string()
}

/// Builds one subscription per event handler of `dataset`, each under a
/// freshly generated id.
pub fn prepare_subscriptions(dataset: &DataSet) -> (r: Result<Vec<EventSubscription>, HostError>)
    ensures
        r is Err <==> !is_address_text(dataset.address@),
        r is Err ==> r == Err::<Vec<EventSubscription>, HostError>(HostError::InvalidAddress),
        r is Ok ==> r->Ok_0.len() == dataset.mapping.event_handlers.len(),
        r is Ok ==> forall|i: int|
            0 <= i < r->Ok_0.len() ==> {
                let sub = #[trigger] r->Ok_0[i];
                &&& is_subscription_id(sub.subscription_id@)
                &&& is_subscription_for(
                    sub,
                    sub.subscription_id@,
                    dataset.address@,
                    dataset.mapping.event_handlers[i],
                )
            },
{
    let n = dataset.mapping.event_handlers.len();
    let mut ids: Vec<String> = Vec::new();
    while ids.len() < n
        invariant
            ids.len() <= n,
            forall|j: int| 0 <= j < ids.len() ==> is_subscription_id(#[trigger] ids[j]@),
        decreases n - ids.len(),
    {
        ids.push(new_subscription_id());
    }
    subscriptions_for(dataset, &ids)
}

} // verus!
