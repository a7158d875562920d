//! Background jobs: digital fulfillment, outbox publishing and shipment
//! status sync. Each job holds its collaborators; what a job decides between
//! their calls is here, and the caller makes the calls.

use vstd::prelude::*;

verus! {

/// Delivers a digital order, then has settlement record the delivery and
/// mark the order eligible, stopping at the first failure.
pub struct FulfillDigitalOrderJob<D, S> {
    delivery: D,
    settlement: S,
}

/// The calls of a digital fulfillment, in the order they are made.
#[derive(Clone, Copy, Debug, PartialEq, Eq, Structural)]
pub enum FulfillmentStep {
    Deliver,
    RecordDigitalDelivered,
    MarkEligible,
}

#[derive(Debug)]
pub enum FulfillDigitalOrderError<DE, SE> {
    Delivery(DE),
    Settlement(SE),
}

impl<D, S> FulfillDigitalOrderJob<D, S> {
    pub closed spec fn delivery_service(&self) -> D {
        self.delivery
    }

    pub closed spec fn settlement_service(&self) -> S {
        self.settlement
    }

    pub fn new(delivery: D, settlement: S) -> (r: Self)
        ensures
            r.delivery_service() == delivery,
            r.settlement_service() == settlement,
    {
        FulfillDigitalOrderJob { delivery, settlement }
    }

    pub fn delivery(&self) -> (r: &D)
        ensures
            *r == self.delivery_service(),
    {
        &self.delivery
    }

    pub fn settlement(&self) -> (r: &S)
        ensures
            *r == self.settlement_service(),
    {
        &self.settlement
    }

    /// The first call of a fulfillment: the delivery.
    pub fn first_step() -> (r: FulfillmentStep)
        ensures
            r == FulfillmentStep::Deliver,
    {
        FulfillmentStep::Deliver
    }

    /// The call after `done` succeeded; none once the order is eligible.
    pub fn next_step(done: FulfillmentStep) -> (r: Option<FulfillmentStep>)
        ensures
            done == FulfillmentStep::Deliver ==> r == Some(FulfillmentStep::RecordDigitalDelivered),
            done == FulfillmentStep::RecordDigitalDelivered ==> r == Some(FulfillmentStep::MarkEligible),
            done == FulfillmentStep::MarkEligible ==> r is None,
    {
        match done {
            FulfillmentStep::Deliver => Some(FulfillmentStep::RecordDigitalDelivered),
            FulfillmentStep::RecordDigitalDelivered => Some(FulfillmentStep::MarkEligible),
            FulfillmentStep::MarkEligible => None,
        }
    }
}

/// Publishes pending outbox events; an event whose publish fails stays
/// retryable until `max_attempts`.
pub struct OutboxPublisher<S, P> {
    store: S,
    publisher: P,
    max_attempts: u32,
}

/// What the publisher writes back for an event it tried to publish.
#[derive(Clone, Copy, Debug, PartialEq, Eq, Structural)]
pub enum OutboxUpdate {
    MarkPublished,
    MarkFailed { max_attempts: u32 },
}

impl<S, P> OutboxPublisher<S, P> {
    pub closed spec fn store_service(&self) -> S {
        self.store
    }

    pub closed spec fn publisher_service(&self) -> P {
        self.publisher
    }

    pub closed spec fn attempts(&self) -> u32 {
        self.max_attempts
    }

    pub fn new(store: S, publisher: P, max_attempts: u32) -> (r: Self)
        ensures
            r.store_service() == store,
            r.publisher_service() == publisher,
            r.attempts() == max_attempts,
    {
        OutboxPublisher { store, publisher, max_attempts }
    }

    pub fn store(&self) -> (r: &S)
        ensures
            *r == self.store_service(),
    {
        &self.store
    }

    pub fn publisher(&self) -> (r: &P)
        ensures
            *r == self.publisher_service(),
    {
        &self.publisher
    }

    pub fn max_attempts(&self) -> (r: u32)
        ensures
            r == self.attempts(),
    {
        self.max_attempts
    }

    /// After trying to publish one event of a batch in which `published`
    /// events went out so far: a published event is marked and counted; a
    /// failed one is marked failed, to be retried later.
    pub fn settle(&self, publish_succeeded: bool, published: usize) -> (r: (OutboxUpdate, usize))
        requires
            publish_succeeded ==> published < usize::MAX,
        ensures
            publish_succeeded ==> r == (OutboxUpdate::MarkPublished, (published + 1) as usize),
            !publish_succeeded ==> r == (OutboxUpdate::MarkFailed { max_attempts: self.attempts() }, published),
    {
        if publish_succeeded {
            (OutboxUpdate::MarkPublished, published + 1)
        } else {
            (OutboxUpdate::MarkFailed { max_attempts: self.max_attempts }, published)
        }
    }
}

/// Pulls a shipment's carrier status through its synchronizer.
pub struct SyncShipmentStatusJob<U> {
    update: U,
}

impl<U> SyncShipmentStatusJob<U> {
    pub closed spec fn synchronizer(&self) -> U {
        self.update
    }

    pub fn new(update: U) -> (r: Self)
        ensures
            r.synchronizer() == update,
    {
        SyncShipmentStatusJob { update }
    }

    pub fn update(&self) -> (r: &U)
        ensures
            *r == self.synchronizer(),
    {
        &self.update
    }
}

} // verus!
