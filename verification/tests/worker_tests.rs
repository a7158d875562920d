use market_bot::worker::{FulfillDigitalOrderJob, FulfillmentStep, OutboxPublisher, OutboxUpdate, SyncShipmentStatusJob};

#[test]
fn digital_fulfillment_runs_its_steps_in_order() {
    let job = FulfillDigitalOrderJob::new("delivery", "settlement");
    assert_eq!(*job.delivery(), "delivery");
    assert_eq!(*job.settlement(), "settlement");
    let mut step = FulfillDigitalOrderJob::<(), ()>::first_step();
    let mut seen = vec![step];
    while let Some(next) = FulfillDigitalOrderJob::<(), ()>::next_step(step) {
        seen.push(next);
        step = next;
    }
    assert_eq!(seen, vec![FulfillmentStep::Deliver, FulfillmentStep::RecordDigitalDelivered, FulfillmentStep::MarkEligible]);
}

#[test]
fn outbox_publisher_counts_published_events_and_keeps_failures_retryable() {
    let publisher = OutboxPublisher::new((), (), 10);
    assert_eq!(publisher.max_attempts(), 10);
    assert_eq!(publisher.settle(true, 0), (OutboxUpdate::MarkPublished, 1));
    assert_eq!(publisher.settle(false, 1), (OutboxUpdate::MarkFailed { max_attempts: 10 }, 1));
    let job = SyncShipmentStatusJob::new(7_u8);
    assert_eq!(*job.update(), 7);
}
