//! End-to-end behavior of the host driver, the response capability and
//! the per-item state machine.

use rt_worker::host::WorkerHost;
use rt_worker::responder::Responder;
use rt_worker::state::WorkState;
use rt_worker::status::{SubmitStatus, WorkStatus};
use rt_worker::worker::{DoublingWorker, EchoTwiceWorker, WorkerEvent};

#[test]
fn round_trip_single_payload() {
    let mut host = WorkerHost::new(4, 4);
    let mut w = DoublingWorker::new();
    assert_eq!(host.submit(vec![1, 2, 3]), SubmitStatus::Submitted);
    assert_eq!(host.execute_next(&mut w), Some(WorkStatus::Success));
    // The work callback received exactly the submitted bytes.
    assert_eq!(w.events()[0], WorkerEvent::Work(vec![1, 2, 3]));
}

#[test]
fn round_trip_empty_payload() {
    let mut host = WorkerHost::new(2, 2);
    let mut w = DoublingWorker::new();
    assert_eq!(host.submit(vec![]), SubmitStatus::Submitted);
    assert_eq!(host.execute_next(&mut w), Some(WorkStatus::Success));
    assert_eq!(w.events()[0], WorkerEvent::Work(vec![]));
    assert_eq!(host.deliver_next(&mut w), Some(WorkStatus::Success));
    assert_eq!(w.events()[1], WorkerEvent::Response(vec![]));
}

#[test]
fn ordering_is_fifo_for_work_and_responses() {
    let mut host = WorkerHost::new(8, 8);
    let mut w = DoublingWorker::new();
    assert_eq!(host.submit(vec![1]), SubmitStatus::Submitted);
    assert_eq!(host.submit(vec![2]), SubmitStatus::Submitted);
    assert_eq!(host.submit(vec![3]), SubmitStatus::Submitted);
    assert_eq!(host.execute_next(&mut w), Some(WorkStatus::Success));
    assert_eq!(host.execute_next(&mut w), Some(WorkStatus::Success));
    assert_eq!(host.execute_next(&mut w), Some(WorkStatus::Success));
    assert_eq!(host.execute_next(&mut w), None);
    assert_eq!(host.deliver_next(&mut w), Some(WorkStatus::Success));
    assert_eq!(host.deliver_next(&mut w), Some(WorkStatus::Success));
    assert_eq!(host.deliver_next(&mut w), Some(WorkStatus::Success));
    assert_eq!(host.deliver_next(&mut w), None);
    let expected = vec![
        WorkerEvent::Work(vec![1]),
        WorkerEvent::Work(vec![2]),
        WorkerEvent::Work(vec![3]),
        WorkerEvent::Response(vec![2]),
        WorkerEvent::Response(vec![4]),
        WorkerEvent::Response(vec![6]),
    ];
    assert_eq!(w.events, expected);
}

#[test]
fn backpressure_rejects_and_runs_no_extra_work() {
    let mut host = WorkerHost::new(2, 2);
    let mut w = DoublingWorker::new();
    assert_eq!(host.submit(vec![1]), SubmitStatus::Submitted);
    assert_eq!(host.submit(vec![2]), SubmitStatus::Submitted);
    // The queue is at capacity: one more payload is refused.
    assert_eq!(host.submit(vec![3]), SubmitStatus::QueueFull);
    assert_eq!(host.execute_next(&mut w), Some(WorkStatus::Success));
    assert_eq!(host.execute_next(&mut w), Some(WorkStatus::Success));
    // No work invocation ever happens for the rejected payload.
    assert_eq!(host.execute_next(&mut w), None);
    assert_eq!(
        w.events,
        vec![WorkerEvent::Work(vec![1]), WorkerEvent::Work(vec![2])]
    );
}

#[test]
fn response_backpressure_loses_response() {
    let mut host = WorkerHost::new(4, 1);
    let mut w = DoublingWorker::new();
    assert_eq!(host.submit(vec![1]), SubmitStatus::Submitted);
    assert_eq!(host.submit(vec![2]), SubmitStatus::Submitted);
    assert_eq!(host.execute_next(&mut w), Some(WorkStatus::Success));
    // The response queue (capacity 1) is full: the second response is lost.
    assert_eq!(host.execute_next(&mut w), Some(WorkStatus::NoSpace));
    assert_eq!(host.deliver_next(&mut w), Some(WorkStatus::Success));
    assert_eq!(host.deliver_next(&mut w), None);
}

#[test]
fn double_respond_delivers_exactly_once() {
    let mut host = WorkerHost::new(4, 4);
    let mut w = EchoTwiceWorker::new();
    assert_eq!(host.submit(vec![7, 8]), SubmitStatus::Submitted);
    // The work callback calls respond twice; the first call wins.
    assert_eq!(host.execute_next(&mut w), Some(WorkStatus::Success));
    assert_eq!(host.deliver_next(&mut w), Some(WorkStatus::Success));
    assert_eq!(host.deliver_next(&mut w), None);
    assert_eq!(w.delivered, vec![vec![7, 8]]);
}

#[test]
fn second_respond_call_is_rejected_no_op() {
    let mut r = Responder::new(4);
    assert_eq!(r.respond(vec![1]), WorkStatus::Success);
    assert_eq!(r.respond(vec![2]), WorkStatus::Unknown);
    assert_eq!(r.respond(vec![3]), WorkStatus::Unknown);
    assert_eq!(r.pending(), 1);
    assert_eq!(r.take_next(), Some(vec![1]));
    assert_eq!(r.take_next(), None);
}

#[test]
fn end_to_end_scenario_doubles_forty_two() {
    let mut host = WorkerHost::new(4, 4);
    let mut w = DoublingWorker::new();
    // The component schedules the one-byte payload 42.
    assert_eq!(host.submit(vec![0x2A]), SubmitStatus::Submitted);
    // The executor runs the work callback, which responds with 84.
    assert_eq!(host.execute_next(&mut w), Some(WorkStatus::Success));
    // Delivery happens before the end-of-cycle notification, which fires
    // exactly once, after the response.
    assert_eq!(host.finish_cycle(&mut w), WorkStatus::Success);
    let expected = vec![
        WorkerEvent::Work(vec![0x2A]),
        WorkerEvent::Response(vec![0x54]),
        WorkerEvent::EndRun,
    ];
    assert_eq!(w.events, expected);
}

#[test]
fn host_without_executor_reports_unsupported() {
    let mut host = WorkerHost::without_executor();
    let mut w = DoublingWorker::new();
    assert_eq!(host.submit(vec![1]), SubmitStatus::Unsupported);
    assert_eq!(host.execute_next(&mut w), None);
    assert!(w.events.is_empty());
}

#[test]
fn status_codes_round_trip() {
    assert_eq!(WorkStatus::Success.code(), 0);
    assert_eq!(WorkStatus::Unknown.code(), 1);
    assert_eq!(WorkStatus::NoSpace.code(), 2);
    assert_eq!(WorkStatus::from_code(0), Some(WorkStatus::Success));
    assert_eq!(WorkStatus::from_code(1), Some(WorkStatus::Unknown));
    assert_eq!(WorkStatus::from_code(2), Some(WorkStatus::NoSpace));
    assert_eq!(WorkStatus::from_code(3), None);
    assert_eq!(WorkStatus::from_code(u32::MAX), None);
}

#[test]
fn state_machine_happy_path() {
    let s = WorkState::Created;
    let s = s.advance(WorkState::Submitted).unwrap();
    let s = s.advance(WorkState::Dispatched).unwrap();
    let s = s.advance(WorkState::Executing).unwrap();
    let s = s.advance(WorkState::CompletedWithResponse).unwrap();
    let s = s.advance(WorkState::Delivered).unwrap();
    assert!(s.is_terminal());
}

#[test]
fn state_machine_rejects_illegal_steps() {
    assert_eq!(WorkState::Created.advance(WorkState::Executing), None);
    assert_eq!(WorkState::QueueFull.advance(WorkState::Dispatched), None);
    assert_eq!(WorkState::Delivered.advance(WorkState::Created), None);
    assert_eq!(WorkState::Failed.advance(WorkState::Executing), None);
    assert!(WorkState::Submitted.advance(WorkState::QueueFull).is_some());
    assert!(!WorkState::Executing.is_terminal());
    assert!(WorkState::CompletedWithoutResponse.is_terminal());
}
