use std::collections::HashMap;
use std::collections::VecDeque;

use rsservices::pcube::common::enums::EExitCode;
use rsservices::pcube::common::exchange::Action;
use rsservices::pcube::common::exchange::Event;
use rsservices::pcube::common::exchange::Phase;
use rsservices::pcube::common::service_config::ServiceConfig;
use rsservices::pcube::common::sm_calls::Step;
use rsservices::pcube::common::sm_calls::SysCall;
use rsservices::pcube::common::sm_calls::SysReply;
use rsservices::pcube::common::sm_handler::SMHandler;
use rsservices::pcube::host::service::Service as Host;
use rsservices::pcube::worker::service::Service as Worker;

/// What host and worker share, held in memory: the named objects, the two
/// queues, the actions that are made to fail, and what was done.
struct World {
    objects: HashMap<String, Vec<u8>>,
    to_worker: VecDeque<String>,
    to_host: VecDeque<String>,
    failing: Vec<&'static str>,
    calls: Vec<String>,
    actions: Vec<String>,
}

/// One side's segment manager with its handle.
struct Segment {
    handler: SMHandler,
    handle: Option<String>,
}

fn ok(text: String) -> Event {
    Event { code: EExitCode::SUCCESS, text }
}

fn failure() -> Event {
    Event { code: EExitCode::FAIL, text: String::new() }
}

impl World {
    fn new() -> Self {
        World {
            objects: HashMap::new(),
            to_worker: VecDeque::new(),
            to_host: VecDeque::new(),
            failing: Vec::new(),
            calls: Vec::new(),
            actions: Vec::new(),
        }
    }

    fn serve(&mut self, handle: &mut Option<String>, call: SysCall) -> SysReply {
        let line = match &call {
            SysCall::Open { name, .. } => format!("open {}", name),
            SysCall::Stat => "stat".to_string(),
            SysCall::MapRegion { len } => format!("map {}", len),
            SysCall::UnmapRegion { len } => format!("unmap {}", len),
            SysCall::Truncate { len } => format!("truncate {}", len),
            SysCall::Unlink { name } => format!("unlink {}", name),
            SysCall::Close => "close".to_string(),
            SysCall::Store { bytes } => format!("store {}", bytes.len()),
            SysCall::Load { len } => format!("load {}", len),
        };
        self.calls.push(line);
        match call {
            SysCall::Open { name, .. } => {
                self.objects.entry(name.clone()).or_insert_with(Vec::new);
                *handle = Some(name);
                SysReply::Done
            }
            SysCall::Unlink { name } => match self.objects.remove(&name) {
                Some(_) => SysReply::Done,
                None => SysReply::Failed,
            },
            SysCall::UnmapRegion { .. } => SysReply::Done,
            SysCall::Close => {
                *handle = None;
                SysReply::Done
            }
            other => {
                let object = match handle.as_ref().and_then(|name| self.objects.get_mut(name)) {
                    Some(object) => object,
                    None => return SysReply::Failed,
                };
                match other {
                    SysCall::Stat => SysReply::Size(object.len()),
                    SysCall::Truncate { len } => {
                        object.resize(len, 0);
                        SysReply::Done
                    }
                    SysCall::MapRegion { len } if len > 0 => SysReply::Done,
                    SysCall::Store { bytes } if bytes.len() <= object.len() => {
                        object[..bytes.len()].copy_from_slice(&bytes);
                        SysReply::Done
                    }
                    SysCall::Load { len } if len <= object.len() => {
                        SysReply::Bytes(object[..len].to_vec())
                    }
                    _ => SysReply::Failed,
                }
            }
        }
    }

    fn on_segment(&mut self, segment: &mut Segment, first: Step) -> Event {
        let mut step = first;
        loop {
            match step {
                Step::Finished(code, text) => return Event { code, text },
                Step::Call(call) => {
                    let reply = self.serve(&mut segment.handle, call);
                    step = segment.handler.resume(reply);
                }
            }
        }
    }

    /// Carries an action out. `None` where the side has to wait for a message.
    fn carry_out(&mut self, segment: &mut Segment, host: bool, action: &Action) -> Option<Event> {
        let (kind, line) = match action {
            Action::ConnectSegment { name } => {
                ("connect segment", format!("connect segment {}", name))
            }
            Action::ConnectChannel { host_queue, worker_queue } => {
                ("connect channel", format!("connect channel {} {}", host_queue, worker_queue))
            }
            Action::Write { payload } => ("write", format!("write {}", payload)),
            Action::Send { text } => ("send", format!("send {}", text)),
            Action::Receive => ("receive", "receive".to_string()),
            Action::Read { len } => ("read", format!("read {}", len)),
            Action::DisconnectChannel { remove } => {
                ("disconnect channel", format!("disconnect channel {}", remove))
            }
            Action::DisconnectSegment { remove } => {
                ("disconnect segment", format!("disconnect segment {}", remove))
            }
            Action::Finish { .. } => panic!("nothing to carry out"),
        };
        if let Action::Receive = action {
            let waiting = if host { self.to_host.is_empty() } else { self.to_worker.is_empty() };
            if waiting && !self.failing.contains(&kind) {
                return None;
            }
        }
        self.actions.push(line);
        if self.failing.contains(&kind) {
            if let Action::DisconnectSegment { remove } = action {
                let first = segment.handler.disconnect(*remove);
                let _ = self.on_segment(segment, first);
            }
            return Some(failure());
        }
        Some(match action {
            Action::ConnectSegment { name } => {
                let first = segment.handler.connect(name);
                self.on_segment(segment, first)
            }
            Action::Write { payload } => {
                let first = segment.handler.write(payload);
                self.on_segment(segment, first)
            }
            Action::Read { len } => {
                let first = segment.handler.read(*len);
                self.on_segment(segment, first)
            }
            Action::DisconnectSegment { remove } => {
                let first = segment.handler.disconnect(*remove);
                self.on_segment(segment, first)
            }
            Action::Send { text } => {
                if host {
                    self.to_worker.push_back(text.clone());
                } else {
                    self.to_host.push_back(text.clone());
                }
                ok(String::new())
            }
            Action::Receive => {
                let message =
                    if host { self.to_host.pop_front() } else { self.to_worker.pop_front() };
                ok(message.unwrap())
            }
            _ => ok(String::new()),
        })
    }
}

fn host_config() -> ServiceConfig {
    ServiceConfig::new("/segment", "/to_worker", "/to_host", true)
}

fn worker_config() -> ServiceConfig {
    ServiceConfig::new("/segment", "/to_worker", "/to_host", false)
}

fn segment() -> Segment {
    Segment { handler: SMHandler::new(4096), handle: None }
}

/// Turns of the host until it has finished or has to wait.
fn host_turns(world: &mut World, segment: &mut Segment, host: &mut Host, first: Action) -> Action {
    let mut action = first;
    loop {
        if let Action::Finish { .. } = action {
            return action;
        }
        match world.carry_out(segment, true, &action) {
            None => return action,
            Some(event) => action = host.resume(event),
        }
    }
}

/// Turns of the worker until it has finished or has to wait.
fn worker_turns(
    world: &mut World,
    segment: &mut Segment,
    worker: &mut Worker,
    first: Action,
) -> Action {
    let mut action = first;
    loop {
        if let Action::Finish { .. } = action {
            return action;
        }
        match world.carry_out(segment, false, &action) {
            None => return action,
            Some(event) => action = worker.resume(event),
        }
    }
}

fn code_of(action: &Action) -> EExitCode {
    match action {
        Action::Finish { code } => *code,
        other => panic!("{:?}", other),
    }
}

/// A whole exchange: the host until it waits, the worker to its end, the host
/// to its end.
fn exchange(world: &mut World, host: &mut Host, worker: &mut Worker) -> (EExitCode, EExitCode) {
    let mut host_segment = segment();
    let mut worker_segment = segment();
    let first = host.run();
    let waiting = host_turns(world, &mut host_segment, host, first);
    assert!(matches!(waiting, Action::Receive));
    let first = worker.run();
    let worker_end = worker_turns(world, &mut worker_segment, worker, first);
    let host_end = host_turns(world, &mut host_segment, host, waiting);
    (code_of(&host_end), code_of(&worker_end))
}

#[test]
fn host_and_worker_exchange_task_one() {
    let mut world = World::new();
    let mut host = Host::new(host_config());
    let mut worker = Worker::new(worker_config());
    let mut host_segment = segment();
    let mut worker_segment = segment();

    assert_eq!(host.request(), "payload of task-1");
    let first = host.run();
    let waiting = host_turns(&mut world, &mut host_segment, &mut host, first);
    assert!(matches!(waiting, Action::Receive));
    assert_eq!(
        world.actions,
        [
            "connect segment /segment",
            "connect channel /to_worker /to_host",
            "write payload of task-1",
            "send 17",
        ]
    );
    assert_eq!(
        world.calls,
        ["open /segment", "stat", "stat", "truncate 4096", "stat", "map 4096", "store 17"]
    );
    assert_eq!(world.objects["/segment"].len(), 4096);
    assert_eq!(host_segment.handler.mapped_size(), 4096);
    assert_eq!(world.to_worker, ["17"]);

    world.actions.clear();
    world.calls.clear();
    let first = worker.run();
    let worker_end = worker_turns(&mut world, &mut worker_segment, &mut worker, first);
    assert_eq!(code_of(&worker_end), EExitCode::SUCCESS);
    assert_eq!(
        world.actions,
        [
            "connect segment /segment",
            "connect channel /to_worker /to_host",
            "receive",
            "read 17",
            "write payload of task-1 processed",
            "send 27",
            "disconnect channel false",
            "disconnect segment false",
        ]
    );
    assert_eq!(
        world.calls,
        [
            "open /segment",
            "stat",
            "map 4096",
            "stat",
            "load 17",
            "stat",
            "store 27",
            "unmap 4096",
            "close",
        ]
    );
    assert_eq!(worker.request(), "payload of task-1");
    assert_eq!(worker.response(), "payload of task-1 processed");
    assert_eq!(worker.response().len(), 27);
    assert_eq!(world.objects["/segment"].len(), 4096);
    assert_eq!(world.to_host, ["27"]);

    world.actions.clear();
    world.calls.clear();
    let host_end = host_turns(&mut world, &mut host_segment, &mut host, waiting);
    assert_eq!(code_of(&host_end), EExitCode::SUCCESS);
    assert_eq!(
        world.actions,
        ["receive", "read 27", "disconnect channel true", "disconnect segment true"]
    );
    assert_eq!(world.calls, ["stat", "load 27", "unmap 4096", "unlink /segment", "close"]);
    assert_eq!(host.response(), "payload of task-1 processed");
    assert_eq!(host.phase(), Phase::Done);
    assert_eq!(worker.phase(), Phase::Done);
    assert!(!host.is_listening());
    assert!(!world.objects.contains_key("/segment"));
}

#[test]
fn host_reads_the_response_to_any_request() {
    for request in ["a", "task", "h\u{e9}llo w\u{f6}rld", "\u{1f600}", "line one\nline two", "0"] {
        let mut world = World::new();
        let mut host = Host::with_request(host_config(), request);
        let mut worker = Worker::new(worker_config());
        let codes = exchange(&mut world, &mut host, &mut worker);
        assert_eq!(codes, (EExitCode::SUCCESS, EExitCode::SUCCESS));
        assert_eq!(worker.request(), request);
        assert_eq!(host.response(), format!("{} processed", request));
        assert_eq!(host.response().as_bytes(), worker.response().as_bytes());
    }
}

#[test]
fn response_that_needs_another_page_resizes_the_segment() {
    let request = "q".repeat(4090);
    let mut world = World::new();
    let mut host = Host::with_request(host_config(), &request);
    let mut worker = Worker::new(worker_config());
    let codes = exchange(&mut world, &mut host, &mut worker);
    assert_eq!(codes, (EExitCode::SUCCESS, EExitCode::SUCCESS));
    assert!(world.calls.contains(&"truncate 4096".to_string()));
    assert!(world.calls.contains(&"truncate 8192".to_string()));
    assert!(world.actions.contains(&"send 4090".to_string()));
    assert!(world.actions.contains(&"send 4100".to_string()));
    assert_eq!(host.response(), format!("{} processed", request));
}

#[test]
fn exchange_over_an_object_left_behind_succeeds() {
    let mut world = World::new();
    world.objects.insert("/segment".to_string(), vec![0xffu8; 12288]);
    let mut host = Host::new(host_config());
    let mut worker = Worker::new(worker_config());
    let codes = exchange(&mut world, &mut host, &mut worker);
    assert_eq!(codes, (EExitCode::SUCCESS, EExitCode::SUCCESS));
    assert_eq!(host.response(), "payload of task-1 processed");
}

#[test]
fn worker_that_starts_first_is_served_alike() {
    let mut world = World::new();
    let mut host = Host::new(host_config());
    let mut worker = Worker::new(worker_config());
    let mut host_segment = segment();
    let mut worker_segment = segment();

    let first = worker.run();
    let worker_waiting = worker_turns(&mut world, &mut worker_segment, &mut worker, first);
    assert!(matches!(worker_waiting, Action::Receive));
    assert_eq!(world.objects["/segment"].len(), 0);
    assert_eq!(worker_segment.handler.mapped_size(), 0);

    let first = host.run();
    let host_waiting = host_turns(&mut world, &mut host_segment, &mut host, first);
    assert!(matches!(host_waiting, Action::Receive));

    world.calls.clear();
    let worker_end = worker_turns(&mut world, &mut worker_segment, &mut worker, worker_waiting);
    assert_eq!(code_of(&worker_end), EExitCode::SUCCESS);
    assert_eq!(
        world.calls,
        ["stat", "map 4096", "load 17", "stat", "store 27", "unmap 4096", "close"]
    );
    let host_end = host_turns(&mut world, &mut host_segment, &mut host, host_waiting);
    assert_eq!(code_of(&host_end), EExitCode::SUCCESS);
    assert_eq!(worker.request(), "payload of task-1");
    assert_eq!(host.response(), "payload of task-1 processed");
}

#[test]
fn sides_never_touch_the_segment_at_the_same_time() {
    let orders: [&[bool]; 4] = [
        &[true, false, true, false, true, false],
        &[false, true, false, true, false, true],
        &[true, true, false, false, true, true, false, false],
        &[false, false, false, true, true, true],
    ];
    for order in orders {
        let mut world = World::new();
        let mut host = Host::new(host_config());
        let mut worker = Worker::new(worker_config());
        let mut host_segment = segment();
        let mut worker_segment = segment();
        let mut host_action = host.run();
        let mut worker_action = worker.run();
        let mut turn = 0;
        for _ in 0..40 {
            let touching = |action: &Action| {
                matches!(action, Action::Write { .. }) || matches!(action, Action::Read { .. })
            };
            assert!(!(touching(&host_action) && touching(&worker_action)));
            if touching(&worker_action) {
                assert!(matches!(host_action, Action::Receive));
            }
            let of_host = order[turn % order.len()];
            turn += 1;
            if of_host {
                if !matches!(host_action, Action::Finish { .. }) {
                    if let Some(event) = world.carry_out(&mut host_segment, true, &host_action) {
                        host_action = host.resume(event);
                    }
                }
            } else if !matches!(worker_action, Action::Finish { .. }) {
                if let Some(event) = world.carry_out(&mut worker_segment, false, &worker_action) {
                    worker_action = worker.resume(event);
                }
            }
        }
        assert_eq!(code_of(&host_action), EExitCode::SUCCESS);
        assert_eq!(code_of(&worker_action), EExitCode::SUCCESS);
        assert_eq!(host.response(), "payload of task-1 processed");
    }
}

#[test]
fn empty_request_cannot_be_read() {
    let mut world = World::new();
    let mut host = Host::with_request(host_config(), "");
    let mut worker = Worker::new(worker_config());
    let mut host_segment = segment();
    let mut worker_segment = segment();
    let first = host.run();
    let waiting = host_turns(&mut world, &mut host_segment, &mut host, first);
    assert!(matches!(waiting, Action::Receive));
    assert_eq!(world.to_worker, ["0"]);
    let first = worker.run();
    let worker_end = worker_turns(&mut world, &mut worker_segment, &mut worker, first);
    assert_eq!(code_of(&worker_end), EExitCode::FAIL);
    assert_eq!(worker.phase(), Phase::Failed);
    assert!(world.to_host.is_empty());
}

fn failing_host_run(kind: &'static str) -> (World, Host, EExitCode) {
    let mut world = World::new();
    world.failing.push(kind);
    world.to_host.push_back("27".to_string());
    world.objects.insert("/segment".to_string(), b"payload of task-1 processed".to_vec());
    let mut host = Host::new(host_config());
    let mut host_segment = segment();
    let first = host.run();
    let end = host_turns(&mut world, &mut host_segment, &mut host, first);
    let code = code_of(&end);
    (world, host, code)
}

#[test]
fn host_run_fails_at_the_first_action_that_fails() {
    let cases: [(&'static str, &[&str]); 6] = [
        ("connect segment", &["connect segment /segment"]),
        ("connect channel", &["connect segment /segment", "connect channel /to_worker /to_host"]),
        (
            "write",
            &[
                "connect segment /segment",
                "connect channel /to_worker /to_host",
                "write payload of task-1",
            ],
        ),
        (
            "send",
            &[
                "connect segment /segment",
                "connect channel /to_worker /to_host",
                "write payload of task-1",
                "send 17",
            ],
        ),
        (
            "receive",
            &[
                "connect segment /segment",
                "connect channel /to_worker /to_host",
                "write payload of task-1",
                "send 17",
                "receive",
            ],
        ),
        (
            "read",
            &[
                "connect segment /segment",
                "connect channel /to_worker /to_host",
                "write payload of task-1",
                "send 17",
                "receive",
                "read 27",
            ],
        ),
    ];
    for (kind, until) in cases {
        let (world, host, code) = failing_host_run(kind);
        assert_eq!(code, EExitCode::FAIL, "{}", kind);
        let mut expected: Vec<String> = until.iter().map(|line| line.to_string()).collect();
        expected.push("disconnect channel true".to_string());
        expected.push("disconnect segment true".to_string());
        assert_eq!(world.actions, expected, "{}", kind);
        assert_eq!(host.phase(), Phase::Failed);
        assert!(!host.is_listening());
    }
}

#[test]
fn worker_run_fails_at_the_first_action_that_fails() {
    let cases: [(&'static str, usize); 6] = [
        ("connect segment", 1),
        ("connect channel", 2),
        ("receive", 3),
        ("read", 4),
        ("write", 5),
        ("send", 6),
    ];
    let all = [
        "connect segment /segment",
        "connect channel /to_worker /to_host",
        "receive",
        "read 17",
        "write payload of task-1 processed",
        "send 27",
    ];
    for (kind, count) in cases {
        let mut world = World::new();
        world.objects.insert("/segment".to_string(), b"payload of task-1".to_vec());
        world.to_worker.push_back("17".to_string());
        world.failing.push(kind);
        let mut worker = Worker::new(worker_config());
        let mut worker_segment = segment();
        let first = worker.run();
        let end = worker_turns(&mut world, &mut worker_segment, &mut worker, first);
        assert_eq!(code_of(&end), EExitCode::FAIL, "{}", kind);
        let mut expected: Vec<String> = all[..count].iter().map(|line| line.to_string()).collect();
        expected.push("disconnect channel false".to_string());
        expected.push("disconnect segment false".to_string());
        assert_eq!(world.actions, expected, "{}", kind);
        assert_eq!(worker.phase(), Phase::Failed);
    }
}

#[test]
fn failed_system_call_fails_the_run() {
    for call in ["open", "truncate", "map"] {
        let mut world = World::new();
        let mut host = Host::new(host_config());
        let mut host_segment = segment();
        let mut action = host.run();
        let mut steps = 0;
        while !matches!(action, Action::Finish { .. }) {
            let event = match &action {
                Action::ConnectSegment { name } => {
                    let mut step = host_segment.handler.connect(name);
                    loop {
                        match step {
                            Step::Finished(code, text) => break Event { code, text },
                            Step::Call(SysCall::Open { .. }) if call == "open" => {
                                step = host_segment.handler.resume(SysReply::Failed)
                            }
                            Step::Call(other) => {
                                let reply = world.serve(&mut host_segment.handle, other);
                                step = host_segment.handler.resume(reply);
                            }
                        }
                    }
                }
                Action::Write { payload } => {
                    let mut step = host_segment.handler.write(payload);
                    loop {
                        match step {
                            Step::Finished(code, text) => break Event { code, text },
                            Step::Call(SysCall::Truncate { .. }) if call == "truncate" => {
                                step = host_segment.handler.resume(SysReply::Failed)
                            }
                            Step::Call(SysCall::MapRegion { .. }) if call == "map" => {
                                step = host_segment.handler.resume(SysReply::Failed)
                            }
                            Step::Call(other) => {
                                let reply = world.serve(&mut host_segment.handle, other);
                                step = host_segment.handler.resume(reply);
                            }
                        }
                    }
                }
                other => world.carry_out(&mut host_segment, true, other).unwrap(),
            };
            action = host.resume(event);
            steps += 1;
            assert!(steps < 20);
        }
        assert_eq!(code_of(&action), EExitCode::FAIL, "{}", call);
        assert!(world.to_worker.is_empty());
    }
}

#[test]
fn cleanup_failures_do_not_change_the_result() {
    let mut world = World::new();
    world.failing = vec!["disconnect channel", "disconnect segment"];
    let mut host = Host::new(host_config());
    let mut worker = Worker::new(worker_config());
    let codes = exchange(&mut world, &mut host, &mut worker);
    assert_eq!(codes, (EExitCode::SUCCESS, EExitCode::SUCCESS));
    assert_eq!(host.response(), "payload of task-1 processed");
    assert_eq!(host.phase(), Phase::Done);

    let (world, host, code) = {
        let mut world = World::new();
        world.failing = vec!["write", "disconnect channel", "disconnect segment"];
        let mut host = Host::new(host_config());
        let mut host_segment = segment();
        let first = host.run();
        let end = host_turns(&mut world, &mut host_segment, &mut host, first);
        let code = code_of(&end);
        (world, host, code)
    };
    assert_eq!(code, EExitCode::FAIL);
    assert_eq!(host.phase(), Phase::Failed);
    assert_eq!(world.actions.len(), 5);
}

#[test]
fn signal_that_is_no_length_fails_the_run() {
    for signal in ["", "seventeen", "-17", "17 bytes", "99999999999999999999999999"] {
        let mut world = World::new();
        world.to_host.push_back(signal.to_string());
        let mut host = Host::new(host_config());
        let mut host_segment = segment();
        let first = host.run();
        let end = host_turns(&mut world, &mut host_segment, &mut host, first);
        assert_eq!(code_of(&end), EExitCode::FAIL, "{:?}", signal);
        assert_eq!(
            world.actions[4..],
            ["receive", "disconnect channel true", "disconnect segment true"]
        );
        assert_eq!(host.response(), "");
    }
}

#[test]
fn signal_with_a_plus_sign_is_a_length() {
    let mut world = World::new();
    world.to_host.push_back("+7".to_string());
    let mut host = Host::new(host_config());
    let mut host_segment = segment();
    let first = host.run();
    let end = host_turns(&mut world, &mut host_segment, &mut host, first);
    assert_eq!(code_of(&end), EExitCode::SUCCESS);
    assert_eq!(host.response(), "payload");
}

#[test]
fn start_listener_connects_segment_then_channel() {
    let mut host = Host::new(host_config());
    assert_eq!(host.phase(), Phase::Idle);
    assert!(!host.is_listening());
    match host.start_listener() {
        Action::ConnectSegment { name } => assert_eq!(name, "/segment"),
        other => panic!("{:?}", other),
    }
    assert!(host.is_listening());
    assert_eq!(host.phase(), Phase::ConnectingSegment);
    match host.resume(ok(String::new())) {
        Action::ConnectChannel { host_queue, worker_queue } => {
            assert_eq!(host_queue, "/to_worker");
            assert_eq!(worker_queue, "/to_host");
        }
        other => panic!("{:?}", other),
    }
    assert_eq!(host.phase(), Phase::ConnectingChannel);
    assert!(matches!(host.resume(ok(String::new())), Action::Finish { code: EExitCode::SUCCESS }));
    assert_eq!(host.phase(), Phase::Connected);
    assert!(host.is_listening());
}

#[test]
fn start_listener_does_not_try_the_channel_after_the_segment_failed() {
    let mut worker = Worker::new(worker_config());
    assert!(matches!(worker.start_listener(), Action::ConnectSegment { .. }));
    assert!(matches!(worker.resume(failure()), Action::Finish { code: EExitCode::FAIL }));
    assert_eq!(worker.phase(), Phase::Failed);

    let mut worker = Worker::new(worker_config());
    assert!(matches!(worker.start_listener(), Action::ConnectSegment { .. }));
    assert!(matches!(worker.resume(ok(String::new())), Action::ConnectChannel { .. }));
    assert!(matches!(worker.resume(failure()), Action::Finish { code: EExitCode::FAIL }));
    assert_eq!(worker.phase(), Phase::Failed);
}

#[test]
fn stop_listener_disconnects_channel_then_segment() {
    let mut host = Host::new(host_config());
    let _ = host.start_listener();
    let _ = host.resume(ok(String::new()));
    let _ = host.resume(ok(String::new()));
    assert!(matches!(host.stop_listener(), Action::DisconnectChannel { remove: true }));
    assert!(!host.is_listening());
    assert_eq!(host.phase(), Phase::ClosingChannel);
    assert!(matches!(host.resume(failure()), Action::DisconnectSegment { remove: true }));
    assert_eq!(host.phase(), Phase::ClosingSegment);
    assert!(matches!(host.resume(failure()), Action::Finish { code: EExitCode::SUCCESS }));
    assert_eq!(host.phase(), Phase::Done);

    let mut worker = Worker::new(worker_config());
    assert!(matches!(worker.stop_listener(), Action::DisconnectChannel { remove: false }));
    let next = worker.resume(ok(String::new()));
    assert!(matches!(next, Action::DisconnectSegment { remove: false }));
    let next = worker.resume(ok(String::new()));
    assert!(matches!(next, Action::Finish { code: EExitCode::SUCCESS }));
}

#[test]
fn worker_never_removes_whatever_its_configuration_says() {
    let flagged = ServiceConfig::new("/segment", "/to_worker", "/to_host", true);
    let mut worker = Worker::new(flagged);
    assert!(matches!(worker.stop_listener(), Action::DisconnectChannel { remove: false }));
    assert!(!worker.is_listening());
    let next = worker.resume(ok(String::new()));
    assert!(matches!(next, Action::DisconnectSegment { remove: false }));
    let next = worker.resume(ok(String::new()));
    assert!(matches!(next, Action::Finish { code: EExitCode::SUCCESS }));

    let flagged = ServiceConfig::new("/segment", "/to_worker", "/to_host", true);
    let mut worker = Worker::new(flagged);
    assert!(matches!(worker.handle_run_error(), Action::DisconnectChannel { remove: false }));
    let next = worker.resume(failure());
    assert!(matches!(next, Action::DisconnectSegment { remove: false }));
}

#[test]
fn worker_that_fails_cleans_up_once_without_removal() {
    for failing in ["receive", "read", "write"] {
        let mut world = World::new();
        world.objects.insert("/segment".to_string(), b"payload of task-1".to_vec());
        world.to_worker.push_back("17".to_string());
        world.failing.push(failing);
        let flagged = ServiceConfig::new("/segment", "/to_worker", "/to_host", true);
        let mut worker = Worker::new(flagged);
        let mut worker_segment = segment();
        let first = worker.run();
        let end = worker_turns(&mut world, &mut worker_segment, &mut worker, first);
        assert_eq!(code_of(&end), EExitCode::FAIL, "{}", failing);
        let cleanup: Vec<&String> =
            world.actions.iter().filter(|line| line.starts_with("disconnect")).collect();
        assert_eq!(cleanup, ["disconnect channel false", "disconnect segment false"]);
        assert!(!world.actions.contains(&"send 27".to_string()));
        assert!(!world.calls.iter().any(|call| call.starts_with("unlink")));
        assert!(world.objects.contains_key("/segment"));
    }
}

#[test]
fn host_removes_whatever_its_configuration_says() {
    let unflagged = ServiceConfig::new("/segment", "/to_worker", "/to_host", false);
    let mut host = Host::new(unflagged);
    assert!(matches!(host.stop_listener(), Action::DisconnectChannel { remove: true }));
    let next = host.resume(ok(String::new()));
    assert!(matches!(next, Action::DisconnectSegment { remove: true }));

    let mut world = World::new();
    let unflagged = ServiceConfig::new("/segment", "/to_worker", "/to_host", false);
    let mut host = Host::new(unflagged);
    let mut worker = Worker::new(worker_config());
    let codes = exchange(&mut world, &mut host, &mut worker);
    assert_eq!(codes, (EExitCode::SUCCESS, EExitCode::SUCCESS));
    assert!(!world.objects.contains_key("/segment"));
}

#[test]
fn handle_run_error_cleans_up_and_fails() {
    let mut host = Host::new(host_config());
    let _ = host.run();
    assert!(matches!(host.handle_run_error(), Action::DisconnectChannel { remove: true }));
    assert!(!host.is_listening());
    assert!(matches!(host.resume(ok(String::new())), Action::DisconnectSegment { remove: true }));
    assert!(matches!(host.resume(ok(String::new())), Action::Finish { code: EExitCode::FAIL }));
    assert_eq!(host.phase(), Phase::Failed);
}

#[test]
fn resume_with_nothing_asked_for_fails() {
    let mut host = Host::new(host_config());
    assert!(matches!(host.resume(ok(String::new())), Action::Finish { code: EExitCode::FAIL }));
    assert_eq!(host.phase(), Phase::Idle);
    let mut world = World::new();
    let mut worker = Worker::new(worker_config());
    let mut other = Host::new(host_config());
    let _ = exchange(&mut world, &mut other, &mut worker);
    assert_eq!(other.phase(), Phase::Done);
    assert!(matches!(other.resume(ok(String::new())), Action::Finish { code: EExitCode::FAIL }));
    assert_eq!(other.phase(), Phase::Done);
}

#[test]
fn host_walks_through_its_phases() {
    let mut host = Host::new(host_config());
    assert!(matches!(host.run(), Action::ConnectSegment { .. }));
    assert_eq!(host.phase(), Phase::ConnectingSegment);
    assert!(matches!(host.resume(ok(String::new())), Action::ConnectChannel { .. }));
    match host.resume(ok(String::new())) {
        Action::Write { payload } => assert_eq!(payload, "payload of task-1"),
        other => panic!("{:?}", other),
    }
    assert_eq!(host.phase(), Phase::Writing);
    match host.resume(ok(String::new())) {
        Action::Send { text } => assert_eq!(text, "17"),
        other => panic!("{:?}", other),
    }
    assert_eq!(host.phase(), Phase::Signalling);
    assert!(matches!(host.resume(ok(String::new())), Action::Receive));
    assert_eq!(host.phase(), Phase::Waiting);
    assert!(matches!(host.resume(ok("28".to_string())), Action::Read { len: 28 }));
    assert_eq!(host.phase(), Phase::Reading);
    assert!(matches!(
        host.resume(ok("payload of task-1 processed!".to_string())),
        Action::DisconnectChannel { remove: true }
    ));
    assert_eq!(host.response(), "payload of task-1 processed!");
    assert!(matches!(host.resume(ok(String::new())), Action::DisconnectSegment { remove: true }));
    assert!(matches!(host.resume(ok(String::new())), Action::Finish { code: EExitCode::SUCCESS }));
}

#[test]
fn worker_walks_through_its_phases() {
    let mut worker = Worker::new(worker_config());
    assert!(matches!(worker.run(), Action::ConnectSegment { .. }));
    assert!(matches!(worker.resume(ok(String::new())), Action::ConnectChannel { .. }));
    assert!(matches!(worker.resume(ok(String::new())), Action::Receive));
    assert_eq!(worker.phase(), Phase::Waiting);
    assert!(matches!(worker.resume(ok("18".to_string())), Action::Read { len: 18 }));
    assert_eq!(worker.phase(), Phase::Reading);
    match worker.resume(ok("payload of task-1!".to_string())) {
        Action::Write { payload } => assert_eq!(payload, "payload of task-1! processed"),
        other => panic!("{:?}", other),
    }
    assert_eq!(worker.phase(), Phase::Writing);
    match worker.resume(ok(String::new())) {
        Action::Send { text } => assert_eq!(text, "28"),
        other => panic!("{:?}", other),
    }
    assert_eq!(worker.phase(), Phase::Signalling);
    let next = worker.resume(ok(String::new()));
    assert!(matches!(next, Action::DisconnectChannel { remove: false }));
    let next = worker.resume(ok(String::new()));
    assert!(matches!(next, Action::DisconnectSegment { remove: false }));
    let next = worker.resume(ok(String::new()));
    assert!(matches!(next, Action::Finish { code: EExitCode::SUCCESS }));
    assert_eq!(worker.phase(), Phase::Done);
}

#[test]
fn signal_counts_bytes_not_characters() {
    let mut host = Host::with_request(host_config(), "h\u{e9}llo");
    let _ = host.run();
    let _ = host.resume(ok(String::new()));
    let _ = host.resume(ok(String::new()));
    match host.resume(ok(String::new())) {
        Action::Send { text } => assert_eq!(text, "6"),
        other => panic!("{:?}", other),
    }
}

#[test]
fn config_keeps_names_and_role() {
    let config = ServiceConfig::new("/segment", "/to_worker", "/to_host", true);
    assert_eq!(config.sm_name, "/segment");
    assert_eq!(config.q_name_host, "/to_worker");
    assert_eq!(config.q_name_worker, "/to_host");
    assert!(config.is_host);
    assert!(!worker_config().is_host);
}
