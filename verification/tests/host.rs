use desktop::bootstrap::{launch, step, Action, BuildFlags, Reply};
use desktop::error::SetupError;
use desktop::geometry::PhysicalSize;

/// A stand-in for the windowing system: it has one monitor or none, can be
/// told to refuse one kind of call, and writes down every call it gets.
struct FakeHost {
    monitor: Option<PhysicalSize>,
    refuses: Option<&'static str>,
    calls: Vec<String>,
}

impl FakeHost {
    fn with_monitor(monitor: Option<PhysicalSize>) -> FakeHost {
        FakeHost { monitor, refuses: None, calls: Vec::new() }
    }

    fn call(&mut self, name: &'static str, detail: String) -> bool {
        self.calls.push(format!("{name}{detail}"));
        self.refuses != Some(name)
    }

    fn perform(&mut self, request: &Action) -> Reply {
        let done = match request {
            Action::CreateWindow(config) => self.call("create", format!(" {}", config.url)),
            Action::QueryMonitor => {
                return if self.call("monitor", String::new()) {
                    Reply::Monitor(self.monitor)
                } else {
                    Reply::Rejected
                };
            }
            Action::SetMinSize(size) => {
                self.call("min_size", format!(" {}x{}", size.width, size.height))
            }
            Action::SetSize(size) => self.call("size", format!(" {}x{}", size.width, size.height)),
            Action::Center => self.call("center", String::new()),
            Action::Finish | Action::Abort(_) => unreachable!(),
        };
        if done {
            Reply::Completed
        } else {
            Reply::Rejected
        }
    }

    /// Runs setup to its end against this host.
    fn run(&mut self, flags: BuildFlags) -> Result<(), SetupError> {
        let (mut phase, mut action) = launch(flags);
        for _ in 0..16 {
            match action {
                Action::Finish => return Ok(()),
                Action::Abort(error) => return Err(error),
                _ => {}
            }
            let reply = self.perform(&action);
            (phase, action) = step(phase, reply);
        }
        panic!("setup did not end");
    }
}

const RELEASE: BuildFlags = BuildFlags { debug: false, title_bar_override: false };
const DEBUG: BuildFlags = BuildFlags { debug: true, title_bar_override: false };

#[test]
fn host_with_full_hd_monitor_is_sized_then_centred() {
    let mut host = FakeHost::with_monitor(Some(PhysicalSize { width: 1920, height: 1080 }));
    assert_eq!(host.run(RELEASE), Ok(()));
    assert_eq!(
        host.calls,
        [
            "create https://aniways.xyz/",
            "monitor",
            "min_size 1440x810",
            "size 1440x810",
            "center",
        ]
    );
}

#[test]
fn host_sees_no_size_call_before_the_monitor_query() {
    let mut host = FakeHost::with_monitor(Some(PhysicalSize { width: 1920, height: 1080 }));
    assert_eq!(host.run(DEBUG), Ok(()));
    let query = host.calls.iter().position(|call| call == "monitor").unwrap();
    for call in &host.calls[..query] {
        assert!(!call.starts_with("min_size") && !call.starts_with("size") && call != "center");
    }
    assert_eq!(host.calls[0], "create http://localhost:3000/");
}

#[test]
fn host_without_monitor_is_left_alone() {
    let mut host = FakeHost::with_monitor(None);
    assert_eq!(host.run(RELEASE), Ok(()));
    assert_eq!(host.calls, ["create https://aniways.xyz/", "monitor"]);
}

#[test]
fn host_whose_monitor_query_fails_is_left_alone() {
    let mut host = FakeHost::with_monitor(Some(PhysicalSize { width: 1920, height: 1080 }));
    host.refuses = Some("monitor");
    assert_eq!(host.run(RELEASE), Ok(()));
    assert_eq!(host.calls, ["create https://aniways.xyz/", "monitor"]);
}

#[test]
fn host_that_cannot_create_the_window_ends_setup() {
    let mut host = FakeHost::with_monitor(Some(PhysicalSize { width: 1920, height: 1080 }));
    host.refuses = Some("create");
    assert_eq!(host.run(DEBUG), Err(SetupError::WindowCreation));
    assert_eq!(host.calls, ["create http://localhost:3000/"]);
}

#[test]
fn host_that_refuses_the_minimum_size_ends_setup() {
    let mut host = FakeHost::with_monitor(Some(PhysicalSize { width: 1920, height: 1080 }));
    host.refuses = Some("min_size");
    assert_eq!(host.run(RELEASE), Err(SetupError::SetMinSize));
    assert_eq!(host.calls, ["create https://aniways.xyz/", "monitor", "min_size 1440x810"]);
}

#[test]
fn host_that_refuses_the_size_ends_setup() {
    let mut host = FakeHost::with_monitor(Some(PhysicalSize { width: 1920, height: 1080 }));
    host.refuses = Some("size");
    assert_eq!(host.run(RELEASE), Err(SetupError::SetSize));
    assert_eq!(
        host.calls,
        ["create https://aniways.xyz/", "monitor", "min_size 1440x810", "size 1440x810"]
    );
}

#[test]
fn host_that_refuses_to_centre_ends_setup() {
    let mut host = FakeHost::with_monitor(Some(PhysicalSize { width: 1920, height: 1080 }));
    host.refuses = Some("center");
    assert_eq!(host.run(RELEASE), Err(SetupError::Center));
    assert_eq!(
        host.calls,
        [
            "create https://aniways.xyz/",
            "monitor",
            "min_size 1440x810",
            "size 1440x810",
            "center",
        ]
    );
}
