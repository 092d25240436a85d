use system_memory::error::MemError;
use system_memory::macos::VmStats;
use system_memory::macos::calculate_available_memory;
use system_memory::macos_session::SessionAction;
use system_memory::macos_session::SessionEvent;
use system_memory::macos_session::SessionState;
use system_memory::macos_session::VmSnapshot;
use system_memory::macos_session::session_start;
use system_memory::macos_session::step;

/// A fake host-port layer: performs the actions the session asks for,
/// counting acquisitions and releases, and answers with scripted outcomes.
struct FakePortLayer {
    page_size_return: i64,
    page_size_error: i32,
    stats_return: i32,
    active_count: u32,
    free_count: u32,
    release_return: i32,
    release_error: i32,
    acquired: u32,
    released: u32,
}

impl FakePortLayer {
    fn perform(&mut self, action: SessionAction) -> Option<SessionEvent> {
        match action {
            SessionAction::QueryPageSize => Some(SessionEvent::PageSize {
                return_value: self.page_size_return,
                error_code: self.page_size_error,
            }),
            SessionAction::AcquireHostPort => {
                self.acquired += 1;
                Some(SessionEvent::PortAcquired { port: 0x1103 })
            }
            SessionAction::QueryVmStats { port } => {
                assert_eq!(port, 0x1103);
                Some(SessionEvent::StatsReturned {
                    return_code: self.stats_return,
                    active_count: self.active_count,
                    free_count: self.free_count,
                })
            }
            SessionAction::ReleaseHostPort { port } => {
                assert_eq!(port, 0x1103);
                self.released += 1;
                Some(SessionEvent::PortReleased {
                    return_code: self.release_return,
                    error_code: self.release_error,
                })
            }
            SessionAction::Idle => None,
        }
    }

    fn run(&mut self) -> SessionState {
        let (mut state, mut action) = session_start();
        while let Some(event) = self.perform(action) {
            let next = step(state, event);
            state = next.0;
            action = next.1;
        }
        state
    }
}

fn healthy_layer() -> FakePortLayer {
    FakePortLayer {
        page_size_return: 4096,
        page_size_error: 0,
        stats_return: 0,
        active_count: 100,
        free_count: 50,
        release_return: 0,
        release_error: 0,
        acquired: 0,
        released: 0,
    }
}

#[test]
fn session_success_yields_snapshot_and_balances_the_port() {
    let mut layer = healthy_layer();
    let end = layer.run();
    assert_eq!(
        end,
        SessionState::Done {
            outcome: Ok(VmSnapshot {
                page_size: 4096,
                stats: VmStats {
                    active_count: 100,
                    free_count: 50,
                },
            }),
        }
    );
    assert_eq!(layer.acquired, 1);
    assert_eq!(layer.released, 1);

    // The snapshot feeds the formula: (100 + 50) * 4096.
    match end {
        SessionState::Done { outcome: Ok(snap) } => {
            assert_eq!(calculate_available_memory(snap.page_size, &snap.stats), 614_400);
        }
        _ => unreachable!(),
    }
}

#[test]
fn session_releases_the_port_even_when_the_query_fails() {
    let mut layer = FakePortLayer {
        stats_return: 5,
        release_error: 9,
        ..healthy_layer()
    };
    let end = layer.run();
    assert_eq!(
        end,
        SessionState::Done {
            outcome: Err(MemError::Code(9)),
        }
    );
    assert_eq!(layer.acquired, 1);
    assert_eq!(layer.released, 1);
}

#[test]
fn session_reports_a_failed_release() {
    let mut layer = FakePortLayer {
        release_return: 15,
        release_error: 32,
        ..healthy_layer()
    };
    let end = layer.run();
    assert_eq!(
        end,
        SessionState::Done {
            outcome: Err(MemError::Code(32)),
        }
    );
    assert_eq!(layer.acquired, 1);
    assert_eq!(layer.released, 1);
}

#[test]
fn session_never_touches_the_port_when_page_size_fails() {
    let mut coded = FakePortLayer {
        page_size_return: -1,
        page_size_error: 22,
        ..healthy_layer()
    };
    let end = coded.run();
    assert_eq!(
        end,
        SessionState::Done {
            outcome: Err(MemError::Code(22)),
        }
    );
    assert_eq!(coded.acquired, 0);
    assert_eq!(coded.released, 0);

    let mut untouched = FakePortLayer {
        page_size_return: -1,
        page_size_error: 0,
        ..healthy_layer()
    };
    let end = untouched.run();
    assert_eq!(
        end,
        SessionState::Done {
            outcome: Err(MemError::Unsupported),
        }
    );
    assert_eq!(untouched.acquired, 0);
    assert_eq!(untouched.released, 0);
}
