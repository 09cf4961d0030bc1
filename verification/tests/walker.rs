use pipeserve::stage::{FileOutcome, SpawnFailure, StdinSpec, TermProbe, plan_file, spawn_failed,
    spawn_succeeded, open_failed, open_succeeded};
use pipeserve::state::{ChainState, OriginPath, ProcessingState, Stage, StaticFile, initial_state};
use pipeserve::walk::{LayerProbe, Probes, walk_core};

type St = ProcessingState<u32, u32>;

fn origin(text: &str, depth: usize) -> OriginPath {
    OriginPath { text: text.to_string(), depth }
}

fn plain_levels(n: usize) -> Vec<LayerProbe> {
    (0..n).map(|_| LayerProbe { canon: None, base_mark: false }).collect()
}

fn term(is_dir: bool, eff_exists: bool, eff_is_dir: bool, eff_is_exec: bool) -> TermProbe {
    TermProbe { is_dir, eff_exists, eff_is_dir, eff_is_exec }
}

fn layers_of(v: &[&str]) -> Vec<String> {
    v.iter().map(|s| s.to_string()).collect()
}

#[test]
fn hidden_segment_is_403_and_spawns_nothing() {
    let base = "/srv/root".to_string();
    let layers = layers_of(&[".hidden"]);
    let probes = Probes {
        root_mark: false,
        levels: plain_levels(1),
        // even a filesystem that would offer an executable is never asked
        term: term(false, true, false, true),
    };
    let r = walk_core(&base, &layers, &probes, initial_state::<u32, u32>(1));
    match r.outcome {
        FileOutcome::Settled(h) => {
            assert!(h.kills.is_empty());
            assert!(matches!(h.state, St::ErrorCode(403)));
        },
        _ => panic!("expected a settled 403"),
    }
}

#[test]
fn dot_dot_style_segment_is_403() {
    let base = "/srv/root".to_string();
    let layers = layers_of(&["..%2Fetc", "passwd"]);
    let probes = Probes {
        root_mark: false,
        levels: plain_levels(2),
        term: term(false, true, false, false),
    };
    let r = walk_core(&base, &layers, &probes, initial_state::<u32, u32>(1));
    match r.outcome {
        FileOutcome::Settled(h) => assert!(matches!(h.state, St::ErrorCode(403))),
        _ => panic!("expected a settled 403"),
    }
}

#[test]
fn canonical_escape_is_403() {
    let base = "/srv/root".to_string();
    let layers = layers_of(&["link"]);
    let probes = Probes {
        root_mark: false,
        levels: vec![LayerProbe { canon: Some("/etc".to_string()), base_mark: false }],
        term: term(false, true, false, false),
    };
    let r = walk_core(&base, &layers, &probes, initial_state::<u32, u32>(1));
    match r.outcome {
        FileOutcome::Settled(h) => assert!(matches!(h.state, St::ErrorCode(403))),
        _ => panic!("expected a settled 403"),
    }
}

#[test]
fn canonical_form_under_base_descends() {
    let base = "/srv/root".to_string();
    let layers = layers_of(&["sub"]);
    let probes = Probes {
        root_mark: false,
        levels: vec![LayerProbe { canon: Some("/srv/root/sub".to_string()), base_mark: false }],
        term: term(false, false, false, false),
    };
    let r = walk_core(&base, &layers, &probes, initial_state::<u32, u32>(1));
    match r.outcome {
        FileOutcome::Settled(h) => assert!(matches!(h.state, St::ErrorCode(404))),
        _ => panic!("expected the terminal decision, not a descent stop"),
    }
}

#[test]
fn missing_path_with_fresh_request_is_404() {
    let base = "/srv/root".to_string();
    let layers = layers_of(&["does", "not", "exist"]);
    let probes = Probes {
        root_mark: false,
        levels: plain_levels(3),
        term: term(false, false, false, false),
    };
    let r = walk_core(&base, &layers, &probes, initial_state::<u32, u32>(1));
    match r.outcome {
        FileOutcome::Settled(h) => {
            assert!(h.kills.is_empty());
            assert!(matches!(h.state, St::ErrorCode(404)));
        },
        _ => panic!("expected a settled 404"),
    }
}

#[test]
fn missing_path_passes_an_error_state_through() {
    // the propagation policy: a non-success state survives a missing file
    // so an outer error document can still render it
    let base = "/srv/root".to_string();
    let layers = layers_of(&["x"]);
    let probes = Probes {
        root_mark: false,
        levels: plain_levels(1),
        term: term(false, false, false, false),
    };
    let r = walk_core::<u32, u32>(&base, &layers, &probes, ProcessingState::ErrorCode(404));
    match r.outcome {
        FileOutcome::Settled(h) => {
            assert!(h.kills.is_empty());
            assert!(matches!(h.state, St::ErrorCode(404)));
        },
        _ => panic!("expected the error state to pass through"),
    }
}

#[test]
fn root_with_index_file_is_opened() {
    let base = "/srv/root".to_string();
    let layers: Vec<String> = Vec::new();
    let probes = Probes {
        root_mark: false,
        levels: Vec::new(),
        term: term(true, true, false, false),
    };
    let r = walk_core(&base, &layers, &probes, initial_state::<u32, u32>(1));
    match r.outcome {
        FileOutcome::Open(op) => {
            assert_eq!(op.path.text, "/srv/root/.index");
            assert_eq!(op.path.depth, 1);
            assert_eq!(op.status, 200);
            assert!(op.log.is_none());
        },
        _ => panic!("expected an open plan for the index file"),
    }
}

#[test]
fn directory_with_index_is_served_from_it() {
    let base = "/srv/root".to_string();
    let layers = layers_of(&["dir"]);
    let probes = Probes {
        root_mark: false,
        levels: plain_levels(1),
        term: term(true, true, false, false),
    };
    let r = walk_core(&base, &layers, &probes, initial_state::<u32, u32>(1));
    match r.outcome {
        FileOutcome::Open(op) => {
            assert_eq!(op.path.text, "/srv/root/dir/.index");
            assert_eq!(op.path.depth, 2);
            assert_eq!(op.status, 200);
        },
        _ => panic!("expected an open plan"),
    }
}

#[test]
fn directory_without_index_is_404() {
    let base = "/srv/root".to_string();
    let layers = layers_of(&["dir"]);
    let probes = Probes {
        root_mark: false,
        levels: plain_levels(1),
        term: term(true, false, false, false),
    };
    let r = walk_core(&base, &layers, &probes, initial_state::<u32, u32>(1));
    match r.outcome {
        FileOutcome::Settled(h) => assert!(matches!(h.state, St::ErrorCode(404))),
        _ => panic!("expected a settled 404"),
    }
}

#[test]
fn index_that_is_itself_a_directory_is_418() {
    let base = "/srv/root".to_string();
    let layers = layers_of(&["dir"]);
    let probes = Probes {
        root_mark: false,
        levels: plain_levels(1),
        term: term(true, true, true, false),
    };
    let r = walk_core(&base, &layers, &probes, initial_state::<u32, u32>(1));
    match r.outcome {
        FileOutcome::Settled(h) => assert!(matches!(h.state, St::ErrorCode(418))),
        _ => panic!("expected a settled 418"),
    }
}

#[test]
fn executable_with_request_body_feeds_it_as_stdin() {
    let base = "/srv/root".to_string();
    let layers = layers_of(&["a"]);
    let probes = Probes {
        root_mark: false,
        levels: plain_levels(1),
        term: term(false, true, false, true),
    };
    let r = walk_core(&base, &layers, &probes, initial_state::<u32, u32>(42));
    match r.outcome {
        FileOutcome::Spawn(pl) => {
            assert_eq!(pl.exec_path.text, "/srv/root/a");
            assert_eq!(pl.exec_path.depth, 1);
            assert_eq!(pl.work_dir, "/srv/root");
            assert_eq!(pl.status, 200);
            assert!(pl.prev.is_empty());
            assert!(matches!(pl.stdin, StdinSpec::Body(42)));
            let chained = spawn_succeeded(pl, 77u32);
            match chained {
                St::Chain(ch) => {
                    assert_eq!(ch.status, 200);
                    assert_eq!(ch.stages.len(), 1);
                    assert_eq!(ch.stages[0].child, 77);
                    assert_eq!(ch.stages[0].origin.text, "/srv/root/a");
                },
                _ => panic!("expected a chain"),
            }
        },
        _ => panic!("expected a spawn plan"),
    }
}

#[test]
fn executable_after_chain_takes_last_stdout() {
    let prev_chain: St = ProcessingState::Chain(ChainState {
        stages: vec![Stage { child: 11u32, origin: origin("/srv/root/a", 1) }],
        status: 200,
    });
    let p = origin("/srv/root/a/b", 2);
    let t = term(false, true, false, true);
    match plan_file(p, &t, prev_chain) {
        FileOutcome::Spawn(pl) => {
            assert!(matches!(pl.stdin, StdinSpec::LastStdout));
            assert_eq!(pl.prev.len(), 1);
            assert_eq!(pl.prev[0].child, 11);
            assert_eq!(pl.work_dir, "/srv/root/a");
            let chained = spawn_succeeded(pl, 22u32);
            match chained {
                St::Chain(ch) => {
                    assert_eq!(ch.stages.len(), 2);
                    assert_eq!(ch.stages[0].child, 11);
                    assert_eq!(ch.stages[1].child, 22);
                },
                _ => panic!("expected a chain"),
            }
        },
        _ => panic!("expected a spawn plan"),
    }
}

#[test]
fn error_state_reaching_an_executable_gets_fresh_stdin() {
    let p = origin("/srv/root/deny", 1);
    let t = term(false, true, false, true);
    match plan_file::<u32, u32>(p, &t, ProcessingState::ErrorCode(403)) {
        FileOutcome::Spawn(pl) => {
            assert!(matches!(pl.stdin, StdinSpec::Fresh));
            assert_eq!(pl.status, 403);
        },
        _ => panic!("expected a spawn plan"),
    }
}

#[test]
fn error_state_reaching_a_static_file_keeps_its_status() {
    let p = origin("/srv/root/.index", 1);
    let t = term(false, true, false, false);
    match plan_file::<u32, u32>(p, &t, ProcessingState::ErrorCode(403)) {
        FileOutcome::Open(op) => {
            assert_eq!(op.status, 403);
            assert_eq!(op.path.text, "/srv/root/.index");
        },
        _ => panic!("expected an open plan"),
    }
}

#[test]
fn chain_into_static_is_an_internal_error_and_kills_the_chain() {
    let chain: St = ProcessingState::Chain(ChainState {
        stages: vec![Stage { child: 5u32, origin: origin("/srv/root/a", 1) }],
        status: 200,
    });
    let p = origin("/srv/root/a/file", 2);
    let t = term(false, true, false, false);
    match plan_file(p, &t, chain) {
        FileOutcome::Settled(h) => {
            assert_eq!(h.kills.len(), 1);
            assert_eq!(h.kills[0].child, 5);
            match h.state {
                St::InternalError(c, m) => {
                    assert_eq!(c, 500);
                    assert_eq!(m, "direct-chain-into-static");
                },
                _ => panic!("expected an internal error"),
            }
        },
        _ => panic!("expected a settled internal error"),
    }
}

#[test]
fn missing_file_kills_a_successful_chain() {
    let chain: St = ProcessingState::Chain(ChainState {
        stages: vec![Stage { child: 5u32, origin: origin("/srv/root/a", 1) }],
        status: 200,
    });
    let p = origin("/srv/root/a/gone", 2);
    let t = term(false, false, false, false);
    match plan_file(p, &t, chain) {
        FileOutcome::Settled(h) => {
            assert_eq!(h.kills.len(), 1);
            assert!(matches!(h.state, St::ErrorCode(404)));
        },
        _ => panic!("expected a settled 404"),
    }
}

#[test]
fn spawn_failures_kill_collected_children() {
    let mk = || pipeserve::stage::SpawnPlan::<u32, u32> {
        exec_path: origin("/srv/root/a", 1),
        work_dir: "/srv/root".to_string(),
        stdin: StdinSpec::LastStdout,
        prev: vec![Stage { child: 9u32, origin: origin("/srv/root/a", 1) }],
        status: 200,
    };
    let h = spawn_failed(mk(), SpawnFailure::Headers);
    assert_eq!(h.kills.len(), 1);
    assert!(matches!(h.state, St::InternalError(500, m) if m == "Could not create header tempfile"));
    let h = spawn_failed(mk(), SpawnFailure::Input);
    assert!(matches!(
        h.state,
        St::InternalError(500, m) if m == "Could not ascertain input from previous processing state"
    ));
    let h = spawn_failed(mk(), SpawnFailure::Spawn);
    assert!(matches!(
        h.state,
        St::InternalError(500, m) if m == "Error running command /srv/root/a"
    ));
}

#[test]
fn open_results_become_static_or_internal_error() {
    let op = pipeserve::stage::OpenPlan {
        path: origin("/srv/root/f", 1),
        status: 200,
        log: None,
    };
    match open_succeeded::<u32, u32>(op, 3u32) {
        St::Static(StaticFile { handle, origin: o, status }) => {
            assert_eq!(handle, 3);
            assert_eq!(o.text, "/srv/root/f");
            assert_eq!(status, 200);
        },
        _ => panic!("expected a static state"),
    }
    let op = pipeserve::stage::OpenPlan {
        path: origin("/srv/root/f", 1),
        status: 200,
        log: None,
    };
    assert!(matches!(
        open_failed::<u32, u32>(op),
        St::InternalError(500, m) if m == "Couldn't open file /srv/root/f"
    ));
}

#[test]
fn base_marker_raises_done_but_keeps_the_outcome() {
    let base = "/srv/root".to_string();
    let layers = layers_of(&["a", "b", "c"]);
    let term_probe = term(false, false, false, false);
    let without = Probes {
        root_mark: false,
        levels: plain_levels(3),
        term: term(false, false, false, false),
    };
    let with = Probes {
        root_mark: false,
        levels: vec![
            LayerProbe { canon: None, base_mark: true },
            LayerProbe { canon: None, base_mark: false },
            LayerProbe { canon: None, base_mark: false },
        ],
        term: term_probe,
    };
    let r1 = walk_core(&base, &layers, &without, initial_state::<u32, u32>(1));
    let r2 = walk_core(&base, &layers, &with, initial_state::<u32, u32>(1));
    assert!(!r1.done);
    assert!(r2.done);
    match (r1.outcome, r2.outcome) {
        (FileOutcome::Settled(h1), FileOutcome::Settled(h2)) => {
            assert!(matches!(h1.state, St::ErrorCode(404)));
            assert!(matches!(h2.state, St::ErrorCode(404)));
        },
        _ => panic!("expected identical settled outcomes"),
    }
}

#[test]
fn walks_over_equal_observations_agree() {
    let base = "/srv/root".to_string();
    let layers = layers_of(&["a"]);
    let mk_probes = || Probes {
        root_mark: false,
        levels: plain_levels(1),
        term: term(false, true, false, true),
    };
    let r1 = walk_core(&base, &layers, &mk_probes(), initial_state::<u32, u32>(4));
    let r2 = walk_core(&base, &layers, &mk_probes(), initial_state::<u32, u32>(4));
    match (r1.outcome, r2.outcome) {
        (FileOutcome::Spawn(p1), FileOutcome::Spawn(p2)) => {
            assert_eq!(p1.exec_path.text, p2.exec_path.text);
            assert_eq!(p1.work_dir, p2.work_dir);
            assert_eq!(p1.status, p2.status);
            assert!(matches!(p1.stdin, StdinSpec::Body(4)));
            assert!(matches!(p2.stdin, StdinSpec::Body(4)));
        },
        _ => panic!("expected equal spawn plans"),
    }
}
