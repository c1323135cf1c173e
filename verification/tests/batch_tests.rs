use workspace_launcher::WorkspaceApp;
use workspace_launcher::batch::BatchRun;
use workspace_launcher::batch::run_batch;

fn app(id: &str, name: &str, path: &str, delay: Option<u64>) -> WorkspaceApp {
    WorkspaceApp {
        id: id.to_string(),
        name: name.to_string(),
        path: path.to_string(),
        args: None,
        delay,
    }
}

#[test]
fn example_two_item_batch() {
    let apps = vec![
        app("1", "Editor", "/bin/true", Some(0)),
        app("2", "Bad", "/no/such/binary", Some(0)),
    ];
    let errors = vec![None, Some("entity not found".to_string())];
    let rep = run_batch(apps, &errors);

    let results = &rep.completion.results;
    assert_eq!(results.len(), 2);
    assert!(results[0].success);
    assert_eq!(results[0].app_id, "1");
    assert!(results[0].error.is_none());
    assert!(!results[1].success);
    assert_eq!(results[1].app_id, "2");
    assert_eq!(results[1].error.as_deref(), Some("entity not found"));
}

#[test]
fn emits_one_progress_event_per_item_in_order() {
    let apps = vec![
        app("a", "One", "/bin/one", None),
        app("b", "Two", "/bin/two", None),
        app("c", "Three", "/bin/three", None),
        app("d", "Four", "/bin/four", None),
    ];
    let errors = vec![None, None, None, None];
    let rep = run_batch(apps, &errors);

    assert_eq!(rep.progress.len(), 4);
    for (i, e) in rep.progress.iter().enumerate() {
        assert_eq!(e.current, i);
        assert_eq!(e.total, 4);
    }
    assert_eq!(rep.progress[0].app_name, "One");
    assert_eq!(rep.progress[0].app_id, "a");
    assert_eq!(rep.progress[3].app_name, "Four");
    assert_eq!(rep.progress[3].app_id, "d");
    assert_eq!(rep.completion.results.len(), 4);
}

#[test]
fn a_failure_does_not_stop_the_batch() {
    let apps = vec![
        app("a", "One", "/bin/one", None),
        app("b", "Two", "/no/such/binary", None),
        app("c", "Three", "/bin/three", None),
    ];
    let errors = vec![None, Some("permission denied".to_string()), None];
    let rep = run_batch(apps, &errors);

    // The item after the failure was still attempted and succeeded.
    assert_eq!(rep.progress.len(), 3);
    assert_eq!(rep.completion.results.len(), 3);
    assert!(rep.completion.results[0].success);
    assert!(!rep.completion.results[1].success);
    assert!(rep.completion.results[2].success);
    assert_eq!(rep.completion.results[2].app_id, "c");
}

#[test]
fn empty_batch_completes_at_once() {
    let rep = run_batch(Vec::new(), &Vec::new());
    assert!(rep.progress.is_empty());
    assert!(rep.completion.results.is_empty());
}

#[test]
fn incremental_run_mirrors_the_batch() {
    let apps = vec![
        app("x", "Slow", "/bin/slow", Some(3)),
        app("y", "Quick", "/bin/quick", None),
    ];
    let mut run = BatchRun::new(apps);

    assert!(run.has_next());
    let e = run.next_progress();
    assert_eq!((e.current, e.total), (0, 2));
    assert_eq!(e.app_name, "Slow");
    let p = run.next_plan();
    assert_eq!(p.wait_seconds, 3);
    assert_eq!(p.path, "/bin/slow");
    run.record(None);

    assert!(run.has_next());
    let e = run.next_progress();
    assert_eq!((e.current, e.total), (1, 2));
    let p = run.next_plan();
    assert_eq!(p.wait_seconds, 0);
    run.record(Some("exec format error".to_string()));

    assert!(!run.has_next());
    let done = run.into_completion();
    assert_eq!(done.results.len(), 2);
    assert!(done.results[0].success);
    assert_eq!(done.results[1].error.as_deref(), Some("exec format error"));
}
