use r2pipe::pool::is_quit;
use r2pipe::pool::spawn_args;
use r2pipe::pool::threads_plan;
use r2pipe::Error;
use r2pipe::R2PipeSpawnOptions;

#[test]
fn mismatched_lists_are_an_argument_mismatch() {
    let names: Vec<&'static str> = vec!["a", "b"];
    let opts: Vec<Option<R2PipeSpawnOptions>> = vec![None];
    assert!(matches!(threads_plan(&names, &opts), Err(Error::ArgumentMismatch)));
}

#[test]
fn plan_is_one_worker_per_target_in_request_order() {
    let names: Vec<&'static str> = vec!["first", "second", "third"];
    let opts: Vec<Option<R2PipeSpawnOptions>> = vec![
        None,
        Some(R2PipeSpawnOptions { exepath: "radare2".to_string(), args: vec!["-e", "scr.color=0"] }),
        None,
    ];
    let plan = threads_plan(&names, &opts).unwrap();
    assert_eq!(plan.len(), 3);
    for (i, worker) in plan.iter().enumerate() {
        assert_eq!(worker.id as usize, i);
        assert_eq!(worker.name, names[i]);
    }
    assert!(plan[0].opts.is_none());
    let planned = plan[1].opts.as_ref().unwrap();
    assert_eq!(planned.exepath, "radare2");
    assert_eq!(planned.args, vec!["-e", "scr.color=0"]);
    assert!(plan[2].opts.is_none());
}

#[test]
fn empty_request_plans_no_workers() {
    let names: Vec<&'static str> = Vec::new();
    let opts: Vec<Option<R2PipeSpawnOptions>> = Vec::new();
    assert_eq!(threads_plan(&names, &opts).unwrap().len(), 0);
}

#[test]
fn spawn_args_without_options_use_the_default_executable() {
    let (exe, argv) = spawn_args("/bin/ls", &None);
    assert_eq!(exe, "r2");
    assert_eq!(argv, vec!["-q0".to_string(), "/bin/ls".to_string()]);
}

#[test]
fn spawn_args_place_extra_arguments_before_the_target() {
    let opts = Some(R2PipeSpawnOptions {
        exepath: "radare2".to_string(),
        args: vec!["-e", "scr.color=0"],
    });
    let (exe, argv) = spawn_args("target.bin", &opts);
    assert_eq!(exe, "radare2");
    assert_eq!(
        argv,
        vec![
            "-q0".to_string(),
            "-e".to_string(),
            "scr.color=0".to_string(),
            "target.bin".to_string(),
        ]
    );
}

#[test]
fn only_the_exact_sentinel_quits() {
    assert!(is_quit("q"));
    assert!(!is_quit(""));
    assert!(!is_quit("quit"));
    assert!(!is_quit("Q"));
    assert!(!is_quit("qq"));
}

#[test]
fn default_options_are_empty() {
    let opts = R2PipeSpawnOptions::default();
    assert_eq!(opts.exepath, "");
    assert!(opts.args.is_empty());
}

#[test]
fn cloned_options_match_the_original() {
    let opts = R2PipeSpawnOptions { exepath: "r2".to_string(), args: vec!["-n"] };
    let copy = opts.clone();
    assert_eq!(copy.exepath, opts.exepath);
    assert_eq!(copy.args, opts.args);
}
