use aipack::store::{
    ListOptions, ListOrder, ModelManager, RunBmc, RunForCreate, TaskBmc, TaskForCreate,
    TaskForUpdate,
};

fn create_run(mm: &mut ModelManager, label: &str) -> i64 {
    let run_c = RunForCreate {
        agent_name: Some(label.to_string()),
        agent_path: Some(format!("path/{label}")),
        start: None,
    };
    RunBmc::create(mm, run_c).expect("run should be created")
}

#[test]
fn test_model_task_bmc_create() {
    // -- Fixture
    let mut mm = ModelManager::new();
    let run_id = create_run(&mut mm, "run-1");

    // -- Exec
    let task_c = TaskForCreate {
        run_id,
        num: None,
        label: Some("Test Task".to_string()),
    };
    let id = TaskBmc::create(&mut mm, task_c).expect("task should be created");

    // -- Check
    let task = TaskBmc::get(&mm, id).expect("task should exist");
    assert_eq!(task.label.as_deref(), Some("Test Task"));
    assert_eq!(task.run_id, run_id);
}

#[test]
fn test_model_task_bmc_update() {
    // -- Fixture
    let mut mm = ModelManager::new();
    let run_id = create_run(&mut mm, "run-1");
    let task_c = TaskForCreate {
        run_id,
        num: None,
        label: Some("Test Task".to_string()),
    };
    let id = TaskBmc::create(&mut mm, task_c).expect("task should be created");

    // -- Exec
    let task_u = TaskForUpdate {
        start: Some(123),
        end: None,
        label: None,
    };
    let count = TaskBmc::update(&mut mm, id, task_u).expect("update should pass");

    // -- Check
    assert_eq!(count, 1);
    let task = TaskBmc::get(&mm, id).expect("task should exist");
    assert_eq!(task.start, Some(123));
    assert_eq!(task.label.as_deref(), Some("Test Task"));
}

#[test]
fn test_model_task_bmc_list_simple() {
    // -- Fixture
    let mut mm = ModelManager::new();
    let run_id = create_run(&mut mm, "run-1");
    for i in 0..3 {
        let task_c = TaskForCreate {
            run_id,
            num: Some(i),
            label: Some(format!("label-{i}")),
        };
        TaskBmc::create(&mut mm, task_c).expect("task should be created");
    }

    // -- Exec
    let tasks = TaskBmc::list(&mm, None).expect("list should pass");

    // -- Check
    let first = tasks.first().expect("Should have first item");
    assert_eq!(first.label.as_deref(), Some("label-0"));
    assert_eq!(tasks.len(), 3, "Should have 3 items");
    assert_eq!(tasks[2].label.as_deref(), Some("label-2"));
}

#[test]
fn test_model_task_bmc_list_from_seed() {
    // -- Fixture
    let mut mm = ModelManager::new();
    for s in 0..10 {
        create_run(&mut mm, &format!("run-seed-{s}"));
    }
    let run_id = create_run(&mut mm, "run-seed");
    for i in 0..3 {
        let task_c = TaskForCreate {
            run_id,
            num: Some(i),
            label: Some(format!("label-{i}")),
        };
        TaskBmc::create(&mut mm, task_c).expect("task should be created");
    }

    // -- Exec
    let tasks = TaskBmc::list(&mm, None).expect("list should pass");

    // -- Check
    let first = tasks.first().expect("Should have first item");
    assert_eq!(first.label.as_deref(), Some("label-0"));
    assert_eq!(tasks.len(), 3, "Should have 3 items");
    assert_eq!(tasks[2].label.as_deref(), Some("label-2"));
}

#[test]
fn test_model_task_bmc_list_order_by() {
    // -- Fixture
    let mut mm = ModelManager::new();
    let run_id = create_run(&mut mm, "run-1");
    for i in 0..3 {
        let task_c = TaskForCreate {
            run_id,
            num: Some(i),
            label: Some(format!("label-{i}")),
        };
        TaskBmc::create(&mut mm, task_c).expect("task should be created");
    }

    // -- Exec: descending by id (the original's "!id" ordering)
    let options = ListOptions { order: ListOrder::IdDesc };
    let tasks = TaskBmc::list(&mm, Some(options)).expect("list should pass");

    // -- Check
    let first = tasks.first().expect("Should have first item");
    assert_eq!(first.label.as_deref(), Some("label-2"));
    assert_eq!(tasks.len(), 3, "Should have 3 items");
    let third = tasks.get(2).expect("Should have third item");
    assert_eq!(third.label.as_deref(), Some("label-0"));
}

#[test]
fn test_model_task_bmc_get_not_found() {
    let mm = ModelManager::new();
    let err = aipack::store::TaskBmc::get(&mm, 42).expect_err("missing task is an error");
    assert!(matches!(err, aipack::store::StoreError::EntityNotFound));
}
