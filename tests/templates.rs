use test_supervisor::capture::{settle, ProcessOutput};
use test_supervisor::checks::verdict;
use test_supervisor::disposition::ExitDisposition;
use test_supervisor::manager::TestManager;
use test_supervisor::template::{ConfigError, Exchange, RunPlan, TestTemplate, TestTemplateBuilder};

fn template(name: &str, args: &str) -> TestTemplateBuilder {
    TestTemplateBuilder::new(name).args_template(args).agent("echo").timeout(2)
}

#[test]
fn build_needs_agent() {
    let b = TestTemplateBuilder::new("t").args_template("./prog");
    assert_eq!(b.build().err(), Some(ConfigError::MissingAgent));
}

#[test]
fn build_keeps_settings() {
    let t: TestTemplate = template("t", "./prog a")
        .valgrind(true)
        .log_output(true)
        .communicate(true)
        .operation_timeout(3)
        .build()
        .unwrap();
    assert_eq!(t.name, "t");
    assert_eq!(t.agent, "echo");
    assert_eq!(t.timeout, 2);
    assert!(t.valgrind && t.log_output && t.require_communicator);
    assert_eq!(t.operation_timeout, 3);
}

#[test]
fn communication_without_timeout_is_rejected() {
    let t = template("t", "./prog").communicate(true).build().unwrap();
    assert_eq!(t.instantiate(Some(8080)).err(), Some(ConfigError::MissingOperationTimeout));
    assert_eq!(t.instantiate(None).err(), Some(ConfigError::MissingPort));
}

#[test]
fn communication_with_timeout_and_port_is_accepted() {
    let t = template("t", "./prog").communicate(true).operation_timeout(1).build().unwrap();
    let inst = t.instantiate(Some(9000)).unwrap();
    assert_eq!(inst.port, 9000);
    assert!(inst.require_communicator);
}

#[test]
fn placeholder_needs_port() {
    let t = template("server", "./server {port}").build().unwrap();
    assert_eq!(t.instantiate(None).err(), Some(ConfigError::MissingPort));
}

#[test]
fn placeholder_is_replaced_everywhere() {
    let t = template("server", "./server {port} --peer=localhost:{port}").build().unwrap();
    let inst = t.instantiate(Some(8080)).unwrap();
    assert_eq!(inst.cmd_args, vec!["./server", "8080", "--peer=localhost:8080"]);
    assert_eq!(inst.port, 8080);
    let inst = t.instantiate(Some(0)).unwrap();
    assert_eq!(inst.cmd_args, vec!["./server", "0", "--peer=localhost:0"]);
}

#[test]
fn arguments_split_on_whitespace() {
    let t = template("t", "  ./prog\ta  b\n").build().unwrap();
    let inst = t.instantiate(None).unwrap();
    assert_eq!(inst.cmd_args, vec!["./prog", "a", "b"]);
    assert_eq!(inst.port, 0);
    let t = template("empty", "   ").build().unwrap();
    assert!(t.instantiate(None).unwrap().cmd_args.is_empty());
}

#[test]
fn port_without_placeholder_is_recorded() {
    let t = template("t", "./prog").build().unwrap();
    let inst = t.instantiate(Some(1234)).unwrap();
    assert_eq!(inst.cmd_args, vec!["./prog"]);
    assert_eq!(inst.port, 1234);
}

#[test]
fn leak_checker_goes_first() {
    let t = template("leaky", "./prog x").valgrind(true).build().unwrap();
    let inst = t.instantiate(None).unwrap();
    assert_eq!(
        inst.cmd_args,
        vec![
            "valgrind",
            "--leak-check=full",
            "--tool=memcheck",
            "--show-leak-kinds=all",
            "--track-origins=yes",
            "--verbose",
            "--error-exitcode=1",
            "-v",
            "--log-file=valgrind - leaky",
            "./prog",
            "x",
        ]
    );
}

#[test]
fn port_digits() {
    let t = template("p", "-p{port}").build().unwrap();
    assert_eq!(t.instantiate(Some(7)).unwrap().cmd_args, vec!["-p7"]);
    assert_eq!(t.instantiate(Some(10)).unwrap().cmd_args, vec!["-p10"]);
    assert_eq!(t.instantiate(Some(65535)).unwrap().cmd_args, vec!["-p65535"]);
}

#[test]
fn timed_out_run_fails() {
    let t = template("sleepy", "./sleep5").build().unwrap();
    let inst = t.instantiate(None).unwrap();
    assert_eq!(inst.timeout, 2);
    let d = settle(None);
    assert_eq!(d, ExitDisposition::TimedOut);
    let r = ProcessOutput::new(Vec::new(), Vec::new(), d);
    assert_eq!(verdict(&r, true), Some(false));
}

#[test]
fn manager_registers_once() {
    let mut m = TestManager::new("suite", "/tmp/tests", 0);
    let t = template("a", "./a").build().unwrap();
    assert_eq!(m.register_template(t.clone()), Ok(String::from("a")));
    assert_eq!(m.register_template(t), Err(ConfigError::DuplicateTemplate));
    assert_eq!(m.name(), "suite");
    assert_eq!(m.tests_dir_path(), "/tmp/tests");
    assert_eq!(m.startup_delay(), 0);
}

#[test]
fn manager_instantiates_in_order() {
    let mut m = TestManager::new("suite", "/tmp/tests", 1);
    m.register_template(template("a", "./a").build().unwrap()).unwrap();
    m.register_template(template("b", "./b {port}").build().unwrap()).unwrap();
    assert_eq!(m.instantiate_test("c", None), Err(ConfigError::UnknownTemplate));
    assert_eq!(m.instantiate_test("b", None), Err(ConfigError::MissingPort));
    assert_eq!(m.test_count(), 0);
    m.instantiate_test("a", None).unwrap();
    m.instantiate_test("b", Some(7000)).unwrap();
    assert_eq!(m.test_count(), 2);
    assert_eq!(m.test_at(0).unwrap().name, "a");
    assert_eq!(m.test_at(1).unwrap().cmd_args, vec!["./b", "7000"]);
    assert!(m.test_at(2).is_none());
}

#[test]
fn reinstantiate_moves_to_new_port() {
    let mut m = TestManager::new("suite", "/tmp/tests", 0);
    m.register_template(template("a", "./a").build().unwrap()).unwrap();
    m.register_template(template("b", "./b {port}").build().unwrap()).unwrap();
    m.instantiate_test("a", None).unwrap();
    m.instantiate_test("b", Some(7000)).unwrap();
    assert_eq!(m.test_count(), 2);
    m.reinstantiate_test("b", 7001).unwrap();
    assert_eq!(m.test_count(), 2);
    let b = m.test_at(1).unwrap();
    assert_eq!(b.name, "b");
    assert_eq!(b.port, 7001);
    assert_eq!(b.cmd_args, vec!["./b", "7001"]);
    m.reinstantiate_test("a", 7002).unwrap();
    assert_eq!(m.test_count(), 2);
    assert_eq!(m.test_at(1).unwrap().name, "a");
    assert_eq!(m.test_at(1).unwrap().port, 7002);
}

#[test]
fn plan_idle_without_arguments() {
    let t = template("leakonly", "").build().unwrap();
    assert_eq!(t.instantiate(None).unwrap().plan(), RunPlan::Idle);
}

#[test]
fn plan_supervise_with_exchange() {
    let t = template("srv", "./srv {port}")
        .communicate(true)
        .operation_timeout(4)
        .log_output(true)
        .build()
        .unwrap();
    let inst = t.instantiate(Some(5555)).unwrap();
    assert_eq!(
        inst.plan(),
        RunPlan::Supervise {
            wait_timeout: 2,
            exchange: Some(Exchange { timeout: 4, port: 5555 }),
            keep_output: true,
        }
    );
    assert_eq!(inst.port_text(), "5555");
    assert_eq!(inst.output_log_name(), "output - srv.txt");
    assert_eq!(inst.communication_log_name(), "communicate - srv.txt");
}

#[test]
fn plan_supervise_without_exchange() {
    let t = template("plain", "./plain").build().unwrap();
    assert_eq!(
        t.instantiate(None).unwrap().plan(),
        RunPlan::Supervise { wait_timeout: 2, exchange: None, keep_output: false }
    );
}
