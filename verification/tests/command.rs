use derive_builder::command::Command;
use derive_builder::runtime::BuildError;

fn s(value: &str) -> String {
    value.to_string()
}

#[test]
fn scenario_builds_the_command() {
    let mut builder = Command::builder();
    builder.arg(s("ls"));
    builder.arg(s("-la"));
    builder.set_env(vec![s("PATH=/bin")]);
    builder.set_executable(s("ls"));
    let command = builder.build().unwrap();
    assert_eq!(command.executable(), "ls");
    assert_eq!(command.args(), &vec![s("ls"), s("-la")]);
    assert_eq!(command.env(), &vec![s("PATH=/bin")]);
    assert_eq!(command.current_dir(), &None);
}

#[test]
fn scenario_without_env_names_env() {
    let mut builder = Command::builder();
    builder.arg(s("ls"));
    builder.arg(s("-la"));
    builder.set_executable(s("ls"));
    let error = builder.build().unwrap_err();
    assert_eq!(error, BuildError { index: 2, field: s("env") });
    assert_eq!(error.message(), "envis not set");
}

#[test]
fn fresh_command_builder_misses_the_executable() {
    let mut builder = Command::builder();
    assert_eq!(builder.build().unwrap_err(), BuildError { index: 0, field: s("executable") });
    builder.set_env(vec![]);
    assert_eq!(builder.build().unwrap_err(), BuildError { index: 0, field: s("executable") });
}

#[test]
fn failed_build_leaves_the_command_builder_as_it_was() {
    let mut builder = Command::builder();
    builder.set_executable(s("cargo")).arg(s("build")).set_current_dir(s("/src"));
    let before = format!("{:?}", builder);
    assert!(builder.build().is_err());
    assert_eq!(format!("{:?}", builder), before);
    builder.set_env(vec![s("A=1")]);
    let command = builder.build().unwrap();
    assert_eq!(command.executable(), "cargo");
    assert_eq!(command.args(), &vec![s("build")]);
    assert_eq!(command.env(), &vec![s("A=1")]);
    assert_eq!(command.current_dir(), &Some(s("/src")));
}

#[test]
fn command_setters_chain_and_the_last_value_wins() {
    let mut builder = Command::builder();
    builder
        .set_executable(s("a"))
        .set_executable(s("b"))
        .set_env(vec![s("X=1")])
        .set_env(vec![s("Y=2"), s("Z=3")])
        .set_current_dir(s("/one"))
        .set_current_dir(s("/two"))
        .arg(s("1"))
        .arg(s("2"))
        .arg(s("1"));
    let command = builder.build().unwrap();
    assert_eq!(command.executable(), "b");
    assert_eq!(command.args(), &vec![s("1"), s("2"), s("1")]);
    assert_eq!(command.env(), &vec![s("Y=2"), s("Z=3")]);
    assert_eq!(command.current_dir(), &Some(s("/two")));
}

#[test]
fn command_without_arguments_builds_with_none() {
    let mut builder = Command::builder();
    builder.set_executable(s("true")).set_env(vec![]);
    let command = builder.build().unwrap();
    assert!(command.args().is_empty());
    assert!(command.env().is_empty());
    assert_eq!(command.current_dir(), &None);
}

#[test]
fn successful_build_consumes_required_fields_and_arguments() {
    let mut builder = Command::builder();
    builder.set_executable(s("ls")).set_env(vec![]).arg(s("-l")).set_current_dir(s("/tmp"));
    assert!(builder.build().is_ok());
    assert_eq!(builder.build().unwrap_err(), BuildError { index: 0, field: s("executable") });
    builder.set_executable(s("pwd"));
    assert_eq!(builder.build().unwrap_err(), BuildError { index: 2, field: s("env") });
    builder.set_env(vec![s("B=2")]);
    let command = builder.build().unwrap();
    assert_eq!(command.executable(), "pwd");
    assert!(command.args().is_empty());
    assert_eq!(command.env(), &vec![s("B=2")]);
    assert_eq!(command.current_dir(), &Some(s("/tmp")));
}
