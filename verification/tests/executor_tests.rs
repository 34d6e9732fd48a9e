use kaze::executor::{exec_argv, exit_outcome, to_clean_result, ExecError};

#[test]
fn every_command_runs_under_ionice() {
    assert_eq!(
        exec_argv("paccache -rk2"),
        vec!["ionice", "-c", "3", "paccache", "-rk2"]
    );
    assert_eq!(
        exec_argv("podman system prune -af "),
        vec!["ionice", "-c", "3", "podman", "system", "prune", "-af"]
    );
    assert_eq!(exec_argv(""), vec!["ionice", "-c", "3"]);
}

#[test]
fn exit_outcome_success_keeps_output() {
    let r = exit_outcome(true, Some(0), "freed 3 packages\n".to_string());
    assert!(matches!(r, Ok(ref out) if out == "freed 3 packages\n"));
}

#[test]
fn exit_outcome_failure_keeps_status() {
    assert!(matches!(exit_outcome(false, Some(2), String::new()), Err(ExecError::Status(2))));
    assert!(matches!(exit_outcome(false, None, String::new()), Err(ExecError::Status(1))));
}

#[test]
fn exec_error_messages() {
    assert_eq!(ExecError::Timeout.message(), "Comando excedeu timeout");
    assert_eq!(
        ExecError::Io("No such file or directory (os error 2)".to_string()).message(),
        "Falha ao executar: No such file or directory (os error 2)"
    );
    assert_eq!(ExecError::Status(1).message(), "Comando falhou com status: 1");
    assert_eq!(ExecError::Status(-9).message(), "Comando falhou com status: -9");
}

#[test]
fn clean_result_drops_output_and_keeps_message() {
    assert_eq!(to_clean_result(Ok("whatever".to_string())), Ok(()));
    assert_eq!(
        to_clean_result(Err(ExecError::Status(3))),
        Err("Comando falhou com status: 3".to_string())
    );
}
