//! How a command is run: always under `ionice -c 3`, with a time limit, and
//! what its exit means for the caller.

use vstd::prelude::*;
use crate::text::{
    concat2, owned, is_ws, lemma_words_concat, lemma_words_push_ws, lemma_words_single, signed_decimal,
    signed_decimal_text, split_whitespace, views, words,
};

verus! {

/// Why a command did not succeed.
pub enum ExecError {
    /// The command ran past its time limit.
    Timeout,
    /// The command could not be started; the text is the system's reason.
    Io(String),
    /// The command ended with this non-success exit status.
    Status(i32),
}

impl ExecError {
    /// The message that describes the error.
    pub open spec fn message_view(&self) -> Seq<char> {
        match self {
            ExecError::Timeout => "Comando excedeu timeout"@,
            ExecError::Io(reason) => "Falha ao executar: "@ + reason@,
            ExecError::Status(code) => "Comando falhou com status: "@ + signed_decimal(
                *code as int,
            ),
        }
    }

    /// The message that describes the error.
    pub fn message(&self) -> (m: String)
        ensures
            m@ == self.message_view(),
    {
        match self {
            ExecError::Timeout => owned("Comando excedeu timeout"),
            ExecError::Io(reason) => concat2("Falha ao executar: ", reason.as_str()),
            ExecError::Status(code) => {
                let digits = signed_decimal_text(*code);
                concat2("Comando falhou com status: ", digits.as_str())
            },
        }
    }
}

/// A command line and the number of seconds it may run.
pub struct ExecCommand {
    pub command: String,
    pub timeout_secs: u64,
}

/// The text every command line is prefixed with: idle I/O priority.
pub open spec fn ionice_prefix() -> Seq<char> {
    "ionice -c 3 "@
}

/// The program and arguments that run `command`: the words of the command
/// line after the `ionice -c 3` prefix.
pub open spec fn argv_of(command: Seq<char>) -> Seq<Seq<char>> {
    words(ionice_prefix() + command)
}

/// The program and arguments that run `command` under `ionice -c 3`.
pub fn exec_argv(command: &str) -> (argv: Vec<String>)
    ensures
        views(argv@) == argv_of(command@),
        argv@.len() >= 3,
{
    let full = concat2("ionice -c 3 ", command);
    let argv = split_whitespace(full.as_str());
    proof {
        lemma_argv_runs_under_ionice(command@);
        assert(views(argv@).len() == argv@.len());
    }
    argv
}

/// Every command runs as `ionice -c 3` followed by the words of its command
/// line; no word of the command line is lost, joined or split.
pub proof fn lemma_argv_runs_under_ionice(command: Seq<char>)
    ensures
        argv_of(command) == seq!["ionice"@, "-c"@, "3"@] + words(command),
{
    reveal_strlit("ionice -c 3 ");
    reveal_strlit("ionice");
    reveal_strlit("-c");
    reveal_strlit("3");
    let w1 = seq!['i', 'o', 'n', 'i', 'c', 'e'];
    let w2 = seq!['-', 'c'];
    let w3 = seq!['3'];
    let p1 = w1.push(' ');
    let p2 = w2.push(' ');
    let p3 = w3.push(' ');
    assert(ionice_prefix() =~= p1 + p2 + p3);
    assert(is_ws(' '));
    lemma_words_single(w1);
    lemma_words_single(w2);
    lemma_words_single(w3);
    lemma_words_push_ws(w1, ' ');
    lemma_words_push_ws(w2, ' ');
    lemma_words_push_ws(w3, ' ');
    assert(p1.last() == ' ');
    assert(p2.last() == ' ');
    assert((p1 + p2).last() == ' ');
    lemma_words_concat(p1, p2);
    lemma_words_concat(p1 + p2, p3);
    assert((p1 + p2 + p3).last() == ' ');
    lemma_words_concat(p1 + p2 + p3, command);
    assert("ionice"@ =~= w1);
    assert("-c"@ =~= w2);
    assert("3"@ =~= w3);
    assert(words(p1) == seq![w1]);
    assert(words(p2) == seq![w2]);
    assert(words(p3) == seq![w3]);
    assert(words(p1 + p2) == seq![w1] + seq![w2]);
    assert(words(p1 + p2 + p3) == seq![w1] + seq![w2] + seq![w3]);
    assert(words(p1 + p2 + p3) =~= seq!["ionice"@, "-c"@, "3"@]);
    assert(ionice_prefix() + command == p1 + p2 + p3 + command);
}

/// What a finished command means: its output when it exited with success,
/// else its exit status (1 when it has none, as after a signal).
pub open spec fn exit_outcome_spec(success: bool, code: Option<i32>, stdout: Seq<char>) -> Result<
    Seq<char>,
    i32,
> {
    if success {
        Ok(stdout)
    } else {
        Err(
            match code {
                Some(c) => c,
                None => 1,
            },
        )
    }
}

/// The result of a command that ran to its end.
pub fn exit_outcome(success: bool, code: Option<i32>, stdout: String) -> (r: Result<
    String,
    ExecError,
>)
    ensures
        success ==> (r matches Ok(out) && out@ == stdout@),
        !success ==> (r matches Err(ExecError::Status(c)) && Err::<Seq<char>, i32>(c) == exit_outcome_spec(
            success,
            code,
            stdout@,
        )),
{
    if success {
        Ok(stdout)
    } else {
        let c = match code {
            Some(c) => c,
            None => 1,
        };
        Err(ExecError::Status(c))
    }
}

/// What a cleaning command's result becomes: nothing on success, the error's
/// message on failure.
pub open spec fn clean_result(outcome: Result<String, ExecError>) -> Result<(), Seq<char>> {
    match outcome {
        Ok(_) => Ok(()),
        Err(e) => Err(e.message_view()),
    }
}

/// The view of a cleaning result.
pub open spec fn result_view(r: Result<(), String>) -> Result<(), Seq<char>> {
    match r {
        Ok(_) => Ok(()),
        Err(m) => Err(m@),
    }
}

/// The result of a cleaning command, its output dropped and its error
/// turned into a message.
pub fn to_clean_result(outcome: Result<String, ExecError>) -> (r: Result<(), String>)
    ensures
        result_view(r) == clean_result(outcome),
{
    match outcome {
        Ok(_) => Ok(()),
        Err(e) => Err(e.message()),
    }
}

} // verus!
