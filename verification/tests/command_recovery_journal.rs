use pi_daemon::clock::parse_iso_ms;
use pi_daemon::command_recovery_journal::{
    CommandJournalBeginResult, CommandRecoveryJournal, Reception, create_command_idempotency_key,
    journal_result_saved_session,
};
use pi_daemon::json::{Json, parse_json};
use pi_daemon::protocol::DaemonResponse;

fn response(id: &str) -> DaemonResponse {
    DaemonResponse::success(Some(id), "prompt", None)
}

/// A journal whose file is kept in memory.
struct File {
    journal: CommandRecoveryJournal,
    contents: String,
}

impl File {
    fn new() -> Self {
        File { journal: CommandRecoveryJournal::from_contents(""), contents: String::new() }
    }

    fn append(&mut self, line: &str) {
        self.contents.push_str(line);
        self.contents.push('\n');
    }

    fn begin(&mut self, id: &str) -> CommandJournalBeginResult {
        match self.journal.begin("client", id, "prompt") {
            Reception::Known(result) => result,
            Reception::Write(receipt) => {
                self.append(&receipt.line);
                self.journal.receipt_written(receipt, Ok(())).expect("receipt")
            }
        }
    }

    fn record(&mut self, id: &str) {
        self.answer(id, response(id));
    }

    fn answer(&mut self, id: &str, response: DaemonResponse) {
        let answer = self.journal.record_result("client", id, response).expect("received");
        self.append(&answer.line);
        assert_eq!(self.journal.answer_written(answer, Ok(())), Ok(()));
    }

    fn acknowledge(&mut self, id: &str) {
        let acknowledgement = self.journal.acknowledge("client", id).expect("known");
        self.append(&acknowledgement.line);
        assert_eq!(self.journal.acknowledgement_written(acknowledgement, Ok(())), Ok(()));
    }
}

#[test]
fn begin_lookup_and_complete_cycle() {
    let mut file = File::new();
    assert_eq!(file.begin("c1"), CommandJournalBeginResult::New);
    assert_eq!(file.journal.lookup("client", "c1"), Some(CommandJournalBeginResult::Pending));
    assert_eq!(file.begin("c1"), CommandJournalBeginResult::Pending);
    file.record("c1");
    assert_eq!(
        file.journal.lookup("client", "c1"),
        Some(CommandJournalBeginResult::Complete(response("c1")))
    );
    file.acknowledge("c1");
    assert_eq!(file.journal.lookup("client", "c1"), None);
    assert!(file.journal.should_compact_after_acknowledgement());
    file.contents = file.journal.compact();
    assert_eq!(file.contents.trim(), "");
}

#[test]
fn records_survive_a_reload() {
    let mut file = File::new();
    file.begin("c2");
    file.record("c2");
    let journal = CommandRecoveryJournal::from_contents(&file.contents);
    assert_eq!(
        journal.lookup("client", "c2"),
        Some(CommandJournalBeginResult::Complete(response("c2")))
    );
}

#[test]
fn recording_before_receipt_is_an_error() {
    let journal = CommandRecoveryJournal::from_contents("");
    let error = journal
        .try_record_result("client", "missing", response("missing"))
        .expect_err("must fail");
    assert!(error.starts_with("Cannot record a result before command receipt:"));
}

#[test]
fn truncated_final_line_is_ignored() {
    let mut file = File::new();
    file.begin("c3");
    file.contents.push_str("{\"version\":1,\"type\":\"resu");
    let journal = CommandRecoveryJournal::from_contents(&file.contents);
    assert_eq!(journal.lookup("client", "c3"), Some(CommandJournalBeginResult::Pending));
}

#[test]
fn idempotency_key_is_a_two_element_json_array() {
    assert_eq!(create_command_idempotency_key("c", "1"), "[\"c\",\"1\"]");
}

#[test]
fn compaction_keeps_what_is_open() {
    let mut file = File::new();
    file.begin("open");
    file.begin("answered");
    file.record("answered");
    let compacted = file.journal.compact();
    let journal = CommandRecoveryJournal::from_contents(&compacted);
    assert_eq!(journal.lookup("client", "open"), Some(CommandJournalBeginResult::Pending));
    assert_eq!(
        journal.lookup("client", "answered"),
        Some(CommandJournalBeginResult::Complete(response("answered")))
    );
    assert!(!journal.should_compact_after_result());
}

#[test]
fn answers_with_a_saved_session_are_recognised() {
    assert!(journal_result_saved_session(&Json::Null).is_none());
    let row = parse_json(
        b"{\"path\":\"/s\",\"id\":\"i\",\"cwd\":\"/\",\"created\":\"\",\"modified\":\"\",\"messageCount\":1,\"firstMessage\":\"\",\"allMessagesText\":\"\"}",
    )
    .expect("document");
    assert_eq!(journal_result_saved_session(&row).map(|info| info.id), Some("i".to_string()));
}

#[test]
fn whole_runs_survive_a_reload() {
    let mut file = File::new();
    file.begin("one");
    file.begin("two");
    file.record("one");
    file.begin("three");
    let data = parse_json(b"{\"cost\":0.5,\"list\":[-1,2]}").expect("document");
    file.answer("three", DaemonResponse::success(Some("three"), "prompt", Some(data)));
    file.contents = file.journal.compact();
    file.acknowledge("one");
    file.begin("four");
    file.contents.push_str("{\"version\":1,\"type\":\"ackn");
    let journal = CommandRecoveryJournal::from_contents(&file.contents);
    for id in ["one", "two", "three", "four", "five"] {
        assert_eq!(journal.lookup("client", id), file.journal.lookup("client", id));
    }
    assert_eq!(journal.lookup("client", "one"), None);
    assert_eq!(journal.lookup("client", "two"), Some(CommandJournalBeginResult::Pending));
}

#[test]
fn a_receipt_that_was_not_written_is_no_receipt() {
    let mut journal = CommandRecoveryJournal::from_contents("");
    let Reception::Write(receipt) = journal.begin("client", "c1", "prompt") else {
        panic!("the command is new");
    };
    assert_eq!(journal.lookup("client", "c1"), None);
    assert!(parse_iso_ms(&receipt.received.recorded_at).is_some());
    assert_eq!(
        journal.receipt_written(receipt, Err("disk full".to_string())),
        Err("disk full".to_string())
    );
    assert_eq!(journal.lookup("client", "c1"), None);
    assert_eq!(journal.record_count, 0);
    let Reception::Write(receipt) = journal.begin("client", "c1", "prompt") else {
        panic!("the command is still new");
    };
    let file = format!("{}\n", receipt.line);
    assert_eq!(journal.receipt_written(receipt, Ok(())), Ok(CommandJournalBeginResult::New));
    assert_eq!(journal.record_count, 1);
    assert_eq!(
        CommandRecoveryJournal::from_contents(&file).lookup("client", "c1"),
        Some(CommandJournalBeginResult::Pending)
    );
    assert!(matches!(
        journal.begin("client", "c1", "prompt"),
        Reception::Known(CommandJournalBeginResult::Pending)
    ));
}

#[test]
fn answers_that_were_not_written_change_nothing() {
    let mut file = File::new();
    file.begin("c1");
    let full = || Err("disk full".to_string());
    let answer = file.journal.try_record_result("client", "c1", response("c1")).expect("received");
    assert_eq!(file.journal.answer_written(answer, full()), full());
    assert_eq!(file.journal.lookup("client", "c1"), Some(CommandJournalBeginResult::Pending));
    file.record("c1");
    let acknowledgement = file.journal.acknowledge("client", "c1").expect("known");
    assert_eq!(file.journal.acknowledgement_written(acknowledgement, full()), full());
    assert_eq!(
        file.journal.lookup("client", "c1"),
        Some(CommandJournalBeginResult::Complete(response("c1")))
    );
    assert_eq!(file.journal.record_count, 2);
    let reloaded = CommandRecoveryJournal::from_contents(&file.contents);
    assert_eq!(reloaded.lookup("client", "c1"), file.journal.lookup("client", "c1"));
    assert_eq!(reloaded.record_count, 2);
}
