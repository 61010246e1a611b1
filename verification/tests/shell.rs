use sql_shell::responder::{classify_command, response_text, Command};
use sql_shell::shell::{prompt, shell_step, Action, Event};
use sql_shell::text::{contains_ignore_case, eq_ignore_case, starts_with_ignore_case, trim_spaces};

const SELECT_BLOCK: &str = "| id | name  | age | email           |\n|----|-------|-----|-----------------|\n| 1  | Alice | 30  | alice@email.com |\n| 2  | Bob   | 25  | bob@email.com   |\n2 rows returned.";

fn step_line(line: &str) -> Action {
    shell_step(&Event::Line(line.to_string()))
}

fn quit_message(a: Action) -> String {
    match a {
        Action::Quit(m) => m,
        Action::Respond(_) => panic!("expected the shell to quit, it responded"),
        Action::Continue => panic!("expected the shell to quit, it continued"),
    }
}

fn respond_message(a: Action) -> String {
    match a {
        Action::Respond(m) => m,
        Action::Quit(_) => panic!("expected a response, the shell quit"),
        Action::Continue => panic!("expected a response, the shell continued"),
    }
}

#[test]
fn exit_line_quits() {
    assert_eq!(quit_message(step_line("exit\n")), "Goodbye!");
}

#[test]
fn quit_line_quits() {
    assert_eq!(quit_message(step_line("quit\n")), "Goodbye!");
}

#[test]
fn exit_in_any_case_with_padding_quits() {
    assert_eq!(quit_message(step_line("  ExIt  \n")), "Goodbye!");
    assert_eq!(quit_message(step_line("\tQUIT\r\n")), "Goodbye!");
}

#[test]
fn end_of_input_quits() {
    assert_eq!(quit_message(shell_step(&Event::EndOfInput)), "\nGoodbye!");
}

#[test]
fn read_error_quits() {
    assert_eq!(quit_message(shell_step(&Event::ReadError)), "\nGoodbye!");
}

#[test]
fn select_line_prints_the_table() {
    assert_eq!(respond_message(step_line("SELECT * FROM users\n")), SELECT_BLOCK);
}

#[test]
fn select_suffix_does_not_matter() {
    assert_eq!(respond_message(step_line("select\n")), SELECT_BLOCK);
    assert_eq!(respond_message(step_line("sElEcT nonsense ((( \n")), SELECT_BLOCK);
}

#[test]
fn create_table_line() {
    assert_eq!(
        respond_message(step_line("CREATE TABLE foo (x INT)\n")),
        "Table 'test' created successfully."
    );
}

#[test]
fn create_without_table_line() {
    assert_eq!(respond_message(step_line("create index on foo\n")), "Created successfully.");
}

#[test]
fn create_with_table_anywhere() {
    assert_eq!(
        respond_message(step_line("create x table\n")),
        "Table 'test' created successfully."
    );
    assert_eq!(
        respond_message(step_line("CREATETABLE x\n")),
        "Table 'test' created successfully."
    );
}

#[test]
fn whitespace_line_is_ignored() {
    match step_line("   \t  \n") {
        Action::Continue => {}
        Action::Quit(_) => panic!("a blank line must not quit"),
        Action::Respond(_) => panic!("a blank line must produce no response"),
    }
    match step_line("\n") {
        Action::Continue => {}
        Action::Quit(_) => panic!("an empty line must not quit"),
        Action::Respond(_) => panic!("an empty line must produce no response"),
    }
}

#[test]
fn unknown_keyword_line() {
    assert_eq!(respond_message(step_line("EXPLAIN foo\n")), "Query executed.");
}

#[test]
fn insert_update_delete_drop_lines() {
    assert_eq!(respond_message(step_line("INSERT INTO t VALUES (1)\n")), "1 row inserted.");
    assert_eq!(respond_message(step_line("update t set x = 1\n")), "Rows updated.");
    assert_eq!(respond_message(step_line("Delete From t\n")), "Rows deleted.");
    assert_eq!(respond_message(step_line("drop table t\n")), "Dropped successfully.");
}

#[test]
fn exit_keyword_with_arguments_is_a_command() {
    assert_eq!(respond_message(step_line("exit now\n")), "Query executed.");
}

#[test]
fn prompt_text() {
    assert_eq!(prompt(), "sql> ");
}

#[test]
fn classify_goes_by_the_leading_keyword() {
    assert_eq!(classify_command("SELECT 1"), Command::Select);
    assert_eq!(classify_command("CREATE TABLE t (x INT)"), Command::CreateTable);
    assert_eq!(classify_command("create view v"), Command::Create);
    assert_eq!(classify_command("insert into t"), Command::Insert);
    assert_eq!(classify_command("UPDATE t"), Command::Update);
    assert_eq!(classify_command("delete from t"), Command::Delete);
    assert_eq!(classify_command("DROP INDEX i"), Command::Drop);
    assert_eq!(classify_command("EXPLAIN foo"), Command::Other);
    assert_eq!(classify_command("selec"), Command::Other);
}

#[test]
fn response_text_per_category() {
    assert_eq!(response_text(Command::Select), SELECT_BLOCK);
    assert_eq!(response_text(Command::CreateTable), "Table 'test' created successfully.");
    assert_eq!(response_text(Command::Create), "Created successfully.");
    assert_eq!(response_text(Command::Insert), "1 row inserted.");
    assert_eq!(response_text(Command::Update), "Rows updated.");
    assert_eq!(response_text(Command::Delete), "Rows deleted.");
    assert_eq!(response_text(Command::Drop), "Dropped successfully.");
    assert_eq!(response_text(Command::Other), "Query executed.");
}

#[test]
fn trim_spaces_removes_outer_whitespace_only() {
    assert_eq!(trim_spaces("  a b  "), "a b");
    assert_eq!(trim_spaces("\t\r\nx\u{00A0}\u{3000}"), "x");
    assert_eq!(trim_spaces("   "), "");
    assert_eq!(trim_spaces(""), "");
    assert_eq!(trim_spaces("abc"), "abc");
}

#[test]
fn case_insensitive_primitives() {
    assert!(eq_ignore_case("ExIt", "exit"));
    assert!(!eq_ignore_case("exit", "quit"));
    assert!(!eq_ignore_case("exits", "exit"));
    assert!(starts_with_ignore_case("SELECT 1", "select"));
    assert!(!starts_with_ignore_case("SEL", "select"));
    assert!(contains_ignore_case("create a TaBlE now", "table"));
    assert!(!contains_ignore_case("create a tabl", "table"));
}
