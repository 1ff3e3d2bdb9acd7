//! End-to-end tests of the mode machine and popups, driven against the
//! in-memory ledger: a tiny run loop performs each command the dispatcher
//! hands back and feeds the outcome into the application, as the terminal
//! frontend would.

use mantra::app::{App, AppMode, Command};
use mantra::input::{value_from_modifiers, Key, KeyPress, Modifiers};
use mantra::ledger::Ledger;
use mantra::popups::Popup;
use mantra::storage::{StorageRunError, TransactionType, User};

fn refresh(app: &mut App, ledger: &mut Ledger) {
    if app.data.current_user.is_some() {
        let rows = ledger.get_transactions(&app.data.query_filters());
        app.set_transactions(rows);
    }
}

fn run_command(app: &mut App, ledger: &mut Ledger, cmd: Command) {
    match cmd {
        Command::Idle => {}
        Command::LookupUser { name } => match ledger.get_user(&name) {
            Ok(u) => {
                app.user_found(u);
                refresh(app, ledger);
            }
            Err(StorageRunError::RecordMissing) => app.user_missing(name),
            Err(_) => panic!("storage failure"),
        },
        Command::CreateUser { name } => {
            ledger.create_user(&name).unwrap();
            let u = ledger.get_user(&name).unwrap();
            app.user_found(u);
            refresh(app, ledger);
        }
        Command::AddTransaction { user_id, amount, kind, msg } => {
            ledger.add_transaction(user_id, amount, kind, &msg, 1000).unwrap();
            refresh(app, ledger);
        }
        Command::RemoveMatching { filter } => {
            ledger.remove_transactions(&filter);
            refresh(app, ledger);
        }
        Command::Refresh => refresh(app, ledger),
    }
}

fn step(app: &mut App, ledger: &mut Ledger, key: KeyPress) {
    let cmd = app.handle_key(key);
    run_command(app, ledger, cmd);
}

fn press(app: &mut App, ledger: &mut Ledger, code: Key) {
    step(app, ledger, KeyPress::plain(code));
}

fn type_chars(app: &mut App, ledger: &mut Ledger, s: &str) {
    for c in s.chars() {
        press(app, ledger, Key::Char(c));
    }
}

/// Start an application and log in as the given (new) user.
fn logged_in(ledger: &mut Ledger, name: &str) -> App {
    let mut app = App::new();
    press(&mut app, ledger, Key::Other);
    type_chars(&mut app, ledger, name);
    press(&mut app, ledger, Key::Enter);
    press(&mut app, ledger, Key::Enter);
    assert!(matches!(app.mode, AppMode::LogTable));
    app
}

/// Add one transaction through the popup: given amount steps and a note.
fn add_transaction(app: &mut App, ledger: &mut Ledger, kind_steps: u32, amount_steps: u32,
    note: &str) {
    press(app, ledger, Key::Char('a'));
    for _ in 0..kind_steps {
        press(app, ledger, Key::Right);
    }
    press(app, ledger, Key::Down);
    for _ in 0..amount_steps {
        press(app, ledger, Key::Right);
    }
    press(app, ledger, Key::Down);
    type_chars(app, ledger, note);
    press(app, ledger, Key::Down);
    press(app, ledger, Key::Enter);
}

#[test]
fn intro_goes_to_login_without_user() {
    let mut ledger = Ledger::new();
    let mut app = App::new();
    assert!(matches!(app.mode, AppMode::Intro { .. }));
    press(&mut app, &mut ledger, Key::Other);
    assert!(matches!(app.mode, AppMode::UserLogin(_)));
}

#[test]
fn intro_goes_to_table_with_preselected_user() {
    let mut ledger = Ledger::new();
    ledger.create_user("ann").unwrap();
    let ann: User = ledger.get_user("ann").unwrap();
    let mut app = App::new();
    app.data.current_user = Some(ann);
    press(&mut app, &mut ledger, Key::Other);
    assert!(matches!(app.mode, AppMode::LogTable));
}

#[test]
fn login_missing_user_opens_confirmation_and_yes_logs_in() {
    // Given no existing user "zara": entering the name opens the create-user
    // confirmation; choosing "Yes" logs in and lands on the table.
    let mut ledger = Ledger::new();
    let mut app = App::new();
    press(&mut app, &mut ledger, Key::Other);
    type_chars(&mut app, &mut ledger, "zara");
    press(&mut app, &mut ledger, Key::Enter);
    match &app.data.popup {
        Some(Popup::CreateUser(p)) => {
            assert_eq!(p.new_user, "zara");
            assert!(p.should_create);
        }
        _ => panic!("expected the create-user confirmation"),
    }
    assert!(matches!(app.mode, AppMode::UserLogin(_)));
    press(&mut app, &mut ledger, Key::Enter);
    assert!(app.data.popup.is_none());
    assert!(matches!(app.mode, AppMode::LogTable));
    assert_eq!(app.data.current_user.as_ref().unwrap().get_name(), "zara");
    assert_eq!(app.data.status_text, "Logged in as 'zara'");
    assert!(ledger.get_user("zara").is_ok());
}

#[test]
fn login_declining_creation_keeps_login_screen() {
    let mut ledger = Ledger::new();
    let mut app = App::new();
    press(&mut app, &mut ledger, Key::Other);
    type_chars(&mut app, &mut ledger, "zara");
    press(&mut app, &mut ledger, Key::Enter);
    press(&mut app, &mut ledger, Key::Tab);
    press(&mut app, &mut ledger, Key::Enter);
    assert!(app.data.popup.is_none());
    assert!(matches!(app.mode, AppMode::UserLogin(_)));
    assert!(app.data.current_user.is_none());
    assert!(matches!(ledger.get_user("zara"), Err(StorageRunError::RecordMissing)));
    match &app.mode {
        AppMode::UserLogin(cs) => assert_eq!(cs.as_str(), "zara"),
        _ => unreachable!(),
    }
}

#[test]
fn login_lowercases_the_name() {
    let mut ledger = Ledger::new();
    ledger.create_user("bob").unwrap();
    let mut app = App::new();
    press(&mut app, &mut ledger, Key::Other);
    type_chars(&mut app, &mut ledger, "BoB");
    press(&mut app, &mut ledger, Key::Enter);
    assert!(app.data.popup.is_none());
    assert!(matches!(app.mode, AppMode::LogTable));
    assert_eq!(app.data.current_user.as_ref().unwrap().get_name(), "bob");
}

#[test]
fn login_ignores_whitespace_and_edits() {
    let mut ledger = Ledger::new();
    let mut app = App::new();
    press(&mut app, &mut ledger, Key::Other);
    type_chars(&mut app, &mut ledger, "a b");
    press(&mut app, &mut ledger, Key::Backspace);
    type_chars(&mut app, &mut ledger, "nn");
    match &app.mode {
        AppMode::UserLogin(cs) => assert_eq!(cs.as_str(), "ann"),
        _ => unreachable!(),
    }
}

#[test]
fn login_enter_on_empty_name_does_nothing() {
    let mut ledger = Ledger::new();
    let mut app = App::new();
    press(&mut app, &mut ledger, Key::Other);
    press(&mut app, &mut ledger, Key::Enter);
    assert!(app.data.popup.is_none());
    assert!(matches!(app.mode, AppMode::UserLogin(_)));
}

#[test]
fn login_escape_quits() {
    let mut ledger = Ledger::new();
    let mut app = App::new();
    press(&mut app, &mut ledger, Key::Other);
    press(&mut app, &mut ledger, Key::Esc);
    assert!(app.should_quit());
}

#[test]
fn add_then_escape_leaves_table_unchanged() {
    // From the table, pressing `a` then Escape returns to the table with the
    // transaction cache unchanged.
    let mut ledger = Ledger::new();
    let mut app = logged_in(&mut ledger, "zara");
    add_transaction(&mut app, &mut ledger, 0, 2, "seed");
    let before = app.data.transactions.len();
    press(&mut app, &mut ledger, Key::Char('a'));
    assert!(matches!(app.data.popup, Some(Popup::AddTransaction(_))));
    press(&mut app, &mut ledger, Key::Esc);
    assert!(app.data.popup.is_none());
    assert!(matches!(app.mode, AppMode::LogTable));
    assert_eq!(app.data.transactions.len(), before);
}

#[test]
fn submitting_adds_exactly_one_transaction() {
    // Filling valid fields and pressing Enter on Submit grows the cache by
    // exactly one and sets the status text.
    let mut ledger = Ledger::new();
    let mut app = logged_in(&mut ledger, "zara");
    let before = app.data.transactions.len();
    add_transaction(&mut app, &mut ledger, 1, 3, "hi");
    assert!(app.data.popup.is_none());
    assert_eq!(app.data.transactions.len(), before + 1);
    assert_eq!(app.data.status_text, "Added transaction");
    let t = &app.data.transactions[0];
    assert_eq!(t.value, 3);
    assert_eq!(t.msg, "hi");
    assert!(matches!(t.transaction_type, TransactionType::Character));
    assert_eq!(t.user_id, app.data.current_user.as_ref().unwrap().get_id());
}

#[test]
fn amount_steps_scale_with_modifiers() {
    assert_eq!(value_from_modifiers(Modifiers { shift: false, control: false, alt: false }), 1);
    assert_eq!(value_from_modifiers(Modifiers { shift: true, control: false, alt: false }), 5);
    assert_eq!(value_from_modifiers(Modifiers { shift: false, control: true, alt: false }), 50);
    assert_eq!(value_from_modifiers(Modifiers { shift: false, control: false, alt: true }), 200);
    assert_eq!(value_from_modifiers(Modifiers { shift: true, control: true, alt: false }), 250);
    assert_eq!(value_from_modifiers(Modifiers { shift: true, control: true, alt: true }), 50000);
}

#[test]
fn amount_editing_uses_modifier_steps() {
    let mut ledger = Ledger::new();
    let mut app = logged_in(&mut ledger, "zara");
    press(&mut app, &mut ledger, Key::Char('a'));
    press(&mut app, &mut ledger, Key::Down);
    step(&mut app, &mut ledger, KeyPress {
        code: Key::Right,
        modifiers: Modifiers { shift: false, control: true, alt: false },
    });
    step(&mut app, &mut ledger, KeyPress {
        code: Key::Left,
        modifiers: Modifiers { shift: true, control: false, alt: false },
    });
    match &app.data.popup {
        Some(Popup::AddTransaction(p)) => assert_eq!(p.amount, 45),
        _ => panic!("expected the add-transaction popup"),
    }
}

#[test]
fn deleting_selected_row_updates_status_and_cache() {
    let mut ledger = Ledger::new();
    let mut app = logged_in(&mut ledger, "zara");
    add_transaction(&mut app, &mut ledger, 0, 1, "first");
    add_transaction(&mut app, &mut ledger, 0, 2, "second");
    assert_eq!(app.data.transactions.len(), 2);
    press(&mut app, &mut ledger, Key::Down);
    assert_eq!(app.data.selected_row, Some(0));
    press(&mut app, &mut ledger, Key::Char('d'));
    assert_eq!(app.data.transactions.len(), 1);
    assert_eq!(app.data.status_text, "Deleted \"1 | first\"");
    assert_eq!(app.data.transactions[0].msg, "second");
}

#[test]
fn clearing_removes_all_transactions_of_the_user() {
    let mut ledger = Ledger::new();
    let mut app = logged_in(&mut ledger, "zara");
    add_transaction(&mut app, &mut ledger, 0, 1, "x");
    add_transaction(&mut app, &mut ledger, 0, 1, "y");
    press(&mut app, &mut ledger, Key::Char('c'));
    assert_eq!(app.data.transactions.len(), 0);
    assert!(ledger.get_transactions(&vec![]).is_empty());
}

#[test]
fn logout_returns_to_login_and_clears_state() {
    let mut ledger = Ledger::new();
    let mut app = logged_in(&mut ledger, "zara");
    add_transaction(&mut app, &mut ledger, 0, 1, "x");
    press(&mut app, &mut ledger, Key::Char('o'));
    assert!(matches!(app.mode, AppMode::UserLogin(_)));
    assert!(app.data.current_user.is_none());
    assert!(app.data.transactions.is_empty());
}

#[test]
fn table_quits_on_q_and_escape() {
    let mut ledger = Ledger::new();
    let mut app = logged_in(&mut ledger, "zara");
    press(&mut app, &mut ledger, Key::Char('q'));
    assert!(app.should_quit());

    let mut app = logged_in(&mut ledger, "zara");
    press(&mut app, &mut ledger, Key::Esc);
    assert!(app.should_quit());
}

#[test]
fn selection_moves_and_clamps() {
    let mut ledger = Ledger::new();
    let mut app = logged_in(&mut ledger, "zara");
    add_transaction(&mut app, &mut ledger, 0, 1, "a");
    add_transaction(&mut app, &mut ledger, 0, 1, "b");
    assert_eq!(app.data.selected_row, None);
    press(&mut app, &mut ledger, Key::Down);
    press(&mut app, &mut ledger, Key::Down);
    press(&mut app, &mut ledger, Key::Down);
    assert_eq!(app.data.selected_row, Some(1));
    press(&mut app, &mut ledger, Key::Up);
    press(&mut app, &mut ledger, Key::Up);
    press(&mut app, &mut ledger, Key::Up);
    assert_eq!(app.data.selected_row, Some(0));
}

#[test]
fn filter_flow_commits_and_narrows_the_cache() {
    let mut ledger = Ledger::new();
    let mut app = logged_in(&mut ledger, "zara");
    add_transaction(&mut app, &mut ledger, 0, 1, "other");
    add_transaction(&mut app, &mut ledger, 1, 2, "char");
    add_transaction(&mut app, &mut ledger, 2, 3, "mission");
    assert_eq!(app.data.transactions.len(), 3);

    press(&mut app, &mut ledger, Key::Char('f'));
    assert!(matches!(app.data.popup, Some(Popup::FilterResults(_))));
    press(&mut app, &mut ledger, Key::Char('a'));
    assert!(matches!(app.data.popup, Some(Popup::AddFilter(_))));
    // Field: kind selector -> value selector; toggle Character and
    // MissionReward; submit.
    press(&mut app, &mut ledger, Key::Enter);
    press(&mut app, &mut ledger, Key::Right);
    press(&mut app, &mut ledger, Key::Enter);
    press(&mut app, &mut ledger, Key::Right);
    press(&mut app, &mut ledger, Key::Enter);
    press(&mut app, &mut ledger, Key::Down);
    press(&mut app, &mut ledger, Key::Enter);
    assert!(matches!(app.data.popup, Some(Popup::FilterResults(_))));
    press(&mut app, &mut ledger, Key::Esc);
    assert!(app.data.popup.is_none());
    assert_eq!(app.data.transaction_filters.len(), 1);
    let values: Vec<i32> = app.data.transactions.iter().map(|t| t.value).collect();
    assert_eq!(values, vec![2, 3]);
}

#[test]
fn vacuous_filters_are_dropped_at_commit() {
    let mut ledger = Ledger::new();
    let mut app = logged_in(&mut ledger, "zara");
    press(&mut app, &mut ledger, Key::Char('f'));
    press(&mut app, &mut ledger, Key::Char('a'));
    // Escape re-inserts the blank draft into the working set; committing the
    // working set drops it as not useful.
    press(&mut app, &mut ledger, Key::Esc);
    press(&mut app, &mut ledger, Key::Esc);
    assert!(app.data.popup.is_none());
    assert!(app.data.transaction_filters.is_empty());
}

#[test]
fn editing_a_filter_removes_it_while_open() {
    let mut ledger = Ledger::new();
    let mut app = logged_in(&mut ledger, "zara");
    // Build one type filter and commit it.
    press(&mut app, &mut ledger, Key::Char('f'));
    press(&mut app, &mut ledger, Key::Char('a'));
    press(&mut app, &mut ledger, Key::Enter);
    press(&mut app, &mut ledger, Key::Enter);
    press(&mut app, &mut ledger, Key::Down);
    press(&mut app, &mut ledger, Key::Enter);
    press(&mut app, &mut ledger, Key::Esc);
    assert_eq!(app.data.transaction_filters.len(), 1);
    // Reopen the list, select the filter and edit it: the working set is empty
    // while the editor is open, and Escape restores the entry.
    press(&mut app, &mut ledger, Key::Char('f'));
    press(&mut app, &mut ledger, Key::Down);
    press(&mut app, &mut ledger, Key::Char('e'));
    match &app.data.popup {
        Some(Popup::AddFilter(p)) => assert!(p.pop_under.filters.is_empty()),
        _ => panic!("expected the add-filter popup"),
    }
    press(&mut app, &mut ledger, Key::Esc);
    press(&mut app, &mut ledger, Key::Esc);
    assert_eq!(app.data.transaction_filters.len(), 1);
}

#[test]
fn date_range_filter_built_by_popup() {
    let mut ledger = Ledger::new();
    let mut app = logged_in(&mut ledger, "zara");
    add_transaction(&mut app, &mut ledger, 0, 1, "kept");
    press(&mut app, &mut ledger, Key::Char('f'));
    press(&mut app, &mut ledger, Key::Char('a'));
    // Switch the kind to the date range, bound its start, and submit.
    press(&mut app, &mut ledger, Key::Right);
    press(&mut app, &mut ledger, Key::Enter);
    press(&mut app, &mut ledger, Key::Enter);
    press(&mut app, &mut ledger, Key::Down);
    press(&mut app, &mut ledger, Key::Enter);
    press(&mut app, &mut ledger, Key::Esc);
    assert_eq!(app.data.transaction_filters.len(), 1);
    assert!(app.data.transaction_filters[0].is_useful());
    // The driver stamps transactions at 1000, past the epoch bound: all kept.
    assert_eq!(app.data.transactions.len(), 1);
}

#[test]
fn quitting_mode_ignores_keys() {
    let mut ledger = Ledger::new();
    let mut app = logged_in(&mut ledger, "zara");
    press(&mut app, &mut ledger, Key::Char('q'));
    assert!(app.should_quit());
    press(&mut app, &mut ledger, Key::Char('a'));
    assert!(app.should_quit());
    assert!(app.data.popup.is_none());
}

#[test]
fn ledger_user_creation_is_idempotent() {
    let mut ledger = Ledger::new();
    ledger.create_user("ann").unwrap();
    let first = ledger.get_user("ann").unwrap().get_id();
    ledger.create_user("ann").unwrap();
    let second = ledger.get_user("ann").unwrap().get_id();
    assert_eq!(first, second);
}

#[test]
fn ledger_distinguishes_users_by_name() {
    let mut ledger = Ledger::new();
    ledger.create_user("ann").unwrap();
    ledger.create_user("bob").unwrap();
    let ann = ledger.get_user("ann").unwrap();
    let bob = ledger.get_user("bob").unwrap();
    assert_eq!(ann.get_name(), "ann");
    assert_eq!(bob.get_name(), "bob");
    assert_ne!(ann.get_id(), bob.get_id());
    assert!(matches!(ledger.get_user("carol"), Err(StorageRunError::RecordMissing)));
}
