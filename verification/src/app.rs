//! The top-level mode machine and the event dispatcher. A key press goes to
//! the active popup if one is present, else to the handler of the current
//! mode; either may hand back a storage command for the surrounding run loop
//! to perform. Everything the machine decides is a function of its state and
//! the key, given by [`app_step`].

use vstd::prelude::*;
use vstd::string::StringExecFns;
use crate::cursored::{insert_model, next_model, prev_model, remove_ahead_model,
    remove_behind_model, toggle_overwrite_model, CursoredString, TextModel};
use crate::decimal::{dec_str_int, i32_to_string};
use crate::filter::{models_of, useful_model, FilterModel, TransactionFilter};
use crate::input::{select_next, select_next_model, select_prev, select_prev_model, Key, KeyPress};
use crate::popups::{popup_model_wf, popup_view_opt, AddTransaction, CreateUser, Popup,
    PopupModel};
use crate::storage::{Transaction, TransactionModel, TransactionType, User, UserModel};
use crate::strutil::{is_space, is_whitespace, lowercase};

verus! {

/// What the dispatcher asks the storage collaborator to do after a key press.
/// After a mutating command (`CreateUser`, `AddTransaction`, `RemoveMatching`)
/// or a `Refresh`, the driver queries the transactions again and hands them
/// back through [`App::set_transactions`].
pub enum Command {
    /// Nothing to do.
    Idle,
    /// Look the name up; feed the outcome back through [`App::user_found`] or
    /// [`App::user_missing`].
    LookupUser { name: String },
    /// Create the user (idempotently), look it up, and feed it back through
    /// [`App::user_found`].
    CreateUser { name: String },
    /// Persist a new transaction, timestamped at call time.
    AddTransaction { user_id: i32, amount: i32, kind: TransactionType, msg: String },
    /// Delete every transaction matching the filter.
    RemoveMatching { filter: TransactionFilter },
    /// Query the transactions again with [`AppData::query_filters`].
    Refresh,
}

/// The model of a command.
pub enum CommandModel {
    Idle,
    LookupUser { name: Seq<char> },
    CreateUser { name: Seq<char> },
    AddTransaction { user_id: i32, amount: i32, kind: TransactionType, msg: Seq<char> },
    RemoveMatching { filter: FilterModel },
    Refresh,
}

impl Command {
    /// The model of the command.
    pub open spec fn model(self) -> CommandModel {
        match self {
            Command::Idle => CommandModel::Idle,
            Command::LookupUser { name } => CommandModel::LookupUser { name: name@ },
            Command::CreateUser { name } => CommandModel::CreateUser { name: name@ },
            Command::AddTransaction { user_id, amount, kind, msg } => CommandModel::AddTransaction {
                user_id,
                amount,
                kind,
                msg: msg@,
            },
            Command::RemoveMatching { filter } => CommandModel::RemoveMatching {
                filter: filter.model(),
            },
            Command::Refresh => CommandModel::Refresh,
        }
    }
}

/// Modes of the application; initial is the intro, terminal is quitting.
pub enum AppMode {
    /// Intro animation sequence; the field is the animation progress.
    Intro { animation_progress: usize },
    /// User login prompt; the field is the username being typed.
    UserLogin(CursoredString),
    /// Table with log entries for the current user.
    LogTable,
    /// The application is in the process of closing.
    Quitting,
}

/// The model of a mode.
#[verifier::ext_equal]
pub enum ModeModel {
    Intro { animation_progress: usize },
    UserLogin(TextModel),
    LogTable,
    Quitting,
}

impl View for AppMode {
    type V = ModeModel;

    open spec fn view(&self) -> ModeModel {
        match self {
            AppMode::Intro { animation_progress } => ModeModel::Intro {
                animation_progress: *animation_progress,
            },
            AppMode::UserLogin(cs) => ModeModel::UserLogin(cs@),
            AppMode::LogTable => ModeModel::LogTable,
            AppMode::Quitting => ModeModel::Quitting,
        }
    }
}

/// Shared state of the application between modes.
pub struct AppData {
    /// The logged-in user, if any.
    pub current_user: Option<User>,
    /// The cached transactions of the current user, refreshed after mutations.
    pub transactions: Vec<Transaction>,
    /// The active filters, all of them useful.
    pub transaction_filters: Vec<TransactionFilter>,
    /// The selected row of the table, if any.
    pub selected_row: Option<usize>,
    /// The status line under the table.
    pub status_text: String,
    /// The active popup, if any; it owns every key event while present.
    pub popup: Option<Popup>,
}

/// The model of the shared state.
#[verifier::ext_equal]
pub struct AppDataModel {
    /// The logged-in user, if any.
    pub current_user: Option<UserModel>,
    /// The cached transactions.
    pub transactions: Seq<TransactionModel>,
    /// The active filters.
    pub transaction_filters: Seq<FilterModel>,
    /// The selected row, if any.
    pub selected_row: Option<usize>,
    /// The status line.
    pub status_text: Seq<char>,
    /// The active popup, if any.
    pub popup: Option<PopupModel>,
}

impl View for AppData {
    type V = AppDataModel;

    open spec fn view(&self) -> AppDataModel {
        AppDataModel {
            current_user: match self.current_user {
                Some(u) => Some(u@),
                None => None,
            },
            transactions: crate::ledger::txs_model(self.transactions@),
            transaction_filters: models_of(self.transaction_filters@),
            selected_row: self.selected_row,
            status_text: self.status_text@,
            popup: popup_view_opt(self.popup),
        }
    }
}

/// Structure to represent all the running application's state.
pub struct App {
    /// Shared state between modes.
    pub data: AppData,
    /// The current mode.
    pub mode: AppMode,
}

/// The model of the whole application state.
#[verifier::ext_equal]
pub struct AppModel {
    /// Shared state between modes.
    pub data: AppDataModel,
    /// The current mode.
    pub mode: ModeModel,
}

impl View for App {
    type V = AppModel;

    open spec fn view(&self) -> AppModel {
        AppModel { data: self.data@, mode: self.mode@ }
    }
}

/// The identifier of the logged-in user (meaningful only when one is present).
pub open spec fn uid_of(d: AppDataModel) -> i32 {
    match d.current_user {
        Some(u) => u.id,
        None => 0,
    }
}

/// Internal consistency of the shared state: any popup is internally
/// consistent, the add-transaction popup only exists with a user logged in,
/// and every active filter is useful.
pub open spec fn data_wf(d: AppDataModel) -> bool {
    &&& match d.popup {
        Some(p) => popup_model_wf(p),
        None => true,
    }
    &&& (match d.popup {
        Some(PopupModel::AddTransaction(_)) => d.current_user is Some,
        Some(PopupModel::FilterResults(_)) => d.current_user is Some,
        Some(PopupModel::AddFilter(_)) => d.current_user is Some,
        _ => true,
    })
    &&& forall|i: int|
        0 <= i < d.transaction_filters.len() ==> useful_model(#[trigger] d.transaction_filters[i])
}

/// Internal consistency of the whole application state.
pub open spec fn wf_model(a: AppModel) -> bool {
    &&& data_wf(a.data)
    &&& match a.mode {
        ModeModel::UserLogin(cs) => cs.wf(),
        _ => true,
    }
    &&& (a.mode is LogTable ==> a.data.current_user is Some)
}

impl App {
    /// Internal consistency of the application state.
    pub open spec fn wf(&self) -> bool {
        wf_model(self@)
    }

    /// A fresh application: intro mode, nobody logged in, nothing cached.
    pub fn new() -> (r: Self)
        ensures
            r.wf(),
            r@ == init_model(),
    {
        let r = App {
            data: AppData {
                current_user: None,
                transactions: Vec::new(),
                transaction_filters: Vec::new(),
                selected_row: None,
                status_text: String::new(),
                popup: None,
            },
            mode: AppMode::Intro { animation_progress: 0 },
        };
        proof {
            assert(r@.data.transactions =~= init_model().data.transactions);
            assert(r@.data.transaction_filters =~= init_model().data.transaction_filters);
            assert(r@ =~= init_model());
        }
        r
    }

    /// Whether the run loop must stop issuing redraws and polls.
    pub fn should_quit(&self) -> (r: bool)
        ensures
            r == (self@.mode is Quitting),
    {
        matches!(self.mode, AppMode::Quitting)
    }
}

/// The initial application state.
pub open spec fn init_model() -> AppModel {
    AppModel {
        data: AppDataModel {
            current_user: None,
            transactions: Seq::empty(),
            transaction_filters: Seq::empty(),
            selected_row: None,
            status_text: Seq::empty(),
            popup: None,
        },
        mode: ModeModel::Intro { animation_progress: 0 },
    }
}

/// An empty text buffer: the login prompt a fresh login screen shows.
pub open spec fn empty_text() -> TextModel {
    TextModel { text: Seq::empty(), cursor: 0, inserting: false }
}

/// One key press on the login prompt: cursor movement and editing on the
/// username, a lookup command on Enter with a non-empty buffer, quitting on
/// Escape. Whitespace is never inserted.
pub open spec fn login_step(cs: TextModel, key: KeyPress) -> (TextModel, Option<ModeModel>,
    CommandModel) {
    match key.code {
        Key::Left => (prev_model(cs), None, CommandModel::Idle),
        Key::Right => (next_model(cs), None, CommandModel::Idle),
        Key::Enter => if cs.text.len() > 0 {
            (cs, None, CommandModel::LookupUser { name: crate::strutil::lower_of(cs.text) })
        } else {
            (cs, None, CommandModel::Idle)
        },
        Key::Backspace => (remove_behind_model(cs), None, CommandModel::Idle),
        Key::Delete => (remove_ahead_model(cs), None, CommandModel::Idle),
        Key::Insert => (toggle_overwrite_model(cs), None, CommandModel::Idle),
        Key::Esc => (cs, Some(ModeModel::Quitting), CommandModel::Idle),
        Key::Char(c) => if !is_space(c) {
            (insert_model(cs, c), None, CommandModel::Idle)
        } else {
            (cs, None, CommandModel::Idle)
        },
        _ => (cs, None, CommandModel::Idle),
    }
}

/// Handle input for the user login prompt.
pub fn run_user_login(username: &mut CursoredString, key: KeyPress) -> (r: (Option<AppMode>,
    Command))
    requires
        old(username).wf(),
    ensures
        final(username).wf(),
        ({
            let (cs1, m1, c1) = login_step(old(username)@, key);
            &&& final(username)@ == cs1
            &&& mode_view_opt(r.0) == m1
            &&& r.1.model() == c1
        }),
{
    match key.code {
        Key::Left => {
            username.prev();
            (None, Command::Idle)
        },
        Key::Right => {
            username.next();
            (None, Command::Idle)
        },
        Key::Enter => {
            if username.char_count() > 0 {
                let name = lowercase(username.as_str());
                (None, Command::LookupUser { name })
            } else {
                (None, Command::Idle)
            }
        },
        Key::Backspace => {
            username.remove_behind();
            (None, Command::Idle)
        },
        Key::Delete => {
            username.remove_ahead();
            (None, Command::Idle)
        },
        Key::Insert => {
            username.toggle_overwrite();
            (None, Command::Idle)
        },
        Key::Esc => (Some(AppMode::Quitting), Command::Idle),
        Key::Char(c) => {
            if !is_whitespace(c) {
                username.insert(c);
            }
            (None, Command::Idle)
        },
        _ => (None, Command::Idle),
    }
}

/// The model of a possibly absent mode.
pub open spec fn mode_view_opt(m: Option<AppMode>) -> Option<ModeModel> {
    match m {
        Some(x) => Some(x@),
        None => None,
    }
}

/// The status line after deleting a transaction.
pub open spec fn deleted_status(t: TransactionModel) -> Seq<char> {
    "Deleted \""@ + dec_str_int(t.value as int) + " | "@ + t.msg + "\""@
}

/// One key press on the table: selection movement; quitting on Escape or `q`;
/// logout on `o`; the add-transaction popup on `a`; the filter list on `f`,
/// seeded with the active filters; deletion of the selected transaction on
/// `d`; clearing the current user's transactions on `c`.
pub open spec fn table_step(d: AppDataModel, key: KeyPress) -> (AppDataModel, Option<ModeModel>,
    CommandModel) {
    match key.code {
        Key::Down => (AppDataModel {
            selected_row: select_next_model(d.selected_row, d.transactions.len()),
            ..d
        }, None, CommandModel::Idle),
        Key::Up => (AppDataModel {
            selected_row: select_prev_model(d.selected_row, d.transactions.len()),
            ..d
        }, None, CommandModel::Idle),
        Key::Esc => (d, Some(ModeModel::Quitting), CommandModel::Idle),
        Key::Char(c) => if c == 'q' {
            (d, Some(ModeModel::Quitting), CommandModel::Idle)
        } else if c == 'o' {
            (AppDataModel { current_user: None, transactions: Seq::empty(), selected_row: None,
                ..d }, Some(ModeModel::UserLogin(empty_text())), CommandModel::Idle)
        } else if c == 'a' {
            (AppDataModel {
                popup: Some(PopupModel::AddTransaction(crate::popups::add_transaction_init())),
                ..d
            }, None, CommandModel::Idle)
        } else if c == 'f' {
            (AppDataModel {
                transaction_filters: Seq::empty(),
                popup: Some(PopupModel::FilterResults(crate::popups::FilterResultsModel {
                    filters: d.transaction_filters,
                    selected: None,
                })),
                ..d
            }, None, CommandModel::Idle)
        } else if c == 'd' {
            match d.selected_row {
                Some(sel) => if d.transactions.len() > 0 {
                    let idx = if sel < d.transactions.len() {
                        sel as int
                    } else {
                        d.transactions.len() - 1
                    };
                    let t = d.transactions[idx];
                    (AppDataModel { status_text: deleted_status(t), ..d }, None,
                        CommandModel::RemoveMatching { filter: FilterModel::Id(seq![t.trans_id]) })
                } else {
                    (d, None, CommandModel::Idle)
                },
                None => (d, None, CommandModel::Idle),
            }
        } else if c == 'c' {
            (d, None, CommandModel::RemoveMatching {
                filter: FilterModel::UserId(seq![uid_of(d)]),
            })
        } else {
            (d, None, CommandModel::Idle)
        },
        _ => (d, None, CommandModel::Idle),
    }
}

impl AppData {
    /// Handles input for the table mode.
    pub fn run_table(&mut self, key: KeyPress) -> (r: (Option<AppMode>, Command))
        requires
            old(self)@.current_user is Some,
            old(self)@.popup is None,
            forall|i: int|
                0 <= i < old(self)@.transaction_filters.len() ==> useful_model(
                    #[trigger] old(self)@.transaction_filters[i]),
        ensures
            ({
                let (d1, m1, c1) = table_step(old(self)@, key);
                &&& final(self)@ == d1
                &&& mode_view_opt(r.0) == m1
                &&& r.1.model() == c1
            }),
            data_wf(final(self)@),
            r.0 is None ==> final(self)@.current_user is Some,
    {
        match key.code {
            Key::Down => {
                self.selected_row = select_next(self.selected_row, self.transactions.len());
                (None, Command::Idle)
            },
            Key::Up => {
                self.selected_row = select_prev(self.selected_row, self.transactions.len());
                (None, Command::Idle)
            },
            Key::Esc => (Some(AppMode::Quitting), Command::Idle),
            Key::Char(c) => {
                if c == 'q' {
                    (Some(AppMode::Quitting), Command::Idle)
                } else if c == 'o' {
                    self.current_user = None;
                    self.transactions = Vec::new();
                    self.selected_row = None;
                    proof {
                        assert(self@.transactions =~= Seq::<TransactionModel>::empty());
                    }
                    (Some(AppMode::UserLogin(CursoredString::new())), Command::Idle)
                } else if c == 'a' {
                    self.popup = Some(Popup::AddTransaction(AddTransaction::new()));
                    (None, Command::Idle)
                } else if c == 'f' {
                    let mut taken: Vec<TransactionFilter> = Vec::new();
                    core::mem::swap(&mut self.transaction_filters, &mut taken);
                    self.popup = Some(Popup::FilterResults(crate::popups::FilterResults::new(
                        taken,
                    )));
                    proof {
                        assert(self@.transaction_filters =~= Seq::<FilterModel>::empty());
                    }
                    (None, Command::Idle)
                } else if c == 'd' {
                    match self.selected_row {
                        Some(sel) => {
                            if self.transactions.len() > 0 {
                                let idx = if sel < self.transactions.len() {
                                    sel
                                } else {
                                    self.transactions.len() - 1
                                };
                                let value = self.transactions[idx].value;
                                let tid = self.transactions[idx].trans_id;
                                let mut s = String::from_str("Deleted \"");
                                s.append(i32_to_string(value).as_str());
                                s.append(" | ");
                                s.append(self.transactions[idx].msg.as_str());
                                s.append("\"");
                                self.status_text = s;
                                let mut ids: Vec<i32> = Vec::new();
                                ids.push(tid);
                                proof {
                                    assert(self@.status_text =~= deleted_status(
                                        old(self)@.transactions[idx as int]));
                                    assert(ids@ =~= seq![tid]);
                                }
                                (None, Command::RemoveMatching {
                                    filter: TransactionFilter::Id(ids),
                                })
                            } else {
                                (None, Command::Idle)
                            }
                        },
                        None => (None, Command::Idle),
                    }
                } else if c == 'c' {
                    let uid = match &self.current_user {
                        Some(u) => u.get_id(),
                        None => 0,
                    };
                    let mut ids: Vec<i32> = Vec::new();
                    ids.push(uid);
                    proof {
                        assert(ids@ =~= seq![uid_of(self@)]);
                    }
                    (None, Command::RemoveMatching { filter: TransactionFilter::UserId(ids) })
                } else {
                    (None, Command::Idle)
                }
            },
            _ => (None, Command::Idle),
        }
    }

    /// The filters a transaction query uses: the current user's identifier,
    /// then every active filter; all of them useful.
    pub fn query_filters(&self) -> (r: Vec<TransactionFilter>)
        requires
            self@.current_user is Some,
            forall|i: int|
                0 <= i < self@.transaction_filters.len() ==> useful_model(
                    #[trigger] self@.transaction_filters[i]),
        ensures
            models_of(r@) == seq![FilterModel::UserId(seq![uid_of(self@)])]
                + self@.transaction_filters,
            r@.len() > 0,
            forall|i: int| 0 <= i < r@.len() ==> useful_model(#[trigger] r@[i].model()),
    {
        let uid = match &self.current_user {
            Some(u) => u.get_id(),
            None => 0,
        };
        let mut ids: Vec<i32> = Vec::new();
        ids.push(uid);
        let mut r: Vec<TransactionFilter> = Vec::new();
        r.push(TransactionFilter::UserId(ids));
        proof {
            assert(models_of(r@) =~= seq![FilterModel::UserId(seq![uid_of(self@)])]
                + self@.transaction_filters.subrange(0, 0));
        }
        let mut i: usize = 0;
        while i < self.transaction_filters.len()
            invariant
                i <= self.transaction_filters@.len(),
                self@.current_user is Some,
                forall|k: int|
                    0 <= k < self@.transaction_filters.len() ==> useful_model(
                        #[trigger] self@.transaction_filters[k]),
                models_of(r@) == seq![FilterModel::UserId(seq![uid_of(self@)])]
                    + self@.transaction_filters.subrange(0, i as int),
            decreases self.transaction_filters@.len() - i,
        {
            let ghost before = r@;
            r.push(self.transaction_filters[i].clone());
            proof {
                assert(self@.transaction_filters[i as int] == self.transaction_filters@[
                    i as int].model());
                assert(models_of(r@) =~= models_of(before).push(
                    self@.transaction_filters[i as int]));
                assert(models_of(r@) =~= seq![FilterModel::UserId(seq![uid_of(self@)])]
                    + self@.transaction_filters.subrange(0, i + 1));
            }
            i = i + 1;
        }
        proof {
            assert(self@.transaction_filters.subrange(0, self@.transaction_filters.len() as int)
                =~= self@.transaction_filters);
            assert(forall|k: int|
                0 <= k < r@.len() ==> models_of(r@)[k] == #[trigger] r@[k].model());
        }
        r
    }
}

/// One key press anywhere: the active popup gets it first; otherwise the
/// current mode's handler. From the intro, any key leads to the table when a
/// user is already present and to the login prompt when none is.
pub open spec fn app_step(a: AppModel, key: KeyPress) -> (AppModel, CommandModel) {
    match a.data.popup {
        Some(pm) => {
            let d0 = AppDataModel { popup: None, ..a.data };
            let (d1, p1, c1) = crate::popups::popup_step(pm, d0, key);
            (AppModel { data: AppDataModel { popup: p1, ..d1 }, mode: a.mode }, c1)
        },
        None => match a.mode {
            ModeModel::Intro { .. } => (AppModel {
                mode: if a.data.current_user is Some {
                    ModeModel::LogTable
                } else {
                    ModeModel::UserLogin(empty_text())
                },
                data: a.data,
            }, CommandModel::Idle),
            ModeModel::UserLogin(cs) => {
                let (cs1, m1, c1) = login_step(cs, key);
                let mode1 = match m1 {
                    Some(m) => m,
                    None => ModeModel::UserLogin(cs1),
                };
                (AppModel { mode: mode1, data: a.data }, c1)
            },
            ModeModel::LogTable => {
                let (d1, m1, c1) = table_step(a.data, key);
                (AppModel {
                    mode: match m1 {
                        Some(m) => m,
                        None => ModeModel::LogTable,
                    },
                    data: d1,
                }, c1)
            },
            ModeModel::Quitting => (a, CommandModel::Idle),
        },
    }
}

impl App {
    /// Routes one key press: to the popup if one is active, else to the mode.
    /// Returns the storage command the press asks for.
    pub fn handle_key(&mut self, key: KeyPress) -> (r: Command)
        requires
            old(self).wf(),
        ensures
            final(self).wf(),
            (final(self)@, r.model()) == app_step(old(self)@, key),
    {
        let mut taken: Option<Popup> = None;
        core::mem::swap(&mut self.data.popup, &mut taken);
        match taken {
            Some(popup) => {
                let (np, cmd) = popup.handle_key(&mut self.data, key);
                self.data.popup = np;
                cmd
            },
            None => {
                let mut new_mode: Option<AppMode> = None;
                let cmd = match &mut self.mode {
                    AppMode::Intro { .. } => {
                        new_mode = Some(
                            if self.data.current_user.is_some() {
                                AppMode::LogTable
                            } else {
                                AppMode::UserLogin(CursoredString::new())
                            },
                        );
                        Command::Idle
                    },
                    AppMode::UserLogin(username) => {
                        let (nm, c) = run_user_login(username, key);
                        new_mode = nm;
                        c
                    },
                    AppMode::LogTable => {
                        let (nm, c) = self.data.run_table(key);
                        new_mode = nm;
                        c
                    },
                    AppMode::Quitting => Command::Idle,
                };
                if let Some(m) = new_mode {
                    self.mode = m;
                }
                cmd
            },
        }
    }

    /// A successful login: record the user, greet it in the status line, and
    /// go to the table. The driver refreshes the cache next. Both login paths
    /// (lookup and create-then-login) share this one greeting, with the name
    /// in quotes.
    pub fn user_found(&mut self, user: User)
        requires
            old(self).wf(),
        ensures
            final(self).wf(),
            final(self)@ == (AppModel {
                data: AppDataModel {
                    current_user: Some(user@),
                    status_text: "Logged in as '"@ + user@.name + "'"@,
                    ..old(self)@.data
                },
                mode: ModeModel::LogTable,
            }),
    {
        let mut s = String::from_str("Logged in as '");
        s.append(user.get_name());
        s.append("'");
        proof {
            assert(s@ =~= "Logged in as '"@ + user@.name + "'"@);
        }
        self.data.status_text = s;
        self.data.current_user = Some(user);
        self.mode = AppMode::LogTable;
    }

    /// A failed login lookup: ask whether to create the user, staying on the
    /// login screen underneath.
    pub fn user_missing(&mut self, name: String)
        requires
            old(self).wf(),
        ensures
            final(self).wf(),
            final(self)@ == (AppModel {
                data: AppDataModel {
                    popup: Some(PopupModel::CreateUser(crate::popups::CreateUserModel {
                        new_user: name@,
                        should_create: true,
                    })),
                    ..old(self)@.data
                },
                mode: old(self)@.mode,
            }),
    {
        self.data.popup = Some(Popup::CreateUser(CreateUser::new(name)));
    }

    /// Replaces the transaction cache with a fresh query result.
    pub fn set_transactions(&mut self, rows: Vec<Transaction>)
        requires
            old(self).wf(),
        ensures
            final(self).wf(),
            final(self)@ == (AppModel {
                data: AppDataModel {
                    transactions: crate::ledger::txs_model(rows@),
                    ..old(self)@.data
                },
                mode: old(self)@.mode,
            }),
    {
        self.data.transactions = rows;
    }
}

/// From the table, opening the add-transaction popup and escaping from it
/// returns to the table with the whole shared state — the transaction cache
/// included — exactly as it was, and asks the storage for nothing.
pub proof fn lemma_table_add_then_escape(a: AppModel, m1: crate::input::Modifiers,
    m2: crate::input::Modifiers)
    requires
        wf_model(a),
        a.mode is LogTable,
        a.data.popup is None,
    ensures
        ({
            let (a1, c1) = app_step(a, KeyPress { code: Key::Char('a'), modifiers: m1 });
            let (a2, c2) = app_step(a1, KeyPress { code: Key::Esc, modifiers: m2 });
            &&& a1.data.popup == Some(PopupModel::AddTransaction(
                crate::popups::add_transaction_init()))
            &&& a1.mode is LogTable
            &&& c1 is Idle
            &&& c2 is Idle
            &&& a2 == a
        }),
{
    let (a1, c1) = app_step(a, KeyPress { code: Key::Char('a'), modifiers: m1 });
    let (a2, c2) = app_step(a1, KeyPress { code: Key::Esc, modifiers: m2 });
    assert(a2.data =~= a.data);
    assert(a2 =~= a);
}

} // verus!
