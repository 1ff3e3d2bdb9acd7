//! The modal popups: add-transaction, create-user-confirm, filter-list and
//! add-filter. Exactly one popup is active at a time; while present it owns
//! every key event. A handler consumes its popup by value and returns the
//! popup to keep (possibly a different variant), or nothing to close, together
//! with the storage command the press asks for.

use vstd::prelude::*;
use vstd::string::StringExecFns;
use crate::app::{AppData, AppDataModel, Command, CommandModel};
use crate::cursored::{insert_model, next_model, prev_model, remove_ahead_model,
    remove_behind_model, toggle_overwrite_model, CursoredString, TextModel};
use crate::filter::{useful_model, DateBound, DateRange, FilterModel, TransactionFilter};
use crate::input::{select_next, select_next_model, select_prev, select_prev_model,
    step_of_modifiers, saturating_add_step, saturating_sub_step, value_from_modifiers, Key,
    KeyPress};
use crate::storage::{TransactionType, TransactionTypeMap};

verus! {

/// Selectable fields of the add-transaction popup, cycled by Up and Down.
#[derive(Clone, Copy, PartialEq, Eq, Structural, Debug)]
pub enum AddTransactionField {
    TransactionType,
    Amount,
    Message,
    Submit,
}

impl AddTransactionField {
    /// The field after this one, wrapping at the end.
    pub open spec fn next_spec(self) -> Self {
        match self {
            AddTransactionField::TransactionType => AddTransactionField::Amount,
            AddTransactionField::Amount => AddTransactionField::Message,
            AddTransactionField::Message => AddTransactionField::Submit,
            AddTransactionField::Submit => AddTransactionField::TransactionType,
        }
    }

    /// The field before this one, wrapping at the start.
    pub open spec fn prev_spec(self) -> Self {
        match self {
            AddTransactionField::TransactionType => AddTransactionField::Submit,
            AddTransactionField::Amount => AddTransactionField::TransactionType,
            AddTransactionField::Message => AddTransactionField::Amount,
            AddTransactionField::Submit => AddTransactionField::Message,
        }
    }

    /// Switch the selected field to the next one, wrapping around.
    pub fn next(self) -> (r: Self)
        ensures
            r == self.next_spec(),
    {
        match self {
            AddTransactionField::TransactionType => AddTransactionField::Amount,
            AddTransactionField::Amount => AddTransactionField::Message,
            AddTransactionField::Message => AddTransactionField::Submit,
            AddTransactionField::Submit => AddTransactionField::TransactionType,
        }
    }

    /// Switch the selected field to the previous one, wrapping around.
    pub fn prev(self) -> (r: Self)
        ensures
            r == self.prev_spec(),
    {
        match self {
            AddTransactionField::TransactionType => AddTransactionField::Submit,
            AddTransactionField::Amount => AddTransactionField::TransactionType,
            AddTransactionField::Message => AddTransactionField::Amount,
            AddTransactionField::Submit => AddTransactionField::Message,
        }
    }
}

/// Selectable fields of the add-filter popup, cycled by Up and Down.
#[derive(Clone, Copy, PartialEq, Eq, Structural, Debug)]
pub enum AddFilterField {
    Type,
    Value,
    Submit,
}

impl AddFilterField {
    /// The field after this one, wrapping at the end.
    pub open spec fn next_spec(self) -> Self {
        match self {
            AddFilterField::Type => AddFilterField::Value,
            AddFilterField::Value => AddFilterField::Submit,
            AddFilterField::Submit => AddFilterField::Type,
        }
    }

    /// The field before this one, wrapping at the start.
    pub open spec fn prev_spec(self) -> Self {
        match self {
            AddFilterField::Type => AddFilterField::Submit,
            AddFilterField::Value => AddFilterField::Type,
            AddFilterField::Submit => AddFilterField::Value,
        }
    }

    /// Switch the selected field to the next one, wrapping around.
    pub fn next(self) -> (r: Self)
        ensures
            r == self.next_spec(),
    {
        match self {
            AddFilterField::Type => AddFilterField::Value,
            AddFilterField::Value => AddFilterField::Submit,
            AddFilterField::Submit => AddFilterField::Type,
        }
    }

    /// Switch the selected field to the previous one, wrapping around.
    pub fn prev(self) -> (r: Self)
        ensures
            r == self.prev_spec(),
    {
        match self {
            AddFilterField::Type => AddFilterField::Submit,
            AddFilterField::Value => AddFilterField::Type,
            AddFilterField::Submit => AddFilterField::Value,
        }
    }
}

/// The predicate kinds the add-filter popup can build.
#[derive(Clone, Copy, PartialEq, Eq, Structural, Debug)]
pub enum AddFilterType {
    TransactionType,
    DateRange,
}

impl AddFilterType {
    /// The other kind (the cycle has two members).
    pub open spec fn other_spec(self) -> Self {
        match self {
            AddFilterType::TransactionType => AddFilterType::DateRange,
            AddFilterType::DateRange => AddFilterType::TransactionType,
        }
    }

    /// Switch to the next kind, wrapping around.
    pub fn next(self) -> (r: Self)
        ensures
            r == self.other_spec(),
    {
        match self {
            AddFilterType::TransactionType => AddFilterType::DateRange,
            AddFilterType::DateRange => AddFilterType::TransactionType,
        }
    }

    /// Switch to the previous kind, wrapping around.
    pub fn prev(self) -> (r: Self)
        ensures
            r == self.other_spec(),
    {
        self.next()
    }

    /// How many positions the value selector has for this kind.
    pub open spec fn value_count_spec(self) -> usize {
        match self {
            AddFilterType::TransactionType => 3usize,
            AddFilterType::DateRange => 2usize,
        }
    }

    /// How many possibilities are available for the value selector.
    pub fn value_count(&self) -> (r: usize)
        ensures
            r == self.value_count_spec(),
    {
        match self {
            AddFilterType::TransactionType => 3,
            AddFilterType::DateRange => 2,
        }
    }

    /// A blank filter of this kind: nothing selected, nothing bounded.
    pub fn empty_filter(self) -> (r: TransactionFilter)
        ensures
            r.model() == self.empty_filter_spec(),
    {
        match self {
            AddFilterType::TransactionType => TransactionFilter::Type(
                TransactionTypeMap::build(false, false, false),
            ),
            AddFilterType::DateRange => TransactionFilter::DateRange(
                DateRange { start: DateBound::Unbounded, end: DateBound::Unbounded },
            ),
        }
    }

    /// The blank filter of each kind.
    pub open spec fn empty_filter_spec(self) -> FilterModel {
        match self {
            AddFilterType::TransactionType => FilterModel::Type(
                TransactionTypeMap { other: false, character: false, mission_reward: false },
            ),
            AddFilterType::DateRange => FilterModel::DateRange(
                DateRange { start: DateBound::Unbounded, end: DateBound::Unbounded },
            ),
        }
    }
}

/// Handles the creation of new transactions.
pub struct AddTransaction {
    /// The kind the new transaction will have.
    pub trans_type: TransactionType,
    /// The signed amount, edited in modifier-scaled steps.
    pub amount: i32,
    /// The free-form note being typed.
    pub msg: CursoredString,
    /// The field the cursor sits on.
    pub selected_field: AddTransactionField,
}

/// The model of an add-transaction popup.
#[verifier::ext_equal]
pub struct AddTransactionModel {
    /// The kind the new transaction will have.
    pub trans_type: TransactionType,
    /// The signed amount.
    pub amount: i32,
    /// The note buffer.
    pub msg: TextModel,
    /// The field the cursor sits on.
    pub selected_field: AddTransactionField,
}

impl View for AddTransaction {
    type V = AddTransactionModel;

    open spec fn view(&self) -> AddTransactionModel {
        AddTransactionModel {
            trans_type: self.trans_type,
            amount: self.amount,
            msg: self.msg@,
            selected_field: self.selected_field,
        }
    }
}

/// A fresh add-transaction popup: kind `Other`, amount zero, empty note, the
/// kind field selected.
pub open spec fn add_transaction_init() -> AddTransactionModel {
    AddTransactionModel {
        trans_type: TransactionType::Other,
        amount: 0,
        msg: TextModel { text: Seq::empty(), cursor: 0, inserting: false },
        selected_field: AddTransactionField::TransactionType,
    }
}

impl AddTransaction {
    /// A fresh popup with default values.
    pub fn new() -> (r: Self)
        ensures
            r@ == add_transaction_init(),
            r.msg.wf(),
    {
        let r = AddTransaction {
            trans_type: TransactionType::Other,
            amount: 0,
            msg: CursoredString::new(),
            selected_field: AddTransactionField::TransactionType,
        };
        proof {
            assert(r@.msg.text =~= add_transaction_init().msg.text);
            assert(r@ =~= add_transaction_init());
        }
        r
    }
}

/// Asks whether to create a user that a login lookup did not find.
pub struct CreateUser {
    /// The name the user would be created under.
    pub new_user: String,
    /// Whether "Yes" is selected; starts on "Yes".
    pub should_create: bool,
}

/// The model of a create-user popup.
#[verifier::ext_equal]
pub struct CreateUserModel {
    /// The name the user would be created under.
    pub new_user: Seq<char>,
    /// Whether "Yes" is selected.
    pub should_create: bool,
}

impl View for CreateUser {
    type V = CreateUserModel;

    open spec fn view(&self) -> CreateUserModel {
        CreateUserModel { new_user: self.new_user@, should_create: self.should_create }
    }
}

impl CreateUser {
    /// A popup asking to create `new_user`, defaulting to "Yes".
    pub fn new(new_user: String) -> (r: Self)
        ensures
            r@ == (CreateUserModel { new_user: new_user@, should_create: true }),
    {
        CreateUser { new_user, should_create: true }
    }
}

/// Popup for viewing and editing the working set of filters.
pub struct FilterResults {
    /// The working set of filters, committed back on close.
    pub filters: Vec<TransactionFilter>,
    /// The selected row of the list, if any.
    pub selected: Option<usize>,
}

/// The model of a filter-list popup.
#[verifier::ext_equal]
pub struct FilterResultsModel {
    /// The working set of filters.
    pub filters: Seq<FilterModel>,
    /// The selected row of the list, if any.
    pub selected: Option<usize>,
}

impl View for FilterResults {
    type V = FilterResultsModel;

    open spec fn view(&self) -> FilterResultsModel {
        FilterResultsModel {
            filters: crate::filter::models_of(self.filters@),
            selected: self.selected,
        }
    }
}

impl FilterResults {
    /// A popup listing the given filters, nothing selected yet.
    pub fn new(filters: Vec<TransactionFilter>) -> (r: Self)
        ensures
            r@ == (FilterResultsModel {
                filters: crate::filter::models_of(filters@),
                selected: None,
            }),
    {
        FilterResults { filters, selected: None }
    }
}

/// Popup that goes over the filter list for adding or editing one filter.
pub struct AddFilter {
    /// The filter list underneath, restored when this popup closes.
    pub pop_under: FilterResults,
    /// The filter being built or edited.
    pub filter: TransactionFilter,
    /// The field the cursor sits on.
    pub selected_field: AddFilterField,
    /// The kind of predicate being built.
    pub selected_type: AddFilterType,
    /// The position of the value selector, always below the kind's value count.
    pub index: usize,
}

/// The model of an add-filter popup.
#[verifier::ext_equal]
pub struct AddFilterModel {
    /// The filter list underneath.
    pub pop_under: FilterResultsModel,
    /// The filter being built or edited.
    pub filter: FilterModel,
    /// The field the cursor sits on.
    pub selected_field: AddFilterField,
    /// The kind of predicate being built.
    pub selected_type: AddFilterType,
    /// The position of the value selector.
    pub index: usize,
}

impl View for AddFilter {
    type V = AddFilterModel;

    open spec fn view(&self) -> AddFilterModel {
        AddFilterModel {
            pop_under: self.pop_under@,
            filter: self.filter.model(),
            selected_field: self.selected_field,
            selected_type: self.selected_type,
            index: self.index,
        }
    }
}

impl AddFilter {
    /// A popup building a blank transaction-type filter.
    pub fn new(pop_under: FilterResults) -> (r: Self)
        ensures
            r@ == (AddFilterModel {
                pop_under: pop_under@,
                filter: AddFilterType::TransactionType.empty_filter_spec(),
                selected_field: AddFilterField::Type,
                selected_type: AddFilterType::TransactionType,
                index: 0,
            }),
    {
        AddFilter {
            pop_under,
            filter: AddFilterType::TransactionType.empty_filter(),
            selected_field: AddFilterField::Type,
            selected_type: AddFilterType::TransactionType,
            index: 0,
        }
    }

    /// A popup editing the given filter; the kind selector starts on the
    /// filter's own kind.
    pub fn new_with_entry(pop_under: FilterResults, filter: TransactionFilter) -> (r: Self)
        ensures
            r@ == (AddFilterModel {
                pop_under: pop_under@,
                filter: filter.model(),
                selected_field: AddFilterField::Type,
                selected_type: kind_of(filter.model()),
                index: 0,
            }),
    {
        let selected_type = match &filter {
            TransactionFilter::DateRange(_) => AddFilterType::DateRange,
            _ => AddFilterType::TransactionType,
        };
        AddFilter {
            pop_under,
            filter,
            selected_field: AddFilterField::Type,
            selected_type,
            index: 0,
        }
    }
}

/// The kind selector position a filter's own shape corresponds to.
pub open spec fn kind_of(f: FilterModel) -> AddFilterType {
    match f {
        FilterModel::DateRange(_) => AddFilterType::DateRange,
        _ => AddFilterType::TransactionType,
    }
}

/// Types of popup that can be displayed.
pub enum Popup {
    AddTransaction(AddTransaction),
    CreateUser(CreateUser),
    FilterResults(FilterResults),
    AddFilter(AddFilter),
}

/// The model of a popup.
pub enum PopupModel {
    AddTransaction(AddTransactionModel),
    CreateUser(CreateUserModel),
    FilterResults(FilterResultsModel),
    AddFilter(AddFilterModel),
}

impl View for Popup {
    type V = PopupModel;

    open spec fn view(&self) -> PopupModel {
        match self {
            Popup::AddTransaction(p) => PopupModel::AddTransaction(p@),
            Popup::CreateUser(p) => PopupModel::CreateUser(p@),
            Popup::FilterResults(p) => PopupModel::FilterResults(p@),
            Popup::AddFilter(p) => PopupModel::AddFilter(p@),
        }
    }
}

/// Internal consistency of a popup: the note cursor stays inside its buffer
/// and the value selector stays below the kind's value count.
pub open spec fn popup_model_wf(p: PopupModel) -> bool {
    match p {
        PopupModel::AddTransaction(m) => m.msg.wf(),
        PopupModel::AddFilter(m) => m.index < m.selected_type.value_count_spec(),
        _ => true,
    }
}

/// The model of a possibly absent popup.
pub open spec fn popup_view_opt(p: Option<Popup>) -> Option<PopupModel> {
    match p {
        Some(x) => Some(x@),
        None => None,
    }
}

/// One key press on the add-transaction popup: Up and Down cycle the field;
/// Left and Right edit the selected field (kind cycling, modifier-scaled
/// amount steps, note cursor movement); Enter advances, or on Submit closes
/// with a persist command and sets the status line; Escape discards.
pub open spec fn add_transaction_step(p: AddTransactionModel, d: AppDataModel, key: KeyPress) -> (
    AppDataModel, Option<PopupModel>, CommandModel) {
    match key.code {
        Key::Up => (d, Some(PopupModel::AddTransaction(AddTransactionModel {
            selected_field: p.selected_field.prev_spec(),
            ..p
        })), CommandModel::Idle),
        Key::Down => (d, Some(PopupModel::AddTransaction(AddTransactionModel {
            selected_field: p.selected_field.next_spec(),
            ..p
        })), CommandModel::Idle),
        Key::Left => (d, Some(PopupModel::AddTransaction(match p.selected_field {
            AddTransactionField::Amount => AddTransactionModel {
                amount: crate::input::sat_sub_model(p.amount, step_of_modifiers(key.modifiers)),
                ..p
            },
            AddTransactionField::Message => AddTransactionModel { msg: prev_model(p.msg), ..p },
            AddTransactionField::TransactionType => AddTransactionModel {
                trans_type: p.trans_type.prev_spec(),
                ..p
            },
            AddTransactionField::Submit => p,
        })), CommandModel::Idle),
        Key::Right => (d, Some(PopupModel::AddTransaction(match p.selected_field {
            AddTransactionField::Amount => AddTransactionModel {
                amount: crate::input::sat_add_model(p.amount, step_of_modifiers(key.modifiers)),
                ..p
            },
            AddTransactionField::Message => AddTransactionModel { msg: next_model(p.msg), ..p },
            AddTransactionField::TransactionType => AddTransactionModel {
                trans_type: p.trans_type.next_spec(),
                ..p
            },
            AddTransactionField::Submit => p,
        })), CommandModel::Idle),
        Key::Enter => match p.selected_field {
            AddTransactionField::Submit => (AppDataModel {
                status_text: "Added transaction"@,
                ..d
            }, None, CommandModel::AddTransaction {
                user_id: crate::app::uid_of(d),
                amount: p.amount,
                kind: p.trans_type,
                msg: p.msg.text,
            }),
            _ => (d, Some(PopupModel::AddTransaction(AddTransactionModel {
                selected_field: p.selected_field.next_spec(),
                ..p
            })), CommandModel::Idle),
        },
        Key::Backspace => (d, Some(PopupModel::AddTransaction(
            if p.selected_field is Message {
                AddTransactionModel { msg: remove_behind_model(p.msg), ..p }
            } else {
                p
            },
        )), CommandModel::Idle),
        Key::Delete => (d, Some(PopupModel::AddTransaction(
            if p.selected_field is Message {
                AddTransactionModel { msg: remove_ahead_model(p.msg), ..p }
            } else {
                p
            },
        )), CommandModel::Idle),
        Key::Insert => (d, Some(PopupModel::AddTransaction(
            if p.selected_field is Message {
                AddTransactionModel { msg: toggle_overwrite_model(p.msg), ..p }
            } else {
                p
            },
        )), CommandModel::Idle),
        Key::Esc => (d, None, CommandModel::Idle),
        Key::Char(c) => (d, Some(PopupModel::AddTransaction(
            if p.selected_field is Message {
                AddTransactionModel { msg: insert_model(p.msg, c), ..p }
            } else {
                p
            },
        )), CommandModel::Idle),
        _ => (d, Some(PopupModel::AddTransaction(p)), CommandModel::Idle),
    }
}

/// One key press on the create-user confirmation: Left, Right, Tab and
/// Back-Tab flip the Yes/No selection; Enter on "Yes" closes with a create
/// command, Enter on "No" and Escape close without one.
pub open spec fn create_user_step(p: CreateUserModel, d: AppDataModel, key: KeyPress) -> (
    AppDataModel, Option<PopupModel>, CommandModel) {
    match key.code {
        Key::Left => (d, Some(PopupModel::CreateUser(CreateUserModel {
            should_create: !p.should_create,
            ..p
        })), CommandModel::Idle),
        Key::Right => (d, Some(PopupModel::CreateUser(CreateUserModel {
            should_create: !p.should_create,
            ..p
        })), CommandModel::Idle),
        Key::Tab => (d, Some(PopupModel::CreateUser(CreateUserModel {
            should_create: !p.should_create,
            ..p
        })), CommandModel::Idle),
        Key::BackTab => (d, Some(PopupModel::CreateUser(CreateUserModel {
            should_create: !p.should_create,
            ..p
        })), CommandModel::Idle),
        Key::Enter => if p.should_create {
            (d, None, CommandModel::CreateUser { name: p.new_user })
        } else {
            (d, None, CommandModel::Idle)
        },
        Key::Esc => (d, None, CommandModel::Idle),
        _ => (d, Some(PopupModel::CreateUser(p)), CommandModel::Idle),
    }
}

/// One key press on the filter list: Up and Down move the selection; `d`
/// removes the selected filter; `a` opens the add-filter popup blank; `e`
/// opens it on the selected filter, removing that filter from the working set
/// while it is edited; Escape commits the useful filters of the working set as
/// the active ones and asks for a refresh.
pub open spec fn filter_results_step(m: FilterResultsModel, d: AppDataModel, key: KeyPress) -> (
    AppDataModel, Option<PopupModel>, CommandModel) {
    match key.code {
        Key::Up => (d, Some(PopupModel::FilterResults(FilterResultsModel {
            selected: select_prev_model(m.selected, m.filters.len()),
            ..m
        })), CommandModel::Idle),
        Key::Down => (d, Some(PopupModel::FilterResults(FilterResultsModel {
            selected: select_next_model(m.selected, m.filters.len()),
            ..m
        })), CommandModel::Idle),
        Key::Esc => (AppDataModel {
            transaction_filters: crate::filter::useful_only(m.filters),
            ..d
        }, None, CommandModel::Refresh),
        Key::Char(c) => if c == 'd' {
            match m.selected {
                Some(sel) => if m.filters.len() > 0 {
                    let idx = if sel < m.filters.len() {
                        sel as int
                    } else {
                        m.filters.len() - 1
                    };
                    (d, Some(PopupModel::FilterResults(FilterResultsModel {
                        filters: m.filters.remove(idx),
                        ..m
                    })), CommandModel::Idle)
                } else {
                    (d, Some(PopupModel::FilterResults(m)), CommandModel::Idle)
                },
                None => (d, Some(PopupModel::FilterResults(m)), CommandModel::Idle),
            }
        } else if c == 'a' {
            (d, Some(PopupModel::AddFilter(AddFilterModel {
                pop_under: m,
                filter: AddFilterType::TransactionType.empty_filter_spec(),
                selected_field: AddFilterField::Type,
                selected_type: AddFilterType::TransactionType,
                index: 0,
            })), CommandModel::Idle)
        } else if c == 'e' {
            match m.selected {
                Some(sel) => if m.filters.len() > 0 {
                    let idx = if sel < m.filters.len() {
                        sel as int
                    } else {
                        m.filters.len() - 1
                    };
                    let entry = m.filters[idx];
                    (d, Some(PopupModel::AddFilter(AddFilterModel {
                        pop_under: FilterResultsModel {
                            filters: m.filters.update(idx, m.filters.last()).drop_last(),
                            ..m
                        },
                        filter: entry,
                        selected_field: AddFilterField::Type,
                        selected_type: kind_of(entry),
                        index: 0,
                    })), CommandModel::Idle)
                } else {
                    (d, Some(PopupModel::FilterResults(m)), CommandModel::Idle)
                },
                None => (d, Some(PopupModel::FilterResults(m)), CommandModel::Idle),
            }
        } else {
            (d, Some(PopupModel::FilterResults(m)), CommandModel::Idle)
        },
        _ => (d, Some(PopupModel::FilterResults(m)), CommandModel::Idle),
    }
}

/// Flipping the membership of the transaction type at a selector position.
pub open spec fn flip_slot(m: TransactionTypeMap<bool>, index: usize) -> TransactionTypeMap<
    bool,
> {
    if index == 0 {
        TransactionTypeMap { other: !m.other, ..m }
    } else if index == 1 {
        TransactionTypeMap { character: !m.character, ..m }
    } else {
        TransactionTypeMap { mission_reward: !m.mission_reward, ..m }
    }
}

/// Cycling one end of a date range: absent, then closed at the epoch, then
/// open at the same instant, then absent again.
pub open spec fn cycle_bound_model(b: DateBound) -> DateBound {
    match b {
        DateBound::Unbounded => DateBound::Included(0),
        DateBound::Included(t) => DateBound::Excluded(t),
        DateBound::Excluded(_) => DateBound::Unbounded,
    }
}

/// Cycles one end of a date range through absent, closed and open.
pub fn cycle_bound(b: DateBound) -> (r: DateBound)
    ensures
        r == cycle_bound_model(b),
{
    match b {
        DateBound::Unbounded => DateBound::Included(0),
        DateBound::Included(t) => DateBound::Excluded(t),
        DateBound::Excluded(_) => DateBound::Unbounded,
    }
}

/// The filter after toggling the value at the selector position, when the
/// filter's shape corresponds to the selected kind; otherwise unchanged.
pub open spec fn toggled_filter(m: AddFilterModel) -> FilterModel {
    match (m.selected_type, m.filter) {
        (AddFilterType::TransactionType, FilterModel::Type(map)) => FilterModel::Type(
            flip_slot(map, m.index),
        ),
        (AddFilterType::DateRange, FilterModel::DateRange(r)) => if m.index == 0 {
            FilterModel::DateRange(DateRange { start: cycle_bound_model(r.start), ..r })
        } else {
            FilterModel::DateRange(DateRange { end: cycle_bound_model(r.end), ..r })
        },
        _ => m.filter,
    }
}

/// One key press on the add-filter popup: Up and Down cycle the field; Left
/// and Right cycle the predicate kind (resetting the draft) or move the value
/// selector; Enter advances from the kind field, toggles the selected value,
/// or on Submit inserts the draft into the working set when it is useful;
/// Escape returns to the filter list, re-inserting the draft.
pub open spec fn add_filter_step(m: AddFilterModel, d: AppDataModel, key: KeyPress) -> (
    AppDataModel, Option<PopupModel>, CommandModel) {
    match key.code {
        Key::Up => (d, Some(PopupModel::AddFilter(AddFilterModel {
            selected_field: m.selected_field.prev_spec(),
            ..m
        })), CommandModel::Idle),
        Key::Down => (d, Some(PopupModel::AddFilter(AddFilterModel {
            selected_field: m.selected_field.next_spec(),
            ..m
        })), CommandModel::Idle),
        Key::Left => match m.selected_field {
            AddFilterField::Type => (d, Some(PopupModel::AddFilter(AddFilterModel {
                selected_type: m.selected_type.other_spec(),
                filter: m.selected_type.other_spec().empty_filter_spec(),
                index: 0,
                ..m
            })), CommandModel::Idle),
            AddFilterField::Value => (d, Some(PopupModel::AddFilter(AddFilterModel {
                index: if m.index == 0 {
                    (m.selected_type.value_count_spec() - 1) as usize
                } else {
                    (m.index - 1) as usize
                },
                ..m
            })), CommandModel::Idle),
            AddFilterField::Submit => (d, Some(PopupModel::AddFilter(m)), CommandModel::Idle),
        },
        Key::Right => match m.selected_field {
            AddFilterField::Type => (d, Some(PopupModel::AddFilter(AddFilterModel {
                selected_type: m.selected_type.other_spec(),
                filter: m.selected_type.other_spec().empty_filter_spec(),
                index: 0,
                ..m
            })), CommandModel::Idle),
            AddFilterField::Value => (d, Some(PopupModel::AddFilter(AddFilterModel {
                index: if m.index + 1 < m.selected_type.value_count_spec() {
                    (m.index + 1) as usize
                } else {
                    0usize
                },
                ..m
            })), CommandModel::Idle),
            AddFilterField::Submit => (d, Some(PopupModel::AddFilter(m)), CommandModel::Idle),
        },
        Key::Enter => match m.selected_field {
            AddFilterField::Type => (d, Some(PopupModel::AddFilter(AddFilterModel {
                selected_field: AddFilterField::Value,
                ..m
            })), CommandModel::Idle),
            AddFilterField::Value => (d, Some(PopupModel::AddFilter(AddFilterModel {
                filter: toggled_filter(m),
                ..m
            })), CommandModel::Idle),
            AddFilterField::Submit => if useful_model(m.filter) {
                (d, Some(PopupModel::FilterResults(FilterResultsModel {
                    filters: m.pop_under.filters.push(m.filter),
                    ..m.pop_under
                })), CommandModel::Idle)
            } else {
                (d, Some(PopupModel::FilterResults(m.pop_under)), CommandModel::Idle)
            },
        },
        Key::Esc => (d, Some(PopupModel::FilterResults(FilterResultsModel {
            filters: m.pop_under.filters.push(m.filter),
            ..m.pop_under
        })), CommandModel::Idle),
        _ => (d, Some(PopupModel::AddFilter(m)), CommandModel::Idle),
    }
}

/// One key press on whichever popup is active.
pub open spec fn popup_step(p: PopupModel, d: AppDataModel, key: KeyPress) -> (AppDataModel,
    Option<PopupModel>, CommandModel) {
    match p {
        PopupModel::AddTransaction(m) => add_transaction_step(m, d, key),
        PopupModel::CreateUser(m) => create_user_step(m, d, key),
        PopupModel::FilterResults(m) => filter_results_step(m, d, key),
        PopupModel::AddFilter(m) => add_filter_step(m, d, key),
    }
}

impl AddTransaction {
    /// Handles one key press; see [`add_transaction_step`].
    pub fn handle_key(self, data: &mut AppData, key: KeyPress) -> (r: (Option<Popup>,
        Command))
        requires
            old(data)@.current_user is Some,
            self.msg.wf(),
        ensures
            ({
                let (d1, p1, c1) = add_transaction_step(self@, old(data)@, key);
                &&& final(data)@ == d1
                &&& popup_view_opt(r.0) == p1
                &&& r.1.model() == c1
            }),
            r.0 matches Some(p) ==> popup_model_wf(p@),
            final(data)@.current_user == old(data)@.current_user,
            final(data)@.popup == old(data)@.popup,
            final(data)@.transaction_filters == old(data)@.transaction_filters,
    {
        let mut this = self;
        match key.code {
            Key::Up => {
                this.selected_field = this.selected_field.prev();
                (Some(Popup::AddTransaction(this)), Command::Idle)
            },
            Key::Down => {
                this.selected_field = this.selected_field.next();
                (Some(Popup::AddTransaction(this)), Command::Idle)
            },
            Key::Left => {
                match this.selected_field {
                    AddTransactionField::Amount => {
                        let step = value_from_modifiers(key.modifiers);
                        this.amount = saturating_sub_step(this.amount, step);
                    },
                    AddTransactionField::Message => this.msg.prev(),
                    AddTransactionField::TransactionType => {
                        this.trans_type = this.trans_type.prev();
                    },
                    AddTransactionField::Submit => {},
                }
                (Some(Popup::AddTransaction(this)), Command::Idle)
            },
            Key::Right => {
                match this.selected_field {
                    AddTransactionField::Amount => {
                        let step = value_from_modifiers(key.modifiers);
                        this.amount = saturating_add_step(this.amount, step);
                    },
                    AddTransactionField::Message => this.msg.next(),
                    AddTransactionField::TransactionType => {
                        this.trans_type = this.trans_type.next();
                    },
                    AddTransactionField::Submit => {},
                }
                (Some(Popup::AddTransaction(this)), Command::Idle)
            },
            Key::Enter => {
                match this.selected_field {
                    AddTransactionField::Submit => {
                        let uid = match &data.current_user {
                            Some(u) => u.get_id(),
                            None => vstd::pervasive::unreached(),
                        };
                        data.status_text = String::from_str("Added transaction");
                        (None, Command::AddTransaction {
                            user_id: uid,
                            amount: this.amount,
                            kind: this.trans_type,
                            msg: this.msg.into_text(),
                        })
                    },
                    _ => {
                        this.selected_field = this.selected_field.next();
                        (Some(Popup::AddTransaction(this)), Command::Idle)
                    },
                }
            },
            Key::Backspace => {
                if matches!(this.selected_field, AddTransactionField::Message) {
                    this.msg.remove_behind();
                }
                (Some(Popup::AddTransaction(this)), Command::Idle)
            },
            Key::Delete => {
                if matches!(this.selected_field, AddTransactionField::Message) {
                    this.msg.remove_ahead();
                }
                (Some(Popup::AddTransaction(this)), Command::Idle)
            },
            Key::Insert => {
                if matches!(this.selected_field, AddTransactionField::Message) {
                    this.msg.toggle_overwrite();
                }
                (Some(Popup::AddTransaction(this)), Command::Idle)
            },
            Key::Esc => (None, Command::Idle),
            Key::Char(c) => {
                if matches!(this.selected_field, AddTransactionField::Message) {
                    this.msg.insert(c);
                }
                (Some(Popup::AddTransaction(this)), Command::Idle)
            },
            _ => (Some(Popup::AddTransaction(this)), Command::Idle),
        }
    }
}

impl CreateUser {
    /// Handles one key press; see [`create_user_step`].
    pub fn handle_key(self, data: &mut AppData, key: KeyPress) -> (r: (Option<Popup>,
        Command))
        ensures
            ({
                let (d1, p1, c1) = create_user_step(self@, old(data)@, key);
                &&& final(data)@ == d1
                &&& popup_view_opt(r.0) == p1
                &&& r.1.model() == c1
            }),
            r.0 matches Some(p) ==> popup_model_wf(p@),
            final(data)@ == old(data)@,
    {
        let mut this = self;
        match key.code {
            Key::Left | Key::Right | Key::Tab | Key::BackTab => {
                this.should_create = !this.should_create;
                (Some(Popup::CreateUser(this)), Command::Idle)
            },
            Key::Enter => {
                if this.should_create {
                    (None, Command::CreateUser { name: this.new_user })
                } else {
                    (None, Command::Idle)
                }
            },
            Key::Esc => (None, Command::Idle),
            _ => (Some(Popup::CreateUser(this)), Command::Idle),
        }
    }
}

impl FilterResults {
    /// Handles one key press; see [`filter_results_step`].
    pub fn handle_key(self, data: &mut AppData, key: KeyPress) -> (r: (Option<Popup>,
        Command))
        ensures
            ({
                let (d1, p1, c1) = filter_results_step(self@, old(data)@, key);
                &&& final(data)@ == d1
                &&& popup_view_opt(r.0) == p1
                &&& r.1.model() == c1
            }),
            r.0 matches Some(p) ==> popup_model_wf(p@),
            final(data)@.current_user == old(data)@.current_user,
            final(data)@.popup == old(data)@.popup,
            (forall|i: int|
                0 <= i < old(data)@.transaction_filters.len() ==> useful_model(
                    #[trigger] old(data)@.transaction_filters[i])) ==> (forall|i: int|
                0 <= i < final(data)@.transaction_filters.len() ==> useful_model(
                    #[trigger] final(data)@.transaction_filters[i])),
    {
        let mut this = self;
        match key.code {
            Key::Up => {
                this.selected = select_prev(this.selected, this.filters.len());
                (Some(Popup::FilterResults(this)), Command::Idle)
            },
            Key::Down => {
                this.selected = select_next(this.selected, this.filters.len());
                (Some(Popup::FilterResults(this)), Command::Idle)
            },
            Key::Esc => {
                data.transaction_filters = crate::filter::keep_useful(this.filters);
                (None, Command::Refresh)
            },
            Key::Char(c) => {
                if c == 'd' {
                    if let Some(sel) = this.selected {
                        if this.filters.len() > 0 {
                            let idx = if sel < this.filters.len() {
                                sel
                            } else {
                                this.filters.len() - 1
                            };
                            let ghost before = this.filters@;
                            this.filters.remove(idx);
                            proof {
                                assert(crate::filter::models_of(this.filters@)
                                    =~= crate::filter::models_of(before).remove(idx as int));
                            }
                        }
                    }
                    (Some(Popup::FilterResults(this)), Command::Idle)
                } else if c == 'a' {
                    (Some(Popup::AddFilter(AddFilter::new(this))), Command::Idle)
                } else if c == 'e' {
                    match this.selected {
                        Some(sel) => {
                            if this.filters.len() > 0 {
                                let idx = if sel < this.filters.len() {
                                    sel
                                } else {
                                    this.filters.len() - 1
                                };
                                let ghost before = this.filters@;
                                let entry = this.filters.swap_remove(idx);
                                proof {
                                    assert(crate::filter::models_of(this.filters@)
                                        =~= crate::filter::models_of(before).update(idx as int,
                                        crate::filter::models_of(before).last()).drop_last());
                                }
                                (Some(Popup::AddFilter(AddFilter::new_with_entry(this, entry))),
                                    Command::Idle)
                            } else {
                                (Some(Popup::FilterResults(this)), Command::Idle)
                            }
                        },
                        None => (Some(Popup::FilterResults(this)), Command::Idle),
                    }
                } else {
                    (Some(Popup::FilterResults(this)), Command::Idle)
                }
            },
            _ => (Some(Popup::FilterResults(this)), Command::Idle),
        }
    }
}

impl AddFilter {
    /// Handles one key press; see [`add_filter_step`].
    pub fn handle_key(self, data: &mut AppData, key: KeyPress) -> (r: (Option<Popup>,
        Command))
        requires
            self@.index < self@.selected_type.value_count_spec(),
        ensures
            ({
                let (d1, p1, c1) = add_filter_step(self@, old(data)@, key);
                &&& final(data)@ == d1
                &&& popup_view_opt(r.0) == p1
                &&& r.1.model() == c1
            }),
            r.0 matches Some(p) ==> popup_model_wf(p@),
            final(data)@ == old(data)@,
    {
        let mut this = self;
        match key.code {
            Key::Up => {
                this.selected_field = this.selected_field.prev();
                (Some(Popup::AddFilter(this)), Command::Idle)
            },
            Key::Down => {
                this.selected_field = this.selected_field.next();
                (Some(Popup::AddFilter(this)), Command::Idle)
            },
            Key::Left => {
                match this.selected_field {
                    AddFilterField::Type => {
                        this.selected_type = this.selected_type.prev();
                        this.filter = this.selected_type.empty_filter();
                        this.index = 0;
                    },
                    AddFilterField::Value => {
                        let count = this.selected_type.value_count();
                        this.index = if this.index == 0 {
                            count - 1
                        } else {
                            this.index - 1
                        };
                    },
                    AddFilterField::Submit => {},
                }
                (Some(Popup::AddFilter(this)), Command::Idle)
            },
            Key::Right => {
                match this.selected_field {
                    AddFilterField::Type => {
                        this.selected_type = this.selected_type.next();
                        this.filter = this.selected_type.empty_filter();
                        this.index = 0;
                    },
                    AddFilterField::Value => {
                        let count = this.selected_type.value_count();
                        this.index = if this.index + 1 < count {
                            this.index + 1
                        } else {
                            0
                        };
                    },
                    AddFilterField::Submit => {},
                }
                (Some(Popup::AddFilter(this)), Command::Idle)
            },
            Key::Enter => {
                match this.selected_field {
                    AddFilterField::Type => {
                        this.selected_field = AddFilterField::Value;
                        (Some(Popup::AddFilter(this)), Command::Idle)
                    },
                    AddFilterField::Value => {
                        let f = this.filter;
                        this.filter = match (this.selected_type, f) {
                            (AddFilterType::TransactionType, TransactionFilter::Type(map)) => {
                                let flipped = if this.index == 0 {
                                    TransactionTypeMap::build(!map.other, map.character,
                                        map.mission_reward)
                                } else if this.index == 1 {
                                    TransactionTypeMap::build(map.other, !map.character,
                                        map.mission_reward)
                                } else {
                                    TransactionTypeMap::build(map.other, map.character,
                                        !map.mission_reward)
                                };
                                TransactionFilter::Type(flipped)
                            },
                            (AddFilterType::DateRange, TransactionFilter::DateRange(r)) => {
                                if this.index == 0 {
                                    TransactionFilter::DateRange(DateRange {
                                        start: cycle_bound(r.start),
                                        end: r.end,
                                    })
                                } else {
                                    TransactionFilter::DateRange(DateRange {
                                        start: r.start,
                                        end: cycle_bound(r.end),
                                    })
                                }
                            },
                            (_, other) => other,
                        };
                        (Some(Popup::AddFilter(this)), Command::Idle)
                    },
                    AddFilterField::Submit => {
                        let mut pop = this.pop_under;
                        if this.filter.is_useful() {
                            let ghost before = pop.filters@;
                            pop.filters.push(this.filter);
                            proof {
                                assert(crate::filter::models_of(pop.filters@)
                                    =~= crate::filter::models_of(before).push(
                                    this.filter.model()));
                            }
                        }
                        (Some(Popup::FilterResults(pop)), Command::Idle)
                    },
                }
            },
            Key::Esc => {
                let mut pop = this.pop_under;
                let ghost before = pop.filters@;
                pop.filters.push(this.filter);
                proof {
                    assert(crate::filter::models_of(pop.filters@)
                        =~= crate::filter::models_of(before).push(this.filter.model()));
                }
                (Some(Popup::FilterResults(pop)), Command::Idle)
            },
            _ => (Some(Popup::AddFilter(this)), Command::Idle),
        }
    }
}

impl Popup {
    /// Handles one incoming key press: the active popup consumes itself and
    /// returns the popup to keep — possibly a different variant — or nothing to
    /// close, together with the storage command the press asks for. See
    /// [`popup_step`].
    pub fn handle_key(self, data: &mut AppData, key: KeyPress) -> (r: (Option<Popup>, Command))
        requires
            popup_model_wf(self@),
            self@ matches PopupModel::AddTransaction(_) ==> old(data)@.current_user is Some,
        ensures
            ({
                let (d1, p1, c1) = popup_step(self@, old(data)@, key);
                &&& final(data)@ == d1
                &&& popup_view_opt(r.0) == p1
                &&& r.1.model() == c1
            }),
            r.0 matches Some(p) ==> popup_model_wf(p@),
            final(data)@.current_user == old(data)@.current_user,
            final(data)@.popup == old(data)@.popup,
            (forall|i: int|
                0 <= i < old(data)@.transaction_filters.len() ==> useful_model(
                    #[trigger] old(data)@.transaction_filters[i])) ==> (forall|i: int|
                0 <= i < final(data)@.transaction_filters.len() ==> useful_model(
                    #[trigger] final(data)@.transaction_filters[i])),
    {
        match self {
            Popup::AddTransaction(p) => p.handle_key(data, key),
            Popup::CreateUser(p) => p.handle_key(data, key),
            Popup::FilterResults(p) => p.handle_key(data, key),
            Popup::AddFilter(p) => p.handle_key(data, key),
        }
    }
}

} // verus!
