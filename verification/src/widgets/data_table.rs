//! Data table — the behaving table: a column model with sortable
//! headers, the app-owned [`DataTableState`] (selection, expanded rows,
//! sort), the routed keys its rows, expanders and headers emit, and the
//! fold of those events into the state.
//!
//! The widget **never sorts**: a header activation records what was
//! asked for in [`DataTableState::sort`], and ordering the rows is the
//! app's job, on the app's data. Rows are identified by their **id**
//! (the part of the routed key after `{key}:row:`), not by index, so
//! the selection survives a re-sort.

use vstd::prelude::*;
use crate::event::{activated_route, is_activation, route_of, UiEvent, UiEventKind};
use crate::key::{
    colon, concat3, decimal, lemma_parse_decimal, lemma_strip_prefix_concat, opt_eq_str, opt_view,
    owned, push_decimal, spec_index, spec_suffix, index, suffix, opt_str_view,
};
use crate::key_set::KeySet;
use crate::widgets::table::{TableColumn, TextAlign};

verus! {

// ---------------------------------------------------------------------
// Column model
// ---------------------------------------------------------------------

/// One column of a data table: its geometry, its header label, and
/// whether the header cell is a sort trigger.
#[derive(Clone, Debug, PartialEq)]
pub struct DataColumn {
    /// Width and horizontal alignment, stamped onto the header cell and
    /// the same-position cell of every body row.
    pub column: TableColumn,
    /// The header label.
    pub header: String,
    /// Whether the header cell is activatable. A sortable header emits
    /// [`data_sort_key`] on click or keyboard activation. It does not
    /// sort.
    pub sortable: bool,
}

impl DataColumn {
    /// A column with explicit [`TableColumn`] geometry.
    pub fn new(header: String, column: TableColumn) -> (r: Self)
        ensures
            r.column == column,
            r.header == header,
            !r.sortable,
    {
        DataColumn { column, header, sortable: false }
    }

    /// Align this column's content to the leading edge (the default).
    pub fn align_start(self) -> (r: Self)
        ensures
            r.column == (TableColumn { align: TextAlign::Start, ..self.column }),
            r.header == self.header,
            r.sortable == self.sortable,
    {
        DataColumn { column: self.column.align_start(), header: self.header, sortable: self.sortable }
    }

    /// Center this column's content.
    pub fn align_center(self) -> (r: Self)
        ensures
            r.column == (TableColumn { align: TextAlign::Center, ..self.column }),
            r.header == self.header,
            r.sortable == self.sortable,
    {
        DataColumn { column: self.column.align_center(), header: self.header, sortable: self.sortable }
    }

    /// Align this column's content to the trailing edge — the numeric
    /// column treatment.
    pub fn align_end(self) -> (r: Self)
        ensures
            r.column == (TableColumn { align: TextAlign::End, ..self.column }),
            r.header == self.header,
            r.sortable == self.sortable,
    {
        DataColumn { column: self.column.align_end(), header: self.header, sortable: self.sortable }
    }

    /// Make this column's header cell a sort trigger.
    pub fn sortable(self) -> (r: Self)
        ensures
            r.column == self.column,
            r.header == self.header,
            r.sortable,
    {
        DataColumn { column: self.column, header: self.header, sortable: true }
    }
}

/// The geometry half of a column set — the `TableColumn` of each
/// column, in order.
pub fn column_geometry(cols: &[DataColumn]) -> (r: Vec<TableColumn>)
    ensures
        r@.len() == cols@.len(),
        forall|i: int| 0 <= i < cols@.len() ==> r@[i] == #[trigger] cols@[i].column,
{
    let n = cols.len();
    let mut r: Vec<TableColumn> = Vec::new();
    let mut i: usize = 0;
    while i < n
        invariant
            i <= n,
            n == cols@.len(),
            r@.len() == i,
            forall|k: int| 0 <= k < i ==> r@[k] == #[trigger] cols@[k].column,
        decreases n - i,
    {
        r.push(cols[i].column);
        i = i + 1;
    }
    r
}

// ---------------------------------------------------------------------
// Sort
// ---------------------------------------------------------------------

/// Which way a sorted column is ordered.
#[derive(Clone, Copy, Debug, PartialEq, Eq, Structural)]
pub enum SortDirection {
    /// Smallest / earliest / A–Z first. The direction a fresh sort
    /// starts in.
    Ascending,
    /// Largest / latest / Z–A first.
    Descending,
}

impl Default for SortDirection {
    /// A fresh sort starts ascending.
    fn default() -> (r: Self)
        ensures
            r == SortDirection::Ascending,
    {
        SortDirection::Ascending
    }
}

impl SortDirection {
    /// The other direction — what a second activation of an already
    /// sorted header means.
    pub fn reversed(self) -> (r: Self)
        ensures
            r != self,
    {
        match self {
            SortDirection::Ascending => SortDirection::Descending,
            SortDirection::Descending => SortDirection::Ascending,
        }
    }
}

/// The sort the app has applied: which column, and which way.
#[derive(Clone, Copy, Debug, PartialEq, Eq, Structural)]
pub struct Sort {
    /// Index into the column slice.
    pub column: usize,
    /// Which way that column is ordered.
    pub direction: SortDirection,
}

impl Sort {
    /// Sort `column` ascending.
    pub fn ascending(column: usize) -> (r: Self)
        ensures
            r == (Sort { column, direction: SortDirection::Ascending }),
    {
        Sort { column, direction: SortDirection::Ascending }
    }

    /// Sort `column` descending.
    pub fn descending(column: usize) -> (r: Self)
        ensures
            r == (Sort { column, direction: SortDirection::Descending }),
    {
        Sort { column, direction: SortDirection::Descending }
    }

    /// The same column, the other way round.
    pub fn reversed(self) -> (r: Self)
        ensures
            r.column == self.column,
            r.direction != self.direction,
    {
        Sort { column: self.column, direction: self.direction.reversed() }
    }
}

/// The sort after a header activation on `column`: activating the
/// sorted column reverses it, activating any other column sorts it
/// ascending.
pub open spec fn sorted_by(sort: Option<Sort>, column: usize) -> Sort {
    match sort {
        Some(s) => if s.column == column {
            Sort { column, direction: if s.direction == SortDirection::Ascending {
                SortDirection::Descending
            } else {
                SortDirection::Ascending
            } }
        } else {
            Sort { column, direction: SortDirection::Ascending }
        },
        None => Sort { column, direction: SortDirection::Ascending },
    }
}

// ---------------------------------------------------------------------
// State
// ---------------------------------------------------------------------

/// The app-owned state a data table projects: which row is selected,
/// which rows are expanded, and the current sort.
#[derive(Clone, Debug, PartialEq)]
pub struct DataTableState {
    /// The selected row's id, if any. Single selection.
    pub selected: Option<String>,
    /// Ids of the rows whose detail panels are showing.
    pub expanded: KeySet,
    /// The sort the app has applied, or `None` for the natural order.
    pub sort: Option<Sort>,
}

impl Default for DataTableState {
    fn default() -> (r: Self)
        ensures
            r.selected.is_none(),
            r.expanded.set() == Set::<Seq<char>>::empty(),
            r.sort.is_none(),
    {
        DataTableState { selected: None, expanded: KeySet::new(), sort: None }
    }
}

impl DataTableState {
    /// Whether `id` is the selected row.
    pub fn is_selected(&self, id: &str) -> (r: bool)
        ensures
            r == (opt_view(self.selected) == Some(id@)),
    {
        opt_eq_str(&self.selected, id)
    }

    /// Whether `id`'s detail panel is showing.
    pub fn is_expanded(&self, id: &str) -> (r: bool)
        ensures
            r == self.expanded.set().contains(id@),
    {
        self.expanded.contains(id)
    }

    /// Show or hide `id`'s detail panel.
    pub fn toggle_expanded(&mut self, id: &str)
        ensures
            final(self).expanded.set() == toggled_rows(old(self).expanded.set(), id@),
            final(self).selected == old(self).selected,
            final(self).sort == old(self).sort,
    {
        if !self.expanded.remove(id) {
            self.expanded.insert(id);
        }
    }

    /// Apply the standard header-click rule: activating the sorted
    /// column reverses it, activating any other column sorts it
    /// ascending.
    pub fn sort_by(&mut self, column: usize)
        ensures
            final(self).sort == Some(sorted_by(old(self).sort, column)),
            final(self).selected == old(self).selected,
            final(self).expanded == old(self).expanded,
    {
        let next = match self.sort {
            Some(sort) => if sort.column == column {
                sort.reversed()
            } else {
                Sort::ascending(column)
            },
            None => Sort::ascending(column),
        };
        self.sort = Some(next);
    }
}

// ---------------------------------------------------------------------
// Row pitch
// ---------------------------------------------------------------------

/// The rungs of the control-size ladder.
#[derive(Clone, Copy, Debug, PartialEq, Eq, Structural)]
pub enum ComponentSize {
    /// 22 px controls.
    Xxs,
    /// 28 px controls.
    Xs,
    /// 32 px controls (the default rung).
    Sm,
    /// 36 px controls.
    Md,
    /// 40 px controls.
    Lg,
}

/// The control height of a rung, in logical pixels.
pub open spec fn control_height(size: ComponentSize) -> nat {
    match size {
        ComponentSize::Xxs => 22,
        ComponentSize::Xs => 28,
        ComponentSize::Sm => 32,
        ComponentSize::Md => 36,
        ComponentSize::Lg => 40,
    }
}

/// Row pitch, in logical pixels, at each rung: a row's content box is
/// exactly as tall as a control of the same rung, plus the 1px rule
/// under every row but the last — the estimate a virtualized table
/// uses for rows it has not measured yet.
pub fn estimated_row_height(size: ComponentSize) -> (r: u32)
    ensures
        r == control_height(size) + 1,
{
    let control: u32 = match size {
        ComponentSize::Xxs => 22,
        ComponentSize::Xs => 28,
        ComponentSize::Sm => 32,
        ComponentSize::Md => 36,
        ComponentSize::Lg => 40,
    };
    control + 1
}

// ---------------------------------------------------------------------
// Routed keys
// ---------------------------------------------------------------------

/// `{key}:row:{id}`.
pub open spec fn spec_data_row_key(key: Seq<char>, id: Seq<char>) -> Seq<char> {
    key + ":row"@ + colon() + id
}

/// `{key}:sort:{index}`.
pub open spec fn spec_data_sort_key(key: Seq<char>, index: usize) -> Seq<char> {
    key + ":sort"@ + colon() + decimal(index as nat)
}

/// `{key}:expand:{id}`.
pub open spec fn spec_data_expand_key(key: Seq<char>, id: Seq<char>) -> Seq<char> {
    key + ":expand"@ + colon() + id
}

/// The routed key of the body row for `id` in the table keyed `key` —
/// `{key}:row:{id}`. `id` is the row's data identity, not its index.
pub fn data_row_key(key: &str, id: &str) -> (r: String)
    ensures
        r@ == spec_data_row_key(key@, id@),
{
    let r = concat3(key, ":row:", id);
    proof {
        reveal_strlit(":row:");
        reveal_strlit(":row");
        assert(r@ =~= spec_data_row_key(key@, id@));
    }
    r
}

/// The routed key of the header cell for column `index` —
/// `{key}:sort:{index}`.
pub fn data_sort_key(key: &str, index: usize) -> (r: String)
    ensures
        r@ == spec_data_sort_key(key@, index),
{
    let mut r = String::new();
    r.append(key);
    r.append(":sort:");
    push_decimal(&mut r, index);
    proof {
        reveal_strlit(":sort:");
        reveal_strlit(":sort");
        assert(r@ =~= spec_data_sort_key(key@, index));
    }
    r
}

/// The routed key of the expander disclosure cell for `id` —
/// `{key}:expand:{id}`.
pub fn data_expand_key(key: &str, id: &str) -> (r: String)
    ensures
        r@ == spec_data_expand_key(key@, id@),
{
    let r = concat3(key, ":expand:", id);
    proof {
        reveal_strlit(":expand:");
        reveal_strlit(":expand");
        assert(r@ =~= spec_data_expand_key(key@, id@));
    }
    r
}

/// The routed key of a table's internal scroll region — `{key}:body`.
pub fn data_body_key(key: &str) -> (r: String)
    ensures
        r@ == key@ + ":body"@,
{
    let r = concat3(key, ":body", "");
    proof {
        reveal_strlit("");
        assert(r@ =~= key@ + ":body"@);
    }
    r
}

// ---------------------------------------------------------------------
// Header cells
// ---------------------------------------------------------------------

/// What a header cell shows after its label.
#[derive(Clone, Copy, Debug, PartialEq, Eq, Structural)]
pub enum SortIndicator {
    /// A plain (non-sortable) column: no indicator box at all.
    Plain,
    /// A sortable column that is not the sorted one: an empty box of
    /// the glyph's size, so activating the header never shifts its
    /// label.
    Gutter,
    /// The sorted column, ascending (an up chevron).
    Ascending,
    /// The sorted column, descending (a down chevron).
    Descending,
}

/// The indicator of header cell `index`.
pub open spec fn spec_sort_indicator(index: usize, sortable: bool, sort: Option<Sort>) -> SortIndicator {
    if !sortable {
        SortIndicator::Plain
    } else {
        match sort {
            Some(s) => if s.column == index {
                if s.direction == SortDirection::Ascending { SortIndicator::Ascending } else { SortIndicator::Descending }
            } else {
                SortIndicator::Gutter
            },
            None => SortIndicator::Gutter,
        }
    }
}

/// The indicator header cell `index` of column `col` draws for the
/// caller's `sort`: only the sorted column carries a glyph, and the
/// widget reads the sort, never writes it.
pub fn sort_indicator(index: usize, col: &DataColumn, sort: Option<Sort>) -> (r: SortIndicator)
    ensures
        r == spec_sort_indicator(index, col.sortable, sort),
{
    if !col.sortable {
        return SortIndicator::Plain;
    }
    match sort {
        Some(s) => if s.column == index {
            match s.direction {
                SortDirection::Ascending => SortIndicator::Ascending,
                SortDirection::Descending => SortIndicator::Descending,
            }
        } else {
            SortIndicator::Gutter
        },
        None => SortIndicator::Gutter,
    }
}

/// The routed key of header cell `index` of the table keyed `key`: a
/// sortable column's header is a sort trigger keyed
/// [`data_sort_key`]; a plain column's header is not keyed.
pub fn header_key(key: &str, index: usize, col: &DataColumn) -> (r: Option<String>)
    ensures
        col.sortable ==> r.is_some() && r.unwrap()@ == spec_data_sort_key(key@, index),
        !col.sortable ==> r.is_none(),
{
    if col.sortable {
        Some(data_sort_key(key, index))
    } else {
        None
    }
}

// ---------------------------------------------------------------------
// Events
// ---------------------------------------------------------------------

/// What a routed event means for a data table, as text.
pub enum DataTableIntent {
    /// A body row, by id.
    Activate(Seq<char>),
    /// An expander, by row id.
    ToggleExpanded(Seq<char>),
    /// A sortable header, by column index.
    Sort(usize),
}

/// How a routed key reads against the table keyed `key`: rows first,
/// then expanders, then headers.
pub open spec fn intent_of_route(route: Seq<char>, key: Seq<char>) -> Option<DataTableIntent> {
    match spec_suffix(route, key + ":row"@) {
        Some(id) => Some(DataTableIntent::Activate(id)),
        None => match spec_suffix(route, key + ":expand"@) {
            Some(id) => Some(DataTableIntent::ToggleExpanded(id)),
            None => match spec_index(route, key + ":sort"@) {
                Some(i) => Some(DataTableIntent::Sort(i)),
                None => None,
            },
        },
    }
}

/// How an event reads against the table keyed `key`.
pub open spec fn spec_classify(event: UiEvent, key: Seq<char>) -> Option<DataTableIntent> {
    match activated_route(event) {
        Some(route) => intent_of_route(route, key),
        None => None,
    }
}

/// What a routed event on a data table meant. The borrowed `&str`s
/// point into the event's routed key.
#[derive(Clone, Copy, Debug, PartialEq, Eq)]
pub enum DataTableAction<'a> {
    /// A body row was clicked or keyboard-activated; carries the row
    /// id.
    Activate(&'a str),
    /// An expander was activated; carries the row id.
    ToggleExpanded(&'a str),
    /// A sortable header cell was activated; carries the column index.
    /// The app sorts; the widget only reports the request.
    Sort(usize),
}

/// The intent an action carries.
pub open spec fn action_intent(a: Option<DataTableAction>) -> Option<DataTableIntent> {
    match a {
        Some(DataTableAction::Activate(id)) => Some(DataTableIntent::Activate(id@)),
        Some(DataTableAction::ToggleExpanded(id)) => Some(DataTableIntent::ToggleExpanded(id@)),
        Some(DataTableAction::Sort(i)) => Some(DataTableIntent::Sort(i)),
        None => None,
    }
}

/// Classify a routed [`UiEvent`] against the table keyed `key`.
/// Returns `None` for events that are not for this table. Only
/// `Click` / `Activate` qualify.
pub fn classify_event<'a>(event: &'a UiEvent, key: &str) -> (r: Option<DataTableAction<'a>>)
    ensures
        action_intent(r) == spec_classify(*event, key@),
{
    match event.kind {
        UiEventKind::Click | UiEventKind::Activate => {},
        _ => return None,
    }
    let route = match event.route() {
        Some(r) => r,
        None => return None,
    };
    let row_prefix = concat3(key, ":row", "");
    let expand_prefix = concat3(key, ":expand", "");
    let sort_prefix = concat3(key, ":sort", "");
    proof {
        reveal_strlit("");
        assert(row_prefix@ =~= key@ + ":row"@);
        assert(expand_prefix@ =~= key@ + ":expand"@);
        assert(sort_prefix@ =~= key@ + ":sort"@);
    }
    if let Some(id) = suffix(route, row_prefix.as_str()) {
        return Some(DataTableAction::Activate(id));
    }
    if let Some(id) = suffix(route, expand_prefix.as_str()) {
        return Some(DataTableAction::ToggleExpanded(id));
    }
    if let Some(i) = index(route, sort_prefix.as_str()) {
        return Some(DataTableAction::Sort(i));
    }
    None
}

/// Whether folding `intent` changes a state whose selection is
/// `selected`: activating the row that is already selected changes
/// nothing; every expander toggle and every sort request does.
pub open spec fn changes_shape(selected: Option<Seq<char>>, intent: DataTableIntent) -> bool {
    match intent {
        DataTableIntent::Activate(id) => selected != Some(id),
        _ => true,
    }
}

/// Fold a routed [`UiEvent`] into a [`DataTableState`]. Returns `true`
/// when the event was for this table and the state changed shape —
/// the app's cue to re-derive anything downstream (a re-sort, a detail
/// fetch). Re-activating the row that is already selected leaves the
/// state as it is and returns `false`.
pub fn apply_event(state: &mut DataTableState, event: &UiEvent, key: &str) -> (r: bool)
    ensures
        r == match spec_classify(*event, key@) {
            Some(intent) => changes_shape(opt_view(old(state).selected), intent),
            None => false,
        },
        !r ==> *final(state) == *old(state),
        r ==> *final(state) != *old(state),
        match spec_classify(*event, key@) {
            None => *final(state) == *old(state),
            Some(DataTableIntent::Activate(id)) => {
                &&& opt_view(final(state).selected) == Some(id)
                &&& final(state).expanded == old(state).expanded
                &&& final(state).sort == old(state).sort
            },
            Some(DataTableIntent::ToggleExpanded(id)) => {
                &&& final(state).expanded.set() == toggled_rows(old(state).expanded.set(), id)
                &&& final(state).selected == old(state).selected
                &&& final(state).sort == old(state).sort
            },
            Some(DataTableIntent::Sort(column)) => {
                &&& final(state).sort == Some(sorted_by(old(state).sort, column))
                &&& final(state).selected == old(state).selected
                &&& final(state).expanded == old(state).expanded
            },
        },
{
    match classify_event(event, key) {
        Some(DataTableAction::Activate(id)) => {
            if state.is_selected(id) {
                return false;
            }
            state.selected = Some(owned(id));
            true
        },
        Some(DataTableAction::ToggleExpanded(id)) => {
            state.toggle_expanded(id);
            proof {
                if old(state).expanded.set().contains(id@) {
                    assert(!state.expanded.set().contains(id@));
                } else {
                    assert(state.expanded.set().contains(id@));
                }
            }
            true
        },
        Some(DataTableAction::Sort(column)) => {
            state.sort_by(column);
            true
        },
        None => false,
    }
}

// ---------------------------------------------------------------------
// Laws
// ---------------------------------------------------------------------

/// Routing law: each routed key the table mints is classified back to
/// the action it was minted for — a row key to that row's activation,
/// an expander key to that row's toggle, a header key to a sort of
/// that column.
pub proof fn lemma_keys_round_trip(event: UiEvent, key: Seq<char>, id: Seq<char>, index: usize)
    requires
        is_activation(event.kind),
    ensures
        route_of(event) == Some(spec_data_row_key(key, id)) ==> spec_classify(event, key)
            == Some(DataTableIntent::Activate(id)),
        route_of(event) == Some(spec_data_expand_key(key, id)) ==> spec_classify(event, key)
            == Some(DataTableIntent::ToggleExpanded(id)),
        route_of(event) == Some(spec_data_sort_key(key, index)) ==> spec_classify(event, key)
            == Some(DataTableIntent::Sort(index)),
{
    reveal_strlit(":row");
    reveal_strlit(":expand");
    reveal_strlit(":sort");
    let row = spec_data_row_key(key, id);
    let exp = spec_data_expand_key(key, id);
    let srt = spec_data_sort_key(key, index);
    lemma_strip_prefix_concat(key + ":row"@ + colon(), id);
    lemma_strip_prefix_concat(key + ":expand"@ + colon(), id);
    lemma_strip_prefix_concat(key + ":sort"@ + colon(), decimal(index as nat));
    lemma_parse_decimal(index);
    let kl = key.len() as int;
    // The three keys part ways at the first letter after `{key}:`.
    assert(row[kl + 1] == 'r');
    assert(exp[kl + 1] == 'e');
    assert(srt[kl + 1] == 's');
    let rp = key + ":row"@ + colon();
    let ep = key + ":expand"@ + colon();
    assert(rp[kl + 1] == 'r' && rp.len() > kl + 1);
    assert(ep[kl + 1] == 'e' && ep.len() > kl + 1);
    if exp.len() >= rp.len() {
        assert(exp.subrange(0, rp.len() as int)[kl + 1] != rp[kl + 1]);
    }
    if srt.len() >= rp.len() {
        assert(srt.subrange(0, rp.len() as int)[kl + 1] != rp[kl + 1]);
    }
    if srt.len() >= ep.len() {
        assert(srt.subrange(0, ep.len() as int)[kl + 1] != ep[kl + 1]);
    }
}

/// Header-click law: the first activation of a column that is not the
/// sorted one sorts it ascending, the next reverses it to descending,
/// and a third goes back to ascending. (That a header activation leaves
/// the selection and the expanded rows alone is part of
/// [`apply_event`]'s contract.)
pub proof fn lemma_sort_laws(sort: Option<Sort>, column: usize)
    ensures
        (sort.is_none() || sort.unwrap().column != column) ==> sorted_by(sort, column)
            == (Sort { column, direction: SortDirection::Ascending }),
        (sort.is_none() || sort.unwrap().column != column) ==> sorted_by(
            Some(sorted_by(sort, column)),
            column,
        ) == (Sort { column, direction: SortDirection::Descending }),
        (sort.is_none() || sort.unwrap().column != column) ==> sorted_by(
            Some(sorted_by(Some(sorted_by(sort, column)), column)),
            column,
        ) == (Sort { column, direction: SortDirection::Ascending }),
{
}

/// The expanded set after toggling `id`.
pub open spec fn toggled_rows(rows: Set<Seq<char>>, id: Seq<char>) -> Set<Seq<char>> {
    if rows.contains(id) { rows.remove(id) } else { rows.insert(id) }
}

/// Expander law: a second activation of the same expander collapses
/// what the first one expanded (and vice versa), leaving the expanded
/// set exactly as it was.
pub proof fn lemma_toggle_expanded_twice(rows: Set<Seq<char>>, id: Seq<char>)
    ensures
        toggled_rows(toggled_rows(rows, id), id) == rows,
{
    if rows.contains(id) {
        assert(rows.remove(id).insert(id) =~= rows);
    } else {
        assert(rows.insert(id).remove(id) =~= rows);
    }
}

/// Indicator law: at most one header carries a glyph — the sorted
/// column's, pointing the sort's way — and every other sortable header
/// keeps an empty gutter.
pub proof fn lemma_single_indicator(i: usize, j: usize, sortable_i: bool, sortable_j: bool, sort: Option<Sort>)
    requires
        i != j,
    ensures
        !(spec_sort_indicator(i, sortable_i, sort) is Ascending || spec_sort_indicator(i, sortable_i, sort) is Descending)
            || !(spec_sort_indicator(j, sortable_j, sort) is Ascending || spec_sort_indicator(j, sortable_j, sort) is Descending),
{
}

} // verus!
