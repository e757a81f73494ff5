//! Controls and the rows they are laid out in.
//!
//! A layout is plain data: it is built afresh from the session state for
//! every redraw, so what is shown never drifts from what the session holds.

use vstd::prelude::*;
use crate::error::Error;
use crate::error::ErrorKind;
use crate::error::ErrorView;
use crate::text::str_eq;

verus! {

/// The most rows one message can carry.
pub const MAX_ROWS: usize = 5;

/// The most controls one row can carry.
pub const MAX_ROW_WIDTH: usize = 5;

/// The most controls one message can carry.
pub const MAX_CONTROLS: usize = 25;

/// One entry of a dropdown.
#[derive(Debug, PartialEq, Eq)]
pub struct SelectOption {
    /// The text shown to the user.
    pub label: String,
    /// The text handed back when the user picks the entry.
    pub value: String,
    /// Whether the entry is shown as chosen.
    pub default_selection: bool,
}

/// A [`SelectOption`] over sequences of characters.
pub struct SelectOptionView {
    pub label: Seq<char>,
    pub value: Seq<char>,
    pub default_selection: bool,
}

impl View for SelectOption {
    type V = SelectOptionView;

    open spec fn view(&self) -> SelectOptionView {
        SelectOptionView {
            label: self.label@,
            value: self.value@,
            default_selection: self.default_selection,
        }
    }
}

/// The entries of a dropdown, each by its view.
pub open spec fn options_view(options: Seq<SelectOption>) -> Seq<SelectOptionView> {
    Seq::new(options.len(), |i: int| options[i]@)
}

/// The two kinds of control.
#[derive(Clone, Copy, Debug, PartialEq, Eq, Structural, Hash)]
pub enum ControlKind {
    Select,
    Button,
}

/// What a control looks like.
#[derive(Debug, PartialEq, Eq)]
pub enum RenderSpec {
    /// A dropdown with its entries.
    Select { options: Vec<SelectOption> },
    /// A button with its caption.
    Button { label: String },
}

/// A [`RenderSpec`] over sequences.
pub enum RenderSpecView {
    Select { options: Seq<SelectOptionView> },
    Button { label: Seq<char> },
}

impl View for RenderSpec {
    type V = RenderSpecView;

    open spec fn view(&self) -> RenderSpecView {
        match self {
            RenderSpec::Select { options } => RenderSpecView::Select {
                options: options_view(options@),
            },
            RenderSpec::Button { label } => RenderSpecView::Button { label: label@ },
        }
    }
}

/// One interactive element of a message. Its identifier is what an
/// interaction event names; its appearance may change from redraw to redraw.
#[derive(Debug, PartialEq, Eq)]
pub struct Control {
    pub identifier: String,
    pub render: RenderSpec,
}

/// A [`Control`] over sequences.
pub struct ControlView {
    pub identifier: Seq<char>,
    pub render: RenderSpecView,
}

impl View for Control {
    type V = ControlView;

    open spec fn view(&self) -> ControlView {
        ControlView { identifier: self.identifier@, render: self.render@ }
    }
}

impl ControlView {
    /// The kind of the control.
    pub open spec fn kind(self) -> ControlKind {
        match self.render {
            RenderSpecView::Select { .. } => ControlKind::Select,
            RenderSpecView::Button { .. } => ControlKind::Button,
        }
    }
}

impl Control {
    /// A dropdown with the given entries.
    pub fn select(identifier: &str, options: Vec<SelectOption>) -> (control: Control)
        ensures
            control@ == (ControlView {
                identifier: identifier@,
                render: RenderSpecView::Select { options: options_view(options@) },
            }),
    {
        Control { identifier: identifier.to_owned(), render: RenderSpec::Select { options } }
    }

    /// A button with the given caption.
    pub fn button(identifier: &str, label: &str) -> (control: Control)
        ensures
            control@ == (ControlView {
                identifier: identifier@,
                render: RenderSpecView::Button { label: label@ },
            }),
    {
        Control {
            identifier: identifier.to_owned(),
            render: RenderSpec::Button { label: label.to_owned() },
        }
    }

    /// The kind of the control.
    pub fn kind(&self) -> (kind: ControlKind)
        ensures
            kind == self@.kind(),
    {
        match &self.render {
            RenderSpec::Select { .. } => ControlKind::Select,
            RenderSpec::Button { .. } => ControlKind::Button,
        }
    }
}

/// Where a control stands in a layout.
#[derive(Clone, Copy, Debug, PartialEq, Eq, Structural, Hash)]
pub struct Position {
    pub row: usize,
    pub column: usize,
}

/// The controls of one row, each by its view.
pub open spec fn row_view(row: Seq<Control>) -> Seq<ControlView> {
    Seq::new(row.len(), |i: int| row[i]@)
}

/// The rows of a layout as sequences of control views.
pub type Rows = Seq<Seq<ControlView>>;

/// Whether the control at `(row, column)` exists and carries `identifier`.
pub open spec fn stands_at(rows: Rows, identifier: Seq<char>, row: int, column: int) -> bool {
    &&& 0 <= row < rows.len()
    &&& 0 <= column < rows[row].len()
    &&& rows[row][column].identifier == identifier
}

/// Whether some control of the layout carries `identifier`.
pub open spec fn has_control(rows: Rows, identifier: Seq<char>) -> bool {
    exists|row: int, column: int| stands_at(rows, identifier, row, column)
}

/// Whether the rows fit what one message can carry.
pub open spec fn within_capacity(rows: Rows) -> bool {
    &&& rows.len() <= MAX_ROWS
    &&& forall|row: int| 0 <= row < rows.len() ==> (#[trigger] rows[row]).len() <= MAX_ROW_WIDTH
}

/// Whether no identifier is carried by two controls.
pub open spec fn identifiers_distinct(rows: Rows) -> bool {
    forall|r1: int, c1: int, r2: int, c2: int|
        #![trigger rows[r1][c1], rows[r2][c2]]
        0 <= r1 < rows.len() && 0 <= c1 < rows[r1].len() && 0 <= r2 < rows.len() && 0 <= c2
            < rows[r2].len() && rows[r1][c1].identifier == rows[r2][c2].identifier ==> r1 == r2
            && c1 == c2
}

/// What every layout satisfies: it fits one message, and an identifier
/// names at most one control.
pub open spec fn well_formed(rows: Rows) -> bool {
    within_capacity(rows) && identifiers_distinct(rows)
}

/// The number of controls in all rows together.
pub open spec fn total_controls(rows: Rows) -> nat
    decreases rows.len(),
{
    if rows.len() == 0 {
        0
    } else {
        total_controls(rows.drop_last()) + rows.last().len()
    }
}

/// Rows that fit a message hold no more controls than a message can carry.
pub proof fn lemma_total_within_maximum(rows: Rows)
    requires
        within_capacity(rows),
    ensures
        total_controls(rows) <= rows.len() * MAX_ROW_WIDTH,
        total_controls(rows) <= MAX_CONTROLS,
    decreases rows.len(),
{
    if rows.len() > 0 {
        let front = rows.drop_last();
        assert forall|row: int| 0 <= row < front.len() implies (#[trigger] front[row]).len()
            <= MAX_ROW_WIDTH by {
            assert(front[row] == rows[row]);
        }
        lemma_total_within_maximum(front);
        assert(rows.last() == rows[rows.len() - 1]);
    }
}

/// The position of the control that carries `identifier`, if there is one.
pub open spec fn position_of(rows: Rows, identifier: Seq<char>) -> Option<Position> {
    if has_control(rows, identifier) {
        Some(
            choose|p: Position| stands_at(rows, identifier, p.row as int, p.column as int),
        )
    } else {
        None
    }
}

/// Where identifiers are distinct, a control that carries `identifier` is the
/// one that `identifier` leads to.
pub proof fn lemma_position_is_unique(rows: Rows, identifier: Seq<char>, at: Position)
    requires
        identifiers_distinct(rows),
        stands_at(rows, identifier, at.row as int, at.column as int),
    ensures
        position_of(rows, identifier) == Some(at),
{
    let found = choose|p: Position| stands_at(rows, identifier, p.row as int, p.column as int);
    assert(rows[found.row as int][found.column as int].identifier == rows[at.row as int][at.column
        as int].identifier);
}

/// The failure with which a row is turned down.
pub open spec fn refusal(rows: Rows) -> ErrorView {
    if !within_capacity(rows) {
        ErrorView { kind: ErrorKind::Internal, message: "layout capacity exceeded"@ }
    } else {
        ErrorView { kind: ErrorKind::Internal, message: "duplicate control identifier"@ }
    }
}

/// The rows of controls of one message.
#[derive(Debug, PartialEq, Eq)]
pub struct Layout {
    rows: Vec<Vec<Control>>,
}

impl View for Layout {
    type V = Rows;

    closed spec fn view(&self) -> Rows {
        Seq::new(self.rows@.len(), |r: int| row_view(self.rows@[r]@))
    }
}

impl Layout {
    #[verifier::type_invariant]
    spec fn inv(&self) -> bool {
        well_formed(self@)
    }

    /// A layout without rows.
    pub fn new() -> (layout: Layout)
        ensures
            layout@ == Seq::<Seq<ControlView>>::empty(),
            well_formed(layout@),
    {
        let layout = Layout { rows: Vec::new() };
        assert(layout@ =~= Seq::<Seq<ControlView>>::empty());
        layout
    }

    /// The number of rows.
    pub fn len(&self) -> (n: usize)
        ensures
            n == self@.len(),
            well_formed(self@),
    {
        proof {
            use_type_invariant(self);
        }
        self.rows.len()
    }

    /// The number of controls in all rows together.
    pub fn total(&self) -> (n: usize)
        ensures
            n == total_controls(self@),
            n <= MAX_CONTROLS,
    {
        proof {
            use_type_invariant(self);
            lemma_total_within_maximum(self@);
        }
        let mut n: usize = 0;
        let mut r: usize = 0;
        while r < self.rows.len()
            invariant
                r <= self.rows.len(),
                within_capacity(self@),
                self@.len() == self.rows.len(),
                n == total_controls(self@.take(r as int)),
                n <= r * MAX_ROW_WIDTH,
            decreases self.rows.len() - r,
        {
            proof {
                let upto = self@.take(r + 1);
                assert(upto.drop_last() =~= self@.take(r as int));
                assert(upto.last() == self@[r as int]);
                assert(self@[r as int].len() == self.rows@[r as int]@.len());
            }
            n += self.rows[r].len();
            r += 1;
        }
        assert(self@.take(self.rows.len() as int) =~= self@);
        n
    }

    /// The controls of one row.
    pub fn row(&self, row: usize) -> (controls: Option<&Vec<Control>>)
        ensures
            row < self@.len() ==> controls.is_some() && row_view(controls.unwrap()@)
                == self@[row as int],
            row >= self@.len() ==> controls.is_none(),
    {
        if row < self.rows.len() {
            Some(&self.rows[row])
        } else {
            None
        }
    }

    /// The control at a position.
    pub fn control(&self, at: Position) -> (control: Option<&Control>)
        ensures
            match control {
                Some(c) => at.row < self@.len() && at.column < self@[at.row as int].len() && c@
                    == self@[at.row as int][at.column as int],
                None => at.row >= self@.len() || at.column >= self@[at.row as int].len(),
            },
    {
        if at.row < self.rows.len() {
            let row = &self.rows[at.row];
            if at.column < row.len() {
                return Some(&row[at.column]);
            }
        }
        None
    }

    /// The position of the control that carries `identifier`.
    pub fn find(&self, identifier: &str) -> (found: Option<Position>)
        ensures
            found == position_of(self@, identifier@),
            found matches Some(p) ==> stands_at(self@, identifier@, p.row as int, p.column as int),
            found is None ==> !has_control(self@, identifier@),
    {
        proof {
            use_type_invariant(self);
        }
        let mut r: usize = 0;
        while r < self.rows.len()
            invariant
                r <= self.rows.len(),
                well_formed(self@),
                forall|i: int, j: int| 0 <= i < r ==> !stands_at(self@, identifier@, i, j),
            decreases self.rows.len() - r,
        {
            let row = &self.rows[r];
            let mut c: usize = 0;
            while c < row.len()
                invariant
                    r < self.rows.len(),
                    row == &self.rows[r as int],
                    c <= row.len(),
                    well_formed(self@),
                    forall|i: int, j: int| 0 <= i < r ==> !stands_at(self@, identifier@, i, j),
                    forall|j: int| 0 <= j < c ==> !stands_at(self@, identifier@, r as int, j),
                decreases row.len() - c,
            {
                if str_eq(row[c].identifier.as_str(), identifier) {
                    let p = Position { row: r, column: c };
                    proof {
                        lemma_position_is_unique(self@, identifier@, p);
                    }
                    return Some(p);
                }
                c += 1;
            }
            r += 1;
        }
        None
    }

    /// Appends a row. The row is turned down when the layout would then hold
    /// more than a message can carry, or when an identifier would name two
    /// controls.
    pub fn add_row(self, controls: Vec<Control>) -> (result: Result<Layout, Error>)
        ensures
            match result {
                Ok(layout) => well_formed(self@.push(row_view(controls@))) && layout@
                    == self@.push(row_view(controls@)),
                Err(e) => !well_formed(self@.push(row_view(controls@))) && e@ == refusal(
                    self@.push(row_view(controls@)),
                ),
            },
    {
        proof {
            use_type_invariant(&self);
        }
        let ghost before = self@;
        let ghost added = row_view(controls@);
        let ghost after = before.push(added);
        if self.rows.len() >= MAX_ROWS || controls.len() > MAX_ROW_WIDTH {
            proof {
                if controls.len() > MAX_ROW_WIDTH {
                    assert(after[before.len() as int].len() > MAX_ROW_WIDTH);
                }
            }
            return Err(Error::internal("layout capacity exceeded"));
        }
        assert(within_capacity(after)) by {
            assert forall|row: int| 0 <= row < after.len() implies (#[trigger] after[row]).len()
                <= MAX_ROW_WIDTH by {
                if row < before.len() {
                    assert(after[row] == before[row]);
                }
            }
        }
        let mut i: usize = 0;
        while i < controls.len()
            invariant
                i <= controls.len(),
                before == self@,
                added == row_view(controls@),
                after == before.push(added),
                well_formed(before),
                within_capacity(after),
                forall|k: int| 0 <= k < i ==> !has_control(before, #[trigger] added[k].identifier),
                forall|k: int, l: int|
                    0 <= k < i && 0 <= l < i && #[trigger] added[k].identifier
                        == #[trigger] added[l].identifier ==> k == l,
            decreases controls.len() - i,
        {
            let id = controls[i].identifier.as_str();
            assert(id@ == added[i as int].identifier);
            if self.find(id).is_some() {
                proof {
                    let p = choose|p: Position|
                        stands_at(before, id@, p.row as int, p.column as int);
                    assert(after[p.row as int] == before[p.row as int]);
                    assert(after[before.len() as int] == added);
                    assert(after[p.row as int][p.column as int].identifier == after[before.len()
                        as int][i as int].identifier);
                    assert(!identifiers_distinct(after));
                }
                return Err(Error::internal("duplicate control identifier"));
            }
            let mut j: usize = 0;
            while j < i
                invariant
                    j <= i,
                    i < controls.len(),
                    before == self@,
                    added == row_view(controls@),
                    id@ == added[i as int].identifier,
                    after == before.push(added),
                    within_capacity(after),
                    forall|l: int| 0 <= l < j ==> #[trigger] added[l].identifier != id@,
                decreases i - j,
            {
                if str_eq(controls[j].identifier.as_str(), id) {
                    proof {
                        assert(added[j as int].identifier == id@);
                        assert(after[before.len() as int] == added);
                        assert(after[before.len() as int][j as int].identifier == after[before.len()
                            as int][i as int].identifier);
                        assert(!identifiers_distinct(after));
                    }
                    return Err(Error::internal("duplicate control identifier"));
                }
                j += 1;
            }
            i += 1;
        }
        proof {
            assert forall|r1: int, c1: int, r2: int, c2: int|
                0 <= r1 < after.len() && 0 <= c1 < after[r1].len() && 0 <= r2 < after.len() && 0
                    <= c2 < after[r2].len() && after[r1][c1].identifier
                    == after[r2][c2].identifier implies r1 == r2 && c1 == c2 by {
                if r1 < before.len() {
                    assert(after[r1] == before[r1]);
                } else {
                    assert(after[r1] == added);
                }
                if r2 < before.len() {
                    assert(after[r2] == before[r2]);
                } else {
                    assert(after[r2] == added);
                }
                if r1 < before.len() && r2 < before.len() {
                    assert(before[r1][c1].identifier == before[r2][c2].identifier);
                } else if r1 < before.len() {
                    assert(stands_at(before, added[c2].identifier, r1, c1));
                } else if r2 < before.len() {
                    assert(stands_at(before, added[c1].identifier, r2, c2));
                } else {
                }
            }
        }
        let mut rows = self.rows;
        rows.push(controls);
        assert(Seq::new(rows@.len(), |r: int| row_view(rows@[r]@)) =~= after);
        Ok(Layout { rows })
    }
}

} // verus!
