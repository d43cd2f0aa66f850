//! Table column geometry — the positional column spec that the header
//! row and every body row of a table are stamped from, and the rule
//! that stamps column `i` onto the cell at position `i`.

use vstd::prelude::*;
use vstd::std_specs::cmp::PartialEqSpecImpl;

verus! {

/// Horizontal alignment of a cell's content.
#[derive(Clone, Copy, Debug, PartialEq, Eq, Structural, Default)]
pub enum TextAlign {
    /// Leading edge (the default).
    #[default]
    Start,
    /// Centered.
    Center,
    /// Trailing edge — the numeric column treatment.
    End,
}

/// How wide a column is. Lengths and weights are logical-pixel /
/// weight values carried as the bit pattern of the `f32` the layout
/// engine consumes (`f32::to_bits`), so a column spec is copied
/// exactly, never rounded; two widths compare as the `f32`s they hold
/// (see [`float_bits_eq`]).
#[derive(Clone, Copy, Debug)]
pub enum Size {
    /// A share of the leftover width, by weight.
    Fill(u32),
    /// A fixed width in logical pixels.
    Fixed(u32),
    /// `n` tabular digit slots wide.
    Ch(u32),
    /// As wide as the content.
    Hug,
}

/// The bits of an `f32` without its sign.
pub open spec fn magnitude(bits: u32) -> u32 {
    bits & 0x7fff_ffffu32
}

/// `f32` equality on bit patterns: NaN equals nothing, `0.0` equals
/// `-0.0`, and any other two values are equal when their bits are.
pub open spec fn float_bits_eq(a: u32, b: u32) -> bool {
    &&& magnitude(a) <= 0x7f80_0000u32
    &&& magnitude(b) <= 0x7f80_0000u32
    &&& (a == b || (magnitude(a) == 0 && magnitude(b) == 0))
}

/// `==` on widths, as the `f32`s they carry compare.
pub open spec fn size_eq(a: Size, b: Size) -> bool {
    match (a, b) {
        (Size::Fill(x), Size::Fill(y)) => float_bits_eq(x, y),
        (Size::Fixed(x), Size::Fixed(y)) => float_bits_eq(x, y),
        (Size::Ch(x), Size::Ch(y)) => float_bits_eq(x, y),
        (Size::Hug, Size::Hug) => true,
        _ => false,
    }
}

fn bits_eq(a: u32, b: u32) -> (r: bool)
    ensures
        r == float_bits_eq(a, b),
{
    let ma = a & 0x7fff_ffffu32;
    let mb = b & 0x7fff_ffffu32;
    ma <= 0x7f80_0000u32 && mb <= 0x7f80_0000u32 && (a == b || (ma == 0 && mb == 0))
}

impl PartialEq for Size {
    fn eq(&self, other: &Self) -> (r: bool) {
        match (self, other) {
            (Size::Fill(x), Size::Fill(y)) => bits_eq(*x, *y),
            (Size::Fixed(x), Size::Fixed(y)) => bits_eq(*x, *y),
            (Size::Ch(x), Size::Ch(y)) => bits_eq(*x, *y),
            (Size::Hug, Size::Hug) => true,
            _ => false,
        }
    }
}

impl PartialEqSpecImpl for Size {
    open spec fn obeys_eq_spec() -> bool {
        true
    }

    open spec fn eq_spec(&self, other: &Self) -> bool {
        size_eq(*self, *other)
    }
}

/// Geometry spec for one table column: how wide it is and how its
/// content aligns horizontally. One array of these is the whole column
/// model — the header row and the body rows stamp entry `i` onto the
/// cell at position `i`.
#[derive(Clone, Copy, Debug, PartialEq)]
pub struct TableColumn {
    /// The column's width, applied to the header cell and every body
    /// cell at this position.
    pub width: Size,
    /// Horizontal alignment of the cell's content within that width.
    pub align: TextAlign,
}

impl TableColumn {
    /// Align this column's content to the leading edge (the default).
    pub fn align_start(self) -> (r: Self)
        ensures
            r == (TableColumn { align: TextAlign::Start, ..self }),
    {
        TableColumn { width: self.width, align: TextAlign::Start }
    }

    /// Center this column's content.
    pub fn align_center(self) -> (r: Self)
        ensures
            r == (TableColumn { align: TextAlign::Center, ..self }),
    {
        TableColumn { width: self.width, align: TextAlign::Center }
    }

    /// Align this column's content to the trailing edge — the numeric
    /// column treatment.
    pub fn align_end(self) -> (r: Self)
        ensures
            r == (TableColumn { align: TextAlign::End, ..self }),
    {
        TableColumn { width: self.width, align: TextAlign::End }
    }
}

/// The shape of a cell's content, as far as alignment is concerned:
/// text aligns within its own box, a row container distributes along
/// its main axis, a column container aligns on its cross axis, and an
/// overlay has no horizontal alignment of its own.
#[derive(Clone, Copy, Debug, PartialEq, Eq, Structural)]
pub enum CellShape {
    /// A text, heading or inline-run leaf.
    Text,
    /// A row container.
    Row,
    /// A column container.
    Column,
    /// An overlay container (or any content that just stretches).
    Overlay,
}

/// Where a column's alignment lands on a cell.
#[derive(Clone, Copy, Debug, PartialEq, Eq, Structural)]
pub enum CellAlignment {
    /// Nothing to set: start alignment is the cell default, and an
    /// overlay has no horizontal alignment.
    Unchanged,
    /// The cell's text alignment.
    Text(TextAlign),
    /// The row container's main-axis justification.
    Justify(TextAlign),
    /// The column container's cross-axis alignment.
    Cross(TextAlign),
}

/// What stamping a column onto a cell sets.
#[derive(Clone, Copy, Debug, PartialEq)]
pub struct ColumnStamp {
    /// The width, always the column's.
    pub width: Size,
    /// The alignment, routed by the cell's shape.
    pub alignment: CellAlignment,
}

/// The alignment rule: start is the default and sets nothing; otherwise
/// text takes it as text alignment, a row as justification, a column as
/// cross-axis alignment, and an overlay ignores it.
pub open spec fn spec_alignment(shape: CellShape, align: TextAlign) -> CellAlignment {
    if align == TextAlign::Start {
        CellAlignment::Unchanged
    } else {
        match shape {
            CellShape::Text => CellAlignment::Text(align),
            CellShape::Row => CellAlignment::Justify(align),
            CellShape::Column => CellAlignment::Cross(align),
            CellShape::Overlay => CellAlignment::Unchanged,
        }
    }
}

/// What stamping `col` onto a cell of shape `shape` sets; `None` (no
/// column at this position) leaves the cell's stock geometry.
pub open spec fn spec_stamp(shape: CellShape, col: Option<TableColumn>) -> Option<ColumnStamp> {
    match col {
        Some(c) => Some(ColumnStamp { width: c.width, alignment: spec_alignment(shape, c.align) }),
        None => None,
    }
}

/// Stamp one column's geometry onto the cell that sits in it.
pub fn stamp_column(shape: CellShape, col: Option<&TableColumn>) -> (r: Option<ColumnStamp>)
    ensures
        r == spec_stamp(shape, match col { Some(c) => Some(*c), None => None }),
{
    let c = match col {
        Some(c) => *c,
        None => return None,
    };
    let alignment = match c.align {
        TextAlign::Start => CellAlignment::Unchanged,
        _ => match shape {
            CellShape::Text => CellAlignment::Text(c.align),
            CellShape::Row => CellAlignment::Justify(c.align),
            CellShape::Column => CellAlignment::Cross(c.align),
            CellShape::Overlay => CellAlignment::Unchanged,
        },
    };
    Some(ColumnStamp { width: c.width, alignment })
}

/// The column stamps of a row of cells: cell `i` is stamped from
/// `cols[i]`. Count mismatch is tolerated, not asserted — a cell past
/// the end of `cols` keeps its stock geometry, and a column past the
/// end of the cells is simply unused.
pub fn row_stamps(shapes: &[CellShape], cols: &[TableColumn]) -> (r: Vec<Option<ColumnStamp>>)
    ensures
        r@.len() == shapes@.len(),
        forall|i: int| 0 <= i < shapes@.len() ==> #[trigger] r@[i] == spec_stamp(
            shapes@[i],
            if i < cols@.len() { Some(cols@[i]) } else { None },
        ),
{
    let n = shapes.len();
    let m = cols.len();
    let mut r: Vec<Option<ColumnStamp>> = Vec::new();
    let mut i: usize = 0;
    while i < n
        invariant
            i <= n,
            n == shapes@.len(),
            m == cols@.len(),
            r@.len() == i,
            forall|k: int| 0 <= k < i ==> #[trigger] r@[k] == spec_stamp(
                shapes@[k],
                if k < cols@.len() { Some(cols@[k]) } else { None },
            ),
        decreases n - i,
    {
        let col = if i < m { Some(&cols[i]) } else { None };
        r.push(stamp_column(shapes[i], col));
        i = i + 1;
    }
    r
}

/// One column spec for header and body: the header row and any body
/// row stamp the same width and the same alignment value at every
/// position the column spec covers, whatever their cells hold.
pub proof fn lemma_header_and_body_share_geometry(
    header: CellShape,
    body: CellShape,
    col: TableColumn,
)
    ensures
        spec_stamp(header, Some(col)).unwrap().width == spec_stamp(body, Some(col)).unwrap().width,
        spec_stamp(header, Some(col)).unwrap().width == col.width,
{
}

/// Stamping law: a stamp always carries the column's own width, and a
/// non-start alignment reaches a text cell as its text alignment, a row
/// as its justification and a column as its cross-axis alignment —
/// with the column's own alignment value in each case. Start alignment
/// and overlays set nothing.
pub proof fn lemma_stamp_carries_the_column(shape: CellShape, col: TableColumn)
    ensures
        spec_stamp(shape, Some(col)) is Some,
        spec_stamp(shape, Some(col)).unwrap().width == col.width,
        col.align != TextAlign::Start && shape == CellShape::Text ==> spec_stamp(shape, Some(col)).unwrap().alignment
            == CellAlignment::Text(col.align),
        col.align != TextAlign::Start && shape == CellShape::Row ==> spec_stamp(shape, Some(col)).unwrap().alignment
            == CellAlignment::Justify(col.align),
        col.align != TextAlign::Start && shape == CellShape::Column ==> spec_stamp(shape, Some(col)).unwrap().alignment
            == CellAlignment::Cross(col.align),
        col.align == TextAlign::Start || shape == CellShape::Overlay ==> spec_stamp(shape, Some(col)).unwrap().alignment
            == CellAlignment::Unchanged,
        spec_stamp(shape, None).is_none(),
{
}

/// Distinctness law: on a text, row or column cell, two columns whose
/// alignments differ stamp different alignments — no alignment is
/// rendered as another.
pub proof fn lemma_distinct_alignments_stay_distinct(shape: CellShape, a: TableColumn, b: TableColumn)
    requires
        shape != CellShape::Overlay,
        a.align != b.align,
    ensures
        spec_stamp(shape, Some(a)).unwrap().alignment != spec_stamp(shape, Some(b)).unwrap().alignment,
{
}

} // verus!
