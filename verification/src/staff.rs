//! Layout of one measure on a five-line staff, drawn into an SVG document.
//!
//! The contracts speak of a document through `drawn`: the elements that have
//! been appended to it, in order, each described by the attributes it was
//! given.

use svg::node::element::{Ellipse, Line};
use svg::{Document, Node};
use vstd::prelude::*;

verus! {

/// Vertical distance between two staff lines.
pub const LINE_SPACING: i64 = 20;

/// Height of the topmost staff line.
pub const STAFF_TOP: i64 = 50;

/// Number of staff lines.
pub const STAFF_LINES: i64 = 5;

/// Horizontal extent of the staff lines.
pub const STAFF_WIDTH: i64 = 500;

/// Where the first chord starts.
pub const START_X: i64 = 10;

/// The staff position that is drawn at height 0.
pub const TOP_POSITION: i64 = 13;

/// Height of one staff step.
pub const STEP_HEIGHT: i64 = 10;

/// Horizontal radius of a notehead.
pub const HEAD_RX: i64 = 10;

/// Vertical radius of a notehead.
pub const HEAD_RY: i64 = 5;

/// Distance of a stem on the right from the left edge of the notehead.
pub const STEM_OFFSET: i64 = 20;

/// How far a stem reaches beyond the outer note of its chord.
pub const STEM_LENGTH: i64 = 40;

/// A chord whose lowest position is above this value less its highest
/// position has its stem on the left.
pub const STEM_PIVOT: i64 = 10;

/// Room that a whole note takes; a half takes a half of it, a quarter a
/// quarter.
pub const WHOLE_WIDTH: i64 = 200;

/// Colour of the staff lines.
pub const STAFF_STROKE: &'static str = "#000";

/// Colour of noteheads and stems.
pub const INK: &'static str = "black";

/// The fill of an outlined shape.
pub const NO_FILL: &'static str = "none";

#[verifier::external_type_specification]
#[verifier::external_body]
pub struct ExDocument(svg::node::element::SVG);

/// A child of a document: a line or an ellipse, with the attributes that were
/// set on it. A number stands for the attribute that holds its decimal text;
/// a paint that was not set is `None`.
pub enum Element {
    Line { x1: int, y1: int, x2: int, y2: int, fill: Option<Seq<char>>, stroke: Option<Seq<char>> },
    Ellipse { cx: int, cy: int, rx: int, ry: int, fill: Option<Seq<char>>, stroke: Option<Seq<char>> },
}

/// The children of a document, in the order in which they were appended.
/// Nothing is said of how a child other than a line or an ellipse is
/// described.
pub uninterp spec fn drawn(doc: Document) -> Seq<Element>;

/// `Line::new`, `Line::set` and `Node::append` of svg: a new `line` element
/// with the four coordinates and the stroke as its attributes becomes the last
/// child of the document.
#[verifier::external_body]
fn append_line(doc: &mut Document, x1: i64, y1: i64, x2: i64, y2: i64, stroke: &str)
    ensures
        drawn(*final(doc)) == drawn(*old(doc)).push(
            (Element::Line {
                x1: x1 as int,
                y1: y1 as int,
                x2: x2 as int,
                y2: y2 as int,
                fill: None,
                stroke: Some(stroke@),
            }),
        ),
{
    doc.append(
        Line::new().set("x1", x1).set("y1", y1).set("x2", x2).set("y2", y2).set("stroke", stroke),
    );
}

/// `Line::new`, `Line::set` and `Node::append` of svg: as `append_line`, with
/// a fill among the attributes.
#[verifier::external_body]
fn append_filled_line(
    doc: &mut Document,
    x1: i64,
    y1: i64,
    x2: i64,
    y2: i64,
    fill: &str,
    stroke: &str,
)
    ensures
        drawn(*final(doc)) == drawn(*old(doc)).push(
            (Element::Line {
                x1: x1 as int,
                y1: y1 as int,
                x2: x2 as int,
                y2: y2 as int,
                fill: Some(fill@),
                stroke: Some(stroke@),
            }),
        ),
{
    doc.append(
        Line::new().set("fill", fill).set("stroke", stroke).set("x1", x1).set("y1", y1).set(
            "x2",
            x2,
        ).set("y2", y2),
    );
}

/// `Ellipse::new`, `Ellipse::set` and `Node::append` of svg: a new `ellipse`
/// element with centre, radii and fill as its attributes becomes the last
/// child of the document.
#[verifier::external_body]
fn append_ellipse(doc: &mut Document, cx: i64, cy: i64, rx: i64, ry: i64, fill: &str)
    ensures
        drawn(*final(doc)) == drawn(*old(doc)).push(
            (Element::Ellipse {
                cx: cx as int,
                cy: cy as int,
                rx: rx as int,
                ry: ry as int,
                fill: Some(fill@),
                stroke: None,
            }),
        ),
{
    doc.append(
        Ellipse::new().set("fill", fill).set("cx", cx).set("cy", cy).set("rx", rx).set("ry", ry),
    );
}

/// `Ellipse::new`, `Ellipse::set` and `Node::append` of svg: as
/// `append_ellipse`, with a stroke among the attributes.
#[verifier::external_body]
fn append_stroked_ellipse(
    doc: &mut Document,
    cx: i64,
    cy: i64,
    rx: i64,
    ry: i64,
    fill: &str,
    stroke: &str,
)
    ensures
        drawn(*final(doc)) == drawn(*old(doc)).push(
            (Element::Ellipse {
                cx: cx as int,
                cy: cy as int,
                rx: rx as int,
                ry: ry as int,
                fill: Some(fill@),
                stroke: Some(stroke@),
            }),
        ),
{
    doc.append(
        Ellipse::new().set("fill", fill).set("stroke", stroke).set("cx", cx).set("cy", cy).set(
            "rx",
            rx,
        ).set("ry", ry),
    );
}

/// How long a chord sounds.
#[derive(Clone, Copy, Debug, PartialEq, Eq, Structural)]
pub enum Duration {
    Quarter,
    Half,
    Whole,
}

impl Duration {
    /// Room that a chord of this duration takes on the staff.
    pub open spec fn width(self) -> int {
        match self {
            Duration::Whole => WHOLE_WIDTH as int,
            Duration::Half => WHOLE_WIDTH / 2,
            Duration::Quarter => WHOLE_WIDTH / 4,
        }
    }

    /// Whether the notehead is filled: only a quarter's is.
    pub open spec fn filled(self) -> bool {
        self == Duration::Quarter
    }

    /// Whether the chord has a stem: all but a whole have.
    pub open spec fn stemmed(self) -> bool {
        self != Duration::Whole
    }

    /// Room that a chord of this duration takes on the staff.
    pub fn advance(self) -> (r: i64)
        ensures
            r == self.width(),
            r == 200 || r == 100 || r == 50,
    {
        match self {
            Duration::Whole => WHOLE_WIDTH,
            Duration::Half => WHOLE_WIDTH / 2,
            Duration::Quarter => WHOLE_WIDTH / 4,
        }
    }

    /// Whether the notehead is filled.
    pub fn is_filled(self) -> (r: bool)
        ensures
            r == self.filled(),
    {
        match self {
            Duration::Quarter => true,
            _ => false,
        }
    }

    /// Whether the chord has a stem.
    pub fn has_stem(self) -> (r: bool)
        ensures
            r == self.stemmed(),
    {
        match self {
            Duration::Whole => false,
            _ => true,
        }
    }
}

/// Height at which a staff position is drawn; higher positions are drawn
/// further up, at smaller heights.
pub open spec fn height(position: int) -> int {
    (TOP_POSITION - position) * STEP_HEIGHT
}

/// Whether the height of a position, and the end of a stem that starts there,
/// fit the machine's integers.
pub open spec fn position_fits(position: i64) -> bool {
    i64::MIN + STEM_LENGTH <= height(position as int) <= i64::MAX - STEM_LENGTH
}

/// A chord's positions: at least one, each of them fitting.
pub open spec fn positions_fit(positions: Seq<i64>) -> bool {
    &&& positions.len() > 0
    &&& forall|i: int| 0 <= i < positions.len() ==> position_fits(#[trigger] positions[i])
}

/// The lowest of the positions.
pub open spec fn lowest(positions: Seq<i64>) -> int
    decreases positions.len(),
{
    if positions.len() == 0 {
        0
    } else if positions.len() == 1 {
        positions[0] as int
    } else {
        let rest = lowest(positions.drop_last());
        if positions.last() < rest {
            positions.last() as int
        } else {
            rest
        }
    }
}

/// The highest of the positions.
pub open spec fn highest(positions: Seq<i64>) -> int
    decreases positions.len(),
{
    if positions.len() == 0 {
        0
    } else if positions.len() == 1 {
        positions[0] as int
    } else {
        let rest = highest(positions.drop_last());
        if positions.last() > rest {
            positions.last() as int
        } else {
            rest
        }
    }
}

/// Whether the stem of a chord with these positions stands on the left.
pub open spec fn stem_left(positions: Seq<i64>) -> bool {
    lowest(positions) > STEM_PIVOT - highest(positions)
}

/// The stem of a chord at `x`. On the left it runs from a stem's length below
/// the lowest note to the highest note, on the right from the lowest note to
/// a stem's length above the highest.
pub open spec fn stem(positions: Seq<i64>, x: int) -> Element {
    let low = lowest(positions);
    let high = highest(positions);
    if stem_left(positions) {
        Element::Line {
            x1: x,
            y1: height(low) + STEM_LENGTH,
            x2: x,
            y2: height(high),
            fill: Some(NO_FILL@),
            stroke: Some(INK@),
        }
    } else {
        Element::Line {
            x1: x + STEM_OFFSET,
            y1: height(low),
            x2: x + STEM_OFFSET,
            y2: height(high) - STEM_LENGTH,
            fill: Some(NO_FILL@),
            stroke: Some(INK@),
        }
    }
}

/// The notehead of one position of a chord at `x`.
pub open spec fn notehead(position: i64, duration: Duration, x: int) -> Element {
    Element::Ellipse {
        cx: x + HEAD_RX,
        cy: height(position as int),
        rx: HEAD_RX as int,
        ry: HEAD_RY as int,
        fill: if duration.filled() {
            Some(INK@)
        } else {
            Some(NO_FILL@)
        },
        stroke: if duration.filled() {
            None
        } else {
            Some(INK@)
        },
    }
}

/// The noteheads of a chord at `x`, one for each position, in their order.
pub open spec fn noteheads(positions: Seq<i64>, duration: Duration, x: int) -> Seq<Element> {
    Seq::new(positions.len(), |i: int| notehead(positions[i], duration, x))
}

/// All that a chord at `x` draws: its noteheads, then its stem if it has one.
pub open spec fn chord_elements(positions: Seq<i64>, duration: Duration, x: int) -> Seq<Element> {
    if duration.stemmed() {
        noteheads(positions, duration, x).push(stem(positions, x))
    } else {
        noteheads(positions, duration, x)
    }
}

/// The five staff lines, from the top down.
pub open spec fn staff_lines() -> Seq<Element> {
    Seq::new(
        STAFF_LINES as nat,
        |i: int|
            Element::Line {
                x1: 0,
                y1: i * LINE_SPACING + STAFF_TOP,
                x2: STAFF_WIDTH as int,
                y2: i * LINE_SPACING + STAFF_TOP,
                fill: None,
                stroke: Some(STAFF_STROKE@),
            },
    )
}

/// The lowest position that fits.
pub const LOWEST_POSITION: i64 = -922337203685477563;

/// The highest position that fits.
pub const HIGHEST_POSITION: i64 = 922337203685477589;

/// Tells whether a position fits.
pub fn position_in_range(position: i64) -> (r: bool)
    ensures
        r == position_fits(position),
{
    LOWEST_POSITION <= position && position <= HIGHEST_POSITION
}

/// Height at which a staff position is drawn.
pub fn y(note: i64) -> (r: i64)
    requires
        i64::MIN <= height(note as int) <= i64::MAX,
    ensures
        r == height(note as int),
{
    (TOP_POSITION - note) * STEP_HEIGHT
}

/// Notes that sound together: staff positions, and one duration for all.
pub struct Chord {
    notes: Vec<i64>,
    duration: Duration,
}

impl Chord {
    /// The staff positions of the chord, in the order in which they were given.
    pub closed spec fn positions(self) -> Seq<i64> {
        self.notes@
    }

    /// How long the chord sounds.
    pub closed spec fn length(self) -> Duration {
        self.duration
    }

    /// The chord has a position, and each position fits.
    pub open spec fn wf(self) -> bool {
        positions_fit(self.positions())
    }

    /// All that the chord draws when it stands at `x`.
    pub open spec fn elements(self, x: int) -> Seq<Element> {
        chord_elements(self.positions(), self.length(), x)
    }

    /// Tells whether a chord can be made of these positions: whether there
    /// is at least one, and each fits.
    pub fn fits(notes: &Vec<i64>) -> (r: bool)
        ensures
            r == positions_fit(notes@),
    {
        let n: usize = notes.len();
        if n == 0 {
            return false;
        }
        let mut i: usize = 0;
        while i < n
            invariant
                i <= n,
                n == notes@.len(),
                forall|j: int| 0 <= j < i ==> position_fits(#[trigger] notes@[j]),
            decreases n - i,
        {
            if !position_in_range(notes[i]) {
                return false;
            }
            i += 1;
        }
        true
    }

    /// A chord of the given positions. There must be at least one.
    pub fn new(notes: Vec<i64>, duration: Duration) -> (r: Chord)
        requires
            positions_fit(notes@),
        ensures
            r.positions() == notes@,
            r.length() == duration,
            r.wf(),
    {
        Chord { notes, duration }
    }

    /// How long the chord sounds.
    pub fn duration(&self) -> (r: Duration)
        ensures
            r == self.length(),
    {
        self.duration
    }

    /// The lowest position.
    pub fn low(&self) -> (r: i64)
        requires
            self.wf(),
        ensures
            r == lowest(self.positions()),
            self.positions().contains(r),
            forall|i: int| 0 <= i < self.positions().len() ==> r <= self.positions()[i],
    {
        proof {
            lemma_extremes(self.notes@);
        }
        let n: usize = self.notes.len();
        let mut low: i64 = self.notes[0];
        let mut i: usize = 1;
        while i < n
            invariant
                1 <= i <= n,
                n == self.notes@.len(),
                low == lowest(self.notes@.take(i as int)),
            decreases n - i,
        {
            assert(self.notes@.take(i + 1).drop_last() =~= self.notes@.take(i as int));
            if self.notes[i] < low {
                low = self.notes[i];
            }
            i += 1;
        }
        assert(self.notes@.take(n as int) =~= self.notes@);
        low
    }

    /// The highest position.
    pub fn high(&self) -> (r: i64)
        requires
            self.wf(),
        ensures
            r == highest(self.positions()),
            self.positions().contains(r),
            forall|i: int| 0 <= i < self.positions().len() ==> r >= self.positions()[i],
    {
        proof {
            lemma_extremes(self.notes@);
        }
        let n: usize = self.notes.len();
        let mut high: i64 = self.notes[0];
        let mut i: usize = 1;
        while i < n
            invariant
                1 <= i <= n,
                n == self.notes@.len(),
                high == highest(self.notes@.take(i as int)),
            decreases n - i,
        {
            assert(self.notes@.take(i + 1).drop_last() =~= self.notes@.take(i as int));
            if self.notes[i] > high {
                high = self.notes[i];
            }
            i += 1;
        }
        assert(self.notes@.take(n as int) =~= self.notes@);
        high
    }

    /// Whether the stem stands on the left of the noteheads.
    pub fn stem_on_left(&self) -> (r: bool)
        requires
            self.wf(),
        ensures
            r == stem_left(self.positions()),
    {
        self.low() > STEM_PIVOT - self.high()
    }

    /// Draws the chord at `x`: a notehead for each position, then the stem,
    /// unless the chord is a whole.
    pub fn f(&self, doc: &mut Document, x: i64)
        requires
            self.wf(),
            x <= i64::MAX - STEM_OFFSET,
        ensures
            drawn(*final(doc)) == drawn(*old(doc)) + self.elements(x as int),
    {
        let n: usize = self.notes.len();
        let filled: bool = self.duration.is_filled();
        let ghost heads = noteheads(self.notes@, self.duration, x as int);
        let mut i: usize = 0;
        while i < n
            invariant
                i <= n,
                n == self.notes@.len(),
                self.wf(),
                x <= i64::MAX - STEM_OFFSET,
                filled == self.duration.filled(),
                heads == noteheads(self.notes@, self.duration, x as int),
                drawn(*doc) == drawn(*old(doc)) + heads.take(i as int),
            decreases n - i,
        {
            let note: i64 = self.notes[i];
            if filled {
                append_ellipse(doc, x + HEAD_RX, y(note), HEAD_RX, HEAD_RY, INK);
            } else {
                append_stroked_ellipse(doc, x + HEAD_RX, y(note), HEAD_RX, HEAD_RY, NO_FILL, INK);
            }
            i += 1;
        }
        if self.duration.has_stem() {
            self.draw_note_line(doc, x);
        }
    }

    /// Draws the stem of the chord at `x`.
    fn draw_note_line(&self, doc: &mut Document, x: i64)
        requires
            self.wf(),
            x <= i64::MAX - STEM_OFFSET,
        ensures
            drawn(*final(doc)) == drawn(*old(doc)).push(stem(self.positions(), x as int)),
    {
        let low: i64 = self.low();
        let high: i64 = self.high();
        if low > STEM_PIVOT - high {
            append_filled_line(doc, x, y(low) + STEM_LENGTH, x, y(high), NO_FILL, INK);
        } else {
            append_filled_line(
                doc,
                x + STEM_OFFSET,
                y(low),
                x + STEM_OFFSET,
                y(high) - STEM_LENGTH,
                NO_FILL,
                INK,
            );
        }
    }
}

/// Where the cursor stands after the first `n` chords: at the start, moved on
/// by the width of each.
pub open spec fn cursor(chords: Seq<Chord>, n: int) -> int
    decreases n,
{
    if n <= 0 {
        START_X as int
    } else {
        cursor(chords, n - 1) + chords[n - 1].length().width()
    }
}

/// What the first `n` chords draw, each at the place where the cursor stands
/// after the chords before it.
pub open spec fn chords_drawn(chords: Seq<Chord>, n: int) -> Seq<Element>
    decreases n,
{
    if n <= 0 {
        Seq::empty()
    } else {
        chords_drawn(chords, n - 1) + chords[n - 1].elements(cursor(chords, n - 1))
    }
}

/// Chords in the order in which they are played and drawn.
pub struct Measure {
    chords: Vec<Chord>,
}

impl Measure {
    /// The chords of the measure, from left to right.
    pub closed spec fn chords(self) -> Seq<Chord> {
        self.chords@
    }

    /// Each chord is well formed, and the cursor stays within the machine's
    /// integers up to the end of the measure.
    pub open spec fn wf(self) -> bool {
        measure_fits(self.chords())
    }

    /// Where the cursor stands after the last chord.
    pub open spec fn end(self) -> int {
        cursor(self.chords(), self.chords().len() as int)
    }

    /// All that the measure draws: the staff lines, then chord after chord.
    pub open spec fn elements(self) -> Seq<Element> {
        staff_lines() + chords_drawn(self.chords(), self.chords().len() as int)
    }

    /// Tells whether a measure can be made of these chords.
    pub fn fits(chords: &Vec<Chord>) -> (r: bool)
        ensures
            r == measure_fits(chords@),
    {
        let n: usize = chords.len();
        let mut x: i64 = START_X;
        let mut i: usize = 0;
        while i < n
            invariant
                i <= n,
                n == chords@.len(),
                forall|j: int| 0 <= j < i ==> (#[trigger] chords@[j]).wf(),
                x == cursor(chords@, i as int),
            decreases n - i,
        {
            proof {
                lemma_cursor_grows(chords@, i + 1, n as int);
            }
            if !Chord::fits(&chords[i].notes) {
                return false;
            }
            let width: i64 = chords[i].duration().advance();
            if x > i64::MAX - width {
                return false;
            }
            x += width;
            i += 1;
        }
        true
    }

    /// A measure of the given chords, in their order.
    pub fn new(chords: Vec<Chord>) -> (r: Measure)
        requires
            measure_fits(chords@),
        ensures
            r.chords() == chords@,
            r.wf(),
    {
        Measure { chords }
    }

    /// Where the cursor stands after the last chord.
    pub fn end_x(&self) -> (r: i64)
        requires
            self.wf(),
        ensures
            r == self.end(),
    {
        let n: usize = self.chords.len();
        let mut x: i64 = START_X;
        let mut i: usize = 0;
        while i < n
            invariant
                i <= n,
                n == self.chords@.len(),
                self.wf(),
                x == cursor(self.chords@, i as int),
            decreases n - i,
        {
            proof {
                lemma_cursor_grows(self.chords@, i + 1, n as int);
            }
            x += self.chords[i].duration().advance();
            i += 1;
        }
        x
    }

    /// Draws the measure: five staff lines, then the chords from left to
    /// right, each moving the cursor on by the width of its duration.
    pub fn f(&self, doc: &mut Document)
        requires
            self.wf(),
        ensures
            drawn(*final(doc)) == drawn(*old(doc)) + self.elements(),
    {
        let ghost lines = staff_lines();
        let mut line: i64 = 0;
        while line < STAFF_LINES
            invariant
                0 <= line <= STAFF_LINES,
                lines == staff_lines(),
                drawn(*doc) == drawn(*old(doc)) + lines.take(line as int),
            decreases STAFF_LINES - line,
        {
            let y: i64 = line * LINE_SPACING + STAFF_TOP;
            append_line(doc, 0, y, STAFF_WIDTH, y, STAFF_STROKE);
            line += 1;
        }
        let n: usize = self.chords.len();
        let mut x: i64 = START_X;
        let mut i: usize = 0;
        while i < n
            invariant
                i <= n,
                n == self.chords@.len(),
                self.wf(),
                lines == staff_lines(),
                x == cursor(self.chords@, i as int),
                drawn(*doc) == drawn(*old(doc)) + lines + chords_drawn(self.chords@, i as int),
            decreases n - i,
        {
            proof {
                lemma_cursor_grows(self.chords@, i + 1, n as int);
            }
            self.chords[i].f(doc, x);
            x += self.chords[i].duration().advance();
            i += 1;
        }
    }
}

/// Chords that a measure can hold: each well formed, and the cursor after the
/// last within the machine's integers.
pub open spec fn measure_fits(chords: Seq<Chord>) -> bool {
    &&& forall|i: int| 0 <= i < chords.len() ==> (#[trigger] chords[i]).wf()
    &&& cursor(chords, chords.len() as int) <= i64::MAX
}

/// The lowest and the highest position are among the positions, and no
/// position is below the one or above the other.
pub proof fn lemma_extremes(positions: Seq<i64>)
    requires
        positions.len() > 0,
    ensures
        exists|i: int| 0 <= i < positions.len() && positions[i] == lowest(positions),
        exists|i: int| 0 <= i < positions.len() && positions[i] == highest(positions),
        forall|i: int|
            0 <= i < positions.len() ==> lowest(positions) <= #[trigger] positions[i] <= highest(
                positions,
            ),
    decreases positions.len(),
{
    if positions.len() > 1 {
        let rest = positions.drop_last();
        lemma_extremes(rest);
        let l = choose|i: int| 0 <= i < rest.len() && rest[i] == lowest(rest);
        let h = choose|i: int| 0 <= i < rest.len() && rest[i] == highest(rest);
        let last = positions.len() - 1;
        assert(positions[l] == lowest(rest) && positions[h] == highest(rest));
        assert(lowest(positions) == positions[l] || lowest(positions) == positions[last]);
        assert(highest(positions) == positions[h] || highest(positions) == positions[last]);
        assert forall|i: int| 0 <= i < positions.len() implies lowest(positions)
            <= #[trigger] positions[i] <= highest(positions) by {
            if i < last {
                assert(positions[i] == rest[i]);
            }
        }
    } else {
        assert(positions[0] == lowest(positions) && positions[0] == highest(positions));
    }
}

/// The cursor starts at `START_X` and never moves back: each chord moves it
/// on by at least 50 and at most 200.
pub proof fn lemma_cursor_grows(chords: Seq<Chord>, m: int, n: int)
    requires
        0 <= m <= n,
    ensures
        START_X + 50 * m <= cursor(chords, m) <= START_X + 200 * m,
        cursor(chords, m) + 50 * (n - m) <= cursor(chords, n),
    decreases n,
{
    if m < n {
        lemma_cursor_grows(chords, m, n - 1);
    } else if m > 0 {
        lemma_cursor_grows(chords, m - 1, m - 1);
    }
}

/// A whole chord draws no stem: only its noteheads, all of them outlined
/// ellipses, however far its positions are apart.
pub proof fn lemma_whole_has_no_stem(chord: Chord, x: int)
    requires
        chord.length() == Duration::Whole,
    ensures
        chord.elements(x) == noteheads(chord.positions(), Duration::Whole, x),
        chord.elements(x).len() == chord.positions().len(),
        forall|i: int|
            0 <= i < chord.elements(x).len() ==> (#[trigger] chord.elements(x)[i]) is Ellipse,
{
}

/// A half or quarter chord draws one stem, after its noteheads.
pub proof fn lemma_stem_comes_last(chord: Chord, x: int)
    requires
        chord.length() != Duration::Whole,
    ensures
        chord.elements(x).len() == chord.positions().len() + 1,
        chord.elements(x).last() == stem(chord.positions(), x),
        chord.elements(x).last() is Line,
{
}

} // verus!
