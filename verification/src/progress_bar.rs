//! The text progress bar shown while files are added to an archive:
//! `[====>     ]`, redrawn on one line as it moves.

use vstd::prelude::*;
use crate::text::push_char;

verus! {

/// A bar of `cols` cells at position `i`: `[`, `=` in cells 1 to `i`, the
/// head `>` after them while there is room, blanks, then `]`. A fresh bar is
/// at position 0.
pub open spec fn bar_shape(cols: nat, i: nat) -> Seq<char> {
    Seq::new(
        cols,
        |j: int|
            if j == 0 {
                '['
            } else if j == cols - 1 {
                ']'
            } else if j <= i {
                '='
            } else if j == i + 1 {
                '>'
            } else {
                ' '
            },
    )
}

/// The cells after the bar moved to `index`: that cell filled with `=`, and
/// the head `>` put after it unless it is the last cell inside the brackets.
/// Cells between the old and the new position are left as they were.
pub open spec fn moved_cells(cells: Seq<char>, index: int) -> Seq<char> {
    let filled = cells.update(index, '=');
    if index != cells.len() - 2 {
        filled.update(index + 1, '>')
    } else {
        filled
    }
}

/// A progress bar over `population` items.
pub struct ProgressBar {
    bar: Vec<char>,
    seen: usize,
    population: usize,
    position: usize,
    refresh: bool,
}

impl ProgressBar {
    /// The bar's cells, brackets included.
    pub closed spec fn cells(&self) -> Seq<char> {
        self.bar@
    }

    /// How many items were counted so far.
    pub closed spec fn seen_count(&self) -> nat {
        self.seen as nat
    }

    /// How many items the bar stands for.
    pub closed spec fn population_count(&self) -> nat {
        self.population as nat
    }

    /// The last cell the bar moved to; 0 for a fresh bar.
    pub closed spec fn current_position(&self) -> nat {
        self.position as nat
    }

    /// Whether the bar changed since it was last drawn.
    pub closed spec fn needs_refresh(&self) -> bool {
        self.refresh
    }

    /// The last cell the bar can fill: the one before `]`.
    pub open spec fn last_index(&self) -> int {
        self.cells().len() - 2
    }

    /// The shape every bar keeps: at least two cells, `[` first and `]` last;
    /// the position within the brackets; its cell filled (once it moved); the
    /// head right after it and blanks beyond.
    pub open spec fn wf(&self) -> bool {
        let c = self.cells();
        let p = self.current_position() as int;
        &&& c.len() >= 2
        &&& c[0] == '['
        &&& c.last() == ']'
        &&& p <= self.last_index()
        &&& p > 0 ==> c[p] == '='
        &&& forall|j: int| p < j < c.len() - 1 ==> #[trigger] c[j] == if j == p + 1 {
            '>'
        } else {
            ' '
        }
    }

    /// A bar of `cols` cells over `population` items, at position 0, to be drawn.
    pub fn new(cols: usize, population: usize) -> (b: ProgressBar)
        requires
            cols >= 2,
        ensures
            b.wf(),
            b.cells() == bar_shape(cols as nat, 0),
            b.current_position() == 0,
            b.seen_count() == 0,
            b.population_count() == population,
            b.needs_refresh(),
    {
        let mut bar: Vec<char> = Vec::new();
        let mut i: usize = 0;
        while i < cols
            invariant
                i <= cols,
                cols >= 2,
                bar@ == bar_shape(cols as nat, 0).take(i as int),
            decreases cols - i,
        {
            let c = if i == 0 {
                '['
            } else if i == cols - 1 {
                ']'
            } else if i == 1 {
                '>'
            } else {
                ' '
            };
            bar.push(c);
            i += 1;
            assert(bar@ =~= bar_shape(cols as nat, 0).take(i as int));
        }
        assert(bar@ =~= bar_shape(cols as nat, 0));
        ProgressBar { bar, seen: 0, population, position: 0, refresh: true }
    }

    /// The number of cells, brackets included.
    pub fn width(&self) -> (w: usize)
        ensures
            w == self.cells().len(),
    {
        self.bar.len()
    }

    /// How many items were counted so far.
    pub fn seen(&self) -> (n: usize)
        ensures
            n == self.seen_count(),
    {
        self.seen
    }

    /// How many items the bar stands for.
    pub fn population(&self) -> (n: usize)
        ensures
            n == self.population_count(),
    {
        self.population
    }

    /// The last cell the bar moved to.
    pub fn position(&self) -> (p: usize)
        ensures
            p == self.current_position(),
    {
        self.position
    }

    /// Counts one more item, after which the bar stands at `index`, which is
    /// never before its current position. When the position moved, the new
    /// cell is filled, the head put after it, and the bar is to be redrawn.
    /// No filled cell is ever cleared; and a bar that only ever moves one cell
    /// at a time keeps the exact shape `[=...=>  ]`.
    pub fn progress(&mut self, index: usize)
        requires
            old(self).wf(),
            old(self).current_position() <= index <= old(self).last_index(),
            old(self).seen_count() < usize::MAX,
        ensures
            final(self).wf(),
            final(self).seen_count() == old(self).seen_count() + 1,
            final(self).population_count() == old(self).population_count(),
            final(self).current_position() == index,
            final(self).needs_refresh() == (old(self).needs_refresh() || index != old(self).current_position()),
            index == old(self).current_position() ==> final(self).cells() == old(self).cells(),
            index != old(self).current_position() ==> final(self).cells() == moved_cells(old(self).cells(), index as int),
            final(self).cells().len() == old(self).cells().len(),
            forall|j: int| 0 <= j < old(self).cells().len() && old(self).cells()[j] == '='
                ==> final(self).cells()[j] == '=',
            old(self).cells() == bar_shape(old(self).cells().len(), old(self).current_position())
                && index <= old(self).current_position() + 1
                ==> final(self).cells() == bar_shape(old(self).cells().len(), index as nat),
    {
        proof {
            if old(self).cells() == bar_shape(old(self).cells().len(), old(self).current_position())
                && index == old(self).current_position() + 1 {
                lemma_unit_step_keeps_shape(old(self).cells().len(), old(self).current_position());
            }
        }
        self.seen = self.seen + 1;
        if index == self.position {
            return;
        }
        let last = self.bar.len() - 2;
        self.bar.set(index, '=');
        if index != last {
            self.bar.set(index + 1, '>');
        }
        self.position = index;
        self.refresh = true;
    }

    /// The bar's cells as text.
    pub fn render(&self) -> (s: String)
        ensures
            s@ == self.cells(),
    {
        let mut s = String::new();
        let n = self.bar.len();
        let mut i: usize = 0;
        while i < n
            invariant
                i <= n,
                n == self.cells().len(),
                s@ == self.cells().take(i as int),
            decreases n - i,
        {
            push_char(&mut s, self.bar[i]);
            i += 1;
            assert(s@ =~= self.cells().take(i as int));
        }
        assert(self.cells().take(n as int) =~= self.cells());
        s
    }

    /// What to write to redraw the bar, if it changed: a carriage return and
    /// the bar, then a line break once the bar is full. After this the bar
    /// counts as drawn.
    pub fn show(&mut self) -> (frame: Option<String>)
        requires
            old(self).wf(),
        ensures
            final(self).wf(),
            final(self).cells() == old(self).cells(),
            final(self).seen_count() == old(self).seen_count(),
            final(self).population_count() == old(self).population_count(),
            final(self).current_position() == old(self).current_position(),
            !final(self).needs_refresh(),
            !old(self).needs_refresh() ==> frame is None,
            old(self).needs_refresh() ==> (frame matches Some(t) && t@ == "\r"@ + old(self).cells() + (
            if old(self).current_position() == old(self).last_index() {
                "\n"@
            } else {
                Seq::empty()
            })),
    {
        if !self.refresh {
            return None;
        }
        let bar = self.render();
        let text = String::from_str("\r").concat(bar.as_str());
        let text = if self.position == self.bar.len() - 2 {
            text.concat("\n")
        } else {
            assert(text@ + Seq::<char>::empty() =~= text@);
            text
        };
        self.refresh = false;
        Some(text)
    }
}

/// A bar in the shape `[=...=>  ]` that moves one cell keeps that shape at
/// its new position.
pub proof fn lemma_unit_step_keeps_shape(cols: nat, p: nat)
    requires
        cols >= 2,
        p + 1 <= cols - 2,
    ensures
        moved_cells(bar_shape(cols, p), (p + 1) as int) == bar_shape(cols, p + 1),
{
    assert(moved_cells(bar_shape(cols, p), (p + 1) as int) =~= bar_shape(cols, p + 1));
}

/// A bar that moves one cell per item, from a fresh bar, stands in the shape
/// `[=...=>  ]` at every position: the shape at position `p + 1` is the shape
/// at `p`, moved.
pub proof fn lemma_shape_from_fresh(cols: nat, p: nat)
    requires
        cols >= 2,
        p <= cols - 2,
    ensures
        p == 0 || moved_cells(bar_shape(cols, (p - 1) as nat), p as int) == bar_shape(cols, p),
        bar_shape(cols, p)[0] == '[',
        bar_shape(cols, p)[cols - 1] == ']',
        forall|j: int| 1 <= j <= p ==> bar_shape(cols, p)[j] == '=',
{
    if p > 0 {
        lemma_unit_step_keeps_shape(cols, (p - 1) as nat);
    }
}

} // verus!
