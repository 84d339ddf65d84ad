//! The candidate bar: what it shows, how the commands change it, and its
//! geometry and colours.
use vstd::prelude::*;
use crate::engine::{ContextData, KeyResult, ContextView, CandidateData};
use crate::text::{decimal, decimal_string};

verus! {

/// What the candidate bar shows and where.
pub struct BarData {
    pub preedit: String,
    pub candidates: Vec<String>,
    pub active_index: usize,
    pub page_no: usize,
    pub total_pages: usize,
    pub visible: bool,
    pub pos_x: i32,
    pub pos_y: i32,
    pub theme: String,
    pub primary_color: (u8, u8, u8),
}

/// The value of a `BarData`.
pub struct BarView {
    pub preedit: Seq<char>,
    pub candidates: Seq<Seq<char>>,
    pub active_index: usize,
    pub page_no: usize,
    pub total_pages: usize,
    pub visible: bool,
    pub pos_x: i32,
    pub pos_y: i32,
    pub theme: Seq<char>,
    pub primary_color: (u8, u8, u8),
}

impl View for BarData {
    type V = BarView;

    open spec fn view(&self) -> BarView {
        BarView {
            preedit: self.preedit@,
            candidates: self.candidates@.map_values(|s: String| s@),
            active_index: self.active_index,
            page_no: self.page_no,
            total_pages: self.total_pages,
            visible: self.visible,
            pos_x: self.pos_x,
            pos_y: self.pos_y,
            theme: self.theme@,
            primary_color: self.primary_color,
        }
    }
}

/// The bar before any command: hidden and empty, at (100, 300), light theme,
/// steel-blue accent.
pub open spec fn default_bar() -> BarView {
    BarView {
        preedit: Seq::empty(),
        candidates: Seq::empty(),
        active_index: 0,
        page_no: 0,
        total_pages: 0,
        visible: false,
        pos_x: 100,
        pos_y: 300,
        theme: "light"@,
        primary_color: (70, 130, 180),
    }
}

impl Default for BarData {
    fn default() -> (r: Self)
        ensures
            r@ == default_bar(),
    {
        let r = BarData {
            preedit: String::new(),
            candidates: Vec::new(),
            active_index: 0,
            page_no: 0,
            total_pages: 0,
            visible: false,
            pos_x: 100,
            pos_y: 300,
            theme: "light".to_owned(),
            primary_color: (70, 130, 180),
        };
        assert(r@.candidates =~= Seq::<Seq<char>>::empty());
        r
    }
}

/// The number of pages the bar announces for a context: one past the
/// current page on the last page, two past it otherwise.
pub open spec fn total_pages_of(ctx: ContextView) -> usize {
    (if ctx.is_last_page {
        ctx.page_no + 1
    } else {
        ctx.page_no + 2
    }) as usize
}

/// The bar after it is shown for a context.
pub open spec fn shown(b: BarView, ctx: ContextView) -> BarView {
    BarView {
        preedit: ctx.preedit,
        candidates: ctx.candidates.map_values(|c: (Seq<char>, Seq<char>)| c.0),
        active_index: ctx.highlighted_index as usize,
        page_no: ctx.page_no as usize,
        total_pages: total_pages_of(ctx),
        visible: true,
        ..b
    }
}

/// The bar after it is hidden: nothing shown, no candidates.
pub open spec fn hidden(b: BarView) -> BarView {
    BarView { visible: false, candidates: Seq::empty(), ..b }
}

/// Whether the page count of a context fits in its integer type.
pub open spec fn page_count_fits(ctx: ContextView) -> bool {
    if ctx.is_last_page {
        ctx.page_no + 1 <= i32::MAX
    } else {
        ctx.page_no + 2 <= i32::MAX
    }
}

/// Whether a theme name selects the dark palette.
pub open spec fn is_dark(theme: Seq<char>) -> bool {
    theme == "dark"@
}

/// A colour with its opacity (alpha), red, green and blue parts.
#[derive(PartialEq, Eq, Structural, Clone, Copy, Debug)]
pub struct Argb {
    pub a: u8,
    pub r: u8,
    pub g: u8,
    pub b: u8,
}

/// The colours the bar is drawn with.
#[derive(PartialEq, Eq, Structural, Clone, Copy, Debug)]
pub struct Palette {
    /// Translucent bar background.
    pub background: Argb,
    /// Candidate text.
    pub text: Argb,
    /// Background of the highlighted candidate: the accent, mostly transparent.
    pub highlight: Argb,
    /// Candidate numbers: the accent colour.
    pub accent: Argb,
}

/// The palette for a theme and an accent colour.
pub open spec fn palette_of(theme: Seq<char>, c: (u8, u8, u8)) -> Palette {
    Palette {
        background: if is_dark(theme) { Argb { a: 220, r: 30, g: 30, b: 30 } } else { Argb { a: 220, r: 245, g: 245, b: 245 } },
        text: if is_dark(theme) { Argb { a: 255, r: 240, g: 240, b: 240 } } else { Argb { a: 255, r: 40, g: 40, b: 40 } },
        highlight: Argb { a: 60, r: c.0, g: c.1, b: c.2 },
        accent: Argb { a: 255, r: c.0, g: c.1, b: c.2 },
    }
}

/// Width of one candidate cell, in pixels.
pub const CANDIDATE_WIDTH: u64 = 68;
/// Gap between two candidate cells.
pub const CANDIDATE_GAP: u64 = 4;
/// Padding at each end of the bar.
pub const BAR_PADDING: u64 = 12;
/// Height of the bar without a preedit line.
pub const CANVAS_HEIGHT: i32 = 52;
/// Height added by the preedit line.
pub const PREEDIT_HEIGHT: i32 = 20;

/// The bar's width for `n` candidates (at least one cell is drawn).
pub open spec fn bar_width(n: nat) -> int {
    let count = if n == 0 { 1 } else { n as int };
    count * 68 + (count - 1) * 4 + 12 * 2
}

/// The bar's pixel size: width as `bar_width`, capped at `i32::MAX`; height
/// 52, plus 20 when there is a preedit.
pub open spec fn bar_size_of(b: BarView) -> (i32, i32) {
    (
        if bar_width(b.candidates.len()) > i32::MAX { i32::MAX } else { bar_width(
            b.candidates.len(),
        ) as i32 },
        if b.preedit.len() == 0 { 52 } else { 72 },
    )
}

/// The vertical centre of the candidate row: 32, or 52 below a preedit.
pub open spec fn row_center_of(b: BarView) -> i32 {
    if b.preedit.len() == 0 { 32 } else { 52 }
}

/// One candidate cell: its left edge, its number label, and whether it is the
/// highlighted one.
pub struct CandidateSlot {
    pub x: u128,
    pub label: String,
    pub highlighted: bool,
}

fn clone_strings(v: &Vec<String>) -> (r: Vec<String>)
    ensures
        r@ == v@,
{
    let mut r: Vec<String> = Vec::new();
    let mut i: usize = 0;
    while i < v.len()
        invariant
            i <= v@.len(),
            r@ == v@.take(i as int),
        decreases v.len() - i,
    {
        r.push(v[i].clone());
        assert(v@.take(i + 1) =~= v@.take(i as int).push(v@[i as int]));
        i = i + 1;
    }
    assert(v@.take(v@.len() as int) =~= v@);
    r
}

/// The left edge of cell `i`.
pub open spec fn slot_x(i: int) -> int {
    12 + i * (68 + 4)
}

impl BarData {
    /// A copy of the bar's data, for drawing it outside the lock.
    pub fn snapshot(&self) -> (r: BarData)
        ensures
            r@ == self@,
    {
        BarData {
            preedit: self.preedit.clone(),
            candidates: clone_strings(&self.candidates),
            active_index: self.active_index,
            page_no: self.page_no,
            total_pages: self.total_pages,
            visible: self.visible,
            pos_x: self.pos_x,
            pos_y: self.pos_y,
            theme: self.theme.clone(),
            primary_color: self.primary_color,
        }
    }

    /// Shows the bar for a context: its preedit, the candidates' texts, the
    /// highlighted candidate and the page position.
    pub fn show_context(&mut self, ctx: &ContextData)
        requires
            page_count_fits(ctx@),
        ensures
            final(self)@ == shown(old(self)@, ctx@),
    {
        self.preedit = ctx.preedit.clone();
        let mut texts: Vec<String> = Vec::new();
        let mut i: usize = 0;
        while i < ctx.candidates.len()
            invariant
                i <= ctx.candidates@.len(),
                texts@.len() == i,
                ctx@.candidates.len() == ctx.candidates@.len(),
                texts@.map_values(|s: String| s@) == ctx@.candidates.take(i as int).map_values(
                    |c: (Seq<char>, Seq<char>)| c.0,
                ),
            decreases ctx.candidates.len() - i,
        {
            let ghost before = texts@;
            texts.push(ctx.candidates[i].text.clone());
            proof {
                assert(ctx@.candidates[i as int] == ctx.candidates@[i as int]@);
                assert(texts@ == before.push(ctx.candidates@[i as int].text));
                assert(ctx@.candidates.take(i + 1) =~= ctx@.candidates.take(i as int).push(
                    ctx.candidates@[i as int]@,
                ));
                let f = |s: String| s@;
                let g = |c: (Seq<char>, Seq<char>)| c.0;
                let t = ctx@.candidates.take(i + 1);
                assert forall|k: int| 0 <= k < i + 1 implies texts@.map_values(f)[k] == t.map_values(g)[k] by {
                    if k < i {
                        assert(texts@[k] == before[k]);
                        assert(before.map_values(f)[k] == ctx@.candidates.take(i as int).map_values(g)[k]);
                    }
                }
                assert(texts@.map_values(f) =~= t.map_values(g));
            }
            i = i + 1;
        }
        proof {
            assert(ctx@.candidates.take(ctx.candidates@.len() as int) =~= ctx@.candidates);
        }
        self.candidates = texts;
        self.active_index = #[verifier::truncate] (ctx.highlighted_index as usize);
        self.page_no = #[verifier::truncate] (ctx.page_no as usize);
        let total: i32 = if ctx.is_last_page {
            ctx.page_no + 1
        } else {
            ctx.page_no + 2
        };
        self.total_pages = #[verifier::truncate] (total as usize);
        self.visible = true;
    }

    /// Hides the bar and forgets its candidates.
    pub fn hide_candidates(&mut self)
        ensures
            final(self)@ == hidden(old(self)@),
    {
        self.visible = false;
        self.candidates.clear();
        assert(self@.candidates =~= Seq::<Seq<char>>::empty());
    }

    /// The `process_key` command's update: for a handled key the bar shows
    /// its context and is redrawn; a key the engine did not handle leaves the
    /// bar as it is, and nothing is redrawn.
    pub fn apply_key_result(&mut self, result: &KeyResult) -> (redraw: bool)
        requires
            result@ matches Some(c) ==> page_count_fits(c),
        ensures
            redraw == (result@ is Some),
            final(self)@ == match result@ {
                Some(c) => shown(old(self)@, c),
                None => old(self)@,
            },
    {
        match result {
            KeyResult::Handled(ctx) => {
                self.show_context(ctx);
                true
            },
            KeyResult::NotHandled => false,
        }
    }

    /// The `select_candidate` command's update: the bar is hidden, and
    /// redrawn, when the selection committed text; otherwise it is unchanged.
    pub fn apply_selection(&mut self, result: &Option<ContextData>) -> (redraw: bool)
        ensures
            redraw == (result matches Some(c) && c@.commit_text.len() > 0),
            final(self)@ == (if redraw { hidden(old(self)@) } else { old(self)@ }),
    {
        match result {
            Some(ctx) => if !ctx.commit_text.as_str().is_empty() {
                self.hide_candidates();
                true
            } else {
                false
            },
            None => false,
        }
    }

    /// The `update_bar_theme` command: sets the theme and redraws.
    pub fn set_theme(&mut self, theme: String) -> (redraw: bool)
        ensures
            redraw,
            final(self)@ == (BarView { theme: theme@, ..old(self)@ }),
    {
        self.theme = theme;
        true
    }

    /// The `update_bar_color` command: sets the accent colour and redraws.
    pub fn set_primary_color(&mut self, r: u8, g: u8, b: u8) -> (redraw: bool)
        ensures
            redraw,
            final(self)@ == (BarView { primary_color: (r, g, b), ..old(self)@ }),
    {
        self.primary_color = (r, g, b);
        true
    }

    /// The `update_bar_position` command: moves the bar; it is not redrawn.
    pub fn set_position(&mut self, x: i32, y: i32) -> (redraw: bool)
        ensures
            !redraw,
            final(self)@ == (BarView { pos_x: x, pos_y: y, ..old(self)@ }),
    {
        self.pos_x = x;
        self.pos_y = y;
        false
    }

    /// Whether the bar uses the dark palette.
    pub fn is_dark(&self) -> (r: bool)
        ensures
            r == is_dark(self@.theme),
    {
        let dark = "dark".to_owned();
        self.theme == dark
    }

    /// The colours to draw the bar with.
    pub fn palette(&self) -> (p: Palette)
        ensures
            p == palette_of(self@.theme, self.primary_color),
    {
        let dark = self.is_dark();
        let (r, g, b) = self.primary_color;
        Palette {
            background: if dark { Argb { a: 220, r: 30, g: 30, b: 30 } } else { Argb { a: 220, r: 245, g: 245, b: 245 } },
            text: if dark { Argb { a: 255, r: 240, g: 240, b: 240 } } else { Argb { a: 255, r: 40, g: 40, b: 40 } },
            highlight: Argb { a: 60, r: r, g: g, b: b },
            accent: Argb { a: 255, r: r, g: g, b: b },
        }
    }

    /// The bar's size in pixels (see `bar_size_of`).
    pub fn bar_size(&self) -> (r: (i32, i32))
        ensures
            r == bar_size_of(self@),
    {
        let n = self.candidates.len() as u64;
        let count: u64 = if n == 0 { 1 } else { n };
        let w: u64 = if count >= 0x2000_0000 {
            i32::MAX as u64
        } else {
            let full = count * CANDIDATE_WIDTH + (count - 1) * CANDIDATE_GAP + BAR_PADDING * 2;
            if full > i32::MAX as u64 { i32::MAX as u64 } else { full }
        };
        let h: i32 = if self.preedit.as_str().is_empty() {
            CANVAS_HEIGHT
        } else {
            CANVAS_HEIGHT + PREEDIT_HEIGHT
        };
        (w as i32, h)
    }

    /// The vertical centre of the candidate row (see `row_center_of`).
    pub fn row_center(&self) -> (y: i32)
        ensures
            y == row_center_of(self@),
    {
        if self.preedit.as_str().is_empty() {
            32
        } else {
            52
        }
    }

    /// The candidate cells, left to right: cell `i` starts at `slot_x(i)`,
    /// is labelled with the number `i + 1`, and is highlighted when `i` is
    /// the active index.
    pub fn candidate_slots(&self) -> (r: Vec<CandidateSlot>)
        ensures
            r@.len() == self@.candidates.len(),
            forall|i: int|
                #![trigger r@[i]]
                0 <= i < r@.len() ==> {
                    &&& r@[i].x == slot_x(i)
                    &&& r@[i].label@ == decimal((i + 1) as nat)
                    &&& r@[i].highlighted == (i == self.active_index)
                },
    {
        let mut r: Vec<CandidateSlot> = Vec::new();
        let mut i: usize = 0;
        while i < self.candidates.len()
            invariant
                i <= self.candidates@.len(),
                self@.candidates.len() == self.candidates@.len(),
                r@.len() == i,
                forall|j: int|
                    #![trigger r@[j]]
                    0 <= j < i ==> {
                        &&& r@[j].x == slot_x(j)
                        &&& r@[j].label@ == decimal((j + 1) as nat)
                        &&& r@[j].highlighted == (j == self.active_index)
                    },
            decreases self.candidates.len() - i,
        {
            let x: u128 = 12 + (i as u128) * 72;
            let label = decimal_string(i as u64 + 1);
            let ghost before = r@;
            let slot = CandidateSlot { x, label, highlighted: i == self.active_index };
            assert(slot.x == slot_x(i as int));
            assert(slot.label@ == decimal((i + 1) as nat));
            r.push(slot);
            assert(r@ == before.push(slot));
            i = i + 1;
        }
        r
    }
}


/// Showing a context makes the bar visible with exactly the context's
/// preedit, its candidates' texts in order, its highlight and page, and a
/// page count one past the page on the last page and two past it
/// otherwise; theme, colour and position are kept. Showing the same context
/// again changes nothing, and hiding keeps everything but visibility and
/// the candidates.
pub proof fn lemma_show_and_hide(b: BarView, ctx: ContextView)
    requires
        page_count_fits(ctx),
        0 <= ctx.page_no,
    ensures
        shown(b, ctx).visible,
        shown(b, ctx).preedit == ctx.preedit,
        shown(b, ctx).candidates.len() == ctx.candidates.len(),
        forall|i: int| 0 <= i < ctx.candidates.len() ==> #[trigger] shown(b, ctx).candidates[i] == ctx.candidates[i].0,
        shown(b, ctx).page_no == ctx.page_no,
        ctx.highlighted_index >= 0 ==> shown(b, ctx).active_index == ctx.highlighted_index,
        shown(b, ctx).total_pages == ctx.page_no + if ctx.is_last_page { 1int } else { 2int },
        shown(b, ctx).theme == b.theme && shown(b, ctx).primary_color == b.primary_color,
        shown(b, ctx).pos_x == b.pos_x && shown(b, ctx).pos_y == b.pos_y,
        shown(shown(b, ctx), ctx) == shown(b, ctx),
        !hidden(b).visible && hidden(b).candidates.len() == 0,
        hidden(b).preedit == b.preedit && hidden(b).theme == b.theme && hidden(b).pos_x == b.pos_x
            && hidden(b).pos_y == b.pos_y && hidden(b).primary_color == b.primary_color,
{
}

} // verus!
