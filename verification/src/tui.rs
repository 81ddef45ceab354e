//! The state of the terminal interface: a list of papers and a selection.

use crate::paper::{Paper, PaperView, papers_view};
use crate::text::{chars_of, push_str, signed_decimal, signed_decimal_chars, string_of};
use vstd::prelude::*;

verus! {

/// A relevance score as shown: one decimal (`[3.0]`-style numbers), or `N/A`.
pub open spec fn score_text(score: Option<i64>) -> Seq<char> {
    match score {
        Some(s) => signed_decimal(s as int) + ".0"@,
        None => "N/A"@,
    }
}

/// The shown form of a relevance score.
pub fn score_label(score: Option<i64>) -> (r: String)
    ensures
        r@ == score_text(score),
{
    match score {
        Some(s) => {
            let mut t = signed_decimal_chars(s);
            push_str(&mut t, ".0");
            string_of(&t)
        },
        None => "N/A".to_owned(),
    }
}

/// The list of papers and the selected one.
pub struct TuiApp {
    papers: Vec<Paper>,
    selected_index: usize,
}

/// The content of the interface.
pub struct TuiView {
    pub papers: Seq<PaperView>,
    pub selected: nat,
}

impl TuiView {
    /// The selection is on a paper, or at the start of an empty list.
    pub open spec fn in_range(self) -> bool {
        self.selected == 0 || self.selected < self.papers.len()
    }
}

impl View for TuiApp {
    type V = TuiView;

    closed spec fn view(&self) -> TuiView {
        TuiView { papers: papers_view(self.papers@), selected: self.selected_index as nat }
    }
}

/// One line of the list: a marker for the selected paper, the score, the title
/// and the identifier.
pub open spec fn list_line(p: PaperView, selected: bool) -> Seq<char> {
    (if selected {
        "> "@
    } else {
        "  "@
    }) + "["@ + score_text(p.relevance_score) + "] "@ + p.title + " - "@ + p.id
}

impl TuiApp {
    #[verifier::type_invariant]
    spec fn selection_valid(self) -> bool {
        self.selected_index == 0 || self.selected_index < self.papers.len()
    }

    /// An empty list.
    pub fn new() -> (a: TuiApp)
        ensures
            a@.papers.len() == 0,
            a@.selected == 0,
    {
        TuiApp { papers: Vec::new(), selected_index: 0 }
    }

    /// Shows `papers`, selecting the first.
    pub fn set_papers(&mut self, papers: Vec<Paper>)
        ensures
            final(self)@.papers == papers_view(papers@),
            final(self)@.selected == 0,
    {
        self.selected_index = 0;
        self.papers = papers;
    }

    /// Moves the selection up, unless it is on the first paper.
    pub fn select_prev(&mut self)
        ensures
            final(self)@.papers == old(self)@.papers,
            final(self)@.selected == if old(self)@.selected > 0 {
                (old(self)@.selected - 1) as nat
            } else {
                old(self)@.selected
            },
            final(self)@.in_range(),
    {
        proof {
            use_type_invariant(&*self);
        }
        if self.selected_index > 0 {
            self.selected_index -= 1;
        }
        proof {
            use_type_invariant(&*self);
        }
    }

    /// Moves the selection down, unless it is on the last paper.
    pub fn select_next(&mut self)
        ensures
            final(self)@.papers == old(self)@.papers,
            final(self)@.selected == if old(self)@.selected + 1 < old(self)@.papers.len() {
                old(self)@.selected + 1
            } else {
                old(self)@.selected
            },
            final(self)@.in_range(),
    {
        proof {
            use_type_invariant(&*self);
        }
        if self.selected_index < self.papers.len().saturating_sub(1) {
            self.selected_index += 1;
        }
        proof {
            use_type_invariant(&*self);
        }
    }

    /// The selected paper, when the list is not empty.
    pub fn selected_paper(&self) -> (r: Option<&Paper>)
        ensures
            match r {
                Some(p) => self@.selected < self@.papers.len() && p@ == self@.papers[self@.selected as int],
                None => self@.selected >= self@.papers.len(),
            },
    {
        if self.selected_index < self.papers.len() {
            Some(&self.papers[self.selected_index])
        } else {
            None
        }
    }

    /// The selection is on a paper, or at the start of an empty list.
    pub fn selection_in_range(&self) -> (r: bool)
        ensures
            r,
            self@.in_range(),
    {
        proof {
            use_type_invariant(self);
        }
        true
    }

    /// The lines of the list, one per paper, in order.
    pub fn list_lines(&self) -> (r: Vec<String>)
        ensures
            r@.len() == self@.papers.len(),
            forall|i: int|
                0 <= i < r@.len() ==> (#[trigger] r@[i])@ == list_line(
                    self@.papers[i],
                    i == self@.selected,
                ),
    {
        let mut r: Vec<String> = Vec::new();
        let mut i: usize = 0;
        while i < self.papers.len()
            invariant
                i <= self.papers.len(),
                r@.len() == i,
                forall|k: int|
                    0 <= k < i ==> (#[trigger] r@[k])@ == list_line(
                        papers_view(self.papers@)[k],
                        k == self.selected_index,
                    ),
            decreases self.papers.len() - i,
        {
            let p = &self.papers[i];
            let mut t = if i == self.selected_index {
                chars_of("> ")
            } else {
                chars_of("  ")
            };
            push_str(&mut t, "[");
            let label = score_label(p.relevance_score);
            push_str(&mut t, label.as_str());
            push_str(&mut t, "] ");
            push_str(&mut t, p.title.as_str());
            push_str(&mut t, " - ");
            push_str(&mut t, p.id.as_str());
            assert(t@ =~= list_line(papers_view(self.papers@)[i as int], i == self.selected_index));
            r.push(string_of(&t));
            i += 1;
        }
        r
    }
}

impl Default for TuiApp {
    fn default() -> (a: TuiApp)
        ensures
            a@.papers.len() == 0,
            a@.selected == 0,
    {
        TuiApp::new()
    }
}

} // verus!
