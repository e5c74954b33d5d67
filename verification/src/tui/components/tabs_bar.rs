//! Tab strip text.
use vstd::prelude::*;

use crate::text::{owned, push_str};

verus! {

/// The text of each tab in the strip: the label between spaces, or a single
/// `no chats` when there are no tabs.
pub open spec fn spec_tab_texts(tabs: Seq<Seq<char>>) -> Seq<Seq<char>> {
    if tabs.len() == 0 {
        seq!["no chats"@]
    } else {
        tabs.map_values(|t: Seq<char>| seq![' '] + t + seq![' '])
    }
}

/// How a piece of the tab strip is shown.
#[derive(Clone, Copy, Debug, PartialEq, Eq, Structural)]
pub enum TabPiece {
    /// Unstyled text: a separator, or the placeholder when there are no tabs.
    Plain,
    /// The selected tab, highlighted.
    Selected,
    /// Any other tab, muted.
    Unselected,
}

/// The piece at position `k` of the strip over `tabs` with `active`
/// selected: tabs at even positions, a two-space separator between
/// consecutive tabs.
pub open spec fn spec_tab_piece(tabs: Seq<Seq<char>>, active: usize, k: int) -> (TabPiece, Seq<char>) {
    if k % 2 == 0 {
        (
            if k / 2 == active {
                TabPiece::Selected
            } else {
                TabPiece::Unselected
            },
            seq![' '] + tabs[k / 2] + seq![' '],
        )
    } else {
        (TabPiece::Plain, seq![' ', ' '])
    }
}

/// The pieces of the one line of the tab strip, in order: each tab's text
/// (the label between spaces), highlighted exactly for the selected tab,
/// joined by two-space separators; a single plain `no chats` when there are
/// no tabs.
pub open spec fn spec_tab_pieces(tabs: Seq<Seq<char>>, active: usize) -> Seq<(TabPiece, Seq<char>)> {
    if tabs.len() == 0 {
        seq![(TabPiece::Plain, "no chats"@)]
    } else {
        Seq::new((2 * tabs.len() - 1) as nat, |k: int| spec_tab_piece(tabs, active, k))
    }
}

/// Tab strip over the tab labels, with one tab selected.
pub struct TabsBar<'a> {
    tabs: &'a [String],
    active_tab: usize,
}

impl<'a> TabsBar<'a> {
    /// The tab labels.
    pub closed spec fn spec_tabs(&self) -> Seq<Seq<char>> {
        self.tabs@.map_values(|s: String| s@)
    }

    /// The selected tab.
    pub closed spec fn spec_active_tab(&self) -> usize {
        self.active_tab
    }

    /// A tab strip over `tabs` with `active_tab` selected.
    pub fn new(tabs: &'a [String], active_tab: usize) -> (r: Self)
        ensures
            r.spec_tabs() == tabs@.map_values(|s: String| s@),
            r.spec_active_tab() == active_tab,
    {
        Self { tabs, active_tab }
    }

    /// The selected tab.
    pub fn active_tab(&self) -> (r: usize)
        ensures
            r == self.spec_active_tab(),
    {
        self.active_tab
    }

    /// The text of each tab in the strip.
    pub fn tab_texts(&self) -> (r: Vec<String>)
        ensures
            r@.map_values(|s: String| s@) == spec_tab_texts(self.spec_tabs()),
    {
        let mut r: Vec<String> = Vec::new();
        if self.tabs.len() == 0 {
            r.push(owned("no chats"));
            assert(r@.map_values(|s: String| s@) =~= spec_tab_texts(self.spec_tabs()));
            return r;
        }
        let ghost labels = self.spec_tabs();
        let ghost target = spec_tab_texts(labels);
        let mut index: usize = 0;
        while index < self.tabs.len()
            invariant
                index <= self.tabs@.len(),
                labels == self.spec_tabs(),
                labels.len() > 0,
                target == spec_tab_texts(labels),
                r@.map_values(|s: String| s@) == target.take(index as int),
            decreases self.tabs@.len() - index,
        {
            let mut text = owned(" ");
            push_str(&mut text, self.tabs[index].as_str());
            text.push(' ');
            proof {
                assert(labels[index as int] == self.tabs@[index as int]@);
                assert(" "@ =~= seq![' ']) by {
                    reveal_strlit(" ");
                }
                assert(text@ =~= target[index as int]);
            }
            let ghost prev = r@;
            r.push(text);
            assert(r@.map_values(|s: String| s@) =~= prev.map_values(|s: String| s@).push(text@));
            assert(target.take(index + 1) =~= target.take(index as int).push(target[index as int]));
            index = index + 1;
        }
        assert(target.take(index as int) =~= target);
        r
    }

    /// The pieces of the strip's one line, in order.
    pub fn tab_pieces(&self) -> (r: Vec<(TabPiece, String)>)
        ensures
            r@.map_values(|p: (TabPiece, String)| (p.0, p.1@)) == spec_tab_pieces(
                self.spec_tabs(),
                self.spec_active_tab(),
            ),
    {
        let texts = self.tab_texts();
        let ghost labels = self.spec_tabs();
        let ghost active = self.spec_active_tab();
        let mut r: Vec<(TabPiece, String)> = Vec::new();
        if self.tabs.len() == 0 {
            r.push((TabPiece::Plain, owned("no chats")));
            assert(r@.map_values(|p: (TabPiece, String)| (p.0, p.1@)) =~= spec_tab_pieces(labels, active));
            return r;
        }
        assert(texts@.map_values(|t: String| t@).len() == texts@.len());
        let mut i: usize = 0;
        while i < texts.len()
            invariant
                i <= texts@.len(),
                texts@.len() == labels.len(),
                labels.len() > 0,
                labels == self.spec_tabs(),
                active == self.spec_active_tab(),
                texts@.map_values(|t: String| t@) == spec_tab_texts(labels),
                i == 0 ==> r@.len() == 0,
                i > 0 ==> r@.len() == 2 * i - 1,
                forall|k: int|
                    0 <= k < r@.len() ==> (#[trigger] r@[k].0, r@[k].1@) == spec_tab_piece(
                        labels,
                        active,
                        k,
                    ),
            decreases texts@.len() - i,
        {
            if i > 0 {
                r.push((TabPiece::Plain, owned("  ")));
                proof {
                    reveal_strlit("  ");
                    let k = 2 * i - 1;
                    assert(k % 2 == 1);
                }
            }
            let kind = if i == self.active_tab {
                TabPiece::Selected
            } else {
                TabPiece::Unselected
            };
            r.push((kind, texts[i].clone()));
            proof {
                let k = 2 * i;
                assert(k % 2 == 0 && k / 2 == i);
                assert(texts@.map_values(|t: String| t@)[i as int] == texts@[i as int]@);
            }
            i = i + 1;
        }
        assert(r@.map_values(|p: (TabPiece, String)| (p.0, p.1@)) =~= spec_tab_pieces(labels, active));
        r
    }
}

} // verus!
