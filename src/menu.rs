//! The menu: a titled list of entries, one of them selected, each with the
//! game event it stands for.
use crate::states::GameEvent;
use vstd::prelude::*;

verus! {

/// A menu and its selection.
pub struct Menu {
    pub items: Vec<(String, Option<GameEvent>)>,
    pub index: usize,
    pub title: String,
}

impl Menu {
    /// The selection is an entry of the menu, or 0 while it has none.
    pub open spec fn wf(&self) -> bool {
        if self.items@.len() == 0 {
            self.index == 0
        } else {
            self.index < self.items@.len()
        }
    }

    /// An empty menu without a title.
    pub fn new() -> (r: Menu)
        ensures
            r.wf(),
            r.items@.len() == 0,
            r.title@.len() == 0,
    {
        Menu { items: Vec::new(), index: 0, title: String::new() }
    }

    /// Appends an entry and selects the first entry.
    pub fn add_item(&mut self, item: (&str, Option<GameEvent>))
        ensures
            final(self).wf(),
            final(self).items@.len() == old(self).items@.len() + 1,
            forall|i: int| 0 <= i < old(self).items@.len() ==> final(self).items@[i] == old(self).items@[i],
            final(self).items@.last().0@ == item.0@,
            final(self).items@.last().1 == item.1,
            final(self).index == 0,
            final(self).title == old(self).title,
    {
        let name = String::from_str(item.0);
        self.items.push((name, item.1));
        self.index = 0;
    }

    /// Sets the title.
    pub fn set_title(&mut self, title: &str)
        ensures
            final(self).title@ == title@,
            final(self).items == old(self).items,
            final(self).index == old(self).index,
    {
        self.title = String::from_str(title);
    }

    /// Acts on a menu event: the next and previous events move the
    /// selection, wrapping around at either end; selecting gives the event
    /// of the selected entry. Other events change nothing.
    pub fn update(&mut self, event: GameEvent) -> (r: Option<GameEvent>)
        requires
            old(self).wf(),
            old(self).items@.len() > 0 || !(event is NextMenuItem || event is PrevMenuItem
                || event is SelectMenuItem),
        ensures
            final(self).wf(),
            final(self).items == old(self).items,
            final(self).title == old(self).title,
            final(self).index == (match event {
                GameEvent::NextMenuItem => (old(self).index + 1) % old(self).items@.len() as int,
                GameEvent::PrevMenuItem => (old(self).index + old(self).items@.len() - 1)
                    % old(self).items@.len() as int,
                _ => old(self).index as int,
            }),
            r == (match event {
                GameEvent::SelectMenuItem => old(self).items@[old(self).index as int].1,
                _ => None,
            }),
    {
        match event {
            GameEvent::NextMenuItem => {
                let n = self.items.len();
                let i = self.index;
                self.index = if i + 1 == n {
                    0
                } else {
                    i + 1
                };
                proof {
                    assert(self.index == (i + 1) % n as int) by (nonlinear_arith)
                        requires
                            i < n,
                            self.index == (if i + 1 == n { 0 } else { i + 1 }),
                    ;
                }
                None
            },
            GameEvent::PrevMenuItem => {
                let n = self.items.len();
                let i = self.index;
                self.index = if i == 0 {
                    n - 1
                } else {
                    i - 1
                };
                proof {
                    assert(self.index == (i + n - 1) % n as int) by (nonlinear_arith)
                        requires
                            i < n,
                            self.index == (if i == 0 { n - 1 } else { i - 1 }),
                    ;
                }
                None
            },
            GameEvent::SelectMenuItem => self.items[self.index].1,
            _ => None,
        }
    }
}

} // verus!
