//! The preview surfaces of the open windows, by window label, and the two
//! entry points through which the host's event loop drives them.
use vstd::prelude::*;
use crate::cli::CliOptions;
use crate::graphics::context::{rendered, resized, size_fits, Context, GraphicsError, PhysicalSize};

verus! {

/// The preview surface of one window.
pub struct WindowContext {
    pub label: String,
    pub context: Context,
}

/// The preview surfaces by window label; a later entry for a label replaces
/// an earlier one.
pub struct ContextRegistry {
    pub entries: Vec<WindowContext>,
}

/// The index of the last entry for `label`, or -1 where there is none.
pub open spec fn entry_index(s: Seq<WindowContext>, label: Seq<char>) -> int
    decreases s.len(),
{
    if s.len() == 0 {
        -1
    } else if s.last().label@ == label {
        s.len() - 1
    } else {
        entry_index(s.drop_last(), label)
    }
}

proof fn lemma_entry_index_bounds(s: Seq<WindowContext>, label: Seq<char>)
    ensures
        -1 <= entry_index(s, label) < s.len(),
        entry_index(s, label) >= 0 ==> s[entry_index(s, label)].label@ == label,
    decreases s.len(),
{
    if s.len() > 0 && s.last().label@ != label {
        lemma_entry_index_bounds(s.drop_last(), label);
    }
}

/// What the window does on a close request.
pub enum CloseAction {
    /// The window is hidden and stays open (the application lives in the tray).
    Hide,
    /// The window closes.
    Close,
}

/// On a close request a window hides where the application was started to
/// minimise to the tray, and closes otherwise.
pub fn on_close_requested(options: &CliOptions) -> (r: CloseAction)
    ensures
        r is Hide <==> options.opt_minimize_tray,
{
    if options.opt_minimize_tray {
        CloseAction::Hide
    } else {
        CloseAction::Close
    }
}

impl ContextRegistry {
    /// Every registered surface is well formed.
    pub open spec fn wf(&self) -> bool {
        forall|i: int| 0 <= i < self.entries@.len() ==> (#[trigger] self.entries@[i]).context.wf()
    }

    pub fn new() -> (r: ContextRegistry)
        ensures
            r.entries@.len() == 0,
            r.wf(),
    {
        ContextRegistry { entries: Vec::new() }
    }

    /// Registers the preview surface of window `label`.
    pub fn insert(&mut self, label: String, context: Context)
        requires
            old(self).wf(),
            context.wf(),
        ensures
            final(self).wf(),
            final(self).entries@ == old(self).entries@.push(WindowContext { label, context }),
            entry_index(final(self).entries@, label@) == old(self).entries@.len(),
    {
        self.entries.push(WindowContext { label, context });
    }

    /// The index of the entry of window `label`, if it has one.
    pub fn find(&self, label: &str) -> (r: Option<usize>)
        ensures
            r is Some <==> entry_index(self.entries@, label@) >= 0,
            r is Some ==> r->0 == entry_index(self.entries@, label@),
    {
        let wanted: String = label.to_owned();
        let mut i: usize = self.entries.len();
        assert(self.entries@.subrange(0, i as int) =~= self.entries@);
        while i > 0
            invariant
                i <= self.entries@.len(),
                wanted@ == label@,
                entry_index(self.entries@, label@) == entry_index(
                    self.entries@.subrange(0, i as int),
                    label@,
                ),
            decreases i,
        {
            let ghost before = self.entries@.subrange(0, i as int);
            assert(before.drop_last() =~= self.entries@.subrange(0, i - 1));
            if self.entries[i - 1].label == wanted {
                return Some(i - 1);
            }
            i = i - 1;
        }
        None
    }

    /// A window was resized: its preview surface takes the new size where the
    /// window is registered and the size is one the surface accepts (a
    /// minimised window reports a zero size, which is skipped). Returns
    /// whether the surface was resized.
    pub fn on_resize(&mut self, label: &str, size: &PhysicalSize) -> (r: bool)
        requires
            old(self).wf(),
        ensures
            final(self).wf(),
            ({
                let i = entry_index(old(self).entries@, label@);
                &&& r <==> (i >= 0 && size_fits(
                    *size,
                    old(self).entries@[i].context.spec_max_dimension(),
                ))
                &&& r ==> final(self).entries@.len() == old(self).entries@.len()
                    && final(self).entries@[i].label == old(self).entries@[i].label && resized(
                    old(self).entries@[i].context,
                    *size,
                    final(self).entries@[i].context,
                ) && forall|j: int|
                    0 <= j < old(self).entries@.len() && j != i ==> final(self).entries@[j]
                        == old(self).entries@[j]
                &&& !r ==> final(self).entries@ == old(self).entries@
            }),
    {
        proof {
            lemma_entry_index_bounds(self.entries@, label@);
        }
        let found = self.find(label);
        match found {
            None => false,
            Some(i) => {
                let max_dimension = self.entries[i].context.max_dimension();
                if !(0 < size.width && size.width <= max_dimension && 0 < size.height
                    && size.height <= max_dimension) {
                    return false;
                }
                let ghost before = self.entries@;
                assert(before[i as int].context.wf());
                let mut entry = self.entries.remove(i);
                entry.context.resize(size);
                self.entries.insert(i, entry);
                proof {
                    assert forall|j: int| 0 <= j < self.entries@.len() implies (
                    #[trigger] self.entries@[j]).context.wf() by {
                        if j < i {
                            assert(self.entries@[j] == before[j]);
                        } else if j > i {
                            assert(self.entries@[j] == before[j]);
                        }
                    }
                    assert forall|j: int|
                        0 <= j < before.len() && j != i implies self.entries@[j] == before[j] by {
                        if j < i {
                            assert(self.entries@[j] == before.remove(i as int)[j]);
                        } else {
                            assert(self.entries@[j] == before.remove(i as int)[j - 1]);
                        }
                    }
                }
                true
            },
        }
    }

    /// An idle tick of the event loop: draws a frame of the preview surface of
    /// window `main_label` and gives `render`'s result; `None` where that
    /// window has no surface. Other surfaces are unchanged.
    pub fn on_idle_tick(&mut self, main_label: &str) -> (r: Option<Result<(), GraphicsError>>)
        requires
            old(self).wf(),
        ensures
            final(self).wf(),
            final(self).entries@.len() == old(self).entries@.len(),
            ({
                let i = entry_index(old(self).entries@, main_label@);
                &&& r is Some <==> i >= 0
                &&& r is Some ==> final(self).entries@[i].label == old(self).entries@[i].label
                    && rendered(
                    old(self).entries@[i].context,
                    r->0,
                    final(self).entries@[i].context,
                ) && forall|j: int|
                    0 <= j < old(self).entries@.len() && j != i ==> final(self).entries@[j]
                        == old(self).entries@[j]
                &&& r is None ==> final(self).entries@ == old(self).entries@
            }),
    {
        proof {
            lemma_entry_index_bounds(self.entries@, main_label@);
        }
        match self.find(main_label) {
            None => None,
            Some(i) => {
                let ghost before = self.entries@;
                assert(before[i as int].context.wf());
                let mut entry = self.entries.remove(i);
                let result = entry.context.render();
                self.entries.insert(i, entry);
                proof {
                    assert forall|j: int|
                        0 <= j < before.len() && j != i implies self.entries@[j] == before[j] by {
                        if j < i {
                            assert(self.entries@[j] == before.remove(i as int)[j]);
                        } else {
                            assert(self.entries@[j] == before.remove(i as int)[j - 1]);
                        }
                    }
                    assert forall|j: int| 0 <= j < self.entries@.len() implies (
                    #[trigger] self.entries@[j]).context.wf() by {
                        if j != i {
                            assert(self.entries@[j] == before[j]);
                        }
                    }
                }
                Some(result)
            },
        }
    }
}

} // verus!
