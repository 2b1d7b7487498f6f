//! Notes dock models: per-side notes instances (tabs, mode, paper anchoring)
//! and the pane that owns a primary and an optional secondary instance.
//!
//! Gestures here mutate pane state only; where a gesture cascades into the
//! persistence backend (a tab switch re-focusing a note), the method returns
//! the note id and the caller does the sync.

use vstd::prelude::*;

use crate::models::FeedItem;

verus! {

/// Which reader side a gesture addresses.
#[derive(Clone, Copy, PartialEq, Eq, Debug, Structural)]
pub enum FocusedReader {
    Primary,
    Secondary,
}

/// One note document open in the notes pane.
#[derive(Debug)]
pub struct NotesTab {
    pub note_id: String,
    pub title: String,
}

/// What the notes pane shows.
#[derive(Clone, Copy, PartialEq, Eq, Debug, Structural)]
pub enum NotesMode {
    PaperNotes,
    Library,
    Capture,
}

/// The paper a note is anchored to.
#[derive(Debug)]
pub struct PaperRef {
    pub id: String,
    pub title: String,
    pub url: String,
}

#[derive(Debug)]
pub struct NotesContext {
    pub paper: PaperRef,
    pub source_label: String,
}

/// What the shell reads of the notes persistence backend.
#[derive(Debug)]
pub struct NotesBackendState {
    /// A popup of the backend is open.
    pub popup_open: bool,
    /// The backend is in its editor state.
    pub editor_active: bool,
}

/// Cycle order of the notes modes.
pub open spec fn cycle_order_spec() -> Seq<NotesMode> {
    seq![NotesMode::PaperNotes, NotesMode::Library, NotesMode::Capture]
}

/// Position of `m` in the cycle order.
pub open spec fn mode_index(m: NotesMode) -> int {
    match m {
        NotesMode::PaperNotes => 0,
        NotesMode::Library => 1,
        NotesMode::Capture => 2,
    }
}

impl NotesMode {
    /// Cycle order for mode rotation in the notes pane.
    pub fn cycle_order() -> (r: [NotesMode; 3])
        ensures
            r@ == cycle_order_spec(),
    {
        let r = [NotesMode::PaperNotes, NotesMode::Library, NotesMode::Capture];
        assert(r@ =~= cycle_order_spec());
        r
    }

    pub fn title(self) -> (r: &'static str)
        ensures
            r == match self {
                NotesMode::PaperNotes => "Paper Notes",
                NotesMode::Library => "Notes Library",
                NotesMode::Capture => "Capture",
            },
    {
        match self {
            NotesMode::PaperNotes => "Paper Notes",
            NotesMode::Library => "Notes Library",
            NotesMode::Capture => "Capture",
        }
    }

    pub fn footer_label(self) -> (r: &'static str)
        ensures
            r == match self {
                NotesMode::PaperNotes => "paper notes",
                NotesMode::Library => "notes library",
                NotesMode::Capture => "capture",
            },
    {
        match self {
            NotesMode::PaperNotes => "paper notes",
            NotesMode::Library => "notes library",
            NotesMode::Capture => "capture",
        }
    }
}

impl Default for NotesMode {
    fn default() -> (m: Self)
        ensures
            m == NotesMode::Library,
    {
        NotesMode::Library
    }
}

/// One notes context (primary or secondary).
#[derive(Debug)]
pub struct NotesInstanceModel {
    pub tabs: Vec<NotesTab>,
    pub active_tab: usize,
    pub mode: NotesMode,
    pub context: Option<NotesContext>,
}

impl NotesInstanceModel {
    pub fn new() -> (m: Self)
        ensures
            m.tabs@.len() == 0,
            m.active_tab == 0,
            m.mode == NotesMode::Library,
            m.context.is_none(),
    {
        NotesInstanceModel { tabs: Vec::new(), active_tab: 0, mode: NotesMode::Library, context: None }
    }
}

impl Default for NotesInstanceModel {
    fn default() -> (m: Self)
        ensures
            m.tabs@.len() == 0,
            m.active_tab == 0,
            m.mode == NotesMode::Library,
            m.context.is_none(),
    {
        NotesInstanceModel::new()
    }
}

/// Composition-root model for the notes dock.
///
/// `secondary_visible` is meaningful only when `secondary` is `Some`.
#[derive(Debug)]
pub struct NotesPaneModel {
    /// Persistence backend state, loaded lazily.
    pub app: Option<NotesBackendState>,
    pub primary: NotesInstanceModel,
    pub primary_visible: bool,
    /// `None` = never opened.
    pub secondary: Option<NotesInstanceModel>,
    pub secondary_visible: bool,
}

/// Outcome of [`NotesPaneModel::close_active_tab`].
#[derive(Debug)]
pub enum CloseTabOutcome {
    /// The side had no tabs, or was never opened.
    NoOp,
    /// Another tab is now active; carries its note id.
    Switched(String),
    /// The last tab of the side was removed.
    BecameEmpty,
}

/// The instance `side` addresses, if it exists.
pub open spec fn instance_of(p: NotesPaneModel, side: FocusedReader) -> Option<NotesInstanceModel> {
    match side {
        FocusedReader::Primary => Some(p.primary),
        FocusedReader::Secondary => p.secondary,
    }
}

/// `p` with the instance at `side` replaced by `inst`.
pub open spec fn with_instance(p: NotesPaneModel, side: FocusedReader, inst: NotesInstanceModel) -> NotesPaneModel {
    match side {
        FocusedReader::Primary => NotesPaneModel { primary: inst, ..p },
        FocusedReader::Secondary => NotesPaneModel { secondary: Some(inst), ..p },
    }
}

/// `new` differs from `old` at most in the instance at `side`.
pub open spec fn same_except(old: NotesPaneModel, new: NotesPaneModel, side: FocusedReader) -> bool {
    &&& new.app == old.app
    &&& new.primary_visible == old.primary_visible
    &&& new.secondary_visible == old.secondary_visible
    &&& side == FocusedReader::Primary ==> new.secondary == old.secondary
    &&& side == FocusedReader::Secondary ==> new.primary == old.primary
}

/// `f(s)` may return `b` for some `s` that reads `id`.
pub open spec fn accepts<F: Fn(&str) -> bool>(f: F, id: Seq<char>, b: bool) -> bool {
    exists|s: &str| s@ == id && f.ensures((s,), b)
}

/// The tabs of the instance at `side` (none when it was never opened).
pub open spec fn tabs_of(p: NotesPaneModel, side: FocusedReader) -> Seq<NotesTab> {
    match instance_of(p, side) {
        Some(i) => i.tabs@,
        None => Seq::empty(),
    }
}

/// Position of the first occurrence of `x` in `s`.
pub open spec fn first_position(s: Seq<Seq<char>>, x: Seq<char>) -> int {
    choose|i: int| 0 <= i < s.len() && s[i] == x && forall|j: int| 0 <= j < i ==> s[j] != x
}

/// Note ids of a tab list.
pub open spec fn tab_ids(tabs: Seq<NotesTab>) -> Seq<Seq<char>> {
    tabs.map_values(|t: NotesTab| t.note_id@)
}

/// The tabs kept by a predicate outcome per tab.
pub open spec fn kept_tabs(tabs: Seq<NotesTab>, keep: Seq<bool>) -> Seq<NotesTab>
    decreases tabs.len(),
{
    if tabs.len() == 0 || keep.len() == 0 {
        Seq::empty()
    } else {
        let rest = kept_tabs(tabs.drop_last(), keep.drop_last());
        if keep.last() {
            rest.push(tabs.last())
        } else {
            rest
        }
    }
}

/// The clamped index after pruning.
pub open spec fn clamp_active(active: usize, len: nat) -> usize {
    let cap: int = if len == 0 {
        0
    } else {
        len - 1
    };
    if active as int > cap {
        cap as usize
    } else {
        active
    }
}

fn clamp_active_exec(active: usize, len: usize) -> (r: usize)
    ensures
        r == clamp_active(active, len as nat),
{
    let cap = if len == 0 {
        0
    } else {
        len - 1
    };
    if active > cap {
        cap
    } else {
        active
    }
}

/// Keep the tabs of `tabs` for which `pred` accepts the note id.
fn retain_tabs<F: Fn(&str) -> bool>(tabs: Vec<NotesTab>, pred: &F) -> (r: (Vec<NotesTab>, Ghost<Seq<bool>>))
    requires
        forall|s: &str| #[trigger] pred.requires((s,)),
    ensures
        r.1@.len() == tabs@.len(),
        forall|i: int| 0 <= i < tabs@.len() ==> accepts(*pred, tabs@[i].note_id@, #[trigger] r.1@[i]),
        r.0@ == kept_tabs(tabs@, r.1@),
{
    let ghost orig = tabs@;
    let mut out: Vec<NotesTab> = Vec::new();
    let ghost mut keep: Seq<bool> = Seq::empty();
    let ghost mut seen: Seq<NotesTab> = Seq::empty();
    for t in it: tabs.into_iter()
        invariant
            forall|s: &str| #[trigger] pred.requires((s,)),
            seen == it.seq().take(it.index() as int),
            keep.len() == seen.len(),
            forall|i: int| 0 <= i < seen.len() ==> accepts(*pred, seen[i].note_id@, #[trigger] keep[i]),
            out@ == kept_tabs(seen, keep),
    {
        let id = t.note_id.as_str();
        let k = pred(id);
        proof {
            assert(accepts(*pred, t.note_id@, k));
            let ns = seen.push(t);
            let nk = keep.push(k);
            assert(ns.drop_last() == seen);
            assert(nk.drop_last() == keep);
            assert(it.seq().take(it.index() + 1) == ns);
            seen = ns;
            keep = nk;
        }
        if k {
            out.push(t);
        }
    }
    assert(seen == orig);
    (out, Ghost(keep))
}

/// Position of the first tab whose note id is `id`.
fn find_tab(tabs: &Vec<NotesTab>, id: &str) -> (r: Option<usize>)
    ensures
        match r {
            Some(i) => tab_ids(tabs@).contains(id@) && i as int == first_position(tab_ids(tabs@), id@),
            None => !tab_ids(tabs@).contains(id@),
        },
{
    let ghost ids = tab_ids(tabs@);
    let mut i: usize = 0;
    while i < tabs.len()
        invariant
            i <= tabs@.len(),
            ids == tab_ids(tabs@),
            forall|j: int| 0 <= j < i ==> ids[j] != id@,
        decreases tabs@.len() - i,
    {
        if crate::text::str_eq(tabs[i].note_id.as_str(), id) {
            proof {
                assert(ids[i as int] == id@);
                assert(0 <= i < ids.len() && ids[i as int] == id@ && forall|j: int|
                    0 <= j < i ==> ids[j] != id@);
                let k = first_position(ids, id@);
                if k < i {
                    assert(ids[k] != id@);
                }
                if k > i {
                    assert(ids[i as int] != id@);
                }
            }
            return Some(i);
        }
        i += 1;
    }
    None
}

impl NotesPaneModel {
    pub fn new() -> (p: Self)
        ensures
            p.app.is_none(),
            p.primary.tabs@.len() == 0,
            p.primary.active_tab == 0,
            p.primary.mode == NotesMode::Library,
            p.primary.context.is_none(),
            !p.primary_visible,
            p.secondary.is_none(),
            !p.secondary_visible,
    {
        NotesPaneModel {
            app: None,
            primary: NotesInstanceModel::new(),
            primary_visible: false,
            secondary: None,
            secondary_visible: false,
        }
    }

    /// The instance at `side`; secondary is `None` until first opened.
    pub fn instance(&self, side: FocusedReader) -> (r: Option<&NotesInstanceModel>)
        ensures
            match side {
                FocusedReader::Primary => r == Some(&self.primary),
                FocusedReader::Secondary => match self.secondary {
                    Some(s) => r == Some(&s),
                    None => r.is_none(),
                },
            },
    {
        match side {
            FocusedReader::Primary => Some(&self.primary),
            FocusedReader::Secondary => match &self.secondary {
                Some(s) => Some(s),
                None => None,
            },
        }
    }

    /// Mutable counterpart of [`NotesPaneModel::instance`].
    pub fn instance_mut(&mut self, side: FocusedReader) -> (r: Option<&mut NotesInstanceModel>)
        ensures
            match side {
                FocusedReader::Primary => r.is_some() && *r.unwrap() == old(self).primary
                    && *final(self) == with_instance(*old(self), side, *final(r.unwrap())),
                FocusedReader::Secondary => match old(self).secondary {
                    Some(s) => r.is_some() && *r.unwrap() == s && *final(self) == with_instance(
                        *old(self),
                        side,
                        *final(r.unwrap()),
                    ),
                    None => r.is_none() && *final(self) == *old(self),
                },
            },
    {
        match side {
            FocusedReader::Primary => Some(&mut self.primary),
            FocusedReader::Secondary => match &mut self.secondary {
                Some(s) => Some(s),
                None => None,
            },
        }
    }

    /// The instance at `side`, allocating the secondary on first use.
    pub fn instance_or_init_mut(&mut self, side: FocusedReader) -> (r: &mut NotesInstanceModel)
        ensures
            side == FocusedReader::Primary ==> *r == old(self).primary,
            side == FocusedReader::Secondary ==> match old(self).secondary {
                Some(s) => *r == s,
                None => r.tabs@.len() == 0 && r.active_tab == 0 && r.mode == NotesMode::Library
                    && r.context.is_none(),
            },
            *final(self) == with_instance(*old(self), side, *final(r)),
    {
        match side {
            FocusedReader::Primary => &mut self.primary,
            FocusedReader::Secondary => {
                if self.secondary.is_none() {
                    self.secondary = Some(NotesInstanceModel::new());
                }
                match &mut self.secondary {
                    Some(s) => s,
                    None => vstd::pervasive::unreached(),
                }
            },
        }
    }

    /// Visibility of `side`; the secondary counts only once opened.
    pub fn is_visible(&self, side: FocusedReader) -> (r: bool)
        ensures
            r == match side {
                FocusedReader::Primary => self.primary_visible,
                FocusedReader::Secondary => self.secondary.is_some() && self.secondary_visible,
            },
    {
        match side {
            FocusedReader::Primary => self.primary_visible,
            FocusedReader::Secondary => self.secondary.is_some() && self.secondary_visible,
        }
    }

    /// Set the visibility flag of `side`.
    pub fn set_visible(&mut self, side: FocusedReader, visible: bool)
        ensures
            side == FocusedReader::Primary ==> *final(self) == (NotesPaneModel {
                primary_visible: visible,
                ..*old(self)
            }),
            side == FocusedReader::Secondary ==> *final(self) == (NotesPaneModel {
                secondary_visible: visible,
                ..*old(self)
            }),
    {
        match side {
            FocusedReader::Primary => self.primary_visible = visible,
            FocusedReader::Secondary => self.secondary_visible = visible,
        }
    }

    /// Either side is visible.
    pub fn any_visible(&self) -> (r: bool)
        ensures
            r == (self.primary_visible || self.secondary_visible),
    {
        self.primary_visible || self.secondary_visible
    }

    /// Hide both sides without dropping tabs.
    pub fn hide_all(&mut self)
        ensures
            *final(self) == (NotesPaneModel {
                primary_visible: false,
                secondary_visible: false,
                ..*old(self)
            }),
    {
        self.primary_visible = false;
        self.secondary_visible = false;
    }

    /// The mode one step from `side`'s current mode in cycle order
    /// (`direction` +1 forward, -1 backward), wrapping around. An unopened
    /// secondary starts from the default mode.
    pub fn next_mode(&self, side: FocusedReader, direction: isize) -> (m: NotesMode)
        ensures
            ({
                let cur = match instance_of(*self, side) {
                    Some(i) => i.mode,
                    None => NotesMode::Library,
                };
                m == cycle_order_spec()[(mode_index(cur) + direction) % 3]
            }),
    {
        let order = NotesMode::cycle_order();
        let current_mode = match self.instance(side) {
            Some(i) => i.mode,
            None => NotesMode::Library,
        };
        let current: isize = match current_mode {
            NotesMode::PaperNotes => 0,
            NotesMode::Library => 1,
            NotesMode::Capture => 2,
        };
        let d = direction % 3;
        let sum = current + d;
        let next: isize = if sum < 0 {
            sum + 3
        } else if sum >= 3 {
            sum - 3
        } else {
            sum
        };
        assert(next == (current + direction) % 3) by {
            assert((current + direction) % 3 == (current + direction % 3) % 3);
        }
        order[next as usize]
    }

    /// Advance to the next tab on `side`, saturating at the last one.
    /// Returns the note id of the newly active tab.
    pub fn next_tab(&mut self, side: FocusedReader) -> (r: Option<String>)
        ensures
            match instance_of(*old(self), side) {
                Some(inst) => if inst.tabs@.len() == 0 {
                    r.is_none() && *final(self) == *old(self)
                } else {
                    let na = if inst.active_tab + 1 < inst.tabs@.len() {
                        (inst.active_tab + 1) as usize
                    } else {
                        (inst.tabs@.len() - 1) as usize
                    };
                    &&& *final(self) == with_instance(
                        *old(self),
                        side,
                        (NotesInstanceModel { active_tab: na, ..inst }),
                    )
                    &&& r matches Some(id) && id@ == inst.tabs@[na as int].note_id@
                },
                None => r.is_none() && *final(self) == *old(self),
            },
    {
        match self.instance_mut(side) {
            Some(inst) => {
                if inst.tabs.len() == 0 {
                    return None;
                }
                let len = inst.tabs.len();
                inst.active_tab = if inst.active_tab < len - 1 {
                    inst.active_tab + 1
                } else {
                    len - 1
                };
                Some(inst.tabs[inst.active_tab].note_id.clone())
            },
            None => None,
        }
    }

    /// Step back to the previous tab on `side`, saturating at 0.
    pub fn prev_tab(&mut self, side: FocusedReader) -> (r: Option<String>)
        ensures
            match instance_of(*old(self), side) {
                Some(inst) => if inst.tabs@.len() == 0 {
                    r.is_none() && *final(self) == *old(self)
                } else {
                    let na = if inst.active_tab > 0 {
                        (inst.active_tab - 1) as usize
                    } else {
                        0usize
                    };
                    &&& *final(self) == with_instance(
                        *old(self),
                        side,
                        (NotesInstanceModel { active_tab: na, ..inst }),
                    )
                    &&& na < inst.tabs@.len() ==> (r matches Some(id) && id@
                        == inst.tabs@[na as int].note_id@)
                    &&& na >= inst.tabs@.len() ==> r.is_none()
                },
                None => r.is_none() && *final(self) == *old(self),
            },
    {
        match self.instance_mut(side) {
            Some(inst) => {
                if inst.tabs.len() == 0 {
                    return None;
                }
                inst.active_tab = if inst.active_tab > 0 {
                    inst.active_tab - 1
                } else {
                    0
                };
                if inst.active_tab < inst.tabs.len() {
                    Some(inst.tabs[inst.active_tab].note_id.clone())
                } else {
                    None
                }
            },
            None => None,
        }
    }

    /// Remove the active tab on `side` (the active index clamped into the
    /// list first), then clamp the active index again.
    pub fn close_active_tab(&mut self, side: FocusedReader) -> (out: CloseTabOutcome)
        ensures
            match instance_of(*old(self), side) {
                Some(inst) => if inst.tabs@.len() == 0 {
                    out is NoOp && *final(self) == *old(self)
                } else {
                    let at = clamp_active(inst.active_tab, inst.tabs@.len());
                    let rest = inst.tabs@.remove(at as int);
                    let na = clamp_active(at, rest.len());
                    &&& same_except(*old(self), *final(self), side)
                    &&& instance_of(*final(self), side) matches Some(f) && {
                        &&& f.tabs@ == rest
                        &&& f.mode == inst.mode
                        &&& f.context == inst.context
                        &&& rest.len() > 0 ==> f.active_tab == na
                        &&& rest.len() == 0 ==> f.active_tab == at
                    }
                    &&& rest.len() == 0 ==> out is BecameEmpty
                    &&& rest.len() > 0 ==> (out matches CloseTabOutcome::Switched(id) && id@
                        == rest[na as int].note_id@)
                },
                None => out is NoOp && *final(self) == *old(self),
            },
    {
        let inst = match self.instance_mut(side) {
            Some(i) => i,
            None => return CloseTabOutcome::NoOp,
        };
        if inst.tabs.len() == 0 {
            return CloseTabOutcome::NoOp;
        }
        inst.active_tab = clamp_active_exec(inst.active_tab, inst.tabs.len());
        let _removed = inst.tabs.remove(inst.active_tab);
        if inst.tabs.len() == 0 {
            return CloseTabOutcome::BecameEmpty;
        }
        inst.active_tab = clamp_active_exec(inst.active_tab, inst.tabs.len());
        let note_id = inst.tabs[inst.active_tab].note_id.clone();
        CloseTabOutcome::Switched(note_id)
    }

    /// Add `tab` to `side` unless a tab with its note id is there, and make
    /// it active. Allocates the secondary on first use.
    pub fn add_or_focus_tab(&mut self, side: FocusedReader, tab: NotesTab)
        ensures
            same_except(*old(self), *final(self), side),
            instance_of(*final(self), side) is Some,
            match instance_of(*old(self), side) {
                Some(i) => instance_of(*final(self), side).unwrap().mode == i.mode
                    && instance_of(*final(self), side).unwrap().context == i.context,
                None => instance_of(*final(self), side).unwrap().mode == NotesMode::Library
                    && instance_of(*final(self), side).unwrap().context.is_none(),
            },
            tab_ids(tabs_of(*old(self), side)).contains(tab.note_id@) ==> {
                &&& instance_of(*final(self), side).unwrap().tabs@ == tabs_of(*old(self), side)
                &&& instance_of(*final(self), side).unwrap().active_tab as int == first_position(
                    tab_ids(tabs_of(*old(self), side)),
                    tab.note_id@,
                )
            },
            !tab_ids(tabs_of(*old(self), side)).contains(tab.note_id@) ==> {
                &&& instance_of(*final(self), side).unwrap().tabs@ == tabs_of(*old(self), side).push(tab)
                &&& instance_of(*final(self), side).unwrap().active_tab == tabs_of(*old(self), side).len()
            },
    {
        let inst = self.instance_or_init_mut(side);
        match find_tab(&inst.tabs, tab.note_id.as_str()) {
            Some(i) => {
                inst.active_tab = i;
            },
            None => {
                inst.tabs.push(tab);
                inst.active_tab = inst.tabs.len() - 1;
            },
        }
    }

    /// Drop tabs on both sides whose note id `pred` rejects, and clamp
    /// each active index into the remaining tabs.
    pub fn prune_tabs<F: Fn(&str) -> bool>(&mut self, pred: F)
        requires
            forall|s: &str| #[trigger] pred.requires((s,)),
        ensures
            exists|keep: Seq<bool>| {
                &&& keep.len() == old(self).primary.tabs@.len()
                &&& forall|i: int| 0 <= i < keep.len() ==> accepts(pred, old(self).primary.tabs@[i].note_id@, #[trigger] keep[i])
                &&& final(self).primary.tabs@ == kept_tabs(old(self).primary.tabs@, keep)
            },
            final(self).primary.active_tab == clamp_active(
                old(self).primary.active_tab,
                final(self).primary.tabs@.len(),
            ),
            final(self).primary.mode == old(self).primary.mode,
            final(self).primary.context == old(self).primary.context,
            match old(self).secondary {
                Some(s) => final(self).secondary is Some && {
                    let f = final(self).secondary.unwrap();
                    &&& exists|keep: Seq<bool>| {
                        &&& keep.len() == s.tabs@.len()
                        &&& forall|i: int| 0 <= i < keep.len() ==> accepts(pred, s.tabs@[i].note_id@, #[trigger] keep[i])
                        &&& f.tabs@ == kept_tabs(s.tabs@, keep)
                    }
                    &&& f.active_tab == clamp_active(s.active_tab, f.tabs@.len())
                    &&& f.mode == s.mode
                    &&& f.context == s.context
                },
                None => final(self).secondary.is_none(),
            },
            final(self).primary_visible == old(self).primary_visible,
            final(self).secondary_visible == old(self).secondary_visible,
            final(self).app == old(self).app,
    {
        let mut tabs: Vec<NotesTab> = Vec::new();
        std::mem::swap(&mut tabs, &mut self.primary.tabs);
        let (kept, Ghost(keep)) = retain_tabs(tabs, &pred);
        self.primary.tabs = kept;
        self.primary.active_tab = clamp_active_exec(self.primary.active_tab, self.primary.tabs.len());
        match &mut self.secondary {
            Some(sec) => {
                let mut stabs: Vec<NotesTab> = Vec::new();
                std::mem::swap(&mut stabs, &mut sec.tabs);
                let (skept, Ghost(skeep)) = retain_tabs(stabs, &pred);
                sec.tabs = skept;
                sec.active_tab = clamp_active_exec(sec.active_tab, sec.tabs.len());
            },
            None => {},
        }
    }

    /// Promote the secondary to primary: visibility follows the secondary,
    /// its tabs and active index replace the primary's, and the secondary
    /// is unloaded.
    pub fn collapse_secondary_into_primary(&mut self)
        ensures
            final(self).primary_visible == old(self).secondary_visible,
            !final(self).secondary_visible,
            final(self).secondary.is_none(),
            match old(self).secondary {
                Some(s) => final(self).primary.tabs == s.tabs && final(self).primary.active_tab
                    == s.active_tab,
                None => final(self).primary.tabs == old(self).primary.tabs
                    && final(self).primary.active_tab == old(self).primary.active_tab,
            },
            final(self).primary.mode == old(self).primary.mode,
            final(self).primary.context == old(self).primary.context,
            final(self).app == old(self).app,
    {
        self.primary_visible = self.secondary_visible;
        let mut sec: Option<NotesInstanceModel> = None;
        std::mem::swap(&mut sec, &mut self.secondary);
        match sec {
            Some(s) => {
                self.primary.tabs = s.tabs;
                self.primary.active_tab = s.active_tab;
            },
            None => {},
        }
        self.secondary_visible = false;
    }
}

impl Default for NotesPaneModel {
    fn default() -> (p: Self)
        ensures
            p.app.is_none(),
            p.primary.tabs@.len() == 0,
            p.primary.active_tab == 0,
            p.primary.mode == NotesMode::Library,
            p.primary.context.is_none(),
            !p.primary_visible,
            p.secondary.is_none(),
            !p.secondary_visible,
    {
        NotesPaneModel::new()
    }
}

/// Whether the notes shell's own shortcuts may run: no backend popup is
/// open and the backend is not in its editor.
pub fn notes_shell_shortcuts_allowed(notes_app: &NotesBackendState) -> (r: bool)
    ensures
        r == (!notes_app.popup_open && !notes_app.editor_active),
{
    !notes_app.popup_open && !notes_app.editor_active
}

/// The paper reference a feed item anchors notes to.
pub fn paper_ref_from_item(item: &FeedItem) -> (r: PaperRef)
    ensures
        r.id@ == item.id@,
        r.title@ == item.title@,
        r.url@ == item.url@,
{
    PaperRef {
        id: crate::text::to_owned_string(item.id.as_str()),
        title: crate::text::to_owned_string(item.title.as_str()),
        url: crate::text::to_owned_string(item.url.as_str()),
    }
}

/// The label shown for an item's source: its source name, or the
/// platform's short label when the name is empty.
pub open spec fn source_label_spec(item: FeedItem) -> Seq<char> {
    if item.source_name@.len() == 0 {
        item.source_platform.short_label_spec()@
    } else {
        item.source_name@
    }
}

pub fn source_label_for_item(item: &FeedItem) -> (r: String)
    ensures
        r@ == source_label_spec(*item),
{
    if item.source_name.as_str().is_empty() {
        crate::text::to_owned_string(item.source_platform.short_label())
    } else {
        crate::text::to_owned_string(item.source_name.as_str())
    }
}

/// The notes context for an item: its paper reference and source label.
pub fn notes_context_from_item(item: &FeedItem) -> (r: NotesContext)
    ensures
        r.paper.id@ == item.id@,
        r.paper.title@ == item.title@,
        r.paper.url@ == item.url@,
        r.source_label@ == source_label_spec(*item),
{
    NotesContext { paper: paper_ref_from_item(item), source_label: source_label_for_item(item) }
}

/// Law: one mode step forward followed by one step back returns to the
/// starting mode.
pub proof fn lemma_mode_step_round_trip(m: NotesMode)
    ensures
        ({
            let fwd = cycle_order_spec()[(mode_index(m) + 1) % 3];
            cycle_order_spec()[(mode_index(fwd) - 1) % 3] == m
        }),
{
}

} // verus!
