use vstd::prelude::*;
use crate::settings::{Position, Settings, Theme};
use crate::tree::{MenuTree, NodeView, menu_of};

verus! {

/// Why a menu operation was refused.
#[derive(Clone, Copy, Debug, PartialEq, Eq, Structural)]
pub enum MenuError {
    /// The window has no menu in the registry.
    MenuNotPrepared,
    /// The window's native handle could not be resolved.
    HandleUnavailable,
    /// The menu toolkit rejected the menu description.
    BuildFailure,
    /// The window's menu is already showing.
    PopupActive,
}

impl MenuError {
    /// The text that describes this error to a caller.
    pub open spec fn text(self) -> Seq<char> {
        match self {
            MenuError::MenuNotPrepared => "menu not prepared for this window"@,
            MenuError::HandleUnavailable => "window handle is not available"@,
            MenuError::BuildFailure => "menu description was rejected"@,
            MenuError::PopupActive => "menu is already showing"@,
        }
    }

    /// The text that describes this error to a caller.
    pub fn message(&self) -> (res: String)
        ensures
            res@ == self.text(),
    {
        match self {
            MenuError::MenuNotPrepared => "menu not prepared for this window".to_owned(),
            MenuError::HandleUnavailable => "window handle is not available".to_owned(),
            MenuError::BuildFailure => "menu description was rejected".to_owned(),
            MenuError::PopupActive => "menu is already showing".to_owned(),
        }
    }
}

/// Where the menu of one window stands in its life.
#[derive(Clone, Copy, Debug, PartialEq, Eq, Structural)]
pub enum MenuState {
    /// The window has no menu yet.
    Unprepared,
    /// The window has a menu, and it is not on screen.
    Prepared,
    /// The window's menu is on screen, waiting for the user.
    Showing,
}

/// The live menu of one window.
#[derive(Debug)]
pub struct MenuEntry<M> {
    window: String,
    menu: M,
    tree: MenuTree,
    theme: Theme,
    showing: bool,
}

/// What the registry holds for one window, as mathematical values.
pub ghost struct EntryView<M> {
    pub menu: M,
    pub tree: Seq<NodeView>,
    pub theme: Theme,
    pub showing: bool,
}

/// What the caller has to display: the menu of `window` at `position`.
#[derive(Debug)]
pub struct PopupRequest {
    pub window: String,
    pub position: Position,
}

/// An event addressed to the window `target`.
#[derive(Debug)]
pub struct MenuEvent {
    pub target: String,
    pub name: String,
    pub payload: String,
}

/// The single mapping from window identifier to live menu. `M` is the
/// toolkit's menu object; the registry is its only owner.
#[derive(Debug)]
pub struct MenuRegistry<M> {
    entries: Vec<MenuEntry<M>>,
}

/// The entry of a window that is prepared for the first time.
pub open spec fn fresh_entry<M>(menu: M, settings: Settings) -> EntryView<M> {
    EntryView {
        menu,
        tree: menu_of(settings.sort@, settings.timestamp@, settings.mode@, settings.theme@),
        theme: Theme::of_menu_setting(settings.theme@),
        showing: false,
    }
}

/// The registry after `window` was prepared: menu object, contents and theme
/// of its entry are replaced together. Preparing neither starts nor ends a
/// popup: a menu that was showing is still showing.
pub open spec fn prepared<M>(
    reg: Map<Seq<char>, EntryView<M>>,
    window: Seq<char>,
    menu: M,
    settings: Settings,
) -> Map<Seq<char>, EntryView<M>> {
    reg.insert(
        window,
        EntryView { showing: showing_in(reg, window), ..fresh_entry(menu, settings) },
    )
}

/// Whether a popup can start for `window`: it has a menu, and the menu is not
/// showing.
pub open spec fn can_open<M>(reg: Map<Seq<char>, EntryView<M>>, window: Seq<char>) -> bool {
    reg.contains_key(window) && !reg[window].showing
}

/// The registry with the menu of `window` marked as showing or not.
pub open spec fn with_showing<M>(
    reg: Map<Seq<char>, EntryView<M>>,
    window: Seq<char>,
    showing: bool,
) -> Map<Seq<char>, EntryView<M>> {
    reg.insert(window, EntryView { showing, ..reg[window] })
}

/// The registry after a best-effort sweep: every menu that is not showing
/// has the new theme, every menu that is showing is left as it was.
pub open spec fn restyled<M>(reg: Map<Seq<char>, EntryView<M>>, theme: Theme) -> Map<
    Seq<char>,
    EntryView<M>,
> {
    Map::new(
        |w: Seq<char>| reg.contains_key(w),
        |w: Seq<char>|
            if reg[w].showing {
                reg[w]
            } else {
                EntryView { theme, ..reg[w] }
            },
    )
}

/// The event that a finished popup gives rise to: one for a selection, none
/// for a dismissal.
pub open spec fn emitted(window: Seq<char>, selection: Option<Seq<char>>, event: Option<
    MenuEvent,
>) -> bool {
    match selection {
        Some(id) => event.is_some() && event.unwrap().target@ == window && event.unwrap().name@
            == "contextmenu-event"@ && event.unwrap().payload@ == id,
        None => event.is_none(),
    }
}

/// The text of the chosen item's id, if an item was chosen.
pub open spec fn selection_view(selection: Option<String>) -> Option<Seq<char>> {
    match selection {
        Some(id) => Some(id@),
        None => None,
    }
}

/// Whether the menu of `window` is showing.
pub open spec fn showing_in<M>(reg: Map<Seq<char>, EntryView<M>>, window: Seq<char>) -> bool {
    reg.contains_key(window) && reg[window].showing
}

/// The state of the menu of `window`.
pub open spec fn state_of<M>(reg: Map<Seq<char>, EntryView<M>>, window: Seq<char>) -> MenuState {
    if !reg.contains_key(window) {
        MenuState::Unprepared
    } else if reg[window].showing {
        MenuState::Showing
    } else {
        MenuState::Prepared
    }
}

/// Whether `names` holds the text `window`.
pub open spec fn lists(names: Seq<String>, window: Seq<char>) -> bool {
    exists|k: int| 0 <= k < names.len() && (#[trigger] names[k])@ == window
}

spec fn open_upto<M>(entries: Seq<MenuEntry<M>>, n: int, window: Seq<char>) -> bool {
    exists|j: int| 0 <= j < n && !(#[trigger] entries[j]).showing && entries[j].window@ == window
}

spec fn entry_view<M>(e: MenuEntry<M>) -> EntryView<M> {
    EntryView { menu: e.menu, tree: e.tree@, theme: e.theme, showing: e.showing }
}

spec fn distinct<M>(entries: Seq<MenuEntry<M>>) -> bool {
    forall|i: int, j: int|
        0 <= i < j < entries.len() ==> (#[trigger] entries[i]).window@ != (
        #[trigger] entries[j]).window@
}

spec fn holds_upto<M>(entries: Seq<MenuEntry<M>>, n: nat, window: Seq<char>) -> bool {
    exists|i: int| 0 <= i < n && (#[trigger] entries[i]).window@ == window
}

spec fn view_upto<M>(entries: Seq<MenuEntry<M>>, n: nat) -> Map<Seq<char>, EntryView<M>>
    decreases n,
{
    if n == 0 {
        Map::empty()
    } else {
        view_upto(entries, (n - 1) as nat).insert(
            entries[n - 1].window@,
            entry_view(entries[n - 1]),
        )
    }
}

proof fn lemma_view_upto<M>(entries: Seq<MenuEntry<M>>, n: nat)
    requires
        n <= entries.len(),
        distinct(entries),
    ensures
        forall|k: Seq<char>| #[trigger]
            view_upto(entries, n).contains_key(k) <==> holds_upto(entries, n, k),
        forall|i: int|
            0 <= i < n ==> view_upto(entries, n).contains_key((#[trigger] entries[i]).window@)
                && view_upto(entries, n)[entries[i].window@] == entry_view(entries[i]),
        view_upto(entries, n).dom().finite(),
        view_upto(entries, n).len() == n,
    decreases n,
{
    if n > 0 {
        let m = (n - 1) as nat;
        lemma_view_upto(entries, m);
        let last = entries[n - 1];
        assert(!holds_upto(entries, m, last.window@));
        assert(!view_upto(entries, m).contains_key(last.window@));
        assert forall|k: Seq<char>| #[trigger]
            view_upto(entries, n).contains_key(k) <==> holds_upto(entries, n, k) by {
            if holds_upto(entries, n, k) {
                let i = choose|i: int| 0 <= i < n && (#[trigger] entries[i]).window@ == k;
                if i < m {
                    assert(holds_upto(entries, m, k));
                }
            }
            if view_upto(entries, n).contains_key(k) {
                if k != last.window@ {
                    assert(holds_upto(entries, m, k));
                    let i = choose|i: int| 0 <= i < m && (#[trigger] entries[i]).window@ == k;
                    assert(0 <= i < n && entries[i].window@ == k);
                } else {
                    assert(entries[n - 1].window@ == k);
                }
            }
        }
    }
}

proof fn lemma_same_windows<M>(before: Seq<MenuEntry<M>>, after: Seq<MenuEntry<M>>)
    requires
        distinct(before),
        after.len() == before.len(),
        forall|j: int|
            0 <= j < before.len() ==> (#[trigger] after[j]).window@ == before[j].window@,
    ensures
        distinct(after),
        forall|k: Seq<char>|
            view_upto(before, before.len()).contains_key(k) <==> #[trigger] view_upto(
                after,
                after.len(),
            ).contains_key(k),
        forall|k: Seq<char>| #[trigger]
            view_upto(after, after.len()).contains_key(k) ==> exists|j: int|
                0 <= j < before.len() && (#[trigger] before[j]).window@ == k && view_upto(
                    before,
                    before.len(),
                )[k] == entry_view(before[j]) && view_upto(after, after.len())[k] == entry_view(
                    after[j],
                ),
{
    assert(distinct(after)) by {
        assert forall|i: int, j: int| 0 <= i < j < after.len() implies (#[trigger] after[i]).window@
            != (#[trigger] after[j]).window@ by {
            assert(before[i].window@ != before[j].window@);
        }
    }
    lemma_view_upto(before, before.len());
    lemma_view_upto(after, after.len());
    assert forall|k: Seq<char>|
        view_upto(before, before.len()).contains_key(k) <==> #[trigger] view_upto(
            after,
            after.len(),
        ).contains_key(k) by {
        if holds_upto(before, before.len(), k) {
            let j = choose|j: int| 0 <= j < before.len() && (#[trigger] before[j]).window@ == k;
            assert(after[j].window@ == k);
        }
        if holds_upto(after, after.len(), k) {
            let j = choose|j: int| 0 <= j < after.len() && (#[trigger] after[j]).window@ == k;
            assert(before[j].window@ == k);
        }
    }
    assert forall|k: Seq<char>| #[trigger]
        view_upto(after, after.len()).contains_key(k) implies exists|j: int|
        0 <= j < before.len() && (#[trigger] before[j]).window@ == k && view_upto(
            before,
            before.len(),
        )[k] == entry_view(before[j]) && view_upto(after, after.len())[k] == entry_view(
            after[j],
        ) by {
        let j = choose|j: int| 0 <= j < after.len() && (#[trigger] after[j]).window@ == k;
        assert(before[j].window@ == k);
    }
}

proof fn lemma_appended<M>(before: Seq<MenuEntry<M>>, entry: MenuEntry<M>)
    requires
        distinct(before),
        !view_upto(before, before.len()).contains_key(entry.window@),
    ensures
        distinct(before.push(entry)),
        view_upto(before.push(entry), before.len() + 1) == view_upto(before, before.len()).insert(
            entry.window@,
            entry_view(entry),
        ),
{
    let after = before.push(entry);
    lemma_view_upto(before, before.len());
    assert(!holds_upto(before, before.len(), entry.window@));
    assert(distinct(after)) by {
        assert forall|i: int, j: int| 0 <= i < j < after.len() implies (#[trigger] after[i]).window@
            != (#[trigger] after[j]).window@ by {
            assert(after[i] == before[i]);
            if j < before.len() {
                assert(after[j] == before[j]);
            }
        }
    }
    lemma_view_upto(after, after.len());
    let expected = view_upto(before, before.len()).insert(entry.window@, entry_view(entry));
    assert forall|k: Seq<char>| view_upto(after, after.len()).contains_key(k) implies #[trigger]
        expected.contains_key(k) && expected[k] == view_upto(after, after.len())[k] by {
        let j = choose|j: int| 0 <= j < after.len() && (#[trigger] after[j]).window@ == k;
        if j < before.len() {
            assert(before[j] == after[j]);
            assert(holds_upto(before, before.len(), k));
        }
    }
    assert forall|k: Seq<char>| #[trigger] expected.contains_key(k) implies view_upto(
        after,
        after.len(),
    ).contains_key(k) by {
        if k == entry.window@ {
            assert(after[before.len() as int].window@ == k);
        } else {
            let j = choose|j: int| 0 <= j < before.len() && (#[trigger] before[j]).window@ == k;
            assert(after[j].window@ == k);
        }
    }
    assert(view_upto(after, after.len()) =~= expected);
}

impl<M> View for MenuRegistry<M> {
    type V = Map<Seq<char>, EntryView<M>>;

    closed spec fn view(&self) -> Map<Seq<char>, EntryView<M>> {
        view_upto(self.entries@, self.entries@.len())
    }
}

impl<M> MenuRegistry<M> {
    /// No window identifier occurs twice.
    pub closed spec fn wf(&self) -> bool {
        distinct(self.entries@)
    }

    /// An empty registry: every window is unprepared.
    pub fn new() -> (res: MenuRegistry<M>)
        ensures
            res.wf(),
            res@ == Map::<Seq<char>, EntryView<M>>::empty(),
    {
        MenuRegistry { entries: Vec::new() }
    }

    fn find(&self, window: &String) -> (res: Option<usize>)
        requires
            self.wf(),
        ensures
            match res {
                Some(i) => i < self.entries@.len() && self.entries@[i as int].window@ == window@,
                None => !self@.contains_key(window@),
            },
            res.is_some() == self@.contains_key(window@),
            res.is_some() ==> self@[window@] == entry_view(self.entries@[res.unwrap() as int]),
    {
        let mut i: usize = 0;
        while i < self.entries.len()
            invariant
                self.wf(),
                i <= self.entries@.len(),
                !holds_upto(self.entries@, i as nat, window@),
            decreases self.entries@.len() - i,
        {
            if self.entries[i].window == *window {
                proof {
                    lemma_view_upto(self.entries@, self.entries@.len());
                }
                return Some(i);
            }
            i += 1;
        }
        proof {
            lemma_view_upto(self.entries@, self.entries@.len());
        }
        None
    }

    /// Number of windows that have a menu.
    pub fn len(&self) -> (res: usize)
        requires
            self.wf(),
        ensures
            self@.dom().finite(),
            res == self@.len(),
    {
        proof {
            lemma_view_upto(self.entries@, self.entries@.len());
        }
        self.entries.len()
    }

    /// Whether `window` has a menu.
    pub fn contains(&self, window: &str) -> (res: bool)
        requires
            self.wf(),
        ensures
            res == self@.contains_key(window@),
    {
        let key = window.to_owned();
        self.find(&key).is_some()
    }

    /// Registers `native`, the toolkit's menu object for `window`, with the
    /// menu contents built from `settings`, in place of any menu the window
    /// had. `handle` is the window's native handle, if it could be resolved;
    /// `native` is absent where the toolkit rejected the menu description.
    /// A refused call leaves the registry as it was. A popup of the window
    /// that is on screen stays open: it still ends through `finish_popup`,
    /// and no second one can start before that.
    pub fn create_context_menu(
        &mut self,
        window: &str,
        handle: Option<isize>,
        native: Option<M>,
        settings: &Settings,
    ) -> (res: Result<(), MenuError>)
        requires
            old(self).wf(),
        ensures
            final(self).wf(),
            match res {
                Ok(_) => handle.is_some() && native.is_some() && final(self)@ == prepared(
                    old(self)@,
                    window@,
                    native.unwrap(),
                    *settings,
                ),
                Err(e) => final(self)@ == old(self)@ && (handle.is_none() || native.is_none()) && e
                    == (if handle.is_none() {
                    MenuError::HandleUnavailable
                } else {
                    MenuError::BuildFailure
                }),
            },
    {
        if handle.is_none() {
            return Err(MenuError::HandleUnavailable);
        }
        let menu = match native {
            Some(m) => m,
            None => {
                return Err(MenuError::BuildFailure);
            },
        };
        let key = window.to_owned();
        let tree = MenuTree::build(settings);
        let theme = Theme::from_menu_setting(&settings.theme);
        let ghost before = self.entries@;
        match self.find(&key) {
            Some(i) => {
                let showing = self.entries[i].showing;
                self.entries.set(i, MenuEntry { window: key, menu, tree, theme, showing });
                proof {
                    lemma_same_windows(before, self.entries@);
                    assert(self@ =~= prepared(old(self)@, window@, menu, *settings));
                }
            },
            None => {
                let entry = MenuEntry { window: key, menu, tree, theme, showing: false };
                let ghost added = entry;
                self.entries.push(entry);
                proof {
                    lemma_appended(before, added);
                }
            },
        }
        Ok(())
    }

    /// Starts a popup for the window `menu_name` at `position`. The menu is
    /// marked as showing until `finish_popup` is called for the window; the
    /// registry is free for every other window meanwhile. A second request
    /// for a window whose menu is showing is rejected.
    pub fn popup_menu(&mut self, menu_name: &str, position: Position) -> (res: Result<
        PopupRequest,
        MenuError,
    >)
        requires
            old(self).wf(),
        ensures
            final(self).wf(),
            match res {
                Ok(req) => can_open(old(self)@, menu_name@) && final(self)@ == with_showing(
                    old(self)@,
                    menu_name@,
                    true,
                ) && req.window@ == menu_name@ && req.position == position,
                Err(e) => final(self)@ == old(self)@ && !can_open(old(self)@, menu_name@) && e
                    == (if old(self)@.contains_key(menu_name@) {
                    MenuError::PopupActive
                } else {
                    MenuError::MenuNotPrepared
                }),
            },
    {
        let key = menu_name.to_owned();
        let ghost before = self.entries@;
        match self.find(&key) {
            None => Err(MenuError::MenuNotPrepared),
            Some(i) => {
                if self.entries[i].showing {
                    return Err(MenuError::PopupActive);
                }
                self.entries[i].showing = true;
                proof {
                    lemma_same_windows(before, self.entries@);
                    assert(self@ =~= with_showing(old(self)@, menu_name@, true));
                }
                Ok(PopupRequest { window: key, position })
            },
        }
    }

    /// Ends the popup of `window` with the user's answer: the id of the
    /// chosen item, or nothing for a dismissal. A selection gives the event
    /// to send to the window; a dismissal gives none. For a window whose menu
    /// is not showing nothing changes and nothing is sent.
    pub fn finish_popup(&mut self, window: &str, selection: Option<String>) -> (res: Option<
        MenuEvent,
    >)
        requires
            old(self).wf(),
        ensures
            final(self).wf(),
            showing_in(old(self)@, window@) ==> final(self)@ == with_showing(
                old(self)@,
                window@,
                false,
            ) && emitted(window@, selection_view(selection), res),
            !showing_in(old(self)@, window@) ==> final(self)@ == old(self)@ && res.is_none(),
    {
        let key = window.to_owned();
        let ghost before = self.entries@;
        match self.find(&key) {
            None => None,
            Some(i) => {
                if !self.entries[i].showing {
                    return None;
                }
                self.entries[i].showing = false;
                proof {
                    lemma_same_windows(before, self.entries@);
                    assert(self@ =~= with_showing(old(self)@, window@, false));
                }
                match selection {
                    Some(id) => Some(
                        MenuEvent { target: key, name: "contextmenu-event".to_owned(), payload: id },
                    ),
                    None => None,
                }
            },
        }
    }

    /// Applies `theme` to every menu that is not showing, in place, and
    /// returns the windows whose menus were restyled, each once. A menu that
    /// is showing is skipped: the sweep never waits for a popup to end.
    pub fn change_theme(&mut self, theme: Theme) -> (res: Vec<String>)
        requires
            old(self).wf(),
        ensures
            final(self).wf(),
            final(self)@ == restyled(old(self)@, theme),
            forall|w: Seq<char>| #[trigger] lists(res@, w) <==> can_open(old(self)@, w),
            forall|a: int, b: int|
                0 <= a < b < res@.len() ==> (#[trigger] res@[a])@ != (#[trigger] res@[b])@,
    {
        let ghost before = self.entries@;
        let mut done: Vec<String> = Vec::new();
        let ghost mut at: Seq<int> = Seq::empty();
        let mut i: usize = 0;
        while i < self.entries.len()
            invariant
                distinct(before),
                at.len() == done@.len(),
                forall|k: int|
                    0 <= k < at.len() ==> 0 <= (#[trigger] at[k]) < i && before[at[k]].window@
                        == done@[k]@,
                forall|a: int, b: int| 0 <= a < b < at.len() ==> (#[trigger] at[a]) < (#[trigger] at[b]),
                self.entries@.len() == before.len(),
                i <= before.len(),
                forall|j: int|
                    0 <= j < before.len() ==> (#[trigger] self.entries@[j]) == (MenuEntry::<M> {
                        theme: if j < i && !before[j].showing {
                            theme
                        } else {
                            before[j].theme
                        },
                        ..before[j]
                    }),
                forall|k: int|
                    0 <= k < done@.len() ==> open_upto(before, i as int, (#[trigger] done@[k])@),
                forall|j: int|
                    0 <= j < i && !(#[trigger] before[j]).showing ==> lists(
                        done@,
                        before[j].window@,
                    ),
            decreases before.len() - i,
        {
            let ghost listed = done@;
            if !self.entries[i].showing {
                let name = self.entries[i].window.clone();
                self.entries[i].theme = theme;
                done.push(name);
                proof {
                    at = at.push(i as int);
                    assert(done@[listed.len() as int]@ == before[i as int].window@);
                    assert forall|j: int| 0 <= j < i + 1 && !(#[trigger] before[j]).showing implies lists(
                        done@,
                        before[j].window@,
                    ) by {
                        if j < i {
                            let k = choose|k: int|
                                0 <= k < listed.len() && (#[trigger] listed[k])@
                                    == before[j].window@;
                            assert(done@[k] == listed[k]);
                        }
                    }
                }
            }
            proof {
                assert forall|k: int| 0 <= k < done@.len() implies open_upto(
                    before,
                    i + 1,
                    (#[trigger] done@[k])@,
                ) by {
                    if k < listed.len() {
                        assert(done@[k] == listed[k]);
                        let j = choose|j: int|
                            0 <= j < i && !(#[trigger] before[j]).showing && before[j].window@
                                == listed[k]@;
                        assert(0 <= j < i + 1 && !before[j].showing);
                    } else {
                        assert(!before[i as int].showing);
                    }
                }
            }
            i += 1;
        }
        proof {
            lemma_same_windows(before, self.entries@);
            lemma_view_upto(before, before.len());
            assert(self@ =~= restyled(old(self)@, theme));
            assert forall|a: int, b: int| 0 <= a < b < done@.len() implies (#[trigger] done@[a])@ != (
            #[trigger] done@[b])@ by {
                assert(at[a] < at[b]);
                assert(before[at[a]].window@ != before[at[b]].window@);
            }
            assert forall|w: Seq<char>| #[trigger] lists(done@, w) <==> can_open(
                old(self)@,
                w,
            ) by {
                if lists(done@, w) {
                    let k = choose|k: int| 0 <= k < done@.len() && (#[trigger] done@[k])@ == w;
                    let j = choose|j: int|
                        0 <= j < i && !(#[trigger] before[j]).showing && before[j].window@
                            == done@[k]@;
                    assert(before[j].window@ == w);
                }
                if can_open(old(self)@, w) {
                    let j = choose|j: int|
                        0 <= j < before.len() && (#[trigger] before[j]).window@ == w;
                    assert(!before[j].showing);
                }
            }
        }
        done
    }

    /// The menu contents of `window`, if it has a menu.
    pub fn tree(&self, window: &str) -> (res: Option<&MenuTree>)
        requires
            self.wf(),
        ensures
            res.is_some() == self@.contains_key(window@),
            res.is_some() ==> res.unwrap()@ == self@[window@].tree,
    {
        let key = window.to_owned();
        match self.find(&key) {
            Some(i) => Some(&self.entries[i].tree),
            None => None,
        }
    }

    /// The toolkit's menu object of `window`, if it has a menu.
    pub fn menu(&self, window: &str) -> (res: Option<&M>)
        requires
            self.wf(),
        ensures
            res.is_some() == self@.contains_key(window@),
            res.is_some() ==> *res.unwrap() == self@[window@].menu,
    {
        let key = window.to_owned();
        match self.find(&key) {
            Some(i) => Some(&self.entries[i].menu),
            None => None,
        }
    }

    /// The theme of the menu of `window`, if it has a menu.
    pub fn theme(&self, window: &str) -> (res: Option<Theme>)
        requires
            self.wf(),
        ensures
            res.is_some() == self@.contains_key(window@),
            res.is_some() ==> res.unwrap() == self@[window@].theme,
    {
        let key = window.to_owned();
        match self.find(&key) {
            Some(i) => Some(self.entries[i].theme),
            None => None,
        }
    }

    /// The state of the menu of `window`.
    pub fn state(&self, window: &str) -> (res: MenuState)
        requires
            self.wf(),
        ensures
            res == state_of(self@, window@),
    {
        let key = window.to_owned();
        match self.find(&key) {
            Some(i) => if self.entries[i].showing {
                MenuState::Showing
            } else {
                MenuState::Prepared
            },
            None => MenuState::Unprepared,
        }
    }

    /// Whether the menu of `window` is showing.
    pub fn is_showing(&self, window: &str) -> (res: bool)
        requires
            self.wf(),
        ensures
            res == showing_in(self@, window@),
    {
        let key = window.to_owned();
        match self.find(&key) {
            Some(i) => self.entries[i].showing,
            None => false,
        }
    }
}

/// A window that has just been prepared, and whose menu was not showing, can
/// open its popup. While that popup is showing, any other window can open its
/// own popup exactly when it could before: a showing menu blocks no other
/// window.
pub proof fn lemma_prepared_window_opens<M>(
    reg: Map<Seq<char>, EntryView<M>>,
    window: Seq<char>,
    other: Seq<char>,
    menu: M,
    settings: Settings,
)
    requires
        window != other,
        !showing_in(reg, window),
    ensures
        can_open(prepared(reg, window, menu, settings), window),
        can_open(with_showing(prepared(reg, window, menu, settings), window, true), other)
            == can_open(reg, other),
        with_showing(prepared(reg, window, menu, settings), window, true)[other] == reg[other],
{
}

/// A window without a menu cannot open a popup, and an empty registry has no
/// window that can.
pub proof fn lemma_unprepared_window_is_refused<M>(reg: Map<Seq<char>, EntryView<M>>, window: Seq<char>)
    ensures
        !reg.contains_key(window) ==> !can_open(reg, window),
        !can_open(Map::<Seq<char>, EntryView<M>>::empty(), window),
{
}

/// A popup that starts and ends leaves the registry as it was, and a window
/// whose menu is showing cannot open a second popup.
pub proof fn lemma_popup_round_trip<M>(reg: Map<Seq<char>, EntryView<M>>, window: Seq<char>)
    requires
        can_open(reg, window),
    ensures
        !can_open(with_showing(reg, window, true), window),
        showing_in(with_showing(reg, window, true), window),
        with_showing(with_showing(reg, window, true), window, false) == reg,
{
    assert(with_showing(with_showing(reg, window, true), window, false) =~= reg);
}

/// A theme sweep is defined in every state of every window: it keeps the
/// set of windows, their menu contents and which of them are showing, gives
/// the theme to each menu that is not showing and leaves each showing menu
/// as it was. Sweeping twice with one theme is the same as sweeping once.
pub proof fn lemma_sweep_spares_showing<M>(
    reg: Map<Seq<char>, EntryView<M>>,
    theme: Theme,
    window: Seq<char>,
)
    ensures
        restyled(reg, theme).contains_key(window) == reg.contains_key(window),
        showing_in(restyled(reg, theme), window) == showing_in(reg, window),
        showing_in(reg, window) ==> restyled(reg, theme)[window] == reg[window],
        can_open(reg, window) ==> restyled(reg, theme)[window] == (EntryView {
            theme,
            ..reg[window]
        }),
        restyled(restyled(reg, theme), theme) == restyled(reg, theme),
{
    assert(restyled(restyled(reg, theme), theme) =~= restyled(reg, theme));
}

/// The life of a window's menu: preparing leads from `Unprepared` to
/// `Prepared` and keeps every other state, a popup leads from `Prepared` to
/// `Showing` and its end back to `Prepared`, and a theme sweep keeps the
/// state. So `Showing` is entered only by a popup and left only by its end.
/// None of these changes the state of another window or leads back to
/// `Unprepared`.
pub proof fn lemma_state_steps<M>(
    reg: Map<Seq<char>, EntryView<M>>,
    window: Seq<char>,
    other: Seq<char>,
    menu: M,
    settings: Settings,
    theme: Theme,
)
    requires
        window != other,
    ensures
        state_of(Map::<Seq<char>, EntryView<M>>::empty(), window) == MenuState::Unprepared,
        state_of(prepared(reg, window, menu, settings), window) == (if state_of(reg, window)
            == MenuState::Showing {
            MenuState::Showing
        } else {
            MenuState::Prepared
        }),
        state_of(reg, window) == MenuState::Prepared ==> state_of(
            with_showing(reg, window, true),
            window,
        ) == MenuState::Showing,
        state_of(reg, window) == MenuState::Showing ==> state_of(
            with_showing(reg, window, false),
            window,
        ) == MenuState::Prepared,
        state_of(restyled(reg, theme), window) == state_of(reg, window),
        state_of(prepared(reg, window, menu, settings), other) == state_of(reg, other),
        state_of(with_showing(reg, window, true), other) == state_of(reg, other),
        state_of(with_showing(reg, window, false), other) == state_of(reg, other),
        can_open(reg, window) == (state_of(reg, window) == MenuState::Prepared),
        showing_in(reg, window) == (state_of(reg, window) == MenuState::Showing),
{
}

/// A popup that was on screen while its window was prepared again still
/// ends like any other: until then no second popup can start for the window,
/// and its end leaves the window with the new entry, ready to open.
pub proof fn lemma_prepare_keeps_popup<M>(
    reg: Map<Seq<char>, EntryView<M>>,
    window: Seq<char>,
    menu: M,
    settings: Settings,
)
    requires
        showing_in(reg, window),
    ensures
        showing_in(prepared(reg, window, menu, settings), window),
        !can_open(prepared(reg, window, menu, settings), window),
        with_showing(prepared(reg, window, menu, settings), window, false) == reg.insert(
            window,
            fresh_entry(menu, settings),
        ),
        can_open(with_showing(prepared(reg, window, menu, settings), window, false), window),
{
    assert(with_showing(prepared(reg, window, menu, settings), window, false) =~= reg.insert(
        window,
        fresh_entry(menu, settings),
    ));
}

/// Preparing a window twice with the same settings gives the same registry
/// as preparing it once.
pub proof fn lemma_prepare_is_idempotent<M>(
    reg: Map<Seq<char>, EntryView<M>>,
    window: Seq<char>,
    menu: M,
    settings: Settings,
)
    ensures
        prepared(prepared(reg, window, menu, settings), window, menu, settings) == prepared(
            reg,
            window,
            menu,
            settings,
        ),
{
    assert(prepared(prepared(reg, window, menu, settings), window, menu, settings)
        =~= prepared(reg, window, menu, settings));
}

} // verus!
