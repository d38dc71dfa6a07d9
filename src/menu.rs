use vstd::prelude::*;

use crate::key::Key;

verus! {

/// Identifies a menu attached to a window.
#[derive(Clone, Copy, Debug, PartialEq, Eq, Structural, Hash)]
pub struct MenuHandle(pub u64);

/// Identifies an entry of a menu.
#[derive(Clone, Copy, Debug, PartialEq, Eq, Structural, Hash)]
pub struct MenuItemHandle(pub u64);

/// Modifier bit for Shift in a menu accelerator.
pub const MENU_KEY_SHIFT: u8 = 1;

/// Modifier bit for Ctrl in a menu accelerator.
pub const MENU_KEY_CTRL: u8 = 2;

/// Modifier bit for Alt in a menu accelerator.
pub const MENU_KEY_ALT: u8 = 4;

/// Modifier bit for Super in a menu accelerator.
pub const MENU_KEY_WIN: u8 = 8;

/// An entry to add to a menu.
#[derive(Clone, Debug)]
pub struct MenuItem {
    /// Reported by the window when the entry is activated.
    pub id: usize,
    pub label: String,
    pub enabled: bool,
    /// Accelerator key; `Key::Unknown` for none.
    pub key: Key,
    /// Accelerator modifiers, one bit each for Shift, Ctrl, Alt and Super.
    pub modifier: u8,
}

/// A menu tree, drawn by the library on platforms without a native menu bar.
#[derive(Debug)]
pub struct UnixMenu {
    pub name: String,
    pub items: Vec<UnixMenuItem>,
    pub handle: MenuHandle,
    /// Handle that the next entry receives.
    pub item_counter: MenuItemHandle,
}

/// An entry of a menu tree.
#[derive(Debug)]
pub struct UnixMenuItem {
    pub sub_menu: Option<Box<UnixMenu>>,
    pub id: usize,
    pub handle: MenuItemHandle,
    pub label: String,
    pub enabled: bool,
    pub key: Key,
    pub modifier: u8,
}

/// `items` without the entries whose handle is `h`, in order.
pub open spec fn items_without(items: Seq<UnixMenuItem>, h: MenuItemHandle) -> Seq<UnixMenuItem>
    decreases items.len(),
{
    if items.len() == 0 {
        items
    } else if items.last().handle == h {
        items_without(items.drop_last(), h)
    } else {
        items_without(items.drop_last(), h).push(items.last())
    }
}

/// `b` agrees with the entry `a` in every field, and their sub-menus agree
/// down to `depth` levels below.
pub open spec fn entry_copied(a: UnixMenuItem, b: UnixMenuItem, depth: nat) -> bool
    decreases depth, 0nat,
{
    &&& a.id == b.id
    &&& a.handle == b.handle
    &&& a.label == b.label
    &&& a.enabled == b.enabled
    &&& a.key == b.key
    &&& a.modifier == b.modifier
    &&& match (a.sub_menu, b.sub_menu) {
        (None, None) => true,
        (Some(x), Some(y)) => depth == 0 || menu_copied(*x, *y, (depth - 1) as nat),
        _ => false,
    }
}

/// `b` agrees with the menu `a` in its name, handles and entries, down to
/// `depth` levels of sub-menus below.
pub open spec fn menu_copied(a: UnixMenu, b: UnixMenu, depth: nat) -> bool
    decreases depth, 1nat,
{
    &&& a.name == b.name
    &&& a.handle == b.handle
    &&& a.item_counter == b.item_counter
    &&& a.items@.len() == b.items@.len()
    &&& forall|i: int|
        0 <= i < a.items@.len() ==> entry_copied(#[trigger] a.items@[i], b.items@[i], depth)
}

/// `b` is a copy of the entry `a`, its whole sub-menu tree included.
pub open spec fn same_entry(a: UnixMenuItem, b: UnixMenuItem) -> bool {
    forall|d: nat| #[trigger] entry_copied(a, b, d)
}

impl UnixMenu {
    /// `other` is a copy of this menu, its whole tree included.
    pub open spec fn same_menu(&self, other: UnixMenu) -> bool {
        forall|d: nat| #[trigger] menu_copied(*self, other, d)
    }

    /// A deep copy of the menu tree.
    pub fn duplicate(&self) -> (r: UnixMenu)
        ensures
            self.same_menu(r),
        decreases self,
    {
        let mut items: Vec<UnixMenuItem> = Vec::new();
        let mut i: usize = 0;
        while i < self.items.len()
            invariant
                i <= self.items@.len(),
                items@.len() == i,
                forall|j: int| 0 <= j < i ==> same_entry(#[trigger] self.items@[j], items@[j]),
            decreases self.items@.len() - i,
        {
            proof {
                broadcast use vstd::std_specs::vec::axiom_vec_index_decreases;
                assert(decreases_to!(self => self.items[i as int]));
            }
            let it = self.items[i].duplicate();
            items.push(it);
            i = i + 1;
        }
        let r = UnixMenu {
            name: self.name.clone(),
            items,
            handle: self.handle,
            item_counter: self.item_counter,
        };
        proof {
            assert forall|d: nat| #[trigger] menu_copied(*self, r, d) by {
                assert forall|i: int| 0 <= i < self.items@.len() implies entry_copied(
                    #[trigger] self.items@[i],
                    r.items@[i],
                    d,
                ) by {
                    assert(same_entry(self.items@[i], r.items@[i]));
                }
            }
        }
        r
    }
}

impl UnixMenuItem {
    /// A deep copy of the entry.
    pub fn duplicate(&self) -> (r: UnixMenuItem)
        ensures
            same_entry(*self, r),
        decreases self,
    {
        let sub_menu = match &self.sub_menu {
            Some(m) => Some(Box::new(m.duplicate())),
            None => None,
        };
        let r = UnixMenuItem {
            sub_menu,
            id: self.id,
            handle: self.handle,
            label: self.label.clone(),
            enabled: self.enabled,
            key: self.key,
            modifier: self.modifier,
        };
        proof {
            assert forall|d: nat| #[trigger] entry_copied(*self, r, d) by {
                if d > 0 {
                    if let Some(m) = self.sub_menu {
                        assert(menu_copied(*m, *r.sub_menu->0, (d - 1) as nat));
                    }
                }
            }
        }
        r
    }
}

/// The handles of a sequence of entries.
pub open spec fn item_handles(items: Seq<UnixMenuItem>) -> Seq<MenuItemHandle> {
    items.map_values(|it: UnixMenuItem| it.handle)
}

/// A menu being built.
pub struct Menu {
    pub internal: UnixMenu,
}

impl Menu {
    /// Every entry's handle was handed out before the current counter.
    pub open spec fn wf(&self) -> bool {
        forall|i: int|
            0 <= i < self.internal.items@.len() ==> (#[trigger] self.internal.items@[i]).handle.0
                < self.internal.item_counter.0
    }

    /// An empty menu named `name`.
    pub fn new(name: &str) -> (r: Result<Menu, crate::Error>)
        ensures
            r matches Ok(m) && m.wf() && m.internal.name@ == name@ && m.internal.items@.len() == 0
                && m.internal.item_counter.0 == 0 && m.internal.handle.0 == 0,
    {
        Ok(
            Menu {
                internal: UnixMenu {
                    handle: MenuHandle(0),
                    item_counter: MenuItemHandle(0),
                    name: name.to_owned(),
                    items: Vec::new(),
                },
            },
        )
    }

    fn next_item_handle(&mut self) -> (r: MenuItemHandle)
        requires
            old(self).wf(),
            old(self).internal.item_counter.0 < u64::MAX,
        ensures
            r == old(self).internal.item_counter,
            final(self).internal == (UnixMenu {
                item_counter: MenuItemHandle((r.0 + 1) as u64),
                ..old(self).internal
            }),
            final(self).wf(),
    {
        let handle = self.internal.item_counter;
        self.internal.item_counter.0 = self.internal.item_counter.0 + 1;
        handle
    }

    /// Appends an entry that opens `sub_menu`, labelled `name`, and returns
    /// its fresh handle.
    pub fn add_sub_menu(&mut self, name: &str, sub_menu: &Menu) -> (r: MenuItemHandle)
        requires
            old(self).wf(),
            old(self).internal.item_counter.0 < u64::MAX,
        ensures
            final(self).wf(),
            r == old(self).internal.item_counter,
            final(self).internal.item_counter.0 == r.0 + 1,
            final(self).internal.name == old(self).internal.name,
            final(self).internal.handle == old(self).internal.handle,
            final(self).internal.items@.len() == old(self).internal.items@.len() + 1,
            final(self).internal.items@.drop_last() == old(self).internal.items@,
            ({
                let it = final(self).internal.items@.last();
                &&& it.handle == r
                &&& it.label@ == name@
                &&& it.sub_menu matches Some(m) && sub_menu.internal.same_menu(*m)
                &&& it.id == 0
                &&& it.enabled
                &&& it.key == Key::Unknown
                &&& it.modifier == 0
            }),
    {
        let handle = self.next_item_handle();
        self.internal.items.push(
            UnixMenuItem {
                label: name.to_owned(),
                handle: handle,
                sub_menu: Some(Box::new(sub_menu.internal.duplicate())),
                id: 0,
                enabled: true,
                key: Key::Unknown,
                modifier: 0,
            },
        );
        proof {
            assert(self.internal.items@.drop_last() =~= old(self).internal.items@);
        }
        handle
    }

    /// Appends the entry `item` and returns its fresh handle.
    pub fn add_menu_item(&mut self, item: &MenuItem) -> (r: MenuItemHandle)
        requires
            old(self).wf(),
            old(self).internal.item_counter.0 < u64::MAX,
        ensures
            final(self).wf(),
            r == old(self).internal.item_counter,
            final(self).internal.item_counter.0 == r.0 + 1,
            final(self).internal.name == old(self).internal.name,
            final(self).internal.handle == old(self).internal.handle,
            final(self).internal.items@ == old(self).internal.items@.push(
                UnixMenuItem {
                    sub_menu: None,
                    handle: r,
                    id: item.id,
                    label: item.label,
                    enabled: item.enabled,
                    key: item.key,
                    modifier: item.modifier,
                },
            ),
    {
        let item_handle = self.next_item_handle();
        self.internal.items.push(
            UnixMenuItem {
                sub_menu: None,
                handle: item_handle,
                id: item.id,
                label: item.label.clone(),
                enabled: item.enabled,
                key: item.key,
                modifier: item.modifier,
            },
        );
        item_handle
    }

    /// Removes the entries whose handle is `handle`; a retired handle changes
    /// nothing.
    pub fn remove_item(&mut self, handle: &MenuItemHandle)
        requires
            old(self).wf(),
        ensures
            final(self).wf(),
            final(self).internal.items@ == items_without(old(self).internal.items@, *handle),
            final(self).internal.item_counter == old(self).internal.item_counter,
            final(self).internal.name == old(self).internal.name,
            final(self).internal.handle == old(self).internal.handle,
    {
        let ghost orig = self.internal.items@;
        let mut i: usize = 0;
        let ghost mut k: int = 0;
        while i < self.internal.items.len()
            invariant
                0 <= k <= orig.len(),
                i == items_without(orig.take(k), *handle).len(),
                self.internal.items@ == items_without(orig.take(k), *handle) + orig.skip(k),
                self.internal.item_counter == old(self).internal.item_counter,
                self.internal.name == old(self).internal.name,
                self.internal.handle == old(self).internal.handle,
            decreases orig.len() - k,
        {
            proof {
                assert(orig.take(k + 1).drop_last() =~= orig.take(k));
                assert(orig.take(k + 1).last() == orig[k]);
                assert(self.internal.items@[i as int] == orig[k]);
            }
            if self.internal.items[i].handle.0 == handle.0 {
                self.internal.items.remove(i);
                proof {
                    assert(self.internal.items@ =~= items_without(orig.take(k + 1), *handle)
                        + orig.skip(k + 1));
                }
            } else {
                i = i + 1;
                proof {
                    assert(self.internal.items@ =~= items_without(orig.take(k + 1), *handle)
                        + orig.skip(k + 1));
                }
            }
            proof {
                k = k + 1;
            }
        }
        proof {
            assert(orig.take(orig.len() as int) =~= orig);
            assert(self.internal.items@ =~= items_without(orig, *handle));
            lemma_items_without_subset(orig, *handle);
            assert forall|i: int| 0 <= i < self.internal.items@.len() implies (
            #[trigger] self.internal.items@[i]).handle.0 < self.internal.item_counter.0 by {
                assert(orig.contains(self.internal.items@[i]));
                let j = choose|j: int| 0 <= j < orig.len() && orig[j] == self.internal.items@[i];
                assert(old(self).internal.items@[j] == orig[j]);
            }
        }
    }
}

proof fn lemma_items_without_subset(items: Seq<UnixMenuItem>, h: MenuItemHandle)
    ensures
        forall|i: int|
            0 <= i < items_without(items, h).len() ==> #[trigger] items.contains(
                items_without(items, h)[i],
            ),
    decreases items.len(),
{
    if items.len() > 0 {
        lemma_items_without_subset(items.drop_last(), h);
        let r = items_without(items, h);
        let r0 = items_without(items.drop_last(), h);
        assert forall|i: int| 0 <= i < r.len() implies #[trigger] items.contains(r[i]) by {
            if i < r0.len() {
                assert(r[i] == r0[i]);
                assert(items.drop_last().contains(r0[i]));
                let j = choose|j: int| 0 <= j < items.drop_last().len() && items.drop_last()[j]
                    == r0[i];
                assert(items[j] == items.drop_last()[j]);
            } else {
                assert(r[i] == items.last());
                assert(items[items.len() - 1] == items.last());
            }
        }
    }
}

} // verus!
