//! The layout configuration: widgets, theme, key bindings and settings.

use crate::collections::StringMap;
use crate::error::LofiTurtleError;
use crate::text::joined;
use crate::ui::layout::{
    referred, shown_at, LayoutSettings, Position, ResponsiveMode, ThemeConfig, WidgetConfig,
};
use vstd::prelude::*;

verus! {

/// A complete layout.
#[derive(Debug, Clone, PartialEq, Eq)]
pub struct LayoutConfig {
    /// Version of the configuration format.
    pub version: String,
    pub name: String,
    pub description: Option<String>,
    pub theme: ThemeConfig,
    pub widgets: Vec<WidgetConfig>,
    /// The action bound to each key.
    pub keybindings: StringMap<String>,
    pub settings: LayoutSettings,
}

/// The names of a list of widgets.
pub open spec fn names(widgets: Seq<WidgetConfig>) -> Seq<Seq<char>> {
    widgets.map_values(|w: WidgetConfig| w.name@)
}

/// The texts of a list of strings.
pub open spec fn texts(strings: Seq<String>) -> Seq<Seq<char>> {
    strings.map_values(|s: String| s@)
}

/// Some widget is visible.
pub open spec fn any_visible(widgets: Seq<WidgetConfig>) -> bool {
    exists|i: int| 0 <= i < widgets.len() && (#[trigger] widgets[i]).visible
}

/// The place of the first name, from place `from` on, that repeats an
/// earlier one.
pub open spec fn first_repeat(names: Seq<Seq<char>>, from: int) -> Option<int>
    decreases names.len() - from,
{
    if from < 0 || from >= names.len() {
        None
    } else if names.take(from).contains(names[from]) {
        Some(from)
    } else {
        first_repeat(names, from + 1)
    }
}

/// The place of the first binding, from place `from` on, whose key or
/// action is empty.
pub open spec fn first_bad_binding(keys: Seq<Seq<char>>, actions: Seq<Seq<char>>, from: int) -> Option<
    int,
>
    decreases keys.len() - from,
{
    if from < 0 || from >= keys.len() || from >= actions.len() {
        None
    } else if keys[from].len() == 0 || actions[from].len() == 0 {
        Some(from)
    } else {
        first_bad_binding(keys, actions, from + 1)
    }
}

/// The first widget called `name`.
pub open spec fn first_named(widgets: Seq<WidgetConfig>, name: Seq<char>, from: int) -> Option<int>
    decreases widgets.len() - from,
{
    if from < 0 || from >= widgets.len() {
        None
    } else if widgets[from].name@ == name {
        Some(from)
    } else {
        first_named(widgets, name, from + 1)
    }
}

impl LayoutConfig {
    /// What is wrong with the layout, if anything is: an empty version, no
    /// visible widget, a widget name used twice, or a key binding with an
    /// empty key or action, looked for in this order, widgets and bindings
    /// each in their own order.
    pub open spec fn problem(self) -> Option<Seq<char>> {
        let keys = self.keybindings.keys();
        let actions = texts(self.keybindings.values());
        if self.version@.len() == 0 {
            Some("Layout version cannot be empty"@)
        } else if !any_visible(self.widgets@) {
            Some("At least one widget must be visible"@)
        } else if first_repeat(names(self.widgets@), 0) is Some {
            Some(
                "Duplicate widget name: "@ + names(self.widgets@)[first_repeat(
                    names(self.widgets@),
                    0,
                )->0],
            )
        } else {
            match first_bad_binding(keys, actions, 0) {
                Some(i) => if keys[i].len() == 0 {
                    Some("Keybinding key cannot be empty"@)
                } else {
                    Some("Keybinding action for key '"@ + keys[i] + "' cannot be empty"@)
                },
                None => None,
            }
        }
    }

    /// The step of terminal width that `terminal_width` falls into.
    pub open spec fn responsive_mode(self, terminal_width: u16) -> ResponsiveMode {
        let breakpoints = self.settings.responsive;
        if terminal_width < breakpoints.small_width {
            ResponsiveMode::Small
        } else if terminal_width < breakpoints.medium_width {
            ResponsiveMode::Medium
        } else if terminal_width < breakpoints.large_width {
            ResponsiveMode::Large
        } else {
            ResponsiveMode::ExtraLarge
        }
    }

    fn has_visible_widget(&self) -> (found: bool)
        ensures
            found == any_visible(self.widgets@),
    {
        let mut i: usize = 0;
        while i < self.widgets.len()
            invariant
                i <= self.widgets.len(),
                forall|j: int| 0 <= j < i ==> !(#[trigger] self.widgets@[j]).visible,
            decreases self.widgets.len() - i,
        {
            if self.widgets[i].visible {
                return true;
            }
            i += 1;
        }
        false
    }

    fn repeated_widget(&self) -> (found: Option<usize>)
        ensures
            match found {
                Some(j) => j < self.widgets@.len() && first_repeat(names(self.widgets@), 0) == Some(
                    j as int,
                ),
                None => first_repeat(names(self.widgets@), 0) is None,
            },
    {
        let ghost all = names(self.widgets@);
        let mut j: usize = 0;
        while j < self.widgets.len()
            invariant
                j <= self.widgets.len(),
                all == names(self.widgets@),
                first_repeat(all, 0) == first_repeat(all, j as int),
            decreases self.widgets.len() - j,
        {
            let mut i: usize = 0;
            while i < j
                invariant
                    i <= j,
                    j < self.widgets.len(),
                    all == names(self.widgets@),
                    first_repeat(all, 0) == first_repeat(all, j as int),
                    forall|k: int| 0 <= k < i ==> all[k] != all[j as int],
                decreases j - i,
            {
                if self.widgets[i].name.as_str().eq(self.widgets[j].name.as_str()) {
                    assert(all[i as int] == all[j as int]);
                    assert(all.take(j as int)[i as int] == all[j as int]);
                    assert(all.take(j as int).contains(all[j as int]));
                    return Some(j);
                }
                i += 1;
            }
            assert(!all.take(j as int).contains(all[j as int])) by {
                if all.take(j as int).contains(all[j as int]) {
                    let k = choose|k: int|
                        0 <= k < all.take(j as int).len() && all.take(j as int)[k] == all[j as int];
                    assert(all[k] == all[j as int]);
                }
            }
            j += 1;
        }
        None
    }

    fn bad_binding(&self) -> (found: Option<usize>)
        ensures
            match found {
                Some(i) => i < self.keybindings.keys().len() && first_bad_binding(
                    self.keybindings.keys(),
                    texts(self.keybindings.values()),
                    0,
                ) == Some(i as int),
                None => first_bad_binding(
                    self.keybindings.keys(),
                    texts(self.keybindings.values()),
                    0,
                ) is None,
            },
    {
        self.keybindings.attest();
        let count = self.keybindings.len();
        let ghost keys = self.keybindings.keys();
        let ghost actions = texts(self.keybindings.values());
        let mut i: usize = 0;
        while i < count
            invariant
                i <= count,
                count == keys.len(),
                keys.len() == actions.len(),
                keys == self.keybindings.keys(),
                actions == texts(self.keybindings.values()),
                first_bad_binding(keys, actions, 0) == first_bad_binding(keys, actions, i as int),
            decreases count - i,
        {
            if self.keybindings.key_at(i).as_str().is_empty() || self.keybindings.value_at(
                i,
            ).as_str().is_empty() {
                return Some(i);
            }
            i += 1;
        }
        None
    }

    /// Checks the layout: fails with the first thing that is wrong with it.
    pub fn validate(&self) -> (result: Result<(), LofiTurtleError>)
        ensures
            match result {
                Ok(()) => self.problem() is None,
                Err(LofiTurtleError::Configuration(reason)) => self.problem() == Some(reason@),
                Err(_) => false,
            },
    {
        if self.version.as_str().is_empty() {
            return Err(
                LofiTurtleError::Configuration("Layout version cannot be empty".to_string()),
            );
        }
        if !self.has_visible_widget() {
            return Err(
                LofiTurtleError::Configuration("At least one widget must be visible".to_string()),
            );
        }
        match self.repeated_widget() {
            Some(j) => {
                return Err(
                    LofiTurtleError::Configuration(
                        joined("Duplicate widget name: ", self.widgets[j].name.as_str()),
                    ),
                );
            },
            None => {},
        }
        match self.bad_binding() {
            Some(i) => {
                let key = self.keybindings.key_at(i);
                if key.as_str().is_empty() {
                    return Err(
                        LofiTurtleError::Configuration(
                            "Keybinding key cannot be empty".to_string(),
                        ),
                    );
                }
                let mut reason = joined("Keybinding action for key '", key.as_str());
                reason.append("' cannot be empty");
                return Err(LofiTurtleError::Configuration(reason));
            },
            None => {},
        }
        Ok(())
    }

    fn position_of(&self, name: &str) -> (found: Option<usize>)
        ensures
            match found {
                Some(i) => i < self.widgets@.len() && first_named(self.widgets@, name@, 0) == Some(
                    i as int,
                ),
                None => first_named(self.widgets@, name@, 0) is None,
            },
    {
        let mut i: usize = 0;
        while i < self.widgets.len()
            invariant
                i <= self.widgets.len(),
                first_named(self.widgets@, name@, 0) == first_named(self.widgets@, name@, i as int),
            decreases self.widgets.len() - i,
        {
            if self.widgets[i].name.as_str().eq(name) {
                return Some(i);
            }
            i += 1;
        }
        None
    }

    /// The first widget called `name`.
    pub fn get_widget(&self, name: &str) -> (widget: Option<&WidgetConfig>)
        ensures
            match widget {
                Some(w) => first_named(self.widgets@, name@, 0) matches Some(i) && *w
                    == self.widgets@[i],
                None => first_named(self.widgets@, name@, 0) is None,
            },
    {
        match self.position_of(name) {
            Some(i) => Some(&self.widgets[i]),
            None => None,
        }
    }

    /// The first widget called `name`, to be changed in place.
    pub fn get_widget_mut(&mut self, name: &str) -> (widget: Option<&mut WidgetConfig>)
        ensures
            match widget {
                Some(w) => first_named(old(self).widgets@, name@, 0) matches Some(i) && *w == old(
                    self,
                ).widgets@[i] && *final(self) == (LayoutConfig {
                    widgets: final(self).widgets,
                    ..*old(self)
                }) && final(self).widgets@ == old(self).widgets@.update(i, *final(w)),
                None => first_named(old(self).widgets@, name@, 0) is None && *final(self) == *old(
                    self,
                ),
            },
    {
        match self.position_of(name) {
            Some(i) => Some(&mut self.widgets[i]),
            None => None,
        }
    }

    /// Whether there is a widget called `name` and the first such widget
    /// is visible.
    pub fn is_widget_visible(&self, name: &str) -> (visible: bool)
        ensures
            visible == match first_named(self.widgets@, name@, 0) {
                Some(i) => self.widgets@[i].visible,
                None => false,
            },
    {
        match self.get_widget(name) {
            Some(widget) => widget.visible,
            None => false,
        }
    }

    /// The visible widgets, in order.
    pub fn get_visible_widgets(&self) -> (found: Vec<&WidgetConfig>)
        ensures
            referred(found@) == self.widgets@.filter(|w: WidgetConfig| w.visible),
    {
        let mut found: Vec<&WidgetConfig> = Vec::new();
        let ghost visible = |w: WidgetConfig| w.visible;
        let mut i: usize = 0;
        assert(self.widgets@.take(0).filter(visible) =~= Seq::empty());
        while i < self.widgets.len()
            invariant
                i <= self.widgets.len(),
                visible == |w: WidgetConfig| w.visible,
                referred(found@) == self.widgets@.take(i as int).filter(visible),
            decreases self.widgets.len() - i,
        {
            let ghost next = self.widgets@.take(i + 1);
            assert(next.drop_last() =~= self.widgets@.take(i as int));
            assert(next.last() == self.widgets@[i as int]);
            reveal_with_fuel(Seq::filter, 2);
            if self.widgets[i].visible {
                found.push(&self.widgets[i]);
                assert(referred(found@) =~= next.filter(visible));
            }
            i += 1;
        }
        assert(self.widgets@.take(self.widgets.len() as int) =~= self.widgets@);
        found
    }

    /// The action bound to `key`.
    pub fn get_keybinding(&self, key: &str) -> (action: Option<&String>)
        ensures
            match action {
                Some(a) => self.keybindings@.contains_key(key@) && *a == self.keybindings@[key@],
                None => !self.keybindings@.contains_key(key@),
            },
    {
        self.keybindings.get(key)
    }

    /// Binds `key` to `action`, in place of what it was bound to.
    pub fn set_keybinding(&mut self, key: String, action: String)
        ensures
            final(self).keybindings@ == old(self).keybindings@.insert(key@, action),
            *final(self) == (LayoutConfig { keybindings: final(self).keybindings, ..*old(self) }),
    {
        self.keybindings.insert(key, action);
    }

    /// Takes the binding of `key` away and hands back its action.
    pub fn remove_keybinding(&mut self, key: &str) -> (action: Option<String>)
        ensures
            final(self).keybindings@ == old(self).keybindings@.remove(key@),
            *final(self) == (LayoutConfig { keybindings: final(self).keybindings, ..*old(self) }),
            match action {
                Some(a) => old(self).keybindings@.contains_key(key@) && a == old(
                    self,
                ).keybindings@[key@],
                None => !old(self).keybindings@.contains_key(key@),
            },
    {
        self.keybindings.remove(key)
    }

    /// The visible widgets at `position`, in order.
    pub fn widgets_by_position(&self, position: Position) -> (found: Vec<&WidgetConfig>)
        ensures
            referred(found@) == shown_at(self.widgets@, position),
    {
        let mut found: Vec<&WidgetConfig> = Vec::new();
        let ghost there = |w: WidgetConfig| w.visible && w.position == position;
        let mut i: usize = 0;
        assert(self.widgets@.take(0).filter(there) =~= Seq::empty());
        while i < self.widgets.len()
            invariant
                i <= self.widgets.len(),
                there == |w: WidgetConfig| w.visible && w.position == position,
                referred(found@) == self.widgets@.take(i as int).filter(there),
            decreases self.widgets.len() - i,
        {
            let ghost next = self.widgets@.take(i + 1);
            assert(next.drop_last() =~= self.widgets@.take(i as int));
            assert(next.last() == self.widgets@[i as int]);
            reveal_with_fuel(Seq::filter, 2);
            if self.widgets[i].visible && self.widgets[i].position == position {
                found.push(&self.widgets[i]);
                assert(referred(found@) =~= next.filter(there));
            }
            i += 1;
        }
        assert(self.widgets@.take(self.widgets.len() as int) =~= self.widgets@);
        found
    }

    /// The step of terminal width that `terminal_width` falls into.
    pub fn get_responsive_mode(&self, terminal_width: u16) -> (mode: ResponsiveMode)
        ensures
            mode == self.responsive_mode(terminal_width),
    {
        let breakpoints = &self.settings.responsive;
        if terminal_width < breakpoints.small_width {
            ResponsiveMode::Small
        } else if terminal_width < breakpoints.medium_width {
            ResponsiveMode::Medium
        } else if terminal_width < breakpoints.large_width {
            ResponsiveMode::Large
        } else {
            ResponsiveMode::ExtraLarge
        }
    }
}

} // verus!
