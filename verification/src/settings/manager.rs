//! The settings manager: the registered components, found by name.
use vstd::prelude::*;
use crate::settings::component::{DirectRead, DirectReadView, SettingsComponent};
use crate::settings::components::config::ConfigComponent;
use crate::settings_components::pads::PadsComponent;
use crate::settings_components::sequencer::SequencerSettings;
use crate::settings_components::sequencer_projects::SequencerProjects;
use crate::settings_components::shortcuts::ShortcutsComponent;

verus! {

/// A registered component.
pub enum AnyComponent {
    Config(ConfigComponent),
    Pads(PadsComponent),
    Shortcuts(ShortcutsComponent),
    Sequencer(SequencerSettings),
    SequencerProjects(SequencerProjects),
}

impl SettingsComponent for AnyComponent {
    open spec fn readable(&self) -> bool {
        match self {
            AnyComponent::Config(c) => c.readable(),
            AnyComponent::Pads(c) => c.readable(),
            AnyComponent::Shortcuts(c) => c.readable(),
            AnyComponent::Sequencer(c) => c.readable(),
            AnyComponent::SequencerProjects(c) => c.readable(),
        }
    }

    open spec fn spec_direct_read(&self, args: Seq<Seq<char>>) -> DirectReadView {
        match self {
            AnyComponent::Config(c) => c.spec_direct_read(args),
            AnyComponent::Pads(c) => c.spec_direct_read(args),
            AnyComponent::Shortcuts(c) => c.spec_direct_read(args),
            AnyComponent::Sequencer(c) => c.spec_direct_read(args),
            AnyComponent::SequencerProjects(c) => c.spec_direct_read(args),
        }
    }

    fn direct_read(&self, args: &Vec<String>) -> (r: DirectRead) {
        match self {
            AnyComponent::Config(c) => c.direct_read(args),
            AnyComponent::Pads(c) => c.direct_read(args),
            AnyComponent::Shortcuts(c) => c.direct_read(args),
            AnyComponent::Sequencer(c) => c.direct_read(args),
            AnyComponent::SequencerProjects(c) => c.direct_read(args),
        }
    }
}

/// The index of the entry named `id` in `entries`, if any.
pub open spec fn index_in(entries: Seq<(String, AnyComponent)>, id: Seq<char>) -> Option<int> {
    if exists|i: int| 0 <= i < entries.len() && entries[i].0@ == id {
        Some(choose|i: int| 0 <= i < entries.len() && entries[i].0@ == id)
    } else {
        None
    }
}

/// No two entries share a name.
pub open spec fn unique_names(entries: Seq<(String, AnyComponent)>) -> bool {
    forall|i: int, j: int|
        0 <= i < j < entries.len() ==> #[trigger] entries[i].0@ != #[trigger] entries[j].0@
}

/// With unique names, the entry found under a name is the one holding it.
proof fn lemma_index_found(entries: Seq<(String, AnyComponent)>, id: Seq<char>, c: int)
    requires
        unique_names(entries),
        0 <= c < entries.len(),
        entries[c].0@ == id,
    ensures
        index_in(entries, id) == Some(c),
{
    let k = choose|i: int| 0 <= i < entries.len() && entries[i].0@ == id;
    if k < c {
        assert(entries[k].0@ != entries[c].0@);
    } else if k > c {
        assert(entries[c].0@ != entries[k].0@);
    }
}

/// The registered components, each under its own name.
pub struct SettingsManager {
    components: Vec<(String, AnyComponent)>,
}

impl SettingsManager {
    pub closed spec fn spec_entries(&self) -> Seq<(String, AnyComponent)> {
        self.components@
    }

    /// The index of the entry named `id`, if any.
    pub open spec fn spec_index(&self, id: Seq<char>) -> Option<int> {
        index_in(self.spec_entries(), id)
    }

    /// The component registered under `id`, if any.
    pub open spec fn spec_get(&self, id: Seq<char>) -> Option<AnyComponent> {
        match self.spec_index(id) {
            Some(i) => Some(self.spec_entries()[i].1),
            None => None,
        }
    }

    pub open spec fn wf(&self) -> bool {
        unique_names(self.spec_entries())
    }

    pub fn new() -> (r: Self)
        ensures
            r.wf(),
            forall|id: Seq<char>| #[trigger] r.spec_get(id) is None,
    {
        SettingsManager { components: Vec::new() }
    }

    /// The index of the entry named `id`.
    fn find(&self, id: &str) -> (r: Option<usize>)
        requires
            self.wf(),
        ensures
            r is Some <==> self.spec_index(id@) is Some,
            r is Some ==> self.spec_index(id@) == Some(r->0 as int),
            r is None ==> forall|k: int|
                0 <= k < self.spec_entries().len() ==> #[trigger] self.spec_entries()[k].0@ != id@,
    {
        let key = String::from_str(id);
        let n = self.components.len();
        let mut i: usize = 0;
        while i < n
            invariant
                n == self.components@.len(),
                i <= n,
                key@ == id@,
                self.wf(),
                forall|k: int| 0 <= k < i ==> #[trigger] self.components@[k].0@ != id@,
            decreases n - i,
        {
            if self.components[i].0 == key {
                proof {
                    lemma_index_found(self.components@, id@, i as int);
                }
                return Some(i);
            }
            i = i + 1;
        }
        None
    }

    /// Registers `component` under `id`, replacing a component registered
    /// under that name before.
    pub fn add_component(&mut self, id: &str, component: AnyComponent)
        requires
            old(self).wf(),
        ensures
            final(self).wf(),
            final(self).spec_get(id@) == Some(component),
            forall|other: Seq<char>| other != id@ ==> #[trigger] final(self).spec_get(other) == old(
                self,
            ).spec_get(other),
    {
        let ghost old_entries = self.components@;
        let name = String::from_str(id);
        match self.find(id) {
            Some(i) => {
                self.components.set(i, (name, component));
                let ghost e = self.components@;
                assert(unique_names(e)) by {
                    assert forall|a: int, b: int| 0 <= a < b < e.len() implies #[trigger] e[a].0@
                        != #[trigger] e[b].0@ by {
                        assert(old_entries[a].0@ != old_entries[b].0@);
                        if a == i {
                            assert(old_entries[i as int].0@ == id@);
                        }
                        if b == i {
                            assert(old_entries[i as int].0@ == id@);
                        }
                    }
                }
                proof {
                    lemma_index_found(e, id@, i as int);
                }
                assert forall|other: Seq<char>| other != id@ implies #[trigger] self.spec_get(other)
                    == old(self).spec_get(other) by {
                    if exists|k: int| 0 <= k < old_entries.len() && old_entries[k].0@ == other {
                        let c = choose|k: int| 0 <= k < old_entries.len() && old_entries[k].0@ == other;
                        lemma_index_found(old_entries, other, c);
                        assert(c != i);
                        lemma_index_found(e, other, c);
                    } else {
                        assert forall|k: int| 0 <= k < e.len() implies e[k].0@ != other by {
                            if k != i {
                                assert(old_entries[k].0@ != other);
                            }
                        }
                    }
                }
            },
            None => {
                self.components.push((name, component));
                let ghost e = self.components@;
                let ghost n = old_entries.len();
                assert(unique_names(e)) by {
                    assert forall|a: int, b: int| 0 <= a < b < e.len() implies #[trigger] e[a].0@
                        != #[trigger] e[b].0@ by {
                        if b == n {
                            assert(old_entries[a].0@ != id@);
                        } else {
                            assert(old_entries[a].0@ != old_entries[b].0@);
                        }
                    }
                }
                proof {
                    lemma_index_found(e, id@, n as int);
                }
                assert forall|other: Seq<char>| other != id@ implies #[trigger] self.spec_get(other)
                    == old(self).spec_get(other) by {
                    if exists|k: int| 0 <= k < old_entries.len() && old_entries[k].0@ == other {
                        let c = choose|k: int| 0 <= k < old_entries.len() && old_entries[k].0@ == other;
                        lemma_index_found(old_entries, other, c);
                        lemma_index_found(e, other, c);
                    } else {
                        assert forall|k: int| 0 <= k < e.len() implies e[k].0@ != other by {
                            if k < n {
                                assert(old_entries[k].0@ != other);
                            }
                        }
                    }
                }
            },
        }
    }

    pub fn get_component(&self, id: &str) -> (r: Option<&AnyComponent>)
        requires
            self.wf(),
        ensures
            r is Some <==> self.spec_get(id@) is Some,
            r is Some ==> *r->0 == self.spec_get(id@)->0,
    {
        match self.find(id) {
            Some(i) => Some(&self.components[i].1),
            None => None,
        }
    }

    /// Removes and returns the component registered under `id`; the other
    /// components stay registered.
    pub fn take_component(&mut self, id: &str) -> (r: Option<AnyComponent>)
        requires
            old(self).wf(),
        ensures
            final(self).wf(),
            r == old(self).spec_get(id@),
            final(self).spec_get(id@) is None,
            forall|other: Seq<char>| other != id@ ==> #[trigger] final(self).spec_get(other) == old(
                self,
            ).spec_get(other),
    {
        let ghost old_entries = self.components@;
        match self.find(id) {
            Some(i) => {
                let (_, c) = self.components.remove(i);
                let ghost e = self.components@;
                assert(forall|k: int| 0 <= k < e.len() ==> #[trigger] e[k] == old_entries[if k < i {
                    k
                } else {
                    k + 1
                }]);
                assert(unique_names(e)) by {
                    assert forall|a: int, b: int| 0 <= a < b < e.len() implies #[trigger] e[a].0@
                        != #[trigger] e[b].0@ by {
                        let oa = if a < i { a } else { a + 1 };
                        let ob = if b < i { b } else { b + 1 };
                        assert(e[a] == old_entries[oa]);
                        assert(e[b] == old_entries[ob]);
                        assert(old_entries[oa].0@ != old_entries[ob].0@);
                    }
                }
                assert forall|k: int| 0 <= k < e.len() implies e[k].0@ != id@ by {
                    let ok = if k < i { k } else { k + 1 };
                    assert(e[k] == old_entries[ok]);
                    if ok < i {
                        assert(old_entries[ok].0@ != old_entries[i as int].0@);
                    } else {
                        assert(old_entries[i as int].0@ != old_entries[ok].0@);
                    }
                }
                assert forall|other: Seq<char>| other != id@ implies #[trigger] self.spec_get(other)
                    == old(self).spec_get(other) by {
                    if exists|k: int| 0 <= k < old_entries.len() && old_entries[k].0@ == other {
                        let c = choose|k: int| 0 <= k < old_entries.len() && old_entries[k].0@ == other;
                        lemma_index_found(old_entries, other, c);
                        assert(c != i);
                        let nc = if c < i { c } else { c - 1 };
                        assert(e[nc] == old_entries[c]);
                        lemma_index_found(e, other, nc);
                    } else {
                        assert forall|k: int| 0 <= k < e.len() implies e[k].0@ != other by {
                            let ok = if k < i { k } else { k + 1 };
                            assert(e[k] == old_entries[ok]);
                        }
                    }
                }
                Some(c)
            },
            None => None,
        }
    }

    /// Whether component `id`, when registered, answers a direct read.
    pub fn can_read(&self, id: &str) -> (r: bool)
        requires
            self.wf(),
        ensures
            r == (self.spec_get(id@) matches Some(c) ==> c.readable()),
    {
        match self.get_component(id) {
            Some(AnyComponent::Shortcuts(_)) => false,
            _ => true,
        }
    }

    /// The answer to a direct read of component `id`: an empty text when
    /// no component is registered under that name.
    pub fn direct_read(&self, id: &str, args: &Vec<String>) -> (r: DirectRead)
        requires
            self.wf(),
            self.spec_get(id@) matches Some(c) ==> c.readable(),
        ensures
            self.spec_get(id@) is None ==> r@ == DirectReadView::Text(Seq::empty()),
            self.spec_get(id@) matches Some(c) ==> r@ == c.spec_direct_read(
                args@.map_values(|a: String| a@),
            ),
    {
        match self.get_component(id) {
            Some(component) => component.direct_read(args),
            None => DirectRead::Text(String::new()),
        }
    }
}

} // verus!
