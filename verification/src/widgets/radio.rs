use vstd::prelude::*;

use crate::direction::DirectionSetting;
use crate::focus::{focus_when_enabled, FocusPolicy};
use crate::semantics::{plain, quiet_state, SemanticAction, SemanticRole, SemanticState, Semantics};
use crate::cyclic::{cycled, lemma_cycled_back, step_index};
use crate::semantics::opt_view;
use crate::text_util::{owned, same_text};

verus! {

/// A labelled radio button.
#[derive(Clone, Debug, PartialEq)]
pub struct Radio {
    label: String,
    pub selected: bool,
    pub disabled: bool,
    pub direction: DirectionSetting,
}

/// The state of a radio as contracts see it.
pub struct RadioView {
    pub label: Seq<char>,
    pub selected: bool,
    pub disabled: bool,
    pub direction: DirectionSetting,
}

/// Activation: selects an enabled, unselected radio and reports that it did; anything
/// else changes nothing.
pub open spec fn radio_activated(before: RadioView, after: RadioView, activated: bool) -> bool {
    if before.disabled || before.selected {
        !activated && after == before
    } else {
        activated && after == (RadioView { selected: true, ..before })
    }
}

/// Activation never unselects a radio, and a second activation changes nothing.
pub proof fn lemma_radio_activation_is_idempotent(a: RadioView, b: RadioView, c: RadioView, first: bool, second: bool)
    requires
        radio_activated(a, b, first),
        radio_activated(b, c, second),
    ensures
        a.selected ==> b.selected,
        !second,
        c == b,
{
}

impl View for Radio {
    type V = RadioView;

    closed spec fn view(&self) -> RadioView {
        RadioView {
            label: self.label@,
            selected: self.selected,
            disabled: self.disabled,
            direction: self.direction,
        }
    }
}

impl Radio {
    /// An enabled, unselected radio that inherits its direction.
    pub fn new(label: &str) -> (control: Self)
        ensures
            control@ == (RadioView {
                label: label@,
                selected: false,
                disabled: false,
                direction: DirectionSetting::Inherit,
            }),
    {
        Radio { label: owned(label), selected: false, disabled: false, direction: DirectionSetting::Inherit }
    }

    pub fn label(&self) -> (label: &str)
        ensures
            label@ == self@.label,
    {
        self.label.as_str()
    }

    pub fn set_label(&mut self, label: &str)
        ensures
            final(self)@ == (RadioView { label: label@, ..old(self)@ }),
    {
        self.label = owned(label);
    }

    /// Selects the radio unless it is disabled or already selected; a radio is never
    /// unselected by activation. Reports whether it became selected.
    pub fn activate(&mut self) -> (activated: bool)
        ensures
            radio_activated(old(self)@, final(self)@, activated),
    {
        if self.disabled || self.selected {
            return false;
        }
        self.selected = true;
        true
    }

    /// A radio named by its label, reporting its selection as checked state.
    pub fn semantics(&self) -> (s: Semantics)
        ensures
            plain(
                s,
                SemanticRole::Radio,
                Some(self@.label),
                None,
                SemanticState { checked: Some(self@.selected), disabled: self@.disabled, ..quiet_state() },
                seq![SemanticAction::Focus, SemanticAction::Activate],
            ),
    {
        let mut semantics = Semantics::new(SemanticRole::Radio).with_name(self.label.clone()).with_action(
            SemanticAction::Focus,
        ).with_action(SemanticAction::Activate);
        semantics.state.checked = Some(self.selected);
        semantics.state.disabled = self.disabled;
        semantics
    }

    /// Focusable, and disabled when the radio is.
    pub fn focus_policy(&self) -> (policy: FocusPolicy)
        ensures
            policy == focus_when_enabled(self@.disabled),
    {
        FocusPolicy::enabled_unless(self.disabled)
    }
}

impl Radio {
    /// Sets `selected`; nothing else changes.
    pub fn set_selected(&mut self, selected: bool)
        ensures
            final(self)@ == (RadioView { selected: selected, ..old(self)@ }),
    {
        self.selected = selected;
    }

    /// Whether `selected` is set.
    pub fn is_selected(&self) -> (r: bool)
        ensures
            r == self@.selected,
    {
        self.selected
    }

    /// Sets `disabled`; nothing else changes.
    pub fn set_disabled(&mut self, disabled: bool)
        ensures
            final(self)@ == (RadioView { disabled: disabled, ..old(self)@ }),
    {
        self.disabled = disabled;
    }

    /// Whether `disabled` is set.
    pub fn is_disabled(&self) -> (r: bool)
        ensures
            r == self@.disabled,
    {
        self.disabled
    }

    /// Sets `direction`; nothing else changes.
    pub fn set_direction(&mut self, direction: DirectionSetting)
        ensures
            final(self)@ == (RadioView { direction: direction, ..old(self)@ }),
    {
        self.direction = direction;
    }
}

/// A radio as it stands among the widgets, in depth-first order, with the name of the
/// group it belongs to, if any.
pub struct GroupedRadio {
    pub group: Option<String>,
    pub radio: Radio,
}

/// A grouped radio as contracts see it.
pub struct GroupedRadioView {
    pub group: Option<Seq<char>>,
    pub radio: RadioView,
}

impl View for GroupedRadio {
    type V = GroupedRadioView;

    open spec fn view(&self) -> GroupedRadioView {
        GroupedRadioView { group: opt_view(self.group), radio: self.radio@ }
    }
}

/// The radios as contracts see them.
pub open spec fn radio_views(s: Seq<GroupedRadio>) -> Seq<GroupedRadioView> {
    s.map_values(|e: GroupedRadio| e@)
}

/// The radio belongs to group `g`.
pub open spec fn in_group(e: GroupedRadioView, g: Seq<char>) -> bool {
    e.group == Some(g)
}

/// The radio belongs to group `g` and is enabled: keyboard focus can reach it.
pub open spec fn group_member(e: GroupedRadioView, g: Seq<char>) -> bool {
    in_group(e, g) && !e.radio.disabled
}

/// The first enabled radio of group `g` at index `i` or later (a selected one when
/// `selected`).
pub open spec fn first_member_from(s: Seq<GroupedRadioView>, g: Seq<char>, i: int, selected: bool) -> Option<int>
    decreases s.len() - i,
{
    if i < 0 || i >= s.len() {
        None
    } else if group_member(s[i], g) && (!selected || s[i].radio.selected) {
        Some(i)
    } else {
        first_member_from(s, g, i + 1, selected)
    }
}

/// Where the tab key enters group `g`: its first selected enabled radio, else its first
/// enabled radio, else nowhere.
pub open spec fn tab_stop(s: Seq<GroupedRadioView>, g: Seq<char>) -> Option<int> {
    match first_member_from(s, g, 0, true) {
        Some(i) => Some(i),
        None => first_member_from(s, g, 0, false),
    }
}

/// The indices of the enabled radios of group `g` among the first `n`, in order.
pub open spec fn members_upto(s: Seq<GroupedRadioView>, g: Seq<char>, n: int) -> Seq<int>
    decreases n,
{
    if n <= 0 {
        seq![]
    } else if group_member(s[n - 1], g) {
        members_upto(s, g, n - 1).push(n - 1)
    } else {
        members_upto(s, g, n - 1)
    }
}

/// The indices of the enabled radios of group `g`, in order.
pub open spec fn group_members(s: Seq<GroupedRadioView>, g: Seq<char>) -> Seq<int> {
    members_upto(s, g, s.len() as int)
}

/// Arrow navigation from radio `c`: the next (or previous) enabled radio of its group,
/// wrapping round; nothing when `c` is not an enabled radio of a group.
pub open spec fn adjacent_is(s: Seq<GroupedRadioView>, c: int, forward: bool, r: Option<int>) -> bool {
    if 0 <= c < s.len() && s[c].group is Some && group_members(s, s[c].group->0).contains(c) {
        let m = group_members(s, s[c].group->0);
        exists|k: int| 0 <= k < m.len() && m[k] == c && r == Some(m[cycled(k, 1, m.len() as int, forward)])
    } else {
        r is None
    }
}

/// Selecting radio `t`: refused when there is no such radio or it is disabled; in a
/// group, `t` becomes its one selected radio and every other radio of the group is
/// unselected; alone, it is activated.
pub open spec fn radio_selected(s: Seq<GroupedRadioView>, after: Seq<GroupedRadioView>, t: int, done: bool) -> bool {
    if t < 0 || t >= s.len() || s[t].radio.disabled {
        !done && after == s
    } else {
        match s[t].group {
            Some(g) => {
                &&& done
                &&& after.len() == s.len()
                &&& forall|i: int|
                    0 <= i < s.len() ==> #[trigger] after[i] == if in_group(s[i], g) {
                        GroupedRadioView { radio: RadioView { selected: i == t, ..s[i].radio }, ..s[i] }
                    } else {
                        s[i]
                    }
            },
            None => {
                &&& after.len() == s.len()
                &&& forall|i: int| 0 <= i < s.len() && i != t ==> #[trigger] after[i] == s[i]
                &&& after[t].group == s[t].group
                &&& radio_activated(s[t].radio, after[t].radio, done)
            },
        }
    }
}

/// A copy of the radio.
fn copy_radio(r: &Radio) -> (c: Radio)
    ensures
        c@ == r@,
{
    Radio { label: owned(r.label.as_str()), selected: r.selected, disabled: r.disabled, direction: r.direction }
}

/// A copy of the group name.
fn copy_group(g: &Option<String>) -> (c: Option<String>)
    ensures
        opt_view(c) == opt_view(*g),
{
    match g {
        Some(name) => Some(owned(name.as_str())),
        None => None,
    }
}

/// The member indices are increasing, below `n`, and name exactly the enabled radios of
/// the group.
proof fn lemma_members_upto(s: Seq<GroupedRadioView>, g: Seq<char>, n: int)
    requires
        0 <= n <= s.len(),
    ensures
        forall|j: int, k: int|
            0 <= j < k < members_upto(s, g, n).len() ==> members_upto(s, g, n)[j] < members_upto(
                s,
                g,
                n,
            )[k],
        forall|k: int|
            0 <= k < members_upto(s, g, n).len() ==> 0 <= #[trigger] members_upto(s, g, n)[k] < n
                && group_member(s[members_upto(s, g, n)[k]], g),
        forall|i: int| 0 <= i < n && group_member(s[i], g) ==> #[trigger] members_upto(s, g, n).contains(i),
    decreases n,
{
    if n > 0 {
        lemma_members_upto(s, g, n - 1);
        let prev = members_upto(s, g, n - 1);
        if group_member(s[n - 1], g) {
            let m = prev.push(n - 1);
            assert forall|i: int| 0 <= i < n && group_member(s[i], g) implies #[trigger] m.contains(i) by {
                if i < n - 1 {
                    assert(prev.contains(i));
                    let k = choose|k: int| 0 <= k < prev.len() && prev[k] == i;
                    assert(m[k] == i);
                } else {
                    assert(m[prev.len() as int] == i);
                }
            }
        }
    }
}

/// The first enabled radio of the group from `i` on, sought again from `j` at or before
/// `i`, is the same when none lies between.
proof fn lemma_first_member_skips(s: Seq<GroupedRadioView>, g: Seq<char>, j: int, i: int, selected: bool)
    requires
        0 <= j <= i,
        forall|k: int| j <= k < i && k < s.len() ==> !(group_member(s[k], g) && (!selected || s[k].radio.selected)),
    ensures
        first_member_from(s, g, j, selected) == first_member_from(s, g, i, selected),
    decreases i - j,
{
    if j < i && j < s.len() {
        lemma_first_member_skips(s, g, j + 1, i, selected);
    } else if j < i {
        lemma_first_member_skips(s, g, j + 1, i, selected);
    }
}

/// The index of the first enabled radio of group `group` (a selected one when
/// `selected`), if any.
fn first_in_group(radios: &Vec<GroupedRadio>, group: &str, selected: bool) -> (found: Option<usize>)
    ensures
        match found {
            Some(i) => first_member_from(radio_views(radios@), group@, 0, selected) == Some(i as int),
            None => first_member_from(radio_views(radios@), group@, 0, selected) is None,
        },
{
    let ghost s = radio_views(radios@);
    let mut i: usize = 0;
    while i < radios.len()
        invariant
            s == radio_views(radios@),
            i <= radios@.len(),
            first_member_from(s, group@, 0, selected) == first_member_from(s, group@, i as int, selected),
        decreases radios@.len() - i,
    {
        let entry = &radios[i];
        assert(s[i as int] == entry@);
        let member = match &entry.group {
            Some(g) => same_text(g.as_str(), group) && !entry.radio.disabled,
            None => false,
        };
        if member && (!selected || entry.radio.selected) {
            return Some(i);
        }
        i = i + 1;
    }
    None
}

/// Where the tab key enters the group `group`: the index of its first selected enabled
/// radio, else of its first enabled radio, else nothing.
pub fn radio_tab_stop(radios: &Vec<GroupedRadio>, group: &str) -> (stop: Option<usize>)
    ensures
        match stop {
            Some(i) => tab_stop(radio_views(radios@), group@) == Some(i as int),
            None => tab_stop(radio_views(radios@), group@) is None,
        },
{
    match first_in_group(radios, group, true) {
        Some(i) => Some(i),
        None => first_in_group(radios, group, false),
    }
}

/// Selects the radio at `target`. A disabled radio, or an index past the end, is
/// refused. A radio of a group becomes the group's one selected radio, the others of
/// its group, disabled ones too, becoming unselected; a radio without a group is
/// activated. Reports whether the selection went ahead.
pub fn select_radio(radios: &mut Vec<GroupedRadio>, target: usize) -> (done: bool)
    ensures
        radio_selected(radio_views(old(radios)@), radio_views(final(radios)@), target as int, done),
{
    let ghost s = radio_views(radios@);
    if target >= radios.len() || radios[target].radio.disabled {
        return false;
    }
    let group = match &radios[target].group {
        Some(g) => g.clone(),
        None => {
            let mut radio = copy_radio(&radios[target].radio);
            let done = radio.activate();
            let entry_group = copy_group(&radios[target].group);
            radios.set(target, GroupedRadio { group: entry_group, radio });
            proof {
                assert(radio_views(radios@) =~= radio_views(radios@));
                assert forall|i: int| 0 <= i < s.len() && i != target implies #[trigger] radio_views(radios@)[i] == s[i] by {}
            }
            return done;
        },
    };
    assert(s[target as int].group == Some(group@));
    let mut i: usize = 0;
    while i < radios.len()
        invariant
            radios@.len() == s.len(),
            target < s.len(),
            s[target as int].group == Some(group@),
            i <= s.len(),
            forall|k: int|
                0 <= k < i ==> #[trigger] radio_views(radios@)[k] == if in_group(s[k], group@) {
                    GroupedRadioView { radio: RadioView { selected: k == target, ..s[k].radio }, ..s[k] }
                } else {
                    s[k]
                },
            forall|k: int| i <= k < s.len() ==> #[trigger] radio_views(radios@)[k] == s[k],
        decreases s.len() - i,
    {
        let ghost before = radios@;
        assert(radio_views(radios@)[i as int] == s[i as int]);
        let member = match &radios[i].group {
            Some(g) => same_text(g.as_str(), group.as_str()),
            None => false,
        };
        assert(member <==> in_group(s[i as int], group@));
        if member {
            let mut radio = copy_radio(&radios[i].radio);
            radio.selected = i == target;
            let entry_group = copy_group(&radios[i].group);
            let entry = GroupedRadio { group: entry_group, radio };
            assert(entry@ == GroupedRadioView {
                radio: RadioView { selected: i == target, ..s[i as int].radio },
                ..s[i as int]
            });
            radios.set(i, entry);
            proof {
                assert forall|k: int| 0 <= k < s.len() && k != i implies #[trigger] radio_views(radios@)[k]
                    == radio_views(before)[k] by {
                    assert(radios@[k] == before[k]);
                }
                assert(radio_views(radios@)[i as int] == entry@);
            }
        }
        i = i + 1;
    }
    proof {
        let after = radio_views(radios@);
        assert(after.len() == s.len());
    }
    true
}

/// Arrow navigation from the radio at `current`: the index of the next (or, backward,
/// the previous) enabled radio of its group in depth-first order, wrapping round.
/// Nothing when `current` is past the end, has no group, or is disabled.
pub fn adjacent_radio(radios: &Vec<GroupedRadio>, current: usize, forward: bool) -> (next: Option<usize>)
    ensures
        match next {
            Some(i) => adjacent_is(radio_views(radios@), current as int, forward, Some(i as int)),
            None => adjacent_is(radio_views(radios@), current as int, forward, None),
        },
{
    let ghost s = radio_views(radios@);
    if current >= radios.len() {
        return None;
    }
    let group = match &radios[current].group {
        Some(g) => g,
        None => {
            return None;
        },
    };
    let ghost g = group@;
    assert(s[current as int].group == Some(g));
    let mut members: Vec<usize> = Vec::new();
    let mut position: Option<usize> = None;
    let mut i: usize = 0;
    while i < radios.len()
        invariant
            s == radio_views(radios@),
            i <= s.len(),
            current < s.len(),
            g == group@,
            members@.len() == members_upto(s, g, i as int).len(),
            forall|k: int| 0 <= k < members@.len() ==> #[trigger] members@[k] as int == members_upto(s, g, i as int)[k],
            match position {
                Some(p) => p < members@.len() && members@[p as int] == current,
                None => current >= i || !group_member(s[current as int], g),
            },
        decreases s.len() - i,
    {
        let entry = &radios[i];
        assert(s[i as int] == entry@);
        let member = match &entry.group {
            Some(h) => same_text(h.as_str(), group.as_str()) && !entry.radio.disabled,
            None => false,
        };
        if member {
            if i == current {
                position = Some(members.len());
            }
            members.push(i);
        }
        i = i + 1;
    }
    proof {
        lemma_members_upto(s, g, s.len() as int);
    }
    match position {
        None => {
            proof {
                if group_members(s, g).contains(current as int) {
                    let k = choose|k: int| 0 <= k < group_members(s, g).len() && group_members(s, g)[k] == current;
                    assert(group_member(s[group_members(s, g)[k]], g));
                }
            }
            None
        },
        Some(k) => {
            let j = step_index(k, members.len(), forward);
            proof {
                let m = group_members(s, g);
                assert(m[k as int] == current);
                assert(m.contains(current as int));
            }
            Some(members[j])
        },
    }
}

/// After radio `t` of a group is selected, the tab key enters that group at `t`.
pub proof fn lemma_tab_stop_after_selection(s: Seq<GroupedRadioView>, after: Seq<GroupedRadioView>, t: int, done: bool)
    requires
        radio_selected(s, after, t, done),
        done,
        0 <= t < s.len(),
        s[t].group is Some,
    ensures
        tab_stop(after, s[t].group->0) == Some(t),
{
    let g = s[t].group->0;
    assert(after[t] == GroupedRadioView { radio: RadioView { selected: true, ..s[t].radio }, ..s[t] });
    assert forall|k: int| 0 <= k < t && k < after.len() implies !(group_member(after[k], g) && (!true || after[k].radio.selected)) by {
        assert(after[k] == if in_group(s[k], g) {
            GroupedRadioView { radio: RadioView { selected: k == t, ..s[k].radio }, ..s[k] }
        } else {
            s[k]
        });
    }
    lemma_first_member_skips(after, g, 0, t, true);
}

/// After selecting radio `t` of a group, it is the only selected radio of the group.
pub proof fn lemma_selection_leaves_one_selected(s: Seq<GroupedRadioView>, after: Seq<GroupedRadioView>, t: int, done: bool, i: int)
    requires
        radio_selected(s, after, t, done),
        done,
        0 <= t < s.len(),
        s[t].group is Some,
        0 <= i < after.len(),
        in_group(after[i], s[t].group->0),
    ensures
        after[i].radio.selected <==> i == t,
{
    let g = s[t].group->0;
    assert(after[i] == if in_group(s[i], g) {
        GroupedRadioView { radio: RadioView { selected: i == t, ..s[i].radio }, ..s[i] }
    } else {
        s[i]
    });
}

/// Arrow navigation one way, then the other, comes back to the radio it started from.
pub proof fn lemma_adjacent_radio_round_trip(s: Seq<GroupedRadioView>, c: int, forward: bool, x: int, y: int)
    requires
        adjacent_is(s, c, forward, Some(x)),
        adjacent_is(s, x, !forward, Some(y)),
    ensures
        y == c,
{
    let g = s[c].group->0;
    let m = group_members(s, g);
    lemma_members_upto(s, g, s.len() as int);
    let k = choose|k: int| 0 <= k < m.len() && #[trigger] m[k] == c && Some(x) == Some(m[cycled(k, 1, m.len() as int, forward)]);
    crate::cyclic::lemma_cycled_step(k, 0, m.len() as int, forward);
    let kx = cycled(k, 1, m.len() as int, forward);
    assert(group_member(s[m[kx]], g));
    assert(s[x].group == Some(g));
    let j = choose|j: int| 0 <= j < m.len() && #[trigger] m[j] == x && Some(y) == Some(m[cycled(j, 1, m.len() as int, !forward)]);
    assert(j == kx) by {
        if j < kx {
            assert(m[j] < m[kx]);
        } else if j > kx {
            assert(m[kx] < m[j]);
        }
    }
    lemma_cycled_back(k, m.len() as int, forward);
}

} // verus!
