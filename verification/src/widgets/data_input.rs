use vstd::prelude::*;

use crate::direction::{Direction, DirectionSetting};
use crate::focus::{focus_when_enabled, FocusPolicy};
use crate::input::{ArrowKey, Key, KeyState, KeyboardEvent};
use crate::semantics::{
    opt_view, plain, quiet_state, SemanticAction, SemanticRole, SemanticState, Semantics,
};
use crate::semantics::SemanticNumericValue;
use crate::style::{style_of, ComponentState, ComponentStyle, VisualVariant};
use crate::text_util::{
    decimal, owned, push_decimal, push_signed_zero_padded, push_zero_padded, signed_zero_padded,
    any_blank, has_blank, is_blank, is_blank_seq, join, joined, same_strings, stack_lines, stacked,
    str_views, to_strings, views, zero_padded,
};
use crate::cyclic::{cycled, lemma_cycled_full, lemma_cycled_step, step_index};
use crate::widgets::image::{keep_alternative, kept_alternative};
use crate::widgets::navigation::disabled_style;

verus! {

/// A year of the proleptic Gregorian calendar is a leap year: divisible by four, and
/// not by a hundred unless by four hundred.
pub open spec fn leap_year(year: int) -> bool {
    year % 4 == 0 && (year % 100 != 0 || year % 400 == 0)
}

/// The number of days of a month; months other than the twelve count as long ones.
pub open spec fn month_length(year: int, month: int) -> int {
    if month == 4 || month == 6 || month == 9 || month == 11 {
        30
    } else if month == 2 {
        if leap_year(year) {
            29
        } else {
            28
        }
    } else {
        31
    }
}

/// A day of the Gregorian calendar, not necessarily a valid one.
#[derive(Clone, Copy, Debug, PartialEq, Eq, Structural, PartialOrd, Ord, Hash)]
pub struct CivilDate {
    pub year: i32,
    pub month: u8,
    pub day: u8,
}

/// The year, month and day do not describe a day of the calendar.
#[derive(Clone, Copy, Debug, PartialEq, Eq, Structural, Hash)]
pub struct CivilDateError;

impl CivilDateError {
    pub fn message(&self) -> (text: &'static str)
        ensures
            text@ == "date must contain a valid Gregorian year, month, and day"@,
    {
        "date must contain a valid Gregorian year, month, and day"
    }
}

/// The month is one of the twelve and the day one of its days.
pub open spec fn in_calendar(d: CivilDate) -> bool {
    &&& 1 <= d.month <= 12
    &&& 1 <= d.day <= month_length(d.year as int, d.month as int)
}

/// A date that `CivilDate::new` accepts: a day of the calendar in a year other than zero.
pub open spec fn valid_date(d: CivilDate) -> bool {
    d.year != 0 && in_calendar(d)
}

/// The day after, by the calendar's rules: the next day of the month, else the first
/// of the next month, else the first of January of the next year.
pub open spec fn following_day(d: CivilDate) -> CivilDate {
    if d.day < month_length(d.year as int, d.month as int) {
        CivilDate { day: (d.day + 1) as u8, ..d }
    } else if d.month < 12 {
        CivilDate { month: (d.month + 1) as u8, day: 1, ..d }
    } else {
        CivilDate { year: (d.year + 1) as i32, month: 1, day: 1 }
    }
}

/// The day before, by the calendar's rules: the previous day of the month, else the
/// last day of the previous month, else the last of December of the year before.
pub open spec fn preceding_day(d: CivilDate) -> CivilDate {
    if d.day > 1 {
        CivilDate { day: (d.day - 1) as u8, ..d }
    } else if d.month > 1 {
        CivilDate {
            month: (d.month - 1) as u8,
            day: month_length(d.year as int, d.month - 1) as u8,
            ..d
        }
    } else {
        CivilDate { year: (d.year - 1) as i32, month: 12, day: 31 }
    }
}

/// The next day is representable: it does not leave the range of years.
pub open spec fn following_fits(d: CivilDate) -> bool {
    !(d.day >= month_length(d.year as int, d.month as int) && d.month >= 12 && d.year == i32::MAX)
}

/// The previous day is representable: it does not leave the range of years.
pub open spec fn preceding_fits(d: CivilDate) -> bool {
    !(d.day <= 1 && d.month <= 1 && d.year == i32::MIN)
}

/// One day on, forward or back.
pub open spec fn day_step(d: CivilDate, forward: bool) -> CivilDate {
    if forward {
        following_day(d)
    } else {
        preceding_day(d)
    }
}

/// One day on, forward or back, is representable.
pub open spec fn day_step_fits(d: CivilDate, forward: bool) -> bool {
    if forward {
        following_fits(d)
    } else {
        preceding_fits(d)
    }
}

/// `k` days on, forward or back.
pub open spec fn days_from(d: CivilDate, k: nat, forward: bool) -> CivilDate
    decreases k,
{
    if k == 0 {
        d
    } else {
        day_step(days_from(d, (k - 1) as nat, forward), forward)
    }
}

/// Each of the `k` days on from `d` is representable.
pub open spec fn walk_fits(d: CivilDate, k: nat, forward: bool) -> bool
    decreases k,
{
    k == 0 || (walk_fits(d, (k - 1) as nat, forward) && day_step_fits(
        days_from(d, (k - 1) as nat, forward),
        forward,
    ))
}

/// The magnitude of a shift in days.
pub open spec fn shift_length(delta: int) -> nat {
    if delta < 0 {
        (-delta) as nat
    } else {
        delta as nat
    }
}

/// The date `delta` days later (earlier when negative).
pub open spec fn shifted(d: CivilDate, delta: int) -> CivilDate {
    days_from(d, shift_length(delta), delta > 0)
}

/// Shifting by `delta` days stays within the range of years.
pub open spec fn shift_fits(d: CivilDate, delta: int) -> bool {
    walk_fits(d, shift_length(delta), delta > 0)
}

/// The running month count of a date moved by `delta` months: twelve per year, from
/// zero for January.
pub open spec fn month_count(d: CivilDate, delta: int) -> int {
    d.year * 12 + d.month - 1 + delta
}

/// Moving by `delta` months computes within the range of 32-bit integers.
pub open spec fn months_fit(d: CivilDate, delta: int) -> bool {
    &&& i32::MIN <= d.year * 12 <= i32::MAX
    &&& i32::MIN <= d.year * 12 + d.month <= i32::MAX
    &&& i32::MIN <= d.year * 12 + d.month - 1 <= i32::MAX
    &&& i32::MIN <= month_count(d, delta) <= i32::MAX
}

/// The date `delta` months later (earlier when negative), on the same day of the
/// month or the last day when the month is shorter.
pub open spec fn months_later(d: CivilDate, delta: int) -> CivilDate {
    let count = month_count(d, delta);
    let year = count / 12;
    let month = count % 12 + 1;
    let length = month_length(year, month);
    CivilDate {
        year: year as i32,
        month: month as u8,
        day: if d.day < length {
            d.day
        } else {
            length as u8
        },
    }
}

/// A date as text: the year in at least four digits with its sign, then the month and
/// the day in two digits, joined by hyphens.
pub open spec fn date_text(d: CivilDate) -> Seq<char> {
    signed_zero_padded(d.year as int, 4) + seq!['-'] + zero_padded(d.month as nat, 2) + seq!['-']
        + zero_padded(d.day as nat, 2)
}

/// Whether the year is a leap year.
pub fn is_leap_year(year: i32) -> (leap: bool)
    ensures
        leap == leap_year(year as int),
{
    let by_four = year.checked_rem_euclid(4).unwrap();
    let by_hundred = year.checked_rem_euclid(100).unwrap();
    let by_four_hundred = year.checked_rem_euclid(400).unwrap();
    by_four == 0 && (by_hundred != 0 || by_four_hundred == 0)
}

impl CivilDate {
    /// Accepts a day of the calendar in a year other than zero.
    pub fn new(year: i32, month: u8, day: u8) -> (result: Result<Self, CivilDateError>)
        ensures
            result is Ok <==> valid_date(CivilDate { year, month, day }),
            result matches Ok(d) ==> d == (CivilDate { year, month, day }),
    {
        let date = CivilDate { year, month, day };
        if year != 0 && 1 <= month && month <= 12 && 1 <= day && day <= date.days_in_month() {
            Ok(date)
        } else {
            Err(CivilDateError)
        }
    }

    /// The number of days of the date's month.
    pub fn days_in_month(self) -> (days: u8)
        ensures
            days == month_length(self.year as int, self.month as int),
    {
        match self.month {
            4 | 6 | 9 | 11 => 30,
            2 => if is_leap_year(self.year) {
                29
            } else {
                28
            },
            _ => 31,
        }
    }

    /// The day after.
    pub fn next_day(self) -> (next: Self)
        requires
            following_fits(self),
        ensures
            next == following_day(self),
    {
        if self.day < self.days_in_month() {
            CivilDate { day: self.day + 1, ..self }
        } else if self.month < 12 {
            CivilDate { month: self.month + 1, day: 1, ..self }
        } else {
            CivilDate { year: self.year + 1, month: 1, day: 1 }
        }
    }

    /// The day before.
    pub fn previous_day(self) -> (previous: Self)
        requires
            preceding_fits(self),
        ensures
            previous == preceding_day(self),
    {
        if self.day > 1 {
            CivilDate { day: self.day - 1, ..self }
        } else {
            let (year, month) = if self.month > 1 {
                (self.year, self.month - 1)
            } else {
                (self.year - 1, 12u8)
            };
            let mut date = CivilDate { year, month, day: 1 };
            date.day = date.days_in_month();
            date
        }
    }

    /// The date `delta` days later, or earlier when `delta` is negative.
    pub fn add_days(self, delta: i8) -> (date: Self)
        requires
            shift_fits(self, delta as int),
        ensures
            date == shifted(self, delta as int),
    {
        let forward = delta > 0;
        let steps: u8 = if delta < 0 {
            (0i16 - delta as i16) as u8
        } else {
            delta as u8
        };
        let mut date = self;
        let mut i: u8 = 0;
        while i < steps
            invariant
                steps as nat == shift_length(delta as int),
                forward == (delta > 0),
                walk_fits(self, steps as nat, forward),
                i <= steps,
                date == days_from(self, i as nat, forward),
            decreases steps - i,
        {
            proof {
                lemma_walk_fits_prefix(self, steps as nat, (i + 1) as nat, forward);
            }
            date = if forward {
                date.next_day()
            } else {
                date.previous_day()
            };
            i = i + 1;
        }
        date
    }

    /// The date `delta` months later, or earlier when negative, on the same day of the
    /// month or the last day of a shorter month.
    pub fn add_months(self, delta: i8) -> (date: Self)
        requires
            months_fit(self, delta as int),
        ensures
            date == months_later(self, delta as int),
    {
        let count: i32 = self.year * 12 + self.month as i32 - 1 + delta as i32;
        let year = count.checked_div_euclid(12).unwrap();
        let month_zero = count.checked_rem_euclid(12).unwrap();
        proof {
            vstd::arithmetic::div_mod::lemma_mod_bound(count as int, 12);
            vstd::arithmetic::div_mod::lemma_div_is_ordered(count as int, i32::MAX as int, 12);
            vstd::arithmetic::div_mod::lemma_div_is_ordered(i32::MIN as int, count as int, 12);
        }
        let month = (month_zero + 1) as u8;
        let mut date = CivilDate { year, month, day: 1 };
        let length = date.days_in_month();
        date.day = if self.day < length {
            self.day
        } else {
            length
        };
        date
    }

    /// The date as year, month and day, such as 2024-02-29.
    pub fn to_string(&self) -> (text: String)
        ensures
            text@ == date_text(*self),
    {
        let mut text = String::new();
        push_signed_zero_padded(&mut text, self.year as i64, 4);
        crate::text_util::push_char(&mut text, '-');
        push_zero_padded(&mut text, self.month as u64, 2);
        crate::text_util::push_char(&mut text, '-');
        push_zero_padded(&mut text, self.day as u64, 2);
        text
    }
}

/// A walk that fits for `k` days fits for any fewer.
pub proof fn lemma_walk_fits_prefix(d: CivilDate, k: nat, j: nat, forward: bool)
    requires
        walk_fits(d, k, forward),
        j <= k,
    ensures
        walk_fits(d, j, forward),
        j < k ==> day_step_fits(days_from(d, j, forward), forward),
    decreases k,
{
    if j < k {
        lemma_walk_fits_prefix(d, (k - 1) as nat, j, forward);
        if j + 1 < k {
            lemma_walk_fits_prefix(d, (k - 1) as nat, (j + 1) as nat, forward);
            assert(walk_fits(d, (j + 1) as nat, forward));
        }
    }
}

/// Every month has between 28 and 31 days.
pub proof fn lemma_month_length_bounds(year: int, month: int)
    ensures
        28 <= month_length(year, month) <= 31,
{
}

/// The day after a day of the calendar is a day of the calendar, and so is the day
/// before.
pub proof fn lemma_steps_stay_in_calendar(d: CivilDate)
    requires
        in_calendar(d),
    ensures
        following_fits(d) ==> in_calendar(following_day(d)),
        preceding_fits(d) ==> in_calendar(preceding_day(d)),
{
}

/// Going a day forward and then a day back, or back and then forward, returns to the
/// same day of the calendar.
pub proof fn lemma_day_round_trip(d: CivilDate)
    requires
        in_calendar(d),
    ensures
        following_fits(d) ==> preceding_fits(following_day(d)) && preceding_day(following_day(d))
            == d,
        preceding_fits(d) ==> following_fits(preceding_day(d)) && following_day(preceding_day(d))
            == d,
{
}

/// Moving by months lands on a day of the calendar, keeping the day of the month when
/// the new month has it and taking the last day otherwise.
pub proof fn lemma_months_stay_in_calendar(d: CivilDate, delta: int)
    requires
        in_calendar(d),
        months_fit(d, delta),
    ensures
        in_calendar(months_later(d, delta)),
        months_later(d, delta).day <= d.day,
{
    let count = month_count(d, delta);
    vstd::arithmetic::div_mod::lemma_mod_bound(count, 12);
}


/// A month of days to choose one from.
#[derive(Clone, Debug, PartialEq)]
pub struct Calendar {
    pub(crate) label: String,
    pub(crate) selected: CivilDate,
    pub disabled: bool,
    pub style: ComponentStyle,
    pub direction: DirectionSetting,
}

/// The state of a calendar as contracts see it.
pub struct CalendarView {
    pub label: Seq<char>,
    pub selected: CivilDate,
    pub disabled: bool,
    pub style: ComponentStyle,
    pub direction: DirectionSetting,
}

impl View for Calendar {
    type V = CalendarView;

    closed spec fn view(&self) -> CalendarView {
        CalendarView {
            label: self.label@,
            selected: self.selected,
            disabled: self.disabled,
            style: self.style,
            direction: self.direction,
        }
    }
}

/// Selecting `target`: refused while disabled, else it becomes the selection and the
/// change is reported.
pub open spec fn selects(before: CalendarView, after: CalendarView, target: CivilDate, changed: bool) -> bool {
    if before.disabled {
        !changed && after == before
    } else {
        changed == (target != before.selected) && after == (CalendarView {
            selected: target,
            ..before
        })
    }
}

/// The shift in days that an arrow asks for, as the layout direction reads.
pub open spec fn arrow_days(key: Key, direction: Direction) -> int {
    match key {
        Key::Arrow(ArrowKey::Right) => if direction == Direction::Ltr {
            1
        } else {
            -1
        },
        Key::Arrow(ArrowKey::Left) => if direction == Direction::Ltr {
            -1
        } else {
            1
        },
        Key::Arrow(ArrowKey::Down) => 7,
        Key::Arrow(ArrowKey::Up) => -7,
        _ => 0,
    }
}

/// The date a key moves the selection to, if the key moves it at all: arrows by days
/// (Up and Down by weeks), Page Down and Page Up by months, Home and End to the first
/// and last day of the month.
pub open spec fn calendar_target(d: CivilDate, key: Key, direction: Direction) -> Option<CivilDate> {
    match key {
        Key::Arrow(_) => Some(shifted(d, arrow_days(key, direction))),
        Key::PageDown => Some(months_later(d, 1)),
        Key::PageUp => Some(months_later(d, -1)),
        Key::Home => Some(CivilDate { day: 1, ..d }),
        Key::End => Some(CivilDate { day: month_length(d.year as int, d.month as int) as u8, ..d }),
        _ => None,
    }
}

/// The date a key asks for can be computed: its days or months stay in range.
pub open spec fn calendar_target_fits(d: CivilDate, key: Key, direction: Direction) -> bool {
    match key {
        Key::Arrow(_) => shift_fits(d, arrow_days(key, direction)),
        Key::PageDown => months_fit(d, 1),
        Key::PageUp => months_fit(d, -1),
        _ => true,
    }
}

/// The key event can be handled without leaving the range of dates: it is ignored, or
/// the date it asks for fits.
pub open spec fn calendar_key_fits(before: CalendarView, event: KeyboardEvent, direction: Direction) -> bool {
    before.disabled || event.state != KeyState::Pressed || calendar_target_fits(
        before.selected,
        event.key,
        direction,
    )
}

/// What a calendar does with one key event: while enabled, a pressed key that moves
/// the selection selects its target; anything else changes nothing.
pub open spec fn calendar_key(
    before: CalendarView,
    after: CalendarView,
    event: KeyboardEvent,
    direction: Direction,
    changed: bool,
) -> bool {
    if before.disabled || event.state != KeyState::Pressed {
        !changed && after == before
    } else {
        match calendar_target(before.selected, event.key, direction) {
            Some(target) => selects(before, after, target, changed),
            None => !changed && after == before,
        }
    }
}

/// The semantics of the day buttons of a month: one per day, named by its number, the
/// selected day marked.
pub open spec fn day_buttons(children: Seq<Semantics>, selected: CivilDate) -> bool {
    &&& children.len() == month_length(selected.year as int, selected.month as int)
    &&& forall|i: int|
        0 <= i < children.len() ==> plain(
            #[trigger] children[i],
            SemanticRole::Button,
            Some(decimal((i + 1) as nat)),
            None,
            SemanticState { selected: i + 1 == selected.day, ..quiet_state() },
            seq![],
        )
}

/// The semantics of a calendar: a group named by its label and valued by the selected
/// date, with one button per day of the selected month.
pub open spec fn calendar_semantics(s: Semantics, c: CalendarView) -> bool {
    &&& s.role == SemanticRole::Group
    &&& opt_view(s.name) == Some(c.label)
    &&& opt_view(s.value) == Some(date_text(c.selected))
    &&& s.placeholder is None
    &&& s.numeric_value is None
    &&& s.editable_text is None
    &&& s.state == (SemanticState { disabled: c.disabled, ..quiet_state() })
    &&& s.actions@ == seq![
        SemanticAction::Focus,
        SemanticAction::Increment,
        SemanticAction::Decrement,
    ]
    &&& s.active_virtual_child is None
    &&& day_buttons(s.virtual_children@, c.selected)
}

impl Calendar {
    /// An enabled calendar in the outline variant, inheriting its direction.
    pub fn new(label: &str, selected: CivilDate) -> (calendar: Self)
        ensures
            calendar@ == (CalendarView {
                label: label@,
                selected,
                disabled: false,
                style: style_of(VisualVariant::Outline),
                direction: DirectionSetting::Inherit,
            }),
    {
        Calendar {
            label: owned(label),
            selected,
            disabled: false,
            style: ComponentStyle::with_variant(VisualVariant::Outline),
            direction: DirectionSetting::Inherit,
        }
    }

    pub fn label(&self) -> (label: &str)
        ensures
            label@ == self@.label,
    {
        self.label.as_str()
    }

    pub fn selected(&self) -> (selected: CivilDate)
        ensures
            selected == self@.selected,
    {
        self.selected
    }

    /// Selects a date unless disabled; reports whether the selection changed.
    pub fn set_selected(&mut self, selected: CivilDate) -> (changed: bool)
        ensures
            selects(old(self)@, final(self)@, selected, changed),
    {
        if self.disabled {
            return false;
        }
        let changed = self.selected != selected;
        self.selected = selected;
        changed
    }

    /// Selects the day after.
    pub fn next_day(&mut self) -> (changed: bool)
        requires
            shift_fits(old(self)@.selected, 1),
        ensures
            selects(old(self)@, final(self)@, shifted(old(self)@.selected, 1), changed),
    {
        self.shift_days(1)
    }

    /// Selects the day before.
    pub fn previous_day(&mut self) -> (changed: bool)
        requires
            shift_fits(old(self)@.selected, -1),
        ensures
            selects(old(self)@, final(self)@, shifted(old(self)@.selected, -1), changed),
    {
        self.shift_days(-1)
    }

    /// Selects the same day of the next month, or its last day when shorter.
    pub fn next_month(&mut self) -> (changed: bool)
        requires
            months_fit(old(self)@.selected, 1),
        ensures
            selects(old(self)@, final(self)@, months_later(old(self)@.selected, 1), changed),
    {
        self.shift_months(1)
    }

    /// Selects the same day of the previous month, or its last day when shorter.
    pub fn previous_month(&mut self) -> (changed: bool)
        requires
            months_fit(old(self)@.selected, -1),
        ensures
            selects(old(self)@, final(self)@, months_later(old(self)@.selected, -1), changed),
    {
        self.shift_months(-1)
    }

    /// Arrows move by a day as the layout direction reads, Up and Down by a week, Page
    /// Up and Page Down by a month, Home and End to either end of the month. A disabled
    /// calendar and released keys change nothing.
    pub fn handle_key(&mut self, event: &KeyboardEvent, direction: Direction) -> (changed: bool)
        requires
            calendar_key_fits(old(self)@, *event, direction),
        ensures
            calendar_key(old(self)@, final(self)@, *event, direction, changed),
    {
        if self.disabled || event.state != KeyState::Pressed {
            return false;
        }
        match event.key {
            Key::Arrow(ArrowKey::Right) => if direction == Direction::Ltr {
                self.shift_days(1)
            } else {
                self.shift_days(-1)
            },
            Key::Arrow(ArrowKey::Left) => if direction == Direction::Ltr {
                self.shift_days(-1)
            } else {
                self.shift_days(1)
            },
            Key::Arrow(ArrowKey::Down) => self.shift_days(7),
            Key::Arrow(ArrowKey::Up) => self.shift_days(-7),
            Key::PageDown => self.shift_months(1),
            Key::PageUp => self.shift_months(-1),
            Key::Home => {
                let first = CivilDate { day: 1, ..self.selected };
                self.set_selected(first)
            },
            Key::End => {
                let last = CivilDate { day: self.selected.days_in_month(), ..self.selected };
                self.set_selected(last)
            },
            _ => false,
        }
    }

    /// A group named by the label and valued by the selected date, with one button per
    /// day of the selected month.
    pub fn semantics(&self) -> (s: Semantics)
        ensures
            calendar_semantics(s, self@),
    {
        let mut semantics = Semantics::new(SemanticRole::Group).with_name(self.label.clone()).with_value(
            self.selected.to_string(),
        ).with_action(SemanticAction::Focus).with_action(SemanticAction::Increment).with_action(
            SemanticAction::Decrement,
        );
        let days = self.selected.days_in_month();
        let mut day: u8 = 1;
        while day <= days
            invariant
                days == month_length(self@.selected.year as int, self@.selected.month as int),
                1 <= day <= days + 1,
                semantics.role == SemanticRole::Group,
                opt_view(semantics.name) == Some(self@.label),
                opt_view(semantics.value) == Some(date_text(self@.selected)),
                semantics.placeholder is None,
                semantics.numeric_value is None,
                semantics.editable_text is None,
                semantics.state == quiet_state(),
                semantics.actions@ == seq![
                    SemanticAction::Focus,
                    SemanticAction::Increment,
                    SemanticAction::Decrement,
                ],
                semantics.active_virtual_child is None,
                semantics.virtual_children@.len() == day - 1,
                forall|i: int|
                    0 <= i < day - 1 ==> plain(
                        #[trigger] semantics.virtual_children@[i],
                        SemanticRole::Button,
                        Some(decimal((i + 1) as nat)),
                        None,
                        SemanticState { selected: i + 1 == self@.selected.day, ..quiet_state() },
                        seq![],
                    ),
            decreases days + 1 - day,
        {
            let mut name = String::new();
            push_decimal(&mut name, day as u64);
            let mut child = Semantics::new(SemanticRole::Button).with_name(name);
            child.state.selected = day == self.selected.day;
            semantics = semantics.with_virtual_child(child);
            day = day + 1;
        }
        semantics.state.disabled = self.disabled;
        semantics
    }

    pub fn focus_policy(&self) -> (policy: FocusPolicy)
        ensures
            policy == focus_when_enabled(self@.disabled),
    {
        FocusPolicy::enabled_unless(self.disabled)
    }

    /// The label and the selected date.
    pub fn display_text(&self) -> (text: String)
        ensures
            text@ == self@.label + "  "@ + date_text(self@.selected),
    {
        let mut text = self.label.clone();
        text.append("  ");
        let date = self.selected.to_string();
        text.append(date.as_str());
        text
    }

    /// The style the calendar draws with.
    pub fn resolved_style(&self) -> (style: ComponentStyle)
        ensures
            style == disabled_style(self@.style, self@.disabled),
    {
        let mut style = self.style;
        style.state.disabled = self.disabled;
        style
    }

    fn shift_days(&mut self, delta: i8) -> (changed: bool)
        requires
            shift_fits(old(self)@.selected, delta as int),
        ensures
            selects(old(self)@, final(self)@, shifted(old(self)@.selected, delta as int), changed),
    {
        let target = self.selected.add_days(delta);
        self.set_selected(target)
    }

    fn shift_months(&mut self, delta: i8) -> (changed: bool)
        requires
            months_fit(old(self)@.selected, delta as int),
        ensures
            selects(old(self)@, final(self)@, months_later(old(self)@.selected, delta as int), changed),
    {
        let target = self.selected.add_months(delta);
        self.set_selected(target)
    }
}


/// A date field that opens a calendar to pick from.
#[derive(Clone, Debug, PartialEq)]
pub struct DateInput {
    pub calendar: Calendar,
    pub open: bool,
}

/// Activation: refused while the calendar is disabled, else it opens a closed picker
/// and closes an open one.
pub open spec fn date_input_toggles(before: DateInput, after: DateInput, changed: bool) -> bool {
    after.calendar@ == before.calendar@ && if before.calendar@.disabled {
        !changed && after.open == before.open
    } else {
        changed && after.open == !before.open
    }
}

/// What a date input does with one key event. Space and Enter, unrepeated, toggle the
/// picker; Escape closes an open picker; while open, other keys go to the calendar.
pub open spec fn date_input_key(
    before: DateInput,
    after: DateInput,
    event: KeyboardEvent,
    direction: Direction,
    changed: bool,
) -> bool {
    let unchanged = !changed && after.calendar@ == before.calendar@ && after.open == before.open;
    if event.state != KeyState::Pressed {
        unchanged
    } else if (event.key == Key::Space || event.key == Key::Enter) && !event.repeat {
        date_input_toggles(before, after, changed)
    } else if event.key == Key::Escape && before.open {
        changed && !after.open && after.calendar@ == before.calendar@
    } else if before.open {
        after.open && calendar_key(before.calendar@, after.calendar@, event, direction, changed)
    } else {
        unchanged
    }
}

impl DateInput {
    /// A closed picker over a new calendar.
    pub fn new(label: &str, selected: CivilDate) -> (input: Self)
        ensures
            input.calendar@ == (CalendarView {
                label: label@,
                selected,
                disabled: false,
                style: style_of(VisualVariant::Outline),
                direction: DirectionSetting::Inherit,
            }),
            !input.open,
    {
        DateInput { calendar: Calendar::new(label, selected), open: false }
    }

    pub fn selected(&self) -> (selected: CivilDate)
        ensures
            selected == self.calendar@.selected,
    {
        self.calendar.selected()
    }

    /// Opens or closes the picker, unless the calendar is disabled.
    pub fn activate(&mut self) -> (changed: bool)
        ensures
            date_input_toggles(*old(self), *final(self), changed),
    {
        if self.calendar.disabled {
            return false;
        }
        self.open = !self.open;
        true
    }

    /// Space and Enter toggle the picker, Escape closes it, and while it is open the
    /// calendar takes the other keys.
    pub fn handle_key(&mut self, event: &KeyboardEvent, direction: Direction) -> (changed: bool)
        requires
            old(self).open ==> calendar_key_fits(old(self).calendar@, *event, direction),
        ensures
            date_input_key(*old(self), *final(self), *event, direction, changed),
    {
        if event.state != KeyState::Pressed {
            return false;
        }
        let toggle = match event.key {
            Key::Space | Key::Enter => !event.repeat,
            _ => false,
        };
        if toggle {
            return self.activate();
        }
        let escape = match event.key {
            Key::Escape => true,
            _ => false,
        };
        if escape && self.open {
            self.open = false;
            return true;
        }
        if self.open {
            self.calendar.handle_key(event, direction)
        } else {
            false
        }
    }

    /// A combo box named by the calendar's label and valued by the selected date, with
    /// the calendar as its child while open.
    pub fn semantics(&self) -> (s: Semantics)
        ensures
            s.role == SemanticRole::ComboBox,
            opt_view(s.name) == Some(self.calendar@.label),
            opt_view(s.value) == Some(date_text(self.calendar@.selected)),
            s.placeholder is None,
            s.numeric_value is None,
            s.editable_text is None,
            s.state == (SemanticState {
                disabled: self.calendar@.disabled,
                expanded: Some(self.open),
                ..quiet_state()
            }),
            s.actions@ == seq![
                SemanticAction::Focus,
                SemanticAction::Activate,
                SemanticAction::ShowMenu,
            ],
            s.active_virtual_child is None,
            if self.open {
                s.virtual_children@.len() == 1 && calendar_semantics(
                    s.virtual_children@[0],
                    self.calendar@,
                )
            } else {
                s.virtual_children@.len() == 0
            },
    {
        let mut semantics = Semantics::new(SemanticRole::ComboBox).with_name(
            self.calendar.label.clone(),
        ).with_value(self.selected().to_string()).with_action(SemanticAction::Focus).with_action(
            SemanticAction::Activate,
        ).with_action(SemanticAction::ShowMenu);
        semantics.state.disabled = self.calendar.disabled;
        semantics.state.expanded = Some(self.open);
        if self.open {
            semantics = semantics.with_virtual_child(self.calendar.semantics());
        }
        semantics
    }

    pub fn focus_policy(&self) -> (policy: FocusPolicy)
        ensures
            policy == focus_when_enabled(self.calendar@.disabled),
    {
        self.calendar.focus_policy()
    }

    /// The label, the selected date, and an arrow showing whether the picker is open.
    pub fn display_text(&self) -> (text: String)
        ensures
            text@ == self.calendar@.label + "  "@ + date_text(self.calendar@.selected) + "  "@
                + if self.open {
                "▲"@
            } else {
                "▼"@
            },
    {
        let mut text = self.calendar.label.clone();
        text.append("  ");
        let date = self.selected().to_string();
        text.append(date.as_str());
        text.append("  ");
        if self.open {
            text.append("▲");
        } else {
            text.append("▼");
        }
        text
    }
}

/// A labelled field with a legend and an optional validation message.
#[derive(Clone, Debug, PartialEq)]
pub struct Fieldset {
    pub(crate) legend: String,
    pub(crate) label: String,
    pub(crate) validation_message: Option<String>,
    pub style: ComponentStyle,
    pub direction: DirectionSetting,
}

/// The state of a fieldset as contracts see it.
pub struct FieldsetView {
    pub legend: Seq<char>,
    pub label: Seq<char>,
    pub validation_message: Option<Seq<char>>,
    pub style: ComponentStyle,
    pub direction: DirectionSetting,
}

impl View for Fieldset {
    type V = FieldsetView;

    closed spec fn view(&self) -> FieldsetView {
        FieldsetView {
            legend: self.legend@,
            label: self.label@,
            validation_message: opt_view(self.validation_message),
            style: self.style,
            direction: self.direction,
        }
    }
}

impl Fieldset {
    /// A valid fieldset in the outline variant, inheriting its direction.
    pub fn new(legend: &str, label: &str) -> (fieldset: Self)
        ensures
            fieldset@ == (FieldsetView {
                legend: legend@,
                label: label@,
                validation_message: None,
                style: style_of(VisualVariant::Outline),
                direction: DirectionSetting::Inherit,
            }),
    {
        Fieldset {
            legend: owned(legend),
            label: owned(label),
            validation_message: None,
            style: ComponentStyle::with_variant(VisualVariant::Outline),
            direction: DirectionSetting::Inherit,
        }
    }

    pub fn legend(&self) -> (legend: &str)
        ensures
            legend@ == self@.legend,
    {
        self.legend.as_str()
    }

    pub fn label(&self) -> (label: &str)
        ensures
            label@ == self@.label,
    {
        self.label.as_str()
    }

    pub fn validation_message(&self) -> (message: Option<&str>)
        ensures
            match message {
                Some(m) => self@.validation_message == Some(m@),
                None => self@.validation_message is None,
            },
    {
        match &self.validation_message {
            Some(m) => Some(m.as_str()),
            None => None,
        }
    }

    /// Sets the validation message; a blank message counts as none.
    pub fn set_validation_message(&mut self, message: Option<String>)
        ensures
            final(self)@ == (FieldsetView {
                validation_message: kept_alternative(message),
                ..old(self)@
            }),
    {
        self.validation_message = keep_alternative(message);
    }

    /// A group named by the legend and valued by the label, invalid while there is a
    /// message, which it then exposes as a text child.
    pub fn semantics(&self) -> (s: Semantics)
        ensures
            s.role == SemanticRole::Group,
            opt_view(s.name) == Some(self@.legend),
            opt_view(s.value) == Some(self@.label),
            s.placeholder is None,
            s.numeric_value is None,
            s.editable_text is None,
            s.state == (SemanticState {
                invalid: self@.validation_message is Some,
                ..quiet_state()
            }),
            s.actions@.len() == 0,
            s.active_virtual_child is None,
            match self@.validation_message {
                Some(m) => s.virtual_children@.len() == 1 && plain(
                    s.virtual_children@[0],
                    SemanticRole::Text,
                    Some(m),
                    None,
                    quiet_state(),
                    seq![],
                ),
                None => s.virtual_children@.len() == 0,
            },
    {
        let mut semantics = Semantics::new(SemanticRole::Group).with_name(self.legend.clone()).with_value(
            self.label.clone(),
        );
        semantics.state.invalid = self.validation_message.is_some();
        match &self.validation_message {
            Some(message) => {
                semantics = semantics.with_virtual_child(
                    Semantics::new(SemanticRole::Text).with_name(message.clone()),
                );
            },
            None => {},
        }
        semantics
    }

    /// The legend and the label on lines of their own, then the message if any.
    pub fn display_text(&self) -> (text: String)
        ensures
            text@ == match self@.validation_message {
                Some(m) => stacked(stacked(self@.legend, self@.label), m),
                None => stacked(self@.legend, self@.label),
            },
    {
        let text = stack_lines(self.legend.as_str(), self.label.as_str());
        match &self.validation_message {
            Some(message) => stack_lines(text.as_str(), message.as_str()),
            None => text,
        }
    }

    /// The style it draws with: in error while there is a message.
    pub fn resolved_style(&self) -> (style: ComponentStyle)
        ensures
            style == (ComponentStyle {
                state: ComponentState {
                    error: self@.validation_message is Some,
                    ..self@.style.state
                },
                ..self@.style
            }),
    {
        let mut style = self.style;
        style.state.error = self.validation_message.is_some();
        style
    }
}

/// A rating had no positive maximum, or a value above it.
#[derive(Clone, Copy, Debug, PartialEq, Eq, Structural, Hash)]
pub struct RatingError;

impl RatingError {
    pub fn message(&self) -> (text: &'static str)
        ensures
            text@ == "rating maximum must be positive and value must not exceed it"@,
    {
        "rating maximum must be positive and value must not exceed it"
    }
}

/// A score out of a positive maximum, such as stars.
#[derive(Debug, PartialEq)]
pub struct Rating {
    pub(crate) label: String,
    pub(crate) maximum: u8,
    pub(crate) value: u8,
    pub disabled: bool,
    pub style: ComponentStyle,
    pub direction: DirectionSetting,
}

/// The state of a rating as contracts see it.
pub struct RatingView {
    pub label: Seq<char>,
    pub maximum: u8,
    pub value: u8,
    pub disabled: bool,
    pub style: ComponentStyle,
    pub direction: DirectionSetting,
}

impl RatingView {
    /// The maximum is positive and the value does not exceed it.
    pub open spec fn well_formed(self) -> bool {
        0 < self.maximum && self.value <= self.maximum
    }
}

impl View for Rating {
    type V = RatingView;

    closed spec fn view(&self) -> RatingView {
        RatingView {
            label: self.label@,
            maximum: self.maximum,
            value: self.value,
            disabled: self.disabled,
            style: self.style,
            direction: self.direction,
        }
    }
}

/// Setting `value`: refused when above the maximum, ignored while disabled, else it
/// becomes the value and the change is reported.
pub open spec fn rating_set(before: RatingView, after: RatingView, value: u8, result: Result<bool, RatingError>) -> bool {
    if value > before.maximum {
        result == Err::<bool, RatingError>(RatingError) && after == before
    } else if before.disabled {
        result == Ok::<bool, RatingError>(false) && after == before
    } else {
        result == Ok::<bool, RatingError>(value != before.value) && after == (RatingView {
            value,
            ..before
        })
    }
}

/// Moving to a value within range: ignored while disabled, else it becomes the value
/// and the change is reported.
pub open spec fn rating_moves(before: RatingView, after: RatingView, value: u8, changed: bool) -> bool {
    if before.disabled {
        !changed && after == before
    } else {
        changed == (value != before.value) && after == (RatingView { value, ..before })
    }
}

/// One more, up to the maximum.
pub open spec fn rating_up(r: RatingView) -> u8 {
    if r.value < r.maximum {
        (r.value + 1) as u8
    } else {
        r.maximum
    }
}

/// One less, down to zero.
pub open spec fn rating_down(r: RatingView) -> u8 {
    if r.value > 0 {
        (r.value - 1) as u8
    } else {
        0
    }
}

/// The value a key moves a rating to: arrows up or down as the layout direction reads,
/// Home to zero and End to the maximum.
pub open spec fn rating_target(r: RatingView, key: Key, direction: Direction) -> Option<u8> {
    match key {
        Key::Arrow(ArrowKey::Right) => Some(
            if direction == Direction::Ltr {
                rating_up(r)
            } else {
                rating_down(r)
            },
        ),
        Key::Arrow(ArrowKey::Left) => Some(
            if direction == Direction::Ltr {
                rating_down(r)
            } else {
                rating_up(r)
            },
        ),
        Key::Home => Some(0),
        Key::End => Some(r.maximum),
        _ => None,
    }
}

/// What a rating does with one key event.
pub open spec fn rating_key(
    before: RatingView,
    after: RatingView,
    event: KeyboardEvent,
    direction: Direction,
    changed: bool,
) -> bool {
    if event.state != KeyState::Pressed {
        !changed && after == before
    } else {
        match rating_target(before, event.key, direction) {
            Some(value) => rating_moves(before, after, value, changed),
            None => !changed && after == before,
        }
    }
}

/// `count` copies of a character.
pub open spec fn repeated(c: char, count: nat) -> Seq<char> {
    Seq::new(count, |i: int| c)
}

/// Appends `count` copies of a character.
fn push_repeated(s: &mut String, c: char, count: u8)
    ensures
        final(s)@ == old(s)@ + repeated(c, count as nat),
{
    let mut i: u8 = 0;
    while i < count
        invariant
            i <= count,
            s@ == old(s)@ + repeated(c, i as nat),
        decreases count - i,
    {
        crate::text_util::push_char(s, c);
        i = i + 1;
        assert(s@ =~= old(s)@ + repeated(c, i as nat));
    }
}

impl Clone for Rating {
    fn clone(&self) -> (copy: Self)
        ensures
            copy@ == self@,
    {
        proof {
            use_type_invariant(self);
        }
        Rating {
            label: self.label.clone(),
            maximum: self.maximum,
            value: self.value,
            disabled: self.disabled,
            style: self.style,
            direction: self.direction,
        }
    }
}

impl Rating {
    #[verifier::type_invariant]
    closed spec fn value_within_maximum(self) -> bool {
        self@.well_formed()
    }

    /// An enabled rating in the transparent variant; refuses a zero maximum and a value
    /// above the maximum.
    pub fn new(label: &str, maximum: u8, value: u8) -> (result: Result<Self, RatingError>)
        ensures
            result is Err <==> (maximum == 0 || value > maximum),
            result matches Ok(r) ==> r@ == (RatingView {
                label: label@,
                maximum,
                value,
                disabled: false,
                style: style_of(VisualVariant::Transparent),
                direction: DirectionSetting::Inherit,
            }),
    {
        if maximum == 0 || value > maximum {
            return Err(RatingError);
        }
        Ok(
            Rating {
                label: owned(label),
                maximum,
                value,
                disabled: false,
                style: ComponentStyle::with_variant(VisualVariant::Transparent),
                direction: DirectionSetting::Inherit,
            },
        )
    }

    pub fn label(&self) -> (label: &str)
        ensures
            label@ == self@.label,
    {
        self.label.as_str()
    }

    pub fn value(&self) -> (value: u8)
        ensures
            value == self@.value,
            self@.well_formed(),
    {
        proof {
            use_type_invariant(self);
        }
        self.value
    }

    pub fn maximum(&self) -> (maximum: u8)
        ensures
            maximum == self@.maximum,
            self@.well_formed(),
    {
        proof {
            use_type_invariant(self);
        }
        self.maximum
    }

    /// Sets the value; refuses one above the maximum and ignores the request while
    /// disabled.
    pub fn set_value(&mut self, value: u8) -> (result: Result<bool, RatingError>)
        ensures
            rating_set(old(self)@, final(self)@, value, result),
            final(self)@.well_formed(),
    {
        proof {
            use_type_invariant(&*self);
        }
        if value > self.maximum {
            return Err(RatingError);
        }
        if self.disabled {
            return Ok(false);
        }
        let changed = self.value != value;
        self.value = value;
        Ok(changed)
    }

    /// One more, up to the maximum.
    pub fn increment(&mut self) -> (changed: bool)
        ensures
            rating_moves(old(self)@, final(self)@, rating_up(old(self)@), changed),
            final(self)@.well_formed(),
    {
        proof {
            use_type_invariant(&*self);
        }
        let raised = self.value.saturating_add(1);
        let target = if raised < self.maximum {
            raised
        } else {
            self.maximum
        };
        match self.set_value(target) {
            Ok(changed) => changed,
            Err(_) => false,
        }
    }

    /// One less, down to zero.
    pub fn decrement(&mut self) -> (changed: bool)
        ensures
            rating_moves(old(self)@, final(self)@, rating_down(old(self)@), changed),
            final(self)@.well_formed(),
    {
        proof {
            use_type_invariant(&*self);
        }
        let target = self.value.saturating_sub(1);
        match self.set_value(target) {
            Ok(changed) => changed,
            Err(_) => false,
        }
    }

    /// Arrows raise or lower the value as the layout direction reads; Home goes to zero
    /// and End to the maximum.
    pub fn handle_key(&mut self, event: &KeyboardEvent, direction: Direction) -> (changed: bool)
        ensures
            rating_key(old(self)@, final(self)@, *event, direction, changed),
            final(self)@.well_formed(),
    {
        proof {
            use_type_invariant(&*self);
        }
        if event.state != KeyState::Pressed {
            return false;
        }
        match event.key {
            Key::Arrow(ArrowKey::Right) => if direction == Direction::Ltr {
                self.increment()
            } else {
                self.decrement()
            },
            Key::Arrow(ArrowKey::Left) => if direction == Direction::Ltr {
                self.decrement()
            } else {
                self.increment()
            },
            Key::Home => match self.set_value(0) {
                Ok(changed) => changed,
                Err(_) => false,
            },
            Key::End => {
                let maximum = self.maximum;
                match self.set_value(maximum) {
                    Ok(changed) => changed,
                    Err(_) => false,
                }
            },
            _ => false,
        }
    }

    /// A slider named by the label, valued as "v of max", with the value as a number
    /// from zero to the maximum in steps of one.
    pub fn semantics(&self) -> (s: Semantics)
        ensures
            s.role == SemanticRole::Slider,
            opt_view(s.name) == Some(self@.label),
            opt_view(s.value) == Some(
                decimal(self@.value as nat) + " of "@ + decimal(self@.maximum as nat),
            ),
            s.placeholder is None,
            s.numeric_value matches Some(n) && n.spec_value() == self@.value && n.spec_minimum() == 0
                && n.spec_maximum() == self@.maximum && n.spec_step() == Some(1i64),
            s.editable_text is None,
            s.state == (SemanticState { disabled: self@.disabled, ..quiet_state() }),
            s.actions@ == seq![
                SemanticAction::Focus,
                SemanticAction::Increment,
                SemanticAction::Decrement,
                SemanticAction::SetValue,
            ],
            s.virtual_children@.len() == 0,
            s.active_virtual_child is None,
    {
        proof {
            use_type_invariant(self);
        }
        let mut text = String::new();
        push_decimal(&mut text, self.value as u64);
        text.append(" of ");
        push_decimal(&mut text, self.maximum as u64);
        let numeric = SemanticNumericValue::new(self.value as i64, 0, self.maximum as i64, Some(1)).unwrap();
        let mut semantics = Semantics::new(SemanticRole::Slider).with_name(self.label.clone()).with_value(
            text,
        ).with_numeric_value(numeric).with_action(SemanticAction::Focus).with_action(
            SemanticAction::Increment,
        ).with_action(SemanticAction::Decrement).with_action(SemanticAction::SetValue);
        semantics.state.disabled = self.disabled;
        semantics
    }

    pub fn focus_policy(&self) -> (policy: FocusPolicy)
        ensures
            policy == focus_when_enabled(self@.disabled),
    {
        FocusPolicy::enabled_unless(self.disabled)
    }

    /// The label, then a filled star per point and a hollow star per missing point.
    pub fn display_text(&self) -> (text: String)
        ensures
            text@ == self@.label + "  "@ + repeated('★', self@.value as nat) + repeated(
                '☆',
                (self@.maximum - self@.value) as nat,
            ),
    {
        proof {
            use_type_invariant(self);
        }
        let mut text = self.label.clone();
        text.append("  ");
        push_repeated(&mut text, '★', self.value);
        push_repeated(&mut text, '☆', self.maximum - self.value);
        text
    }

    /// The style the rating draws with.
    pub fn resolved_style(&self) -> (style: ComponentStyle)
        ensures
            style == disabled_style(self@.style, self@.disabled),
    {
        let mut style = self.style;
        style.state.disabled = self.disabled;
        style
    }
}


/// One choice of a filter, which may be toggled on.
#[derive(Debug, PartialEq, Eq)]
pub struct FilterOption {
    pub label: String,
    pub selected: bool,
    pub disabled: bool,
}

impl Clone for FilterOption {
    fn clone(&self) -> (copy: Self)
        ensures
            copy == *self,
    {
        FilterOption { label: self.label.clone(), selected: self.selected, disabled: self.disabled }
    }
}

impl FilterOption {
    /// An enabled option, not selected.
    pub fn new(label: &str) -> (option: Self)
        ensures
            option.label@ == label@,
            !option.selected,
            !option.disabled,
    {
        FilterOption { label: owned(label), selected: false, disabled: false }
    }
}

/// A filter was given no options, or one with a blank label.
#[derive(Clone, Copy, Debug, PartialEq, Eq, Structural, Hash)]
pub struct FilterError;

impl FilterError {
    pub fn message(&self) -> (text: &'static str)
        ensures
            text@ == "filter requires at least one non-empty option"@,
    {
        "filter requires at least one non-empty option"
    }
}

/// The labels of the options.
pub open spec fn option_labels(options: Seq<FilterOption>) -> Seq<Seq<char>> {
    options.map_values(|o: FilterOption| o.label@)
}

/// A set of options that can each be toggled on or off, with a roving active option.
#[derive(Debug, PartialEq)]
pub struct Filter {
    pub(crate) label: String,
    pub(crate) options: Vec<FilterOption>,
    pub(crate) active: usize,
    pub disabled: bool,
    pub style: ComponentStyle,
    pub direction: DirectionSetting,
}

/// The state of a filter as contracts see it.
pub struct FilterView {
    pub label: Seq<char>,
    pub options: Seq<FilterOption>,
    pub active: int,
    pub disabled: bool,
    pub style: ComponentStyle,
    pub direction: DirectionSetting,
}

impl FilterView {
    /// There is an option, none has a blank label, and the active one is among them.
    pub open spec fn well_formed(self) -> bool {
        &&& self.options.len() > 0
        &&& !any_blank(option_labels(self.options))
        &&& 0 <= self.active < self.options.len()
    }
}

impl View for Filter {
    type V = FilterView;

    closed spec fn view(&self) -> FilterView {
        FilterView {
            label: self.label@,
            options: self.options@,
            active: self.active as int,
            disabled: self.disabled,
            style: self.style,
            direction: self.direction,
        }
    }
}

/// Toggling the active option: refused while the filter or the option is disabled,
/// else the option's selection flips.
pub open spec fn filter_toggle(before: FilterView, after: FilterView, changed: bool) -> bool {
    let option = before.options[before.active];
    if before.disabled || option.disabled {
        !changed && after == before
    } else {
        changed && after == (FilterView {
            options: before.options.update(
                before.active,
                FilterOption { selected: !option.selected, ..option },
            ),
            ..before
        })
    }
}

/// Stepping `k` places round the ring from `from` first meets an enabled option there,
/// or completes the turn without meeting one.
pub open spec fn first_enabled_step(options: Seq<FilterOption>, from: int, forward: bool, k: int) -> bool {
    let n = options.len() as int;
    &&& 1 <= k <= n
    &&& (!options[cycled(from, k, n, forward)].disabled || k == n)
    &&& forall|j: int| 1 <= j < k ==> #[trigger] options[cycled(from, j, n, forward)].disabled
}

/// A step to the next enabled option in one direction, wrapping round: refused while
/// disabled; with no other enabled option the active one stays.
pub open spec fn filter_step(before: FilterView, after: FilterView, forward: bool, changed: bool) -> bool {
    let n = before.options.len() as int;
    if before.disabled {
        !changed && after == before
    } else {
        exists|k: int|
            #![trigger first_enabled_step(before.options, before.active, forward, k)]
            first_enabled_step(before.options, before.active, forward, k) && after == (FilterView {
                active: cycled(before.active, k, n, forward),
                ..before
            }) && changed == (cycled(before.active, k, n, forward) != before.active)
    }
}

/// What a filter does with one key event. Space, unrepeated, toggles the active option;
/// arrows step as the layout direction reads; Home and End jump to either end while
/// enabled.
pub open spec fn filter_key(
    before: FilterView,
    after: FilterView,
    event: KeyboardEvent,
    direction: Direction,
    changed: bool,
) -> bool {
    let unchanged = !changed && after == before;
    if event.state != KeyState::Pressed {
        unchanged
    } else {
        match event.key {
            Key::Space => if event.repeat {
                unchanged
            } else {
                filter_toggle(before, after, changed)
            },
            Key::Arrow(ArrowKey::Right) => filter_step(
                before,
                after,
                direction == Direction::Ltr,
                changed,
            ),
            Key::Arrow(ArrowKey::Left) => filter_step(
                before,
                after,
                direction != Direction::Ltr,
                changed,
            ),
            Key::Home => if before.disabled {
                unchanged
            } else {
                changed == (before.active != 0) && after == (FilterView { active: 0, ..before })
            },
            Key::End => if before.disabled {
                unchanged
            } else {
                changed == (before.active != before.options.len() - 1) && after == (FilterView {
                    active: before.options.len() - 1,
                    ..before
                })
            },
            _ => unchanged,
        }
    }
}

/// The semantics of one option of a filter: a checkbox that is checked while selected.
pub open spec fn filter_option_semantics(s: Semantics, option: FilterOption, active: bool) -> bool {
    plain(
        s,
        SemanticRole::Checkbox,
        Some(option.label@),
        None,
        SemanticState {
            checked: Some(option.selected),
            disabled: option.disabled,
            selected: active,
            ..quiet_state()
        },
        seq![],
    )
}

/// How an option reads: a box with an x when selected, then its label; the active
/// option between angle marks.
pub open spec fn filter_entry(option: FilterOption, active: bool) -> Seq<char> {
    let body = seq!['[', if option.selected {
        'x'
    } else {
        ' '
    }, ']', ' '] + option.label@;
    if active {
        seq!['>'] + body + seq!['<']
    } else {
        body
    }
}

/// A copy of the options with the one at `index` replaced.
fn with_option(options: &Vec<FilterOption>, index: usize, option: FilterOption) -> (copy: Vec<FilterOption>)
    requires
        index < options@.len(),
    ensures
        copy@ == options@.update(index as int, option),
{
    let mut copy: Vec<FilterOption> = Vec::new();
    let mut i: usize = 0;
    while i < options.len()
        invariant
            index < options@.len(),
            i <= options@.len(),
            copy@ == options@.update(index as int, option).subrange(0, i as int),
        decreases options@.len() - i,
    {
        if i == index {
            copy.push(option.clone());
        } else {
            copy.push(options[i].clone());
        }
        i = i + 1;
        assert(copy@ =~= options@.update(index as int, option).subrange(0, i as int));
    }
    assert(copy@ =~= options@.update(index as int, option));
    copy
}

impl Clone for Filter {
    fn clone(&self) -> (copy: Self)
        ensures
            copy@ == self@,
    {
        proof {
            use_type_invariant(self);
        }
        let mut options: Vec<FilterOption> = Vec::new();
        let mut i: usize = 0;
        while i < self.options.len()
            invariant
                i <= self.options@.len(),
                options@ == self.options@.subrange(0, i as int),
            decreases self.options@.len() - i,
        {
            options.push(self.options[i].clone());
            i = i + 1;
            assert(options@ =~= self.options@.subrange(0, i as int));
        }
        assert(options@ =~= self.options@);
        Filter {
            label: self.label.clone(),
            options,
            active: self.active,
            disabled: self.disabled,
            style: self.style,
            direction: self.direction,
        }
    }
}

impl Filter {
    #[verifier::type_invariant]
    closed spec fn active_option_exists(self) -> bool {
        self@.well_formed()
    }

    /// An enabled filter in the outline variant, its first option active; refuses an
    /// empty list and an option with a blank label.
    pub fn new(label: &str, options: Vec<FilterOption>) -> (result: Result<Self, FilterError>)
        ensures
            result is Err <==> (options@.len() == 0 || any_blank(option_labels(options@))),
            result matches Ok(f) ==> f@ == (FilterView {
                label: label@,
                options: options@,
                active: 0,
                disabled: false,
                style: style_of(VisualVariant::Outline),
                direction: DirectionSetting::Inherit,
            }),
    {
        if options.len() == 0 {
            return Err(FilterError);
        }
        let mut i: usize = 0;
        while i < options.len()
            invariant
                i <= options@.len(),
                forall|j: int| 0 <= j < i ==> !is_blank_seq(#[trigger] option_labels(options@)[j]),
            decreases options@.len() - i,
        {
            if is_blank(options[i].label.as_str()) {
                assert(is_blank_seq(option_labels(options@)[i as int]));
                return Err(FilterError);
            }
            i = i + 1;
        }
        Ok(
            Filter {
                label: owned(label),
                options,
                active: 0,
                disabled: false,
                style: ComponentStyle::with_variant(VisualVariant::Outline),
                direction: DirectionSetting::Inherit,
            },
        )
    }

    pub fn options(&self) -> (options: &[FilterOption])
        ensures
            options@ == self@.options,
            self@.well_formed(),
    {
        proof {
            use_type_invariant(self);
        }
        self.options.as_slice()
    }

    pub fn active_index(&self) -> (index: usize)
        ensures
            index == self@.active,
            self@.well_formed(),
    {
        proof {
            use_type_invariant(self);
        }
        self.active
    }

    /// Toggles the active option, unless the filter or the option is disabled.
    pub fn toggle_active(&mut self) -> (changed: bool)
        ensures
            filter_toggle(old(self)@, final(self)@, changed),
            final(self)@.well_formed(),
    {
        proof {
            use_type_invariant(&*self);
        }
        let index = self.active;
        if self.disabled || self.options[index].disabled {
            return false;
        }
        let mut option = self.options[index].clone();
        option.selected = !option.selected;
        let ghost labels_before = option_labels(self.options@);
        let options = with_option(&self.options, index, option);
        proof {
            assert(option_labels(options@) =~= labels_before);
        }
        self.options = options;
        true
    }

    /// Moves to the next enabled option, wrapping round, unless disabled.
    pub fn next_option(&mut self) -> (changed: bool)
        ensures
            filter_step(old(self)@, final(self)@, true, changed),
            final(self)@.well_formed(),
    {
        self.move_active(true)
    }

    /// Moves to the previous enabled option, wrapping round, unless disabled.
    pub fn previous_option(&mut self) -> (changed: bool)
        ensures
            filter_step(old(self)@, final(self)@, false, changed),
            final(self)@.well_formed(),
    {
        self.move_active(false)
    }

    /// Space toggles the active option; arrows move as the layout direction reads;
    /// Home and End jump to either end.
    pub fn handle_key(&mut self, event: &KeyboardEvent, direction: Direction) -> (changed: bool)
        ensures
            filter_key(old(self)@, final(self)@, *event, direction, changed),
            final(self)@.well_formed(),
    {
        proof {
            use_type_invariant(&*self);
        }
        if event.state != KeyState::Pressed {
            return false;
        }
        match event.key {
            Key::Space => if event.repeat {
                false
            } else {
                self.toggle_active()
            },
            Key::Arrow(ArrowKey::Right) => self.move_active(direction == Direction::Ltr),
            Key::Arrow(ArrowKey::Left) => self.move_active(direction != Direction::Ltr),
            Key::Home => {
                if self.disabled {
                    return false;
                }
                let changed = self.active != 0;
                self.active = 0;
                changed
            },
            Key::End => {
                if self.disabled {
                    return false;
                }
                let last = self.options.len() - 1;
                let changed = self.active != last;
                self.active = last;
                changed
            },
            _ => false,
        }
    }

    /// A group named by the label with one checkbox per option, the active one
    /// selected.
    pub fn semantics(&self) -> (s: Semantics)
        ensures
            s.role == SemanticRole::Group,
            opt_view(s.name) == Some(self@.label),
            s.value is None,
            s.placeholder is None,
            s.numeric_value is None,
            s.editable_text is None,
            s.state == (SemanticState { disabled: self@.disabled, ..quiet_state() }),
            s.actions@ == seq![
                SemanticAction::Focus,
                SemanticAction::Activate,
                SemanticAction::Increment,
                SemanticAction::Decrement,
            ],
            s.active_virtual_child is None,
            s.virtual_children@.len() == self@.options.len(),
            forall|i: int|
                0 <= i < self@.options.len() ==> filter_option_semantics(
                    #[trigger] s.virtual_children@[i],
                    self@.options[i],
                    i == self@.active,
                ),
    {
        let mut semantics = Semantics::new(SemanticRole::Group).with_name(self.label.clone()).with_action(
            SemanticAction::Focus,
        ).with_action(SemanticAction::Activate).with_action(SemanticAction::Increment).with_action(
            SemanticAction::Decrement,
        );
        let mut i: usize = 0;
        while i < self.options.len()
            invariant
                i <= self@.options.len(),
                self@.options == self.options@,
                semantics.role == SemanticRole::Group,
                opt_view(semantics.name) == Some(self@.label),
                semantics.value is None,
                semantics.placeholder is None,
                semantics.numeric_value is None,
                semantics.editable_text is None,
                semantics.state == quiet_state(),
                semantics.actions@ == seq![
                    SemanticAction::Focus,
                    SemanticAction::Activate,
                    SemanticAction::Increment,
                    SemanticAction::Decrement,
                ],
                semantics.active_virtual_child is None,
                semantics.virtual_children@.len() == i,
                forall|j: int|
                    0 <= j < i ==> filter_option_semantics(
                        #[trigger] semantics.virtual_children@[j],
                        self@.options[j],
                        j == self@.active,
                    ),
            decreases self@.options.len() - i,
        {
            let option = &self.options[i];
            let mut child = Semantics::new(SemanticRole::Checkbox).with_name(option.label.clone());
            child.state.checked = Some(option.selected);
            child.state.disabled = option.disabled;
            child.state.selected = i == self.active;
            semantics = semantics.with_virtual_child(child);
            i = i + 1;
        }
        semantics.state.disabled = self.disabled;
        semantics
    }

    pub fn focus_policy(&self) -> (policy: FocusPolicy)
        ensures
            policy == focus_when_enabled(self@.disabled),
    {
        FocusPolicy::enabled_unless(self.disabled)
    }

    /// The options side by side, the active one marked.
    pub fn display_text(&self) -> (text: String)
        ensures
            text@ == joined(
                Seq::new(
                    self@.options.len(),
                    |i: int| filter_entry(self@.options[i], i == self@.active),
                ),
                "  "@,
            ),
    {
        let ghost expected = Seq::new(
            self@.options.len(),
            |i: int| filter_entry(self@.options[i], i == self@.active),
        );
        let mut entries: Vec<String> = Vec::new();
        let mut i: usize = 0;
        while i < self.options.len()
            invariant
                i <= self@.options.len(),
                self@.options == self.options@,
                expected == Seq::new(
                    self@.options.len(),
                    |i: int| filter_entry(self@.options[i], i == self@.active),
                ),
                entries@.len() == i,
                forall|j: int| 0 <= j < i ==> #[trigger] views(entries@)[j] == expected[j],
            decreases self@.options.len() - i,
        {
            let ghost before = entries@;
            let option = &self.options[i];
            let active = i == self.active;
            let mut entry = String::new();
            if active {
                crate::text_util::push_char(&mut entry, '>');
            }
            crate::text_util::push_char(&mut entry, '[');
            crate::text_util::push_char(&mut entry, if option.selected {
                'x'
            } else {
                ' '
            });
            crate::text_util::push_char(&mut entry, ']');
            crate::text_util::push_char(&mut entry, ' ');
            entry.append(option.label.as_str());
            if active {
                crate::text_util::push_char(&mut entry, '<');
            }
            assert(entry@ =~= filter_entry(self@.options[i as int], active));
            entries.push(entry);
            proof {
                assert forall|j: int| 0 <= j < i + 1 implies #[trigger] views(entries@)[j]
                    == expected[j] by {
                    if j < i {
                        assert(entries@[j] == before[j]);
                        assert(views(before)[j] == expected[j]);
                    }
                }
            }
            i = i + 1;
        }
        assert(views(entries@) =~= expected);
        crate::text_util::join(entries.as_slice(), "  ")
    }

    /// The style the filter draws with.
    pub fn resolved_style(&self) -> (style: ComponentStyle)
        ensures
            style == disabled_style(self@.style, self@.disabled),
    {
        let mut style = self.style;
        style.state.disabled = self.disabled;
        style
    }

    fn move_active(&mut self, forward: bool) -> (changed: bool)
        ensures
            filter_step(old(self)@, final(self)@, forward, changed),
            final(self)@.well_formed(),
    {
        proof {
            use_type_invariant(&*self);
        }
        if self.disabled {
            return false;
        }
        let count = self.options.len();
        let start = self.active;
        let ghost n = count as int;
        let mut k: usize = 0;
        proof {
            lemma_cycled_full(start as int, n, forward);
        }
        while k < count
            invariant_except_break
                forall|j: int|
                    1 <= j <= k ==> #[trigger] self@.options[cycled(start as int, j, n, forward)].disabled,
            invariant
                self@ == (FilterView { active: self@.active, ..old(self)@ }),
                self@.well_formed(),
                !self@.disabled,
                count == self@.options.len(),
                n == count,
                start == old(self)@.active,
                k <= count,
                self@.active == cycled(start as int, k as int, n, forward),
            ensures
                1 <= k <= count,
                first_enabled_step(self@.options, start as int, forward, k as int),
                self@.active == cycled(start as int, k as int, n, forward),
            decreases count - k,
        {
            proof {
                lemma_cycled_step(start as int, k as int, n, forward);
            }
            self.active = step_index(self.active, count, forward);
            k = k + 1;
            if !self.options[self.active].disabled {
                break;
            }
        }
        self.active != start
    }
}

/// A file input's selection had a blank path, or several paths for a single file.
#[derive(Clone, Copy, Debug, PartialEq, Eq, Structural, Hash)]
pub struct FileInputError;

impl FileInputError {
    pub fn message(&self) -> (text: &'static str)
        ensures
            text@ == "selected file paths must be non-empty and respect single selection"@,
    {
        "selected file paths must be non-empty and respect single selection"
    }
}

/// What a file input shows of its files: their paths separated by commas, or a note
/// that there are none.
pub open spec fn files_summary(files: Seq<Seq<char>>) -> Seq<char> {
    if files.len() == 0 {
        "No file selected"@
    } else {
        joined(files, ", "@)
    }
}

/// A button that asks for files to be chosen and shows the chosen paths.
#[derive(Clone, Debug, PartialEq)]
pub struct FileInput {
    pub(crate) label: String,
    pub(crate) files: Vec<String>,
    pub multiple: bool,
    pub disabled: bool,
    pub style: ComponentStyle,
    pub direction: DirectionSetting,
}

/// The state of a file input as contracts see it.
pub struct FileInputView {
    pub label: Seq<char>,
    pub files: Seq<Seq<char>>,
    pub multiple: bool,
    pub disabled: bool,
    pub style: ComponentStyle,
    pub direction: DirectionSetting,
}

impl View for FileInput {
    type V = FileInputView;

    closed spec fn view(&self) -> FileInputView {
        FileInputView {
            label: self.label@,
            files: views(self.files@),
            multiple: self.multiple,
            disabled: self.disabled,
            style: self.style,
            direction: self.direction,
        }
    }
}

impl FileInput {
    /// An enabled single-file input with no file chosen.
    pub fn new(label: &str) -> (input: Self)
        ensures
            input@ == (FileInputView {
                label: label@,
                files: seq![],
                multiple: false,
                disabled: false,
                style: crate::style::default_style(),
                direction: DirectionSetting::Inherit,
            }),
    {
        let input = FileInput {
            label: owned(label),
            files: Vec::new(),
            multiple: false,
            disabled: false,
            style: ComponentStyle::default(),
            direction: DirectionSetting::Inherit,
        };
        assert(views(input.files@) =~= seq![]);
        input
    }

    pub fn label(&self) -> (label: &str)
        ensures
            label@ == self@.label,
    {
        self.label.as_str()
    }

    pub fn files(&self) -> (files: &[String])
        ensures
            views(files@) == self@.files,
    {
        self.files.as_slice()
    }

    /// Whether asking the user for files goes ahead: it does unless disabled.
    pub fn request_selection(&self) -> (requested: bool)
        ensures
            requested == !self@.disabled,
    {
        !self.disabled
    }

    /// Replaces the chosen files; refuses a blank path, and more than one path unless
    /// several files are allowed. Reports whether the selection changed.
    pub fn set_files(&mut self, files: &[&str]) -> (result: Result<bool, FileInputError>)
        ensures
            if any_blank(str_views(files@)) || (!old(self)@.multiple && files@.len() > 1) {
                result == Err::<bool, FileInputError>(FileInputError) && final(self)@ == old(self)@
            } else {
                result == Ok::<bool, FileInputError>(old(self)@.files != str_views(files@))
                    && final(self)@ == (FileInputView { files: str_views(files@), ..old(self)@ })
            },
    {
        let chosen = to_strings(files);
        if has_blank(&chosen) || (!self.multiple && chosen.len() > 1) {
            return Err(FileInputError);
        }
        let changed = !same_strings(&self.files, &chosen);
        self.files = chosen;
        Ok(changed)
    }

    /// A button named by the label and valued by the chosen paths.
    pub fn semantics(&self) -> (s: Semantics)
        ensures
            plain(
                s,
                SemanticRole::Button,
                Some(self@.label),
                Some(files_summary(self@.files)),
                SemanticState { disabled: self@.disabled, ..quiet_state() },
                seq![SemanticAction::Focus, SemanticAction::Activate],
            ),
    {
        let mut semantics = Semantics::new(SemanticRole::Button).with_name(self.label.clone()).with_value(
            self.summary(),
        ).with_action(SemanticAction::Focus).with_action(SemanticAction::Activate);
        semantics.state.disabled = self.disabled;
        semantics
    }

    pub fn focus_policy(&self) -> (policy: FocusPolicy)
        ensures
            policy == focus_when_enabled(self@.disabled),
    {
        FocusPolicy::enabled_unless(self.disabled)
    }

    /// The label, a dash, and the chosen paths.
    pub fn display_text(&self) -> (text: String)
        ensures
            text@ == self@.label + "  —  "@ + files_summary(self@.files),
    {
        let mut text = self.label.clone();
        text.append("  —  ");
        let summary = self.summary();
        text.append(summary.as_str());
        text
    }

    /// The style the file input draws with.
    pub fn resolved_style(&self) -> (style: ComponentStyle)
        ensures
            style == disabled_style(self@.style, self@.disabled),
    {
        let mut style = self.style;
        style.state.disabled = self.disabled;
        style
    }

    fn summary(&self) -> (text: String)
        ensures
            text@ == files_summary(self@.files),
    {
        if self.files.len() == 0 {
            owned("No file selected")
        } else {
            join(self.files.as_slice(), ", ")
        }
    }
}


/// `k + 1` days on is one day on and then `k` more.
proof fn lemma_days_from_front(d: CivilDate, k: nat, forward: bool)
    ensures
        days_from(d, k + 1, forward) == days_from(day_step(d, forward), k, forward),
    decreases k,
{
    assert(days_from(d, k + 1, forward) == day_step(days_from(d, k, forward), forward));
    if k > 0 {
        lemma_days_from_front(d, (k - 1) as nat, forward);
        assert(days_from(day_step(d, forward), k, forward) == day_step(
            days_from(day_step(d, forward), (k - 1) as nat, forward),
            forward,
        ));
    }
}

/// A walk of `k + 1` days fits exactly when its first day fits and the walk of `k`
/// days from the next day does.
proof fn lemma_walk_fits_front(d: CivilDate, k: nat, forward: bool)
    ensures
        walk_fits(d, k + 1, forward) == (day_step_fits(d, forward) && walk_fits(
            day_step(d, forward),
            k,
            forward,
        )),
    decreases k,
{
    assert(walk_fits(d, k + 1, forward) == (walk_fits(d, k, forward) && day_step_fits(
        days_from(d, k, forward),
        forward,
    )));
    if k > 0 {
        lemma_walk_fits_front(d, (k - 1) as nat, forward);
        lemma_days_from_front(d, (k - 1) as nat, forward);
        assert(walk_fits(day_step(d, forward), k, forward) == (walk_fits(
            day_step(d, forward),
            (k - 1) as nat,
            forward,
        ) && day_step_fits(days_from(day_step(d, forward), (k - 1) as nat, forward), forward)));
    }
}

/// Every day of a representable walk from a day of the calendar is a day of the
/// calendar.
pub proof fn lemma_walk_stays_in_calendar(d: CivilDate, k: nat, forward: bool)
    requires
        in_calendar(d),
        walk_fits(d, k, forward),
    ensures
        in_calendar(days_from(d, k, forward)),
    decreases k,
{
    if k > 0 {
        lemma_walk_stays_in_calendar(d, (k - 1) as nat, forward);
        lemma_steps_stay_in_calendar(days_from(d, (k - 1) as nat, forward));
    }
}

/// Walking `k` days one way and `k` days back returns to the day of the calendar one
/// started from, and the way back stays within the range of years.
pub proof fn lemma_shift_round_trip(d: CivilDate, k: nat, forward: bool)
    requires
        in_calendar(d),
        walk_fits(d, k, forward),
    ensures
        walk_fits(days_from(d, k, forward), k, !forward),
        days_from(days_from(d, k, forward), k, !forward) == d,
    decreases k,
{
    if k > 0 {
        let j = (k - 1) as nat;
        let x = days_from(d, j, forward);
        lemma_walk_fits_prefix(d, k, j, forward);
        lemma_shift_round_trip(d, j, forward);
        lemma_walk_stays_in_calendar(d, j, forward);
        lemma_day_round_trip(x);
        assert(day_step(day_step(x, forward), !forward) == x);
        assert(day_step_fits(day_step(x, forward), !forward));
        lemma_days_from_front(day_step(x, forward), j, !forward);
        lemma_walk_fits_front(day_step(x, forward), j, !forward);
    }
}

/// A disabled calendar ignores every key event.
pub proof fn lemma_disabled_calendar_ignores_keys(
    before: CalendarView,
    after: CalendarView,
    event: KeyboardEvent,
    direction: Direction,
    changed: bool,
)
    requires
        calendar_key(before, after, event, direction, changed),
        before.disabled,
    ensures
        !changed,
        after == before,
{
}

/// Raising a rating below its maximum and lowering it again gives back its value, and
/// both stay within range.
pub proof fn lemma_rating_up_then_down(r: RatingView)
    requires
        r.well_formed(),
    ensures
        rating_up(r) <= r.maximum,
        rating_down(r) <= r.maximum,
        r.value < r.maximum ==> rating_down(RatingView { value: rating_up(r), ..r }) == r.value,
        r.value > 0 ==> rating_up(RatingView { value: rating_down(r), ..r }) == r.value,
{
}

/// Toggling the active option twice restores the filter.
pub proof fn lemma_filter_toggle_twice(a: FilterView, b: FilterView, c: FilterView, first: bool, second: bool)
    requires
        a.well_formed(),
        filter_toggle(a, b, first),
        filter_toggle(b, c, second),
    ensures
        c == a,
        first == second,
{
    let option = a.options[a.active];
    if first {
        assert(b.options[b.active] == FilterOption { selected: !option.selected, ..option });
        assert(c.options =~= a.options);
    }
}


/// A disabled rating ignores every key event.
pub proof fn lemma_disabled_rating_ignores_keys(
    before: RatingView,
    after: RatingView,
    event: KeyboardEvent,
    direction: Direction,
    changed: bool,
)
    requires
        rating_key(before, after, event, direction, changed),
        before.disabled,
    ensures
        !changed,
        after == before,
{
}

/// A disabled filter ignores every key event.
pub proof fn lemma_disabled_filter_ignores_keys(
    before: FilterView,
    after: FilterView,
    event: KeyboardEvent,
    direction: Direction,
    changed: bool,
)
    requires
        filter_key(before, after, event, direction, changed),
        before.disabled,
    ensures
        !changed,
        after == before,
{
}

/// A right-to-left layout mirrors the arrows of a rating, a filter and a calendar:
/// Right there does what Left does left to right, and the other way round.
pub proof fn lemma_arrows_mirror_in_right_to_left(
    rating: RatingView,
    filter: FilterView,
    date: CivilDate,
    event: KeyboardEvent,
    mirrored: KeyboardEvent,
)
    requires
        event.key == Key::Arrow(ArrowKey::Right),
        mirrored == (KeyboardEvent { key: Key::Arrow(ArrowKey::Left), ..event }),
    ensures
        rating_target(rating, event.key, Direction::Rtl) == rating_target(
            rating,
            mirrored.key,
            Direction::Ltr,
        ),
        rating_target(rating, mirrored.key, Direction::Rtl) == rating_target(
            rating,
            event.key,
            Direction::Ltr,
        ),
        forall|after: FilterView, changed: bool|
            filter_key(filter, after, event, Direction::Rtl, changed) == filter_key(
                filter,
                after,
                mirrored,
                Direction::Ltr,
                changed,
            ),
        calendar_target(date, event.key, Direction::Rtl) == calendar_target(
            date,
            mirrored.key,
            Direction::Ltr,
        ),
{
}

impl Calendar {
    /// Sets `disabled`; nothing else changes.
    pub fn set_disabled(&mut self, disabled: bool)
        ensures
            final(self)@ == (CalendarView { disabled: disabled, ..old(self)@ }),
    {
        self.disabled = disabled;
    }

    /// Whether `disabled` is set.
    pub fn is_disabled(&self) -> (r: bool)
        ensures
            r == self@.disabled,
    {
        self.disabled
    }

    /// Sets `style`; nothing else changes.
    pub fn set_style(&mut self, style: ComponentStyle)
        ensures
            final(self)@ == (CalendarView { style: style, ..old(self)@ }),
    {
        self.style = style;
    }

    /// Sets `direction`; nothing else changes.
    pub fn set_direction(&mut self, direction: DirectionSetting)
        ensures
            final(self)@ == (CalendarView { direction: direction, ..old(self)@ }),
    {
        self.direction = direction;
    }
}

impl Fieldset {
    /// Sets `style`; nothing else changes.
    pub fn set_style(&mut self, style: ComponentStyle)
        ensures
            final(self)@ == (FieldsetView { style: style, ..old(self)@ }),
    {
        self.style = style;
    }

    /// Sets `direction`; nothing else changes.
    pub fn set_direction(&mut self, direction: DirectionSetting)
        ensures
            final(self)@ == (FieldsetView { direction: direction, ..old(self)@ }),
    {
        self.direction = direction;
    }
}

impl Rating {
    /// Sets `disabled`; nothing else changes.
    pub fn set_disabled(&mut self, disabled: bool)
        ensures
            final(self)@ == (RatingView { disabled: disabled, ..old(self)@ }),
    {
        proof {
            use_type_invariant(&*self);
        }
        self.disabled = disabled;
    }

    /// Whether `disabled` is set.
    pub fn is_disabled(&self) -> (r: bool)
        ensures
            r == self@.disabled,
    {
        self.disabled
    }

    /// Sets `style`; nothing else changes.
    pub fn set_style(&mut self, style: ComponentStyle)
        ensures
            final(self)@ == (RatingView { style: style, ..old(self)@ }),
    {
        proof {
            use_type_invariant(&*self);
        }
        self.style = style;
    }

    /// Sets `direction`; nothing else changes.
    pub fn set_direction(&mut self, direction: DirectionSetting)
        ensures
            final(self)@ == (RatingView { direction: direction, ..old(self)@ }),
    {
        proof {
            use_type_invariant(&*self);
        }
        self.direction = direction;
    }
}

impl Filter {
    /// Sets `disabled`; nothing else changes.
    pub fn set_disabled(&mut self, disabled: bool)
        ensures
            final(self)@ == (FilterView { disabled: disabled, ..old(self)@ }),
    {
        proof {
            use_type_invariant(&*self);
        }
        self.disabled = disabled;
    }

    /// Whether `disabled` is set.
    pub fn is_disabled(&self) -> (r: bool)
        ensures
            r == self@.disabled,
    {
        self.disabled
    }

    /// Sets `style`; nothing else changes.
    pub fn set_style(&mut self, style: ComponentStyle)
        ensures
            final(self)@ == (FilterView { style: style, ..old(self)@ }),
    {
        proof {
            use_type_invariant(&*self);
        }
        self.style = style;
    }

    /// Sets `direction`; nothing else changes.
    pub fn set_direction(&mut self, direction: DirectionSetting)
        ensures
            final(self)@ == (FilterView { direction: direction, ..old(self)@ }),
    {
        proof {
            use_type_invariant(&*self);
        }
        self.direction = direction;
    }
}

impl FileInput {
    /// Sets `multiple`; nothing else changes.
    pub fn set_multiple(&mut self, multiple: bool)
        ensures
            final(self)@ == (FileInputView { multiple: multiple, ..old(self)@ }),
    {
        self.multiple = multiple;
    }

    /// Whether `multiple` is set.
    pub fn is_multiple(&self) -> (r: bool)
        ensures
            r == self@.multiple,
    {
        self.multiple
    }

    /// Sets `disabled`; nothing else changes.
    pub fn set_disabled(&mut self, disabled: bool)
        ensures
            final(self)@ == (FileInputView { disabled: disabled, ..old(self)@ }),
    {
        self.disabled = disabled;
    }

    /// Whether `disabled` is set.
    pub fn is_disabled(&self) -> (r: bool)
        ensures
            r == self@.disabled,
    {
        self.disabled
    }

    /// Sets `style`; nothing else changes.
    pub fn set_style(&mut self, style: ComponentStyle)
        ensures
            final(self)@ == (FileInputView { style: style, ..old(self)@ }),
    {
        self.style = style;
    }

    /// Sets `direction`; nothing else changes.
    pub fn set_direction(&mut self, direction: DirectionSetting)
        ensures
            final(self)@ == (FileInputView { direction: direction, ..old(self)@ }),
    {
        self.direction = direction;
    }
}

/// April, June, September and November have thirty days; February has twenty-nine in
/// a leap year and twenty-eight otherwise; every other month has thirty-one.
pub proof fn lemma_days_of_each_month(year: int)
    ensures
        month_length(year, 1) == 31,
        month_length(year, 2) == (if leap_year(year) {
            29int
        } else {
            28int
        }),
        month_length(year, 3) == 31,
        month_length(year, 4) == 30,
        month_length(year, 5) == 31,
        month_length(year, 6) == 30,
        month_length(year, 7) == 31,
        month_length(year, 8) == 31,
        month_length(year, 9) == 30,
        month_length(year, 10) == 31,
        month_length(year, 11) == 30,
        month_length(year, 12) == 31,
{
}

/// The thirty-first of April, June, September or November is no date, and the day after
/// the thirtieth of such a month is the first of the next month.
pub proof fn lemma_thirty_day_months_end_on_the_thirtieth(year: i32, month: u8)
    requires
        month == 4 || month == 6 || month == 9 || month == 11,
    ensures
        !valid_date(CivilDate { year, month, day: 31 }),
        following_day(CivilDate { year, month, day: 30 }) == (CivilDate { year, month: (month + 1) as u8, day: 1 }),
{
}

/// Up on an enabled calendar selects the date seven days earlier, and Down the date
/// seven days later.
pub proof fn lemma_calendar_up_and_down_move_by_a_week(
    before: CalendarView,
    after: CalendarView,
    event: KeyboardEvent,
    direction: Direction,
    changed: bool,
)
    requires
        calendar_key(before, after, event, direction, changed),
        !before.disabled,
        event.state == KeyState::Pressed,
        event.key == Key::Arrow(ArrowKey::Up) || event.key == Key::Arrow(ArrowKey::Down),
    ensures
        event.key == Key::Arrow(ArrowKey::Up) ==> after.selected == days_from(before.selected, 7, false),
        event.key == Key::Arrow(ArrowKey::Down) ==> after.selected == days_from(before.selected, 7, true),
        after == (CalendarView { selected: after.selected, ..before }),
        changed == (after.selected != before.selected),
{
}

/// On an enabled calendar, Up and then Down (or Down and then Up) come back to the date
/// they started from.
pub proof fn lemma_calendar_up_then_down_returns(
    a: CalendarView,
    b: CalendarView,
    c: CalendarView,
    first: KeyboardEvent,
    second: KeyboardEvent,
    direction: Direction,
    changed_first: bool,
    changed_second: bool,
)
    requires
        in_calendar(a.selected),
        !a.disabled,
        first.state == KeyState::Pressed,
        second.state == KeyState::Pressed,
        (first.key == Key::Arrow(ArrowKey::Up) && second.key == Key::Arrow(ArrowKey::Down)) || (
        first.key == Key::Arrow(ArrowKey::Down) && second.key == Key::Arrow(ArrowKey::Up)),
        calendar_key_fits(a, first, direction),
        calendar_key(a, b, first, direction, changed_first),
        calendar_key(b, c, second, direction, changed_second),
    ensures
        c == a,
{
    let forward = first.key == Key::Arrow(ArrowKey::Down);
    lemma_shift_round_trip(a.selected, 7, forward);
}

/// A year divisible by four is a leap year unless it is a century year not divisible by
/// four hundred; every other year is a common year.
pub proof fn lemma_leap_year_rule(year: int)
    ensures
        year % 4 != 0 ==> !leap_year(year),
        year % 4 == 0 && year % 100 != 0 ==> leap_year(year),
        year % 400 == 0 ==> leap_year(year),
        year % 100 == 0 && year % 400 != 0 ==> !leap_year(year),
{
    if year % 400 == 0 {
        assert(year % 4 == 0) by {
            vstd::arithmetic::div_mod::lemma_fundamental_div_mod(year, 400);
            vstd::arithmetic::div_mod::lemma_mod_multiples_basic(100 * (year / 400), 4);
        }
    }
}

/// On an enabled calendar: in left-to-right layout Right selects the next day and Left
/// the previous one, and the other way round in right-to-left layout; Page Down selects
/// the same day of the next month (or its last day) and Page Up that of the previous
/// month; Home selects the first day of the month and End its last day.
pub proof fn lemma_calendar_keys_move_as_read(
    before: CalendarView,
    after: CalendarView,
    event: KeyboardEvent,
    direction: Direction,
    changed: bool,
)
    requires
        calendar_key(before, after, event, direction, changed),
        !before.disabled,
        event.state == KeyState::Pressed,
        in_calendar(before.selected),
        calendar_key_fits(before, event, direction),
    ensures
        ({
            let d = before.selected;
            let e = after.selected;
            let ltr = direction == Direction::Ltr;
            &&& event.key == Key::Arrow(ArrowKey::Right) ==> e == if ltr {
                following_day(d)
            } else {
                preceding_day(d)
            }
            &&& event.key == Key::Arrow(ArrowKey::Left) ==> e == if ltr {
                preceding_day(d)
            } else {
                following_day(d)
            }
            &&& event.key == Key::PageDown ==> e.year * 12 + e.month == d.year * 12 + d.month + 1
                && e.day == crate::text_edit::min_of(d.day as int, month_length(e.year as int, e.month as int))
            &&& event.key == Key::PageUp ==> e.year * 12 + e.month == d.year * 12 + d.month - 1
                && e.day == crate::text_edit::min_of(d.day as int, month_length(e.year as int, e.month as int))
            &&& event.key == Key::Home ==> e == (CivilDate { day: 1, ..d })
            &&& event.key == Key::End ==> e.year == d.year && e.month == d.month && e.day
                == month_length(d.year as int, d.month as int)
            &&& calendar_target(d, event.key, direction) is Some ==> in_calendar(e)
                && after == (CalendarView { selected: e, ..before })
        }),
{
    let d = before.selected;
    if event.key == Key::PageDown || event.key == Key::PageUp {
        let delta: int = if event.key == Key::PageDown { 1 } else { -1 };
        let count = month_count(d, delta);
        vstd::arithmetic::div_mod::lemma_fundamental_div_mod(count, 12);
        vstd::arithmetic::div_mod::lemma_mod_bound(count, 12);
        lemma_months_stay_in_calendar(d, delta);
    }
    if let Key::Arrow(_) = event.key {
        lemma_walk_stays_in_calendar(d, shift_length(arrow_days(event.key, direction)), arrow_days(event.key, direction) > 0);
    }
}

/// `a` comes before `b` in the calendar: an earlier year, or the same year and an
/// earlier month, or the same month and an earlier day.
pub open spec fn date_before(a: CivilDate, b: CivilDate) -> bool {
    a.year < b.year || (a.year == b.year && (a.month < b.month || (a.month == b.month && a.day < b.day)))
}

/// The day after a date is the first day of the calendar that comes after it, and the
/// day before is the last day that comes before it: no day of the calendar lies between.
pub proof fn lemma_next_and_previous_day_are_adjacent(d: CivilDate, x: CivilDate)
    requires
        in_calendar(d),
        in_calendar(x),
    ensures
        following_fits(d) ==> in_calendar(following_day(d)) && date_before(d, following_day(d)) && (
        date_before(d, x) ==> !date_before(x, following_day(d))),
        preceding_fits(d) ==> in_calendar(preceding_day(d)) && date_before(preceding_day(d), d) && (
        date_before(x, d) ==> !date_before(preceding_day(d), x)),
{
    lemma_days_of_each_month(d.year as int);
    lemma_days_of_each_month(d.year - 1);
    lemma_days_of_each_month(d.year + 1);
}

/// Moving by `delta` months moves the running month count by exactly `delta`, keeps the
/// day of the month when the new month has it and takes its last day otherwise.
pub proof fn lemma_months_later_moves_by_months(d: CivilDate, delta: int)
    requires
        in_calendar(d),
        months_fit(d, delta),
    ensures
        ({
            let e = months_later(d, delta);
            &&& 1 <= e.month <= 12
            &&& e.year * 12 + e.month == d.year * 12 + d.month + delta
            &&& e.day == crate::text_edit::min_of(d.day as int, month_length(e.year as int, e.month as int))
        }),
{
    let count = month_count(d, delta);
    vstd::arithmetic::div_mod::lemma_fundamental_div_mod(count, 12);
    vstd::arithmetic::div_mod::lemma_mod_bound(count, 12);
    lemma_months_stay_in_calendar(d, delta);
}

/// A walk of one or more days forward ends after the day it started from, and one
/// backward ends before it.
pub proof fn lemma_walk_moves_in_its_direction(d: CivilDate, k: nat, forward: bool)
    requires
        in_calendar(d),
        walk_fits(d, k, forward),
        k >= 1,
    ensures
        forward ==> date_before(d, days_from(d, k, forward)),
        !forward ==> date_before(days_from(d, k, forward), d),
    decreases k,
{
    let j = (k - 1) as nat;
    lemma_walk_fits_prefix(d, k, j, forward);
    lemma_walk_stays_in_calendar(d, j, forward);
    let x = days_from(d, j, forward);
    lemma_next_and_previous_day_are_adjacent(x, x);
    if k > 1 {
        lemma_walk_moves_in_its_direction(d, j, forward);
    }
}

/// Adding a positive number of days gives a later date, a negative number an earlier
/// one, and zero the same date; one day on is the next day and one day back the
/// previous day.
pub proof fn lemma_add_days_moves_by_its_sign(d: CivilDate, delta: int)
    requires
        in_calendar(d),
        shift_fits(d, delta),
    ensures
        delta > 0 ==> date_before(d, shifted(d, delta)),
        delta < 0 ==> date_before(shifted(d, delta), d),
        delta == 0 ==> shifted(d, delta) == d,
        delta == 1 ==> shifted(d, delta) == following_day(d),
        delta == -1 ==> shifted(d, delta) == preceding_day(d),
{
    if delta != 0 {
        lemma_walk_moves_in_its_direction(d, shift_length(delta), delta > 0);
    }
    if delta == 1 || delta == -1 {
        assert(days_from(d, 1, delta > 0) == day_step(days_from(d, 0, delta > 0), delta > 0));
    }
}

/// On a date input whose calendar is enabled: Space or Enter opens a closed picker and
/// closes an open one without touching the date; Escape closes an open picker; while
/// open, Up selects the date a week earlier and Down the date a week later, keeping the
/// picker open; while closed, the arrows do nothing.
pub proof fn lemma_date_input_keys(
    before: DateInput,
    after: DateInput,
    event: KeyboardEvent,
    direction: Direction,
    changed: bool,
)
    requires
        date_input_key(before, after, event, direction, changed),
        !before.calendar@.disabled,
        event.state == KeyState::Pressed,
        !event.repeat,
    ensures
        event.key == Key::Space || event.key == Key::Enter ==> changed && after.open == !before.open
            && after.calendar@ == before.calendar@,
        event.key == Key::Escape && before.open ==> changed && !after.open && after.calendar@
            == before.calendar@,
        before.open && event.key == Key::Arrow(ArrowKey::Up) ==> after.open && after.calendar@.selected
            == days_from(before.calendar@.selected, 7, false),
        before.open && event.key == Key::Arrow(ArrowKey::Down) ==> after.open
            && after.calendar@.selected == days_from(before.calendar@.selected, 7, true),
        !before.open && (event.key == Key::Arrow(ArrowKey::Up) || event.key == Key::Arrow(
            ArrowKey::Down,
        )) ==> !changed && !after.open && after.calendar@ == before.calendar@,
{
}

} // verus!
