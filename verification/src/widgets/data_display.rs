use vstd::prelude::*;

use crate::direction::{Direction, DirectionSetting};
use crate::focus::{focus_when_enabled, FocusPolicy};
use crate::input::KeyboardEvent;
use crate::pixels::PixelImage;
use crate::semantics::{
    opt_view, plain, quiet_state, SemanticAction, SemanticRole, SemanticState, Semantics,
};
use crate::style::{
    style_of, ComponentState, ComponentStyle, SemanticColorToken, VisualVariant,
};
use crate::text_util::{
    decimal, joined, owned, push_zero_padded, stack_lines, stacked, str_views, to_strings, views,
    zero_padded,
};
use crate::widgets::image::{
    fresh_image, image_semantics, kept_alternative, kept_text, Image, ImageFit, ImageView,
};
use crate::widgets::navigation::{
    disabled_style, fresh_selection, selection_key, selection_step, with_core, SelectionCore,
    SelectionNavigationView,
};

verus! {

/// A person's picture: an image that covers its square.
#[derive(Clone, Debug, PartialEq)]
pub struct Avatar {
    pub image: Image,
}

impl Avatar {
    /// The source as a decorative image that covers its box.
    pub fn new(source: PixelImage) -> (avatar: Self)
        ensures
            avatar.image@ == (ImageView { fit: ImageFit::Cover, ..fresh_image(source) }),
    {
        Avatar { image: Image::new(source).with_fit(ImageFit::Cover) }
    }

    pub fn with_alternative_text(self, text: &str) -> (avatar: Self)
        ensures
            avatar.image@ == (ImageView { alternative_text: kept_text(text@), ..self.image@ }),
    {
        Avatar { image: self.image.with_alternative_text(text) }
    }

    /// The semantics of its image.
    pub fn semantics(&self) -> (s: Semantics)
        ensures
            image_semantics(s, self.image@.alternative_text),
    {
        self.image.semantics()
    }
}

/// A surface that groups content, with an optional name.
#[derive(Clone, Debug, PartialEq)]
pub struct Card {
    pub(crate) label: Option<String>,
    pub color: SemanticColorToken,
}

/// The state of a card as contracts see it.
pub struct CardView {
    pub label: Option<Seq<char>>,
    pub color: SemanticColorToken,
}

impl View for Card {
    type V = CardView;

    closed spec fn view(&self) -> CardView {
        CardView { label: opt_view(self.label), color: self.color }
    }
}

impl Card {
    /// An unnamed card on the elevated surface colour.
    pub fn new() -> (card: Self)
        ensures
            card@ == (CardView { label: None, color: SemanticColorToken::SurfaceElevated }),
    {
        Card { label: None, color: SemanticColorToken::SurfaceElevated }
    }

    pub fn with_label(self, label: &str) -> (card: Self)
        ensures
            card@ == (CardView { label: kept_text(label@), ..self@ }),
    {
        let mut card = self;
        card.set_label(Some(owned(label)));
        card
    }

    /// Names the card; a blank name leaves it unnamed.
    pub fn set_label(&mut self, label: Option<String>)
        ensures
            final(self)@ == (CardView { label: kept_alternative(label), ..old(self)@ }),
    {
        self.label = crate::widgets::image::keep_alternative(label);
    }

    /// A group, named when the card has a name.
    pub fn semantics(&self) -> (s: Semantics)
        ensures
            plain(s, SemanticRole::Group, self@.label, None, quiet_state(), seq![]),
    {
        let mut semantics = Semantics::new(SemanticRole::Group);
        match &self.label {
            Some(label) => semantics.set_name(label.clone()),
            None => {},
        }
        semantics
    }
}

/// A named figure, such as a total.
#[derive(Clone, Debug, PartialEq)]
pub struct Stat {
    pub(crate) title: String,
    pub(crate) value: String,
    pub style: ComponentStyle,
    pub direction: DirectionSetting,
}

/// The state of a stat as contracts see it.
pub struct StatView {
    pub title: Seq<char>,
    pub value: Seq<char>,
    pub style: ComponentStyle,
    pub direction: DirectionSetting,
}

impl View for Stat {
    type V = StatView;

    closed spec fn view(&self) -> StatView {
        StatView {
            title: self.title@,
            value: self.value@,
            style: self.style,
            direction: self.direction,
        }
    }
}

impl Stat {
    /// A stat in the soft variant, inheriting its direction.
    pub fn new(title: &str, value: &str) -> (stat: Self)
        ensures
            stat@ == (StatView {
                title: title@,
                value: value@,
                style: style_of(VisualVariant::Soft),
                direction: DirectionSetting::Inherit,
            }),
    {
        Stat {
            title: owned(title),
            value: owned(value),
            style: ComponentStyle::with_variant(VisualVariant::Soft),
            direction: DirectionSetting::Inherit,
        }
    }

    pub fn title(&self) -> (title: &str)
        ensures
            title@ == self@.title,
    {
        self.title.as_str()
    }

    pub fn value(&self) -> (value: &str)
        ensures
            value@ == self@.value,
    {
        self.value.as_str()
    }

    pub fn set_value(&mut self, value: &str)
        ensures
            final(self)@ == (StatView { value: value@, ..old(self)@ }),
    {
        self.value = owned(value);
    }

    /// A group named by the title and valued by the figure.
    pub fn semantics(&self) -> (s: Semantics)
        ensures
            plain(s, SemanticRole::Group, Some(self@.title), Some(self@.value), quiet_state(), seq![]),
    {
        Semantics::new(SemanticRole::Group).with_name(self.title.clone()).with_value(
            self.value.clone(),
        )
    }

    /// The title above the figure.
    pub fn display_text(&self) -> (text: String)
        ensures
            text@ == stacked(self@.title, self@.value),
    {
        stack_lines(self.title.as_str(), self.value.as_str())
    }
}

/// A number of seconds as hours, minutes and seconds, each of at least two digits,
/// separated by colons.
pub open spec fn clock_text(seconds: nat) -> Seq<char> {
    zero_padded(seconds / 3600, 2) + seq![':'] + zero_padded(seconds % 3600 / 60, 2) + seq![':']
        + zero_padded(seconds % 60, 2)
}

/// The seconds left after `elapsed` more have passed, stopping at zero.
pub open spec fn time_left(remaining: u64, elapsed: u64) -> u64 {
    if remaining >= elapsed {
        (remaining - elapsed) as u64
    } else {
        0
    }
}

/// Time left until something happens, counted in whole seconds.
#[derive(Clone, Debug, PartialEq)]
pub struct Countdown {
    pub(crate) label: String,
    pub(crate) remaining_seconds: u64,
    pub style: ComponentStyle,
    pub direction: DirectionSetting,
}

/// The state of a countdown as contracts see it.
pub struct CountdownView {
    pub label: Seq<char>,
    pub remaining_seconds: u64,
    pub style: ComponentStyle,
    pub direction: DirectionSetting,
}

impl View for Countdown {
    type V = CountdownView;

    closed spec fn view(&self) -> CountdownView {
        CountdownView {
            label: self.label@,
            remaining_seconds: self.remaining_seconds,
            style: self.style,
            direction: self.direction,
        }
    }
}

impl Countdown {
    /// A countdown in the outline variant, inheriting its direction.
    pub fn new(label: &str, remaining_seconds: u64) -> (countdown: Self)
        ensures
            countdown@ == (CountdownView {
                label: label@,
                remaining_seconds,
                style: style_of(VisualVariant::Outline),
                direction: DirectionSetting::Inherit,
            }),
    {
        Countdown {
            label: owned(label),
            remaining_seconds,
            style: ComponentStyle::with_variant(VisualVariant::Outline),
            direction: DirectionSetting::Inherit,
        }
    }

    pub fn remaining_seconds(&self) -> (seconds: u64)
        ensures
            seconds == self@.remaining_seconds,
    {
        self.remaining_seconds
    }

    /// Sets the time left; reports whether it differs from before.
    pub fn set_remaining_seconds(&mut self, remaining_seconds: u64) -> (changed: bool)
        ensures
            final(self)@ == (CountdownView { remaining_seconds, ..old(self)@ }),
            changed == (old(self)@.remaining_seconds != remaining_seconds),
    {
        let changed = self.remaining_seconds != remaining_seconds;
        self.remaining_seconds = remaining_seconds;
        changed
    }

    /// Counts down by the elapsed time, stopping at zero; reports whether the time left
    /// changed.
    pub fn tick(&mut self, elapsed_seconds: u64) -> (changed: bool)
        ensures
            final(self)@ == (CountdownView {
                remaining_seconds: time_left(old(self)@.remaining_seconds, elapsed_seconds),
                ..old(self)@
            }),
            changed == (final(self)@.remaining_seconds != old(self)@.remaining_seconds),
    {
        let remaining = self.remaining_seconds.saturating_sub(elapsed_seconds);
        self.set_remaining_seconds(remaining)
    }

    /// The time left as hours, minutes and seconds, such as 01:01:01.
    pub fn formatted_remaining(&self) -> (text: String)
        ensures
            text@ == clock_text(self@.remaining_seconds as nat),
    {
        let hours = self.remaining_seconds / 3600;
        let minutes = self.remaining_seconds % 3600 / 60;
        let seconds = self.remaining_seconds % 60;
        let mut text = String::new();
        push_zero_padded(&mut text, hours, 2);
        crate::text_util::push_char(&mut text, ':');
        push_zero_padded(&mut text, minutes, 2);
        crate::text_util::push_char(&mut text, ':');
        push_zero_padded(&mut text, seconds, 2);
        text
    }

    /// A timer named by its label and valued by the time left.
    pub fn semantics(&self) -> (s: Semantics)
        ensures
            plain(
                s,
                SemanticRole::Timer,
                Some(self@.label),
                Some(clock_text(self@.remaining_seconds as nat)),
                quiet_state(),
                seq![],
            ),
    {
        Semantics::new(SemanticRole::Timer).with_name(self.label.clone()).with_value(
            self.formatted_remaining(),
        )
    }
}

/// One message of a conversation and who sent it.
#[derive(Clone, Debug, PartialEq)]
pub struct ChatBubble {
    pub(crate) sender: String,
    pub(crate) message: String,
    pub outgoing: bool,
    pub style: ComponentStyle,
    pub direction: DirectionSetting,
}

/// The state of a chat bubble as contracts see it.
pub struct ChatBubbleView {
    pub sender: Seq<char>,
    pub message: Seq<char>,
    pub outgoing: bool,
    pub style: ComponentStyle,
    pub direction: DirectionSetting,
}

impl View for ChatBubble {
    type V = ChatBubbleView;

    closed spec fn view(&self) -> ChatBubbleView {
        ChatBubbleView {
            sender: self.sender@,
            message: self.message@,
            outgoing: self.outgoing,
            style: self.style,
            direction: self.direction,
        }
    }
}

impl ChatBubble {
    /// An incoming message in the soft variant, inheriting its direction.
    pub fn new(sender: &str, message: &str) -> (bubble: Self)
        ensures
            bubble@ == (ChatBubbleView {
                sender: sender@,
                message: message@,
                outgoing: false,
                style: style_of(VisualVariant::Soft),
                direction: DirectionSetting::Inherit,
            }),
    {
        ChatBubble {
            sender: owned(sender),
            message: owned(message),
            outgoing: false,
            style: ComponentStyle::with_variant(VisualVariant::Soft),
            direction: DirectionSetting::Inherit,
        }
    }

    pub fn sender(&self) -> (sender: &str)
        ensures
            sender@ == self@.sender,
    {
        self.sender.as_str()
    }

    pub fn message(&self) -> (message: &str)
        ensures
            message@ == self@.message,
    {
        self.message.as_str()
    }

    /// A group named by the sender and valued by the message.
    pub fn semantics(&self) -> (s: Semantics)
        ensures
            plain(s, SemanticRole::Group, Some(self@.sender), Some(self@.message), quiet_state(), seq![]),
    {
        Semantics::new(SemanticRole::Group).with_name(self.sender.clone()).with_value(
            self.message.clone(),
        )
    }

    /// The sender above the message.
    pub fn display_text(&self) -> (text: String)
        ensures
            text@ == stacked(self@.sender, self@.message),
    {
        stack_lines(self.sender.as_str(), self.message.as_str())
    }

    /// Outgoing messages are solid, incoming ones soft.
    pub fn resolved_style(&self) -> (style: ComponentStyle)
        ensures
            style == (ComponentStyle {
                variant: if self@.outgoing {
                    VisualVariant::Solid
                } else {
                    VisualVariant::Soft
                },
                ..self@.style
            }),
    {
        let mut style = self.style;
        style.variant = if self.outgoing {
            VisualVariant::Solid
        } else {
            VisualVariant::Soft
        };
        style
    }
}

/// One entry of a timeline.
#[derive(Clone, Debug, PartialEq, Eq)]
pub struct TimelineItem {
    pub label: String,
    pub detail: String,
}

impl TimelineItem {
    pub fn new(label: &str, detail: &str) -> (item: Self)
        ensures
            item.label@ == label@,
            item.detail@ == detail@,
    {
        TimelineItem { label: owned(label), detail: owned(detail) }
    }
}

/// How a timeline entry reads: its label, a dash, and its detail.
pub open spec fn timeline_line(item: TimelineItem) -> Seq<char> {
    item.label@ + "  —  "@ + item.detail@
}

/// Events in order.
#[derive(Clone, Debug, PartialEq)]
pub struct Timeline {
    pub(crate) items: Vec<TimelineItem>,
    pub style: ComponentStyle,
    pub direction: DirectionSetting,
}

/// The state of a timeline as contracts see it.
pub struct TimelineView {
    pub items: Seq<TimelineItem>,
    pub style: ComponentStyle,
    pub direction: DirectionSetting,
}

impl View for Timeline {
    type V = TimelineView;

    closed spec fn view(&self) -> TimelineView {
        TimelineView { items: self.items@, style: self.style, direction: self.direction }
    }
}

impl Timeline {
    /// A timeline in the transparent variant, inheriting its direction.
    pub fn new(items: Vec<TimelineItem>) -> (timeline: Self)
        ensures
            timeline@ == (TimelineView {
                items: items@,
                style: style_of(VisualVariant::Transparent),
                direction: DirectionSetting::Inherit,
            }),
    {
        Timeline {
            items,
            style: ComponentStyle::with_variant(VisualVariant::Transparent),
            direction: DirectionSetting::Inherit,
        }
    }

    pub fn items(&self) -> (items: &[TimelineItem])
        ensures
            items@ == self@.items,
    {
        self.items.as_slice()
    }

    /// A list named "Timeline" with one item per entry, named by its label and valued
    /// by its detail.
    pub fn semantics(&self) -> (s: Semantics)
        ensures
            s.role == SemanticRole::List,
            opt_view(s.name) == Some("Timeline"@),
            s.value is None,
            s.placeholder is None,
            s.numeric_value is None,
            s.editable_text is None,
            s.state == quiet_state(),
            s.actions@.len() == 0,
            s.active_virtual_child is None,
            s.virtual_children@.len() == self@.items.len(),
            forall|i: int|
                0 <= i < self@.items.len() ==> plain(
                    #[trigger] s.virtual_children@[i],
                    SemanticRole::ListItem,
                    Some(self@.items[i].label@),
                    Some(self@.items[i].detail@),
                    quiet_state(),
                    seq![],
                ),
    {
        let mut semantics = Semantics::new(SemanticRole::List).with_name(owned("Timeline"));
        let mut i: usize = 0;
        while i < self.items.len()
            invariant
                i <= self@.items.len(),
                self@.items == self.items@,
                semantics.role == SemanticRole::List,
                opt_view(semantics.name) == Some("Timeline"@),
                semantics.value is None,
                semantics.placeholder is None,
                semantics.numeric_value is None,
                semantics.editable_text is None,
                semantics.state == quiet_state(),
                semantics.actions@.len() == 0,
                semantics.active_virtual_child is None,
                semantics.virtual_children@.len() == i,
                forall|j: int|
                    0 <= j < i ==> plain(
                        #[trigger] semantics.virtual_children@[j],
                        SemanticRole::ListItem,
                        Some(self@.items[j].label@),
                        Some(self@.items[j].detail@),
                        quiet_state(),
                        seq![],
                    ),
            decreases self@.items.len() - i,
        {
            let item = &self.items[i];
            let child = Semantics::new(SemanticRole::ListItem).with_name(item.label.clone()).with_value(
                item.detail.clone(),
            );
            semantics = semantics.with_virtual_child(child);
            i = i + 1;
        }
        semantics
    }

    /// One line per entry.
    pub fn display_text(&self) -> (text: String)
        ensures
            text@ == joined(self@.items.map_values(|item: TimelineItem| timeline_line(item)), "\n"@),
    {
        let mut lines: Vec<String> = Vec::new();
        let mut i: usize = 0;
        while i < self.items.len()
            invariant
                i <= self@.items.len(),
                self@.items == self.items@,
                lines@.len() == i,
                forall|j: int| 0 <= j < i ==> #[trigger] views(lines@)[j] == timeline_line(self@.items[j]),
            decreases self@.items.len() - i,
        {
            let ghost before = lines@;
            let item = &self.items[i];
            let mut line = item.label.clone();
            line.append("  —  ");
            line.append(item.detail.as_str());
            lines.push(line);
            proof {
                assert forall|j: int| 0 <= j < i + 1 implies #[trigger] views(lines@)[j]
                    == timeline_line(self@.items[j]) by {
                    if j < i {
                        assert(lines@[j] == before[j]);
                        assert(views(before)[j] == timeline_line(self@.items[j]));
                    }
                }
            }
            i = i + 1;
        }
        assert(views(lines@) =~= self@.items.map_values(|item: TimelineItem| timeline_line(item)));
        crate::text_util::join(lines.as_slice(), "\n")
    }
}

/// A heading that shows or hides its content.
#[derive(Clone, Debug, PartialEq)]
pub struct Accordion {
    pub(crate) label: String,
    pub(crate) content: String,
    pub open: bool,
    pub disabled: bool,
    pub style: ComponentStyle,
    pub direction: DirectionSetting,
}

/// The state of an accordion as contracts see it.
pub struct AccordionView {
    pub label: Seq<char>,
    pub content: Seq<char>,
    pub open: bool,
    pub disabled: bool,
    pub style: ComponentStyle,
    pub direction: DirectionSetting,
}

/// Activation: refused while disabled, else it shows hidden content or hides shown
/// content.
pub open spec fn accordion_activated(before: AccordionView, after: AccordionView, activated: bool) -> bool {
    if before.disabled {
        !activated && after == before
    } else {
        activated && after == (AccordionView { open: !before.open, ..before })
    }
}

/// Activating an accordion twice leaves it as it was.
pub proof fn lemma_accordion_activation_undoes_itself(
    a: AccordionView,
    b: AccordionView,
    c: AccordionView,
    first: bool,
    second: bool,
)
    requires
        accordion_activated(a, b, first),
        accordion_activated(b, c, second),
    ensures
        c == a,
        first == second,
{
}

impl View for Accordion {
    type V = AccordionView;

    closed spec fn view(&self) -> AccordionView {
        AccordionView {
            label: self.label@,
            content: self.content@,
            open: self.open,
            disabled: self.disabled,
            style: self.style,
            direction: self.direction,
        }
    }
}

impl Accordion {
    /// A closed, enabled accordion in the outline variant, inheriting its direction.
    pub fn new(label: &str, content: &str) -> (accordion: Self)
        ensures
            accordion@ == (AccordionView {
                label: label@,
                content: content@,
                open: false,
                disabled: false,
                style: style_of(VisualVariant::Outline),
                direction: DirectionSetting::Inherit,
            }),
    {
        Accordion {
            label: owned(label),
            content: owned(content),
            open: false,
            disabled: false,
            style: ComponentStyle::with_variant(VisualVariant::Outline),
            direction: DirectionSetting::Inherit,
        }
    }

    pub fn label(&self) -> (label: &str)
        ensures
            label@ == self@.label,
    {
        self.label.as_str()
    }

    /// Opens a closed accordion and closes an open one, unless disabled.
    pub fn activate(&mut self) -> (activated: bool)
        ensures
            accordion_activated(old(self)@, final(self)@, activated),
    {
        if self.disabled {
            return false;
        }
        self.open = !self.open;
        true
    }

    /// A button named by the label that reports whether the content is shown.
    pub fn semantics(&self) -> (s: Semantics)
        ensures
            plain(
                s,
                SemanticRole::Button,
                Some(self@.label),
                None,
                SemanticState {
                    expanded: Some(self@.open),
                    disabled: self@.disabled,
                    ..quiet_state()
                },
                seq![SemanticAction::Focus, SemanticAction::Activate],
            ),
    {
        let mut semantics = Semantics::new(SemanticRole::Button).with_name(self.label.clone()).with_action(
            SemanticAction::Focus,
        ).with_action(SemanticAction::Activate);
        semantics.state.expanded = Some(self.open);
        semantics.state.disabled = self.disabled;
        semantics
    }

    pub fn focus_policy(&self) -> (policy: FocusPolicy)
        ensures
            policy == focus_when_enabled(self@.disabled),
    {
        FocusPolicy::enabled_unless(self.disabled)
    }

    /// The label, followed by the content while open.
    pub fn display_text(&self) -> (text: String)
        ensures
            text@ == if self@.open {
                stacked(self@.label, self@.content)
            } else {
                self@.label
            },
    {
        if self.open {
            stack_lines(self.label.as_str(), self.content.as_str())
        } else {
            self.label.clone()
        }
    }

    /// The style it draws with: disabled and selected as the accordion is.
    pub fn resolved_style(&self) -> (style: ComponentStyle)
        ensures
            style == (ComponentStyle {
                state: ComponentState {
                    disabled: self@.disabled,
                    selected: self@.open,
                    ..self@.style.state
                },
                ..self@.style
            }),
    {
        let mut style = self.style;
        style.state.disabled = self.disabled;
        style.state.selected = self.open;
        style
    }
}

/// A carousel was given no items.
#[derive(Clone, Copy, Debug, PartialEq, Eq, Structural, Hash)]
pub struct CarouselError;

impl CarouselError {
    pub fn message(&self) -> (text: &'static str)
        ensures
            text@ == "carousel requires at least one item"@,
    {
        "carousel requires at least one item"
    }
}

/// Slides shown one at a time, stepping round in either direction.
#[derive(Clone, Debug, PartialEq)]
pub struct Carousel {
    pub(crate) core: SelectionCore,
    pub disabled: bool,
    pub style: ComponentStyle,
    pub direction: DirectionSetting,
}

impl View for Carousel {
    type V = SelectionNavigationView;

    closed spec fn view(&self) -> SelectionNavigationView {
        SelectionNavigationView {
            core: self.core@,
            disabled: self.disabled,
            style: self.style,
            direction: self.direction,
        }
    }
}

impl Carousel {
    /// Enabled, its first item shown; refuses an empty list.
    pub fn new(label: &str, items: &[&str]) -> (result: Result<Self, CarouselError>)
        ensures
            result is Err <==> items@.len() == 0,
            result matches Ok(c) ==> c@ == fresh_selection(label@, str_views(items@)),
    {
        match SelectionCore::new(label, to_strings(items)) {
            Ok(core) => Ok(
                Carousel {
                    core,
                    disabled: false,
                    style: ComponentStyle::default(),
                    direction: DirectionSetting::Inherit,
                },
            ),
            Err(_) => Err(CarouselError),
        }
    }

    pub fn active_index(&self) -> (index: usize)
        ensures
            index == self@.core.active,
            self@.core.well_formed(),
    {
        self.core.active()
    }

    pub fn active_item(&self) -> (item: &str)
        ensures
            item@ == self@.core.items[self@.core.active],
            self@.core.well_formed(),
    {
        self.core.active_item()
    }

    /// Shows the next item, from the last back to the first, unless disabled.
    pub fn next_item(&mut self) -> (changed: bool)
        ensures
            selection_step(old(self)@.core, final(self)@.core, true, old(self)@.disabled, changed),
            final(self)@ == with_core(old(self)@, final(self)@.core),
            final(self)@.core.well_formed(),
    {
        let disabled = self.disabled;
        self.core.step(true, disabled)
    }

    /// Shows the previous item, from the first back to the last, unless disabled.
    pub fn previous_item(&mut self) -> (changed: bool)
        ensures
            selection_step(old(self)@.core, final(self)@.core, false, old(self)@.disabled, changed),
            final(self)@ == with_core(old(self)@, final(self)@.core),
            final(self)@.core.well_formed(),
    {
        let disabled = self.disabled;
        self.core.step(false, disabled)
    }

    /// Arrows step along the items as the layout direction reads; Home and End jump
    /// to either end.
    pub fn handle_key(&mut self, event: &KeyboardEvent, direction: Direction) -> (changed: bool)
        ensures
            selection_key(old(self)@.core, final(self)@.core, *event, direction, old(self)@.disabled, changed),
            final(self)@ == with_core(old(self)@, final(self)@.core),
            final(self)@.core.well_formed(),
    {
        let disabled = self.disabled;
        self.core.handle_key(event, direction, disabled)
    }

    /// A group named by the label and valued by the item shown.
    pub fn semantics(&self) -> (s: Semantics)
        ensures
            plain(
                s,
                SemanticRole::Group,
                Some(self@.core.label),
                Some(self@.core.items[self@.core.active]),
                SemanticState { disabled: self@.disabled, ..quiet_state() },
                seq![SemanticAction::Focus, SemanticAction::Increment, SemanticAction::Decrement],
            ),
    {
        let mut semantics = Semantics::new(SemanticRole::Group).with_name(
            self.core.label_text(),
        ).with_value(owned(self.core.active_item())).with_action(SemanticAction::Focus).with_action(
            SemanticAction::Increment,
        ).with_action(SemanticAction::Decrement);
        semantics.state.disabled = self.disabled;
        semantics
    }

    pub fn focus_policy(&self) -> (policy: FocusPolicy)
        ensures
            policy == focus_when_enabled(self@.disabled),
    {
        FocusPolicy::enabled_unless(self.disabled)
    }

    /// The label above the item shown.
    pub fn display_text(&self) -> (text: String)
        ensures
            text@ == stacked(self@.core.label, self@.core.items[self@.core.active]),
    {
        let label = self.core.label_text();
        stack_lines(label.as_str(), self.core.active_item())
    }

    /// The style the carousel draws with.
    pub fn resolved_style(&self) -> (style: ComponentStyle)
        ensures
            style == disabled_style(self@.style, self@.disabled),
    {
        let mut style = self.style;
        style.state.disabled = self.disabled;
        style
    }
}


/// A table had no columns, or a row not as wide as its header.
#[derive(Clone, Copy, Debug, PartialEq, Eq, Structural, Hash)]
pub struct TableError;

impl TableError {
    pub fn message(&self) -> (text: &'static str)
        ensures
            text@ == "table rows must match the non-empty column count"@,
    {
        "table rows must match the non-empty column count"
    }
}

/// The name of a cell: its column's name and its row's number, counted from one.
pub open spec fn cell_name(column: Seq<char>, row: nat) -> Seq<char> {
    column + seq![' '] + decimal(row + 1)
}

/// The cells of row `r` as (name, value) pairs, from the first column on.
pub open spec fn row_cells(columns: Seq<Seq<char>>, row: Seq<Seq<char>>, r: nat) -> Seq<
    (Seq<char>, Seq<char>),
> {
    Seq::new(row.len(), |c: int| (cell_name(columns[c], r), row[c]))
}

/// The cells of a table row by row, as (name, value) pairs.
pub open spec fn table_cells(columns: Seq<Seq<char>>, rows: Seq<Seq<Seq<char>>>) -> Seq<
    (Seq<char>, Seq<char>),
>
    decreases rows.len(),
{
    if rows.len() == 0 {
        seq![]
    } else {
        table_cells(columns, rows.drop_last()) + row_cells(
            columns,
            rows.last(),
            (rows.len() - 1) as nat,
        )
    }
}

/// The children are one cell each for the (name, value) pairs, in order.
pub open spec fn describes_cells(children: Seq<Semantics>, cells: Seq<(Seq<char>, Seq<char>)>) -> bool {
    &&& children.len() == cells.len()
    &&& forall|i: int|
        0 <= i < cells.len() ==> plain(
            #[trigger] children[i],
            SemanticRole::Cell,
            Some(cells[i].0),
            Some(cells[i].1),
            quiet_state(),
            seq![],
        )
}

/// The characters of each cell of each row.
pub open spec fn rows_view(rows: Seq<Vec<String>>) -> Seq<Seq<Seq<char>>> {
    rows.map_values(|row: Vec<String>| views(row@))
}

/// The characters of each cell of each row.
pub open spec fn str_rows(rows: Seq<&[&str]>) -> Seq<Seq<Seq<char>>> {
    rows.map_values(|row: &[&str]| str_views(row@))
}

/// Every row has as many cells as there are columns.
pub open spec fn rows_match(columns: Seq<Seq<char>>, rows: Seq<Seq<Seq<char>>>) -> bool {
    forall|r: int| 0 <= r < rows.len() ==> #[trigger] rows[r].len() == columns.len()
}

/// What stands between two cells of a line.
pub open spec fn cell_separator() -> Seq<char> {
    "  |  "@
}

/// The header line, then one line per row, cells separated by bars.
pub open spec fn table_text(columns: Seq<Seq<char>>, rows: Seq<Seq<Seq<char>>>) -> Seq<char> {
    joined(
        seq![joined(columns, cell_separator())] + rows.map_values(
            |row: Seq<Seq<char>>| joined(row, cell_separator()),
        ),
        "\n"@,
    )
}

proof fn lemma_describes_push(
    children: Seq<Semantics>,
    cells: Seq<(Seq<char>, Seq<char>)>,
    child: Semantics,
    cell: (Seq<char>, Seq<char>),
)
    requires
        describes_cells(children, cells),
        plain(child, SemanticRole::Cell, Some(cell.0), Some(cell.1), quiet_state(), seq![]),
    ensures
        describes_cells(children.push(child), cells.push(cell)),
{
    assert forall|i: int| 0 <= i < cells.len() + 1 implies plain(
        #[trigger] children.push(child)[i],
        SemanticRole::Cell,
        Some(cells.push(cell)[i].0),
        Some(cells.push(cell)[i].1),
        quiet_state(),
        seq![],
    ) by {
        if i < cells.len() {
            assert(children.push(child)[i] == children[i]);
            assert(cells.push(cell)[i] == cells[i]);
        }
    }
}

/// Named columns over rows of text cells, each row as wide as the header.
#[derive(Debug, PartialEq)]
pub struct Table {
    pub(crate) columns: Vec<String>,
    pub(crate) rows: Vec<Vec<String>>,
    pub style: ComponentStyle,
    pub direction: DirectionSetting,
}

/// The state of a table as contracts see it.
pub struct TableView {
    pub columns: Seq<Seq<char>>,
    pub rows: Seq<Seq<Seq<char>>>,
    pub style: ComponentStyle,
    pub direction: DirectionSetting,
}

impl TableView {
    /// There is a column, and every row is as wide as the header.
    pub open spec fn well_formed(self) -> bool {
        self.columns.len() > 0 && rows_match(self.columns, self.rows)
    }
}

impl View for Table {
    type V = TableView;

    closed spec fn view(&self) -> TableView {
        TableView {
            columns: views(self.columns@),
            rows: rows_view(self.rows@),
            style: self.style,
            direction: self.direction,
        }
    }
}

impl Clone for Table {
    fn clone(&self) -> (copy: Self)
        ensures
            copy@ == self@,
    {
        proof {
            use_type_invariant(self);
        }
        let columns = self.columns.clone();
        assert(columns@ =~= self.columns@);
        let mut rows: Vec<Vec<String>> = Vec::new();
        let mut i: usize = 0;
        while i < self.rows.len()
            invariant
                i <= self.rows@.len(),
                rows@.len() == i,
                forall|j: int| 0 <= j < i ==> #[trigger] rows@[j]@ == self.rows@[j]@,
            decreases self.rows@.len() - i,
        {
            let row = self.rows[i].clone();
            assert(row@ =~= self.rows@[i as int]@);
            rows.push(row);
            i = i + 1;
        }
        assert(rows_view(rows@) =~= rows_view(self.rows@));
        assert(views(columns@) =~= views(self.columns@));
        Table { columns, rows, style: self.style, direction: self.direction }
    }
}

impl Table {
    #[verifier::type_invariant]
    closed spec fn rows_fit_header(self) -> bool {
        self@.well_formed()
    }

    /// A table in the outline variant; refuses an empty header and a row whose width
    /// differs from it.
    pub fn new(columns: &[&str], rows: &[&[&str]]) -> (result: Result<Self, TableError>)
        ensures
            result is Err <==> (columns@.len() == 0 || !rows_match(
                str_views(columns@),
                str_rows(rows@),
            )),
            result matches Ok(table) ==> table@ == (TableView {
                columns: str_views(columns@),
                rows: str_rows(rows@),
                style: style_of(VisualVariant::Outline),
                direction: DirectionSetting::Inherit,
            }),
    {
        let header = to_strings(columns);
        if header.len() == 0 {
            return Err(TableError);
        }
        let mut built: Vec<Vec<String>> = Vec::new();
        let mut i: usize = 0;
        while i < rows.len()
            invariant
                i <= rows@.len(),
                header@.len() == columns@.len(),
                views(header@) == str_views(columns@),
                built@.len() == i,
                forall|j: int|
                    0 <= j < i ==> #[trigger] views(built@[j]@) == str_views(rows@[j]@),
                forall|j: int| 0 <= j < i ==> #[trigger] built@[j]@.len() == header@.len(),
            decreases rows@.len() - i,
        {
            let row = to_strings(rows[i]);
            if row.len() != header.len() {
                assert(str_rows(rows@)[i as int].len() != str_views(columns@).len());
                return Err(TableError);
            }
            built.push(row);
            i = i + 1;
        }
        assert(rows_view(built@) =~= str_rows(rows@));
        let table = Table {
            columns: header,
            rows: built,
            style: ComponentStyle::with_variant(VisualVariant::Outline),
            direction: DirectionSetting::Inherit,
        };
        Ok(table)
    }

    pub fn columns(&self) -> (columns: &[String])
        ensures
            views(columns@) == self@.columns,
            self@.well_formed(),
    {
        proof {
            use_type_invariant(self);
        }
        self.columns.as_slice()
    }

    pub fn rows(&self) -> (rows: &[Vec<String>])
        ensures
            rows_view(rows@) == self@.rows,
            self@.well_formed(),
    {
        proof {
            use_type_invariant(self);
        }
        self.rows.as_slice()
    }

    /// A table named "Table" with one cell per value, row by row, each named by its
    /// column and row number.
    pub fn semantics(&self) -> (s: Semantics)
        ensures
            s.role == SemanticRole::Table,
            opt_view(s.name) == Some("Table"@),
            s.value is None,
            s.placeholder is None,
            s.numeric_value is None,
            s.editable_text is None,
            s.state == quiet_state(),
            s.actions@.len() == 0,
            s.active_virtual_child is None,
            describes_cells(s.virtual_children@, table_cells(self@.columns, self@.rows)),
    {
        proof {
            use_type_invariant(self);
        }
        let mut semantics = Semantics::new(SemanticRole::Table).with_name(owned("Table"));
        let ghost columns = self@.columns;
        let ghost rows = self@.rows;
        let mut r: usize = 0;
        while r < self.rows.len()
            invariant
                self@.well_formed(),
                columns == self@.columns,
                rows == self@.rows,
                r <= rows.len(),
                semantics.role == SemanticRole::Table,
                opt_view(semantics.name) == Some("Table"@),
                semantics.value is None,
                semantics.placeholder is None,
                semantics.numeric_value is None,
                semantics.editable_text is None,
                semantics.state == quiet_state(),
                semantics.actions@.len() == 0,
                semantics.active_virtual_child is None,
                describes_cells(
                    semantics.virtual_children@,
                    table_cells(columns, rows.subrange(0, r as int)),
                ),
            decreases rows.len() - r,
        {
            let row = &self.rows[r];
            let ghost done = table_cells(columns, rows.subrange(0, r as int));
            let ghost these = row_cells(columns, rows[r as int], r as nat);
            assert(rows[r as int] == views(row@));
            let number = r + 1;
            let mut c: usize = 0;
            while c < row.len()
                invariant
                    self@.well_formed(),
                    columns == self@.columns,
                    rows == self@.rows,
                    r < rows.len(),
                    rows[r as int] == views(row@),
                    c <= row@.len(),
                    row@.len() == columns.len(),
                    these == row_cells(columns, rows[r as int], r as nat),
                    number == r + 1,
                    semantics.role == SemanticRole::Table,
                    opt_view(semantics.name) == Some("Table"@),
                    semantics.value is None,
                    semantics.placeholder is None,
                    semantics.numeric_value is None,
                    semantics.editable_text is None,
                    semantics.state == quiet_state(),
                    semantics.actions@.len() == 0,
                    semantics.active_virtual_child is None,
                    describes_cells(semantics.virtual_children@, done + these.take(c as int)),
                decreases row@.len() - c,
            {
                let mut name = self.columns[c].clone();
                crate::text_util::push_char(&mut name, ' ');
                crate::text_util::push_decimal(&mut name, number as u64);
                assert(name@ == cell_name(columns[c as int], r as nat));
                let child = Semantics::new(SemanticRole::Cell).with_name(name).with_value(
                    row[c].clone(),
                );
                proof {
                    assert(self.columns@[c as int]@ == columns[c as int]);
                    assert(row@[c as int]@ == rows[r as int][c as int]);
                    assert(these[c as int] == (cell_name(columns[c as int], r as nat), rows[r as int][c as int]));
                    lemma_describes_push(
                        semantics.virtual_children@,
                        done + these.take(c as int),
                        child,
                        these[c as int],
                    );
                    assert((done + these.take(c as int)).push(these[c as int]) =~= done + these.take(
                        c + 1,
                    ));
                }
                semantics = semantics.with_virtual_child(child);
                c = c + 1;
            }
            proof {
                assert(these.take(c as int) =~= these);
                assert(rows.subrange(0, r + 1).drop_last() =~= rows.subrange(0, r as int));
            }
            r = r + 1;
        }
        assert(rows.subrange(0, rows.len() as int) =~= rows);
        semantics
    }

    /// The header line, then one line per row.
    pub fn display_text(&self) -> (text: String)
        ensures
            text@ == table_text(self@.columns, self@.rows),
    {
        let mut lines: Vec<String> = Vec::new();
        lines.push(crate::text_util::join(self.columns.as_slice(), "  |  "));
        let ghost rows = self@.rows;
        let mut r: usize = 0;
        while r < self.rows.len()
            invariant
                rows == self@.rows,
                r <= rows.len(),
                lines@.len() == r + 1,
                views(lines@)[0] == joined(self@.columns, cell_separator()),
                forall|j: int|
                    0 <= j < r ==> #[trigger] views(lines@)[j + 1] == joined(rows[j], cell_separator()),
            decreases rows.len() - r,
        {
            let ghost before = lines@;
            lines.push(crate::text_util::join(self.rows[r].as_slice(), "  |  "));
            proof {
                assert(views(lines@)[0] == views(before)[0]);
                assert forall|j: int| 0 <= j < r + 1 implies #[trigger] views(lines@)[j + 1]
                    == joined(rows[j], cell_separator()) by {
                    if j < r {
                        assert(lines@[j + 1] == before[j + 1]);
                        assert(views(before)[j + 1] == joined(rows[j], cell_separator()));
                    }
                }
            }
            r = r + 1;
        }
        let ghost expected = seq![joined(self@.columns, cell_separator())] + rows.map_values(
            |row: Seq<Seq<char>>| joined(row, cell_separator()),
        );
        assert forall|j: int| 0 <= j < expected.len() implies #[trigger] views(lines@)[j] == expected[j] by {
            if j > 0 {
                assert(views(lines@)[(j - 1) + 1] == joined(rows[j - 1], cell_separator()));
            }
        }
        assert(views(lines@) =~= expected);
        crate::text_util::join(lines.as_slice(), "\n")
    }
}


/// Time only runs down: what is left never grows, and two ticks leave what one tick of
/// their total leaves.
pub proof fn lemma_ticks_add_up(remaining: u64, first: u64, second: u64)
    requires
        first + second <= u64::MAX,
    ensures
        time_left(remaining, first) <= remaining,
        time_left(time_left(remaining, first), second) == time_left(
            remaining,
            (first + second) as u64,
        ),
{
}

/// A table has one cell per column of each row.
pub proof fn lemma_cell_count(columns: Seq<Seq<char>>, rows: Seq<Seq<Seq<char>>>)
    requires
        rows_match(columns, rows),
    ensures
        table_cells(columns, rows).len() == rows.len() * columns.len(),
    decreases rows.len(),
{
    if rows.len() > 0 {
        let rest = rows.drop_last();
        assert(rows_match(columns, rest));
        lemma_cell_count(columns, rest);
        assert(rows.last().len() == columns.len());
        vstd::arithmetic::mul::lemma_mul_is_distributive_add_other_way(
            columns.len() as int,
            rest.len() as int,
            1,
        );
    }
}

/// The cell at row `r`, column `c` of a table is named by that column and the row's
/// number and holds that row's value in the column.
pub proof fn lemma_cell_at(columns: Seq<Seq<char>>, rows: Seq<Seq<Seq<char>>>, r: int, c: int)
    requires
        rows_match(columns, rows),
        0 <= r < rows.len(),
        0 <= c < columns.len(),
    ensures
        0 <= r * columns.len() + c < table_cells(columns, rows).len(),
        table_cells(columns, rows)[r * columns.len() + c] == (
            cell_name(columns[c], r as nat),
            rows[r][c],
        ),
    decreases rows.len(),
{
    let n = columns.len() as int;
    let rest = rows.drop_last();
    assert(rows_match(columns, rest));
    lemma_cell_count(columns, rest);
    lemma_cell_count(columns, rows);
    if r < rows.len() - 1 {
        lemma_cell_at(columns, rest, r, c);
        assert(r * n + c < rest.len() * n) by (nonlinear_arith)
            requires
                r < rest.len(),
                0 <= c < n,
        ;
    } else {
        assert(r * n == rest.len() * n);
    }
}


/// A diff's split was not a finite fraction between zero and one.
#[derive(Clone, Copy, Debug, PartialEq, Eq, Structural, Hash)]
pub struct DiffError;

impl DiffError {
    pub fn message(&self) -> (text: &'static str)
        ensures
            text@ == "diff split must be finite and between zero and one"@,
    {
        "diff split must be finite and between zero and one"
    }
}

impl Stat {
    /// Sets `style`; nothing else changes.
    pub fn set_style(&mut self, style: ComponentStyle)
        ensures
            final(self)@ == (StatView { style: style, ..old(self)@ }),
    {
        self.style = style;
    }

    /// Sets `direction`; nothing else changes.
    pub fn set_direction(&mut self, direction: DirectionSetting)
        ensures
            final(self)@ == (StatView { direction: direction, ..old(self)@ }),
    {
        self.direction = direction;
    }
}

impl Countdown {
    /// Sets `style`; nothing else changes.
    pub fn set_style(&mut self, style: ComponentStyle)
        ensures
            final(self)@ == (CountdownView { style: style, ..old(self)@ }),
    {
        self.style = style;
    }

    /// Sets `direction`; nothing else changes.
    pub fn set_direction(&mut self, direction: DirectionSetting)
        ensures
            final(self)@ == (CountdownView { direction: direction, ..old(self)@ }),
    {
        self.direction = direction;
    }
}

impl ChatBubble {
    /// Sets `outgoing`; nothing else changes.
    pub fn set_outgoing(&mut self, outgoing: bool)
        ensures
            final(self)@ == (ChatBubbleView { outgoing: outgoing, ..old(self)@ }),
    {
        self.outgoing = outgoing;
    }

    /// Whether `outgoing` is set.
    pub fn is_outgoing(&self) -> (r: bool)
        ensures
            r == self@.outgoing,
    {
        self.outgoing
    }

    /// Sets `style`; nothing else changes.
    pub fn set_style(&mut self, style: ComponentStyle)
        ensures
            final(self)@ == (ChatBubbleView { style: style, ..old(self)@ }),
    {
        self.style = style;
    }

    /// Sets `direction`; nothing else changes.
    pub fn set_direction(&mut self, direction: DirectionSetting)
        ensures
            final(self)@ == (ChatBubbleView { direction: direction, ..old(self)@ }),
    {
        self.direction = direction;
    }
}

impl Timeline {
    /// Sets `style`; nothing else changes.
    pub fn set_style(&mut self, style: ComponentStyle)
        ensures
            final(self)@ == (TimelineView { style: style, ..old(self)@ }),
    {
        self.style = style;
    }
}

impl Accordion {
    /// Sets `open`; nothing else changes.
    pub fn set_open(&mut self, open: bool)
        ensures
            final(self)@ == (AccordionView { open: open, ..old(self)@ }),
    {
        self.open = open;
    }

    /// Whether `open` is set.
    pub fn is_open(&self) -> (r: bool)
        ensures
            r == self@.open,
    {
        self.open
    }

    /// Sets `disabled`; nothing else changes.
    pub fn set_disabled(&mut self, disabled: bool)
        ensures
            final(self)@ == (AccordionView { disabled: disabled, ..old(self)@ }),
    {
        self.disabled = disabled;
    }

    /// Whether `disabled` is set.
    pub fn is_disabled(&self) -> (r: bool)
        ensures
            r == self@.disabled,
    {
        self.disabled
    }

    /// Sets `style`; nothing else changes.
    pub fn set_style(&mut self, style: ComponentStyle)
        ensures
            final(self)@ == (AccordionView { style: style, ..old(self)@ }),
    {
        self.style = style;
    }

    /// Sets `direction`; nothing else changes.
    pub fn set_direction(&mut self, direction: DirectionSetting)
        ensures
            final(self)@ == (AccordionView { direction: direction, ..old(self)@ }),
    {
        self.direction = direction;
    }
}

impl Carousel {
    /// Sets `disabled`; nothing else changes.
    pub fn set_disabled(&mut self, disabled: bool)
        ensures
            final(self)@ == (SelectionNavigationView { disabled: disabled, ..old(self)@ }),
    {
        self.disabled = disabled;
    }

    /// Whether `disabled` is set.
    pub fn is_disabled(&self) -> (r: bool)
        ensures
            r == self@.disabled,
    {
        self.disabled
    }

    /// Sets `style`; nothing else changes.
    pub fn set_style(&mut self, style: ComponentStyle)
        ensures
            final(self)@ == (SelectionNavigationView { style: style, ..old(self)@ }),
    {
        self.style = style;
    }

    /// Sets `direction`; nothing else changes.
    pub fn set_direction(&mut self, direction: DirectionSetting)
        ensures
            final(self)@ == (SelectionNavigationView { direction: direction, ..old(self)@ }),
    {
        self.direction = direction;
    }
}

impl Table {
    /// Sets `style`; nothing else changes.
    pub fn set_style(&mut self, style: ComponentStyle)
        ensures
            final(self)@ == (TableView { style: style, ..old(self)@ }),
    {
        proof {
            use_type_invariant(&*self);
        }
        self.style = style;
    }

    /// Sets `direction`; nothing else changes.
    pub fn set_direction(&mut self, direction: DirectionSetting)
        ensures
            final(self)@ == (TableView { direction: direction, ..old(self)@ }),
    {
        proof {
            use_type_invariant(&*self);
        }
        self.direction = direction;
    }
}

impl Card {
    /// Sets `color`; nothing else changes.
    pub fn set_color(&mut self, color: SemanticColorToken)
        ensures
            final(self)@ == (CardView { color: color, ..old(self)@ }),
    {
        self.color = color;
    }
}

impl Timeline {
    /// Sets `direction`; nothing else changes.
    pub fn set_direction(&mut self, direction: DirectionSetting)
        ensures
            final(self)@ == (TimelineView { direction: direction, ..old(self)@ }),
    {
        self.direction = direction;
    }
}

} // verus!
