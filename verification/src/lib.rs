//! Retained widget state, keyboard behaviour and accessibility semantics.
//!
//! Every widget keeps its interactive state (selection, expansion, text
//! editing, navigation) here, and reports what assistive technology sees of it
//! through [`Semantics`]. Geometry and paint live outside this crate.

pub mod cyclic;
pub mod direction;
pub mod focus;
pub mod input;
pub mod pixels;
pub mod semantics;
pub mod style;
pub mod text_edit;
pub mod text_util;
pub mod widgets;

pub use direction::{Direction, DirectionSetting, HorizontalAlignment, InlineAlignment};
pub use focus::FocusPolicy;
pub use input::{ArrowKey, Key, KeyModifiers, KeyState, KeyboardEvent};
pub use semantics::{
    SemanticAction, SemanticEditableText, SemanticNumericValue, SemanticRole, SemanticState,
    Semantics,
};
pub use style::{
    AdornmentPlacement, ColorScheme, ComponentState, ComponentStyle, SemanticColorToken,
    ThemeMode, VisualVariant,
};
pub use pixels::{PixelFormat, PixelImage, PixelImageError};
pub use text_edit::TextEditState;
pub use widgets::data_input::is_leap_year;
pub use widgets::text_wrap::{begin_wrap, explicit_line_ranges, LineBreaker};
pub use widgets::text_input::move_to_line_edge;
pub use widgets::{adjacent_radio, radio_tab_stop, select_radio, GroupedRadio};
pub use widgets::{
    Accordion, Alert, Avatar, Badge, BlockAlignment, BreadcrumbError, Breadcrumbs, Button,
    Calendar, Card, Carousel, CarouselError, ChatBubble, Checkbox, CivilDate, CivilDateError,
    ContextMenu, ContextMenuAction, Countdown, DateInput, DiffError, DividerAxis, Dock, Drawer,
    DrawerAction, DrawerEdge, Dropdown, DropdownAction, Fieldset, FileInput, FileInputError,
    Filter, FilterError, FilterOption, Footer, Hero, Icon, IconButton, IconError, Image,
    ImageAlignment, ImageFit, ImageLayout, Indicator, Mask, Kbd, Link, List, MaskShape, Menu, MenuAction,
    MenuError, MenuItem, Modal, ModalAction, Navbar, NavigationSelectionError, Pagination, Popover,
    PopoverAction, ProgressError, Radio, Rating, RatingError, ScrollAxis, SearchInput,
    SearchInputAction, Select, SelectAction, SelectError, SelectOption, SliderError, Stat, Steps,
    Swap, Switch, Table, TableError, Tabs, Text, TextArea, TextInput, TextWrap, ThemeSwitcher,
    Timeline, TimelineItem, Toast, ToastAction, Tooltip, TooltipPlacement,
};
