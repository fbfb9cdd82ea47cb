pub mod button;
pub mod checkbox;
pub mod context_menu;
pub mod data_display;
pub mod data_input;
pub mod drawer;
pub mod dropdown;
pub mod feedback;
pub mod icon;
pub mod image;
pub mod label_display;
pub mod layout_axes;
pub mod layout_sections;
pub mod menu;
pub mod modal;
pub mod navigation;
pub mod popover;
pub mod radio;
pub mod search_input;
pub mod select;
pub mod slider;
pub mod swap;
pub mod switch;
pub mod text;
pub mod text_area;
pub mod text_input;
pub mod text_wrap;
pub mod theme_switcher;
pub mod tooltip;

pub use button::{Button, IconButton};
pub use checkbox::Checkbox;
pub use context_menu::{ContextMenu, ContextMenuAction};
pub use data_display::{
    Accordion, Avatar, Card, Carousel, CarouselError, ChatBubble, Countdown, DiffError, Stat, Table,
    TableError, Timeline, TimelineItem,
};
pub use data_input::{
    is_leap_year, Calendar, CivilDate, CivilDateError, DateInput, Fieldset, FileInput,
    FileInputError, Filter, FilterError, FilterOption, Rating, RatingError,
};
pub use drawer::{Drawer, DrawerAction, DrawerEdge};
pub use dropdown::{Dropdown, DropdownAction};
pub use feedback::{Alert, ProgressError, Toast, ToastAction};
pub use icon::{Icon, IconError};
pub use image::{BlockAlignment, Image, ImageAlignment, ImageFit, ImageLayout, Mask, MaskShape};
pub use label_display::{Badge, Kbd};
pub use layout_axes::{DividerAxis, ScrollAxis};
pub use layout_sections::{Footer, Hero, Indicator, List};
pub use menu::{Menu, MenuAction, MenuError, MenuItem};
pub use modal::{Modal, ModalAction};
pub use navigation::{
    BreadcrumbError, Breadcrumbs, Dock, Link, NavigationSelectionError, Navbar, Pagination, Steps,
    Tabs,
};
pub use popover::{Popover, PopoverAction};
pub use radio::{adjacent_radio, radio_tab_stop, select_radio, GroupedRadio, Radio};
pub use search_input::{SearchInput, SearchInputAction};
pub use select::{Select, SelectAction, SelectError, SelectOption};
pub use slider::SliderError;
pub use swap::Swap;
pub use switch::Switch;
pub use text::{Text, TextWrap};
pub use text_area::TextArea;
pub use text_input::TextInput;
pub use theme_switcher::ThemeSwitcher;
pub use tooltip::{Tooltip, TooltipPlacement};
