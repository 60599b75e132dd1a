//! The light theme.
use crate::gui::style::{
    button_active, button_active_of, button_hovered, button_hovered_of, button_pressed,
    button_pressed_of, checkbox_active, checkbox_active_of, checkbox_hovered, checkbox_hovered_of,
    container, container_of, container_on, container_on_of, opaque, pick_list_active,
    pick_list_active_of, pick_list_hovered, pick_list_hovered_of, pick_list_menu, pick_list_menu_of,
    progress_bar, progress_bar_of, radio_active, radio_active_of, radio_hovered, radio_hovered_of,
    rgb, rule, rule_of, tab_button_active, tab_button_active_of, tab_button_disabled,
    tab_button_disabled_of, tab_button_hovered, tab_button_hovered_of, ButtonStyle, CheckboxStyle,
    ContainerStyle, MenuStyle, Palette, PickListStyle, ProgressBarStyle, RadioStyle, RuleStyle,
};
use vstd::prelude::*;

verus! {

/// The colours of the light theme.
pub open spec fn palette_spec() -> Palette {
    Palette {
        active_tab: rgb(190, 190, 190),
        hovered_tab: rgb(142, 142, 142),
        inactive_tab: rgb(129, 129, 129),
        active: rgb(86, 128, 194),
        hovered: rgb(241, 241, 241),
        inactive: rgb(219, 219, 219),
        container_background: rgb(166, 166, 166),
        tab_background: rgb(179, 179, 179),
        info_background: rgb(169, 169, 169),
        sidebar_background: rgb(163, 163, 163),
        pick_list_background: rgb(213, 213, 213),
        odd_background: rgb(153, 153, 153),
        even_background: rgb(159, 159, 159),
        status_background: rgb(255, 0, 0),
        text: rgb(26, 26, 26),
        active_text: rgb(0, 0, 0),
    }
}

/// The colours of the light theme.
pub fn palette() -> (r: Palette)
    ensures
        r == palette_spec(),
{
    Palette {
        active_tab: opaque(190, 190, 190),
        hovered_tab: opaque(142, 142, 142),
        inactive_tab: opaque(129, 129, 129),
        active: opaque(86, 128, 194),
        hovered: opaque(241, 241, 241),
        inactive: opaque(219, 219, 219),
        container_background: opaque(166, 166, 166),
        tab_background: opaque(179, 179, 179),
        info_background: opaque(169, 169, 169),
        sidebar_background: opaque(163, 163, 163),
        pick_list_background: opaque(213, 213, 213),
        odd_background: opaque(153, 153, 153),
        even_background: opaque(159, 159, 159),
        status_background: opaque(255, 0, 0),
        text: opaque(26, 26, 26),
        active_text: opaque(0, 0, 0),
    }
}

/// A button of the theme.
pub struct Button;

impl Button {
    /// How it looks idle.
    pub fn active(&self) -> (r: ButtonStyle)
        ensures
            r == button_active(palette_spec()),
    {
        button_active_of(palette())
    }

    /// How it looks hovered.
    pub fn hovered(&self) -> (r: ButtonStyle)
        ensures
            r == button_hovered(palette_spec()),
    {
        button_hovered_of(palette())
    }

    /// How it looks pressed.
    pub fn pressed(&self) -> (r: ButtonStyle)
        ensures
            r == button_pressed(palette_spec()),
    {
        button_pressed_of(palette())
    }
}

/// A tab button of the theme.
pub struct ButtonTab;

impl ButtonTab {
    /// How it looks idle.
    pub fn active(&self) -> (r: ButtonStyle)
        ensures
            r == tab_button_active(palette_spec()),
    {
        tab_button_active_of(palette())
    }

    /// How it looks hovered.
    pub fn hovered(&self) -> (r: ButtonStyle)
        ensures
            r == tab_button_hovered(palette_spec()),
    {
        tab_button_hovered_of(palette())
    }

    /// How it looks pressed.
    pub fn pressed(&self) -> (r: ButtonStyle)
        ensures
            r == tab_button_hovered(palette_spec()),
    {
        tab_button_hovered_of(palette())
    }

    /// How it looks disabled.
    pub fn disabled(&self) -> (r: ButtonStyle)
        ensures
            r == tab_button_disabled(palette_spec()),
    {
        tab_button_disabled_of(palette())
    }
}

/// A checkbox of the theme.
pub struct Checkbox;

impl Checkbox {
    /// How it looks idle.
    pub fn active(&self, is_checked: bool) -> (r: CheckboxStyle)
        ensures
            r == checkbox_active(palette_spec(), is_checked),
    {
        checkbox_active_of(palette(), is_checked)
    }

    /// How it looks hovered.
    pub fn hovered(&self, is_checked: bool) -> (r: CheckboxStyle)
        ensures
            r == checkbox_hovered(palette_spec(), is_checked),
    {
        checkbox_hovered_of(palette(), is_checked)
    }
}

/// A plain container of the theme.
pub struct Container;

impl Container {
    /// How it looks.
    pub fn style(&self) -> (r: ContainerStyle)
        ensures
            r == container(palette_spec()),
    {
        container_of(palette())
    }
}

/// The container of the tabs.
pub struct ContainerTab;

impl ContainerTab {
    /// How it looks.
    pub fn style(&self) -> (r: ContainerStyle)
        ensures
            r == container_on(palette_spec(), palette_spec().tab_background),
    {
        container_on_of(palette(), palette().tab_background)
    }
}

/// A container of information.
pub struct ContainerInfo;

impl ContainerInfo {
    /// How it looks.
    pub fn style(&self) -> (r: ContainerStyle)
        ensures
            r == container_on(palette_spec(), palette_spec().info_background),
    {
        container_on_of(palette(), palette().info_background)
    }
}

/// The container of the side panel.
pub struct ContainerSidebar;

impl ContainerSidebar {
    /// How it looks.
    pub fn style(&self) -> (r: ContainerStyle)
        ensures
            r == container_on(palette_spec(), palette_spec().sidebar_background),
    {
        container_on_of(palette(), palette().sidebar_background)
    }
}

/// The container of an odd row.
pub struct ContainerOdd;

impl ContainerOdd {
    /// How it looks.
    pub fn style(&self) -> (r: ContainerStyle)
        ensures
            r == container_on(palette_spec(), palette_spec().odd_background),
    {
        container_on_of(palette(), palette().odd_background)
    }
}

/// The container of an even row.
pub struct ContainerEven;

impl ContainerEven {
    /// How it looks.
    pub fn style(&self) -> (r: ContainerStyle)
        ensures
            r == container_on(palette_spec(), palette_spec().even_background),
    {
        container_on_of(palette(), palette().even_background)
    }
}

/// The container of a package's status.
pub struct ContainerStatus;

impl ContainerStatus {
    /// How it looks.
    pub fn style(&self) -> (r: ContainerStyle)
        ensures
            r == container_on(palette_spec(), palette_spec().status_background),
    {
        container_on_of(palette(), palette().status_background)
    }
}

/// A pick list of the theme.
pub struct PickList;

impl PickList {
    /// How it looks when its menu is open.
    pub fn menu(&self) -> (r: MenuStyle)
        ensures
            r == pick_list_menu(palette_spec()),
    {
        pick_list_menu_of(palette())
    }

    /// How it looks idle.
    pub fn active(&self) -> (r: PickListStyle)
        ensures
            r == pick_list_active(palette_spec()),
    {
        pick_list_active_of(palette())
    }

    /// How it looks hovered.
    pub fn hovered(&self) -> (r: PickListStyle)
        ensures
            r == pick_list_hovered(palette_spec()),
    {
        pick_list_hovered_of(palette())
    }
}

/// A progress bar of the theme.
pub struct ProgressBar;

impl ProgressBar {
    /// How it looks.
    pub fn style(&self) -> (r: ProgressBarStyle)
        ensures
            r == progress_bar(palette_spec()),
    {
        progress_bar_of(palette())
    }
}

/// A radio button of the theme.
pub struct Radio;

impl Radio {
    /// How it looks idle.
    pub fn active(&self) -> (r: RadioStyle)
        ensures
            r == radio_active(palette_spec()),
    {
        radio_active_of(palette())
    }

    /// How it looks hovered.
    pub fn hovered(&self) -> (r: RadioStyle)
        ensures
            r == radio_hovered(palette_spec()),
    {
        radio_hovered_of(palette())
    }
}

/// A rule of the theme.
pub struct Rule;

impl Rule {
    /// How it looks.
    pub fn style(&self) -> (r: RuleStyle)
        ensures
            r == rule(palette_spec()),
    {
        rule_of(palette())
    }
}

} // verus!
