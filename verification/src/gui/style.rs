//! The colour themes of the launcher: each theme's palette, and the colours
//! and shapes of each kind of widget in each of its states. Colours are
//! 8-bit RGBA; sizes are whole pixels.
pub mod dark;
pub mod light;

use vstd::prelude::*;

verus! {

/// A colour theme.
#[derive(Clone, Copy, Debug, PartialEq, Eq, Structural)]
pub enum Theme {
    Light,
    Dark,
}

impl Theme {
    /// All themes, in the order they are offered.
    pub fn all() -> (r: Vec<Theme>)
        ensures
            r@ == seq![Theme::Light, Theme::Dark],
    {
        vec![Theme::Light, Theme::Dark]
    }

    /// The theme's palette.
    pub fn palette(&self) -> (r: Palette)
        ensures
            *self == Theme::Light ==> r == light::palette_spec(),
            *self == Theme::Dark ==> r == dark::palette_spec(),
    {
        match self {
            Theme::Light => light::palette(),
            Theme::Dark => dark::palette(),
        }
    }

    /// The colour of highlighted text.
    pub fn highlight_text(&self) -> (r: Rgba)
        ensures
            *self == Theme::Light ==> r == light::palette_spec().active_text,
            *self == Theme::Dark ==> r == dark::palette_spec().active_text,
    {
        self.palette().active_text
    }
}

impl Default for Theme {
    fn default() -> (r: Theme)
        ensures
            r == Theme::Dark,
    {
        Theme::Dark
    }
}

/// A colour: red, green, blue and opacity, each from 0 to 255.
#[derive(Clone, Copy, Debug, PartialEq, Eq, Structural)]
pub struct Rgba {
    pub r: u8,
    pub g: u8,
    pub b: u8,
    pub a: u8,
}

/// An opaque colour.
pub open spec fn rgb(r: u8, g: u8, b: u8) -> Rgba {
    Rgba { r, g, b, a: 255 }
}

/// The fully transparent colour.
pub open spec fn transparent() -> Rgba {
    Rgba { r: 0, g: 0, b: 0, a: 0 }
}

/// An opaque colour.
pub fn opaque(r: u8, g: u8, b: u8) -> (c: Rgba)
    ensures
        c == rgb(r, g, b),
{
    Rgba { r, g, b, a: 255 }
}

/// The fully transparent colour.
pub fn clear() -> (c: Rgba)
    ensures
        c == transparent(),
{
    Rgba { r: 0, g: 0, b: 0, a: 0 }
}

/// The colours of a theme.
#[derive(Clone, Copy, Debug, PartialEq, Eq, Structural)]
pub struct Palette {
    pub active_tab: Rgba,
    pub hovered_tab: Rgba,
    pub inactive_tab: Rgba,
    pub active: Rgba,
    pub hovered: Rgba,
    pub inactive: Rgba,
    pub container_background: Rgba,
    pub tab_background: Rgba,
    pub info_background: Rgba,
    pub sidebar_background: Rgba,
    pub pick_list_background: Rgba,
    pub odd_background: Rgba,
    pub even_background: Rgba,
    pub status_background: Rgba,
    pub text: Rgba,
    pub active_text: Rgba,
}

/// How a button looks.
#[derive(Clone, Copy, Debug, PartialEq, Eq, Structural)]
pub struct ButtonStyle {
    pub background: Rgba,
    pub border_radius: u16,
    pub border_width: u16,
    pub border_color: Rgba,
    pub text_color: Rgba,
}

/// How a checkbox looks.
#[derive(Clone, Copy, Debug, PartialEq, Eq, Structural)]
pub struct CheckboxStyle {
    pub background: Rgba,
    pub checkmark_color: Rgba,
    pub border_radius: u16,
    pub border_width: u16,
    pub border_color: Rgba,
}

/// How a container looks.
#[derive(Clone, Copy, Debug, PartialEq, Eq, Structural)]
pub struct ContainerStyle {
    pub background: Rgba,
    pub text_color: Rgba,
    pub border_radius: u16,
    pub border_width: u16,
    pub border_color: Rgba,
}

/// How the open menu of a pick list looks.
#[derive(Clone, Copy, Debug, PartialEq, Eq, Structural)]
pub struct MenuStyle {
    pub text_color: Rgba,
    pub background: Rgba,
    pub border_width: u16,
    pub border_color: Rgba,
    pub selected_text_color: Rgba,
    pub selected_background: Rgba,
}

/// How a pick list looks.
#[derive(Clone, Copy, Debug, PartialEq, Eq, Structural)]
pub struct PickListStyle {
    pub text_color: Rgba,
    pub background: Rgba,
    pub border_radius: u16,
    pub border_width: u16,
    pub border_color: Rgba,
}

/// How a progress bar looks.
#[derive(Clone, Copy, Debug, PartialEq, Eq, Structural)]
pub struct ProgressBarStyle {
    pub background: Rgba,
    pub bar: Rgba,
    pub border_radius: u16,
}

/// How a radio button looks.
#[derive(Clone, Copy, Debug, PartialEq, Eq, Structural)]
pub struct RadioStyle {
    pub background: Rgba,
    pub dot_color: Rgba,
    pub border_width: u16,
    pub border_color: Rgba,
}

/// How a rule looks; it fills its whole length.
#[derive(Clone, Copy, Debug, PartialEq, Eq, Structural)]
pub struct RuleStyle {
    pub color: Rgba,
    pub width: u16,
    pub radius: u16,
}

/// An idle button: inactive background, plain text.
pub open spec fn button_active(p: Palette) -> ButtonStyle {
    ButtonStyle { background: p.inactive, border_radius: 5, border_width: 0, border_color: transparent(), text_color: p.text }
}

/// An idle button: inactive background, plain text.
pub fn button_active_of(p: Palette) -> (r: ButtonStyle)
    ensures
        r == button_active(p),
{
    ButtonStyle { background: p.inactive, border_radius: 5, border_width: 0, border_color: clear(), text_color: p.text }
}

/// A hovered button: hovered background, highlighted text.
pub open spec fn button_hovered(p: Palette) -> ButtonStyle {
    ButtonStyle { background: p.hovered, text_color: p.active_text, ..button_active(p) }
}

/// A hovered button: hovered background, highlighted text.
pub fn button_hovered_of(p: Palette) -> (r: ButtonStyle)
    ensures
        r == button_hovered(p),
{
    ButtonStyle { background: p.hovered, text_color: p.active_text, ..button_active_of(p) }
}

/// A pressed button: active background, otherwise as hovered.
pub open spec fn button_pressed(p: Palette) -> ButtonStyle {
    ButtonStyle { background: p.active, ..button_hovered(p) }
}

/// A pressed button: active background, otherwise as hovered.
pub fn button_pressed_of(p: Palette) -> (r: ButtonStyle)
    ensures
        r == button_pressed(p),
{
    ButtonStyle { background: p.active, ..button_hovered_of(p) }
}

/// An idle tab button.
pub open spec fn tab_button_active(p: Palette) -> ButtonStyle {
    ButtonStyle { background: p.inactive_tab, border_radius: 2, border_width: 0, border_color: transparent(), text_color: p.text }
}

/// An idle tab button.
pub fn tab_button_active_of(p: Palette) -> (r: ButtonStyle)
    ensures
        r == tab_button_active(p),
{
    ButtonStyle { background: p.inactive_tab, border_radius: 2, border_width: 0, border_color: clear(), text_color: p.text }
}

/// A hovered tab button; a pressed one looks the same.
pub open spec fn tab_button_hovered(p: Palette) -> ButtonStyle {
    ButtonStyle { background: p.hovered_tab, text_color: p.active_text, ..tab_button_active(p) }
}

/// A hovered tab button; a pressed one looks the same.
pub fn tab_button_hovered_of(p: Palette) -> (r: ButtonStyle)
    ensures
        r == tab_button_hovered(p),
{
    ButtonStyle { background: p.hovered_tab, text_color: p.active_text, ..tab_button_active_of(p) }
}

/// The button of the open tab.
pub open spec fn tab_button_disabled(p: Palette) -> ButtonStyle {
    ButtonStyle { background: p.active_tab, text_color: p.active_text, ..tab_button_active(p) }
}

/// The button of the open tab.
pub fn tab_button_disabled_of(p: Palette) -> (r: ButtonStyle)
    ensures
        r == tab_button_disabled(p),
{
    ButtonStyle { background: p.active_tab, text_color: p.active_text, ..tab_button_active_of(p) }
}

/// An idle checkbox: active background when checked.
pub open spec fn checkbox_active(p: Palette, checked: bool) -> CheckboxStyle {
    CheckboxStyle { background: if checked { p.active } else { p.inactive }, checkmark_color: p.text, border_radius: 5, border_width: 0, border_color: transparent() }
}

/// An idle checkbox: active background when checked.
pub fn checkbox_active_of(p: Palette, checked: bool) -> (r: CheckboxStyle)
    ensures
        r == checkbox_active(p, checked),
{
    CheckboxStyle { background: if checked { p.active } else { p.inactive }, checkmark_color: p.text, border_radius: 5, border_width: 0, border_color: clear() }
}

/// A hovered checkbox.
pub open spec fn checkbox_hovered(p: Palette, checked: bool) -> CheckboxStyle {
    CheckboxStyle { background: if checked { p.active } else { p.hovered }, checkmark_color: p.active_text, ..checkbox_active(p, checked) }
}

/// A hovered checkbox.
pub fn checkbox_hovered_of(p: Palette, checked: bool) -> (r: CheckboxStyle)
    ensures
        r == checkbox_hovered(p, checked),
{
    CheckboxStyle { background: if checked { p.active } else { p.hovered }, checkmark_color: p.active_text, ..checkbox_active_of(p, checked) }
}

/// A plain container.
pub open spec fn container(p: Palette) -> ContainerStyle {
    ContainerStyle { background: p.container_background, text_color: p.text, border_radius: 0, border_width: 0, border_color: transparent() }
}

/// A plain container.
pub fn container_of(p: Palette) -> (r: ContainerStyle)
    ensures
        r == container(p),
{
    ContainerStyle { background: p.container_background, text_color: p.text, border_radius: 0, border_width: 0, border_color: clear() }
}

/// A container with its own background.
pub open spec fn container_on(p: Palette, background: Rgba) -> ContainerStyle {
    ContainerStyle { background, ..container(p) }
}

/// A container with its own background.
pub fn container_on_of(p: Palette, background: Rgba) -> (r: ContainerStyle)
    ensures
        r == container_on(p, background),
{
    ContainerStyle { background, ..container_of(p) }
}

/// The open menu of a pick list.
pub open spec fn pick_list_menu(p: Palette) -> MenuStyle {
    MenuStyle { text_color: p.text, background: p.pick_list_background, border_width: 0, border_color: transparent(), selected_text_color: p.active_text, selected_background: p.hovered }
}

/// The open menu of a pick list.
pub fn pick_list_menu_of(p: Palette) -> (r: MenuStyle)
    ensures
        r == pick_list_menu(p),
{
    MenuStyle { text_color: p.text, background: p.pick_list_background, border_width: 0, border_color: clear(), selected_text_color: p.active_text, selected_background: p.hovered }
}

/// An idle pick list.
pub open spec fn pick_list_active(p: Palette) -> PickListStyle {
    PickListStyle { text_color: p.active_text, background: p.pick_list_background, border_radius: 5, border_width: 0, border_color: transparent() }
}

/// An idle pick list.
pub fn pick_list_active_of(p: Palette) -> (r: PickListStyle)
    ensures
        r == pick_list_active(p),
{
    PickListStyle { text_color: p.active_text, background: p.pick_list_background, border_radius: 5, border_width: 0, border_color: clear() }
}

/// A hovered pick list.
pub open spec fn pick_list_hovered(p: Palette) -> PickListStyle {
    PickListStyle { background: p.hovered, ..pick_list_active(p) }
}

/// A hovered pick list.
pub fn pick_list_hovered_of(p: Palette) -> (r: PickListStyle)
    ensures
        r == pick_list_hovered(p),
{
    PickListStyle { background: p.hovered, ..pick_list_active_of(p) }
}

/// A progress bar.
pub open spec fn progress_bar(p: Palette) -> ProgressBarStyle {
    ProgressBarStyle { background: p.inactive, bar: p.active, border_radius: 5 }
}

/// A progress bar.
pub fn progress_bar_of(p: Palette) -> (r: ProgressBarStyle)
    ensures
        r == progress_bar(p),
{
    ProgressBarStyle { background: p.inactive, bar: p.active, border_radius: 5 }
}

/// An idle radio button.
pub open spec fn radio_active(p: Palette) -> RadioStyle {
    RadioStyle { background: p.inactive, dot_color: p.active, border_width: 0, border_color: transparent() }
}

/// An idle radio button.
pub fn radio_active_of(p: Palette) -> (r: RadioStyle)
    ensures
        r == radio_active(p),
{
    RadioStyle { background: p.inactive, dot_color: p.active, border_width: 0, border_color: clear() }
}

/// A hovered radio button.
pub open spec fn radio_hovered(p: Palette) -> RadioStyle {
    RadioStyle { background: p.hovered, ..radio_active(p) }
}

/// A hovered radio button.
pub fn radio_hovered_of(p: Palette) -> (r: RadioStyle)
    ensures
        r == radio_hovered(p),
{
    RadioStyle { background: p.hovered, ..radio_active_of(p) }
}

/// A rule.
pub open spec fn rule(p: Palette) -> RuleStyle {
    RuleStyle { color: p.inactive, width: 2, radius: 1 }
}

/// A rule.
pub fn rule_of(p: Palette) -> (r: RuleStyle)
    ensures
        r == rule(p),
{
    RuleStyle { color: p.inactive, width: 2, radius: 1 }
}

} // verus!
