//! The sidebar: a pane of items beside the main content.
//!
//! Two things are decided here. What the boxes look like, given the colours
//! of the theme in force: [`Sidebar`] and [`SidebarItem`] describe them, and
//! the renderer draws what they describe. And how an item answers the
//! pointer: [`react`] and [`release`] say what becomes of the item's status
//! and what is to be done to the pointer cursor or the click handler, and the
//! event loop does it.

use vstd::prelude::*;

verus! {

/// Whether the pointer is over an item.
#[derive(Clone, Copy, Debug, PartialEq, Eq, Structural)]
pub enum ButtonStatus {
    Idle,
    Hovering,
}

impl Default for ButtonStatus {
    /// An item starts idle.
    fn default() -> (status: ButtonStatus)
        ensures
            status == ButtonStatus::Idle,
    {
        ButtonStatus::Idle
    }
}

/// A length along one side of a box.
#[derive(Clone, Copy, Debug, PartialEq, Eq, Structural)]
pub enum Length {
    /// So many pixels.
    Pixels(u32),
    /// So many hundredths of what the surrounding box offers.
    Percent(u32),
    /// All that the neighbours leave.
    Fill,
    /// As much as the content takes.
    Auto,
}

/// The way in which a box lays out what it holds.
#[derive(Clone, Copy, Debug, PartialEq, Eq, Structural)]
pub enum Direction {
    Horizontal,
    Vertical,
}

/// A colour by its parts, `alpha` from 0 for clear to 255 for solid.
#[derive(Clone, Copy, Debug, PartialEq, Eq, Structural)]
pub struct Rgba {
    pub red: u8,
    pub green: u8,
    pub blue: u8,
    pub alpha: u8,
}

/// A shadow behind a box, in pixels.
#[derive(Clone, Copy, Debug, PartialEq, Eq, Structural)]
pub struct Shadow {
    pub x: u32,
    pub y: u32,
    pub blur: u32,
    pub spread: u32,
    pub color: Rgba,
}

/// A solid line round a box.
#[derive(Clone, Debug, PartialEq, Eq)]
pub struct Border {
    pub width: u32,
    pub fill: String,
}

/// The colours that the theme gives a sidebar.
#[derive(Clone, Debug, PartialEq, Eq)]
pub struct SidebarColors {
    pub background: String,
    pub font_color: String,
}

/// The colours that the theme gives an item of a sidebar.
#[derive(Clone, Debug, PartialEq, Eq)]
pub struct SidebarItemColors {
    pub background: String,
    pub hover_background: String,
    pub font_color: String,
    pub border_fill: String,
}

/// The pane that holds the items of a sidebar.
#[derive(Clone, Debug, PartialEq, Eq)]
pub struct SidebarPane {
    pub width: Length,
    pub height: Length,
    /// What reaches over the pane's edge is cut off.
    pub clipped: bool,
    pub background: String,
    pub color: String,
    pub shadow: Shadow,
    /// The padding of the scroll view that the items lie in, in pixels.
    pub scroll_padding: u32,
}

/// The pane that holds what a sidebar leads to. It has no background of its
/// own and does not scroll.
#[derive(Clone, Debug, PartialEq, Eq)]
pub struct ContentPane {
    pub width: Length,
    pub height: Length,
    /// What reaches over the pane's edge is cut off.
    pub clipped: bool,
    pub color: String,
}

/// A sidebar and the content beside it.
#[derive(Clone, Debug, PartialEq, Eq)]
pub struct SidebarLayout {
    pub width: Length,
    pub height: Length,
    pub direction: Direction,
    pub sidebar: SidebarPane,
    pub content: ContentPane,
}

/// The box of one item of a sidebar.
#[derive(Clone, Debug, PartialEq, Eq)]
pub struct ItemBox {
    pub width: Length,
    pub height: Length,
    pub clipped: bool,
    /// The margin above and below, in pixels.
    pub margin_vertical: u32,
    /// The margin left and right, in pixels.
    pub margin_horizontal: u32,
    pub padding: u32,
    pub corner_radius: u32,
    pub color: String,
    pub background: String,
    pub border: Border,
    pub shadow: Shadow,
}

/// The width of the sidebar pane, in pixels.
pub const SIDEBAR_WIDTH: u32 = 170;

/// The padding round the items of a sidebar, in pixels.
pub const SIDEBAR_PADDING: u32 = 16;

/// A black shadow of the strength that the sidebar's boxes use, thrown by
/// `x` and `y` pixels.
pub open spec fn soft_shadow(x: u32, y: u32) -> Shadow {
    Shadow { x, y, blur: 5, spread: 0, color: Rgba { red: 0, green: 0, blue: 0, alpha: 30 } }
}

/// The layout of a sidebar in the given colours.
///
/// The whole takes all the room there is and sets its two panes side by
/// side. The sidebar pane has a fixed width, the theme's background and a
/// shadow to its right, and scrolls; the content pane takes the rest of the
/// width. Both are clipped, as high as the whole, and write in the theme's
/// font colour.
pub open spec fn sidebar_layout(colors: SidebarColors) -> SidebarLayout {
    SidebarLayout {
        width: Length::Percent(100),
        height: Length::Percent(100),
        direction: Direction::Horizontal,
        sidebar: SidebarPane {
            width: Length::Pixels(SIDEBAR_WIDTH),
            height: Length::Percent(100),
            clipped: true,
            background: colors.background,
            color: colors.font_color,
            shadow: soft_shadow(2, 0),
            scroll_padding: SIDEBAR_PADDING,
        },
        content: ContentPane {
            width: Length::Fill,
            height: Length::Percent(100),
            clipped: true,
            color: colors.font_color,
        },
    }
}

/// The background of an item in the given status: the hover colour while the
/// pointer is over it, the plain one otherwise.
pub open spec fn item_background(colors: SidebarItemColors, status: ButtonStatus) -> String {
    match status {
        ButtonStatus::Hovering => colors.hover_background,
        ButtonStatus::Idle => colors.background,
    }
}

/// The box of an item in the given colours and status.
///
/// As wide as the sidebar lets it be and as high as its content, with a
/// little room above and below, rounded corners, a thin border in the
/// theme's border colour and a shadow underneath. Only the background
/// depends on the status.
pub open spec fn item_box(colors: SidebarItemColors, status: ButtonStatus) -> ItemBox {
    ItemBox {
        width: Length::Percent(100),
        height: Length::Auto,
        clipped: true,
        margin_vertical: 5,
        margin_horizontal: 0,
        padding: 8,
        corner_radius: 8,
        color: colors.font_color,
        background: item_background(colors, status),
        border: Border { width: 1, fill: colors.border_fill },
        shadow: soft_shadow(0, 4),
    }
}

fn shadow_by(x: u32, y: u32) -> (shadow: Shadow)
    ensures
        shadow == soft_shadow(x, y),
{
    Shadow { x, y, blur: 5, spread: 0, color: Rgba { red: 0, green: 0, blue: 0, alpha: 30 } }
}

/// Describes a sidebar and the content beside it.
#[allow(non_snake_case)]
pub fn Sidebar(colors: SidebarColors) -> (layout: SidebarLayout)
    ensures
        layout == sidebar_layout(colors),
{
    let font_color: String = colors.font_color.clone();
    SidebarLayout {
        width: Length::Percent(100),
        height: Length::Percent(100),
        direction: Direction::Horizontal,
        sidebar: SidebarPane {
            width: Length::Pixels(SIDEBAR_WIDTH),
            height: Length::Percent(100),
            clipped: true,
            background: colors.background,
            color: font_color,
            shadow: shadow_by(2, 0),
            scroll_padding: SIDEBAR_PADDING,
        },
        content: ContentPane {
            width: Length::Fill,
            height: Length::Percent(100),
            clipped: true,
            color: colors.font_color,
        },
    }
}

/// Describes one item of a sidebar.
#[allow(non_snake_case)]
pub fn SidebarItem(colors: SidebarItemColors, status: ButtonStatus) -> (item: ItemBox)
    ensures
        item == item_box(colors, status),
{
    let background: String = match status {
        ButtonStatus::Hovering => colors.hover_background,
        ButtonStatus::Idle => colors.background,
    };
    ItemBox {
        width: Length::Percent(100),
        height: Length::Auto,
        clipped: true,
        margin_vertical: 5,
        margin_horizontal: 0,
        padding: 8,
        corner_radius: 8,
        color: colors.font_color,
        background,
        border: Border { width: 1, fill: colors.border_fill },
        shadow: shadow_by(0, 4),
    }
}

/// The icon of the pointer cursor.
#[derive(Clone, Copy, Debug, PartialEq, Eq, Structural)]
pub enum Cursor {
    /// The icon that the platform shows where nothing asks for another.
    Default,
    /// The hand that marks what can be clicked.
    Pointer,
}

/// What the pointer can do to an item.
#[derive(Clone, Copy, Debug, PartialEq, Eq, Structural)]
pub enum ItemEvent {
    MouseEnter,
    MouseLeave,
    Click,
}

/// What an item asks of its surroundings.
#[derive(Clone, Copy, Debug, PartialEq, Eq, Structural)]
pub enum Effect {
    /// Show this cursor icon.
    SetCursor(Cursor),
    /// Call the item's click handler, once and with nothing to hand over.
    InvokeOnClick,
}

/// An item's answer to an event: its status from now on, and what is to be
/// done, if anything.
#[derive(Clone, Copy, Debug, PartialEq, Eq, Structural)]
pub struct Reaction {
    pub status: ButtonStatus,
    pub effect: Option<Effect>,
}

/// How an item in the given status answers an event. `has_handler` tells
/// whether a click handler is registered with the item.
///
/// Entering and leaving set the status and the cursor, whatever the status
/// was. A click touches neither; it reaches the handler if there is one.
pub open spec fn reaction(status: ButtonStatus, event: ItemEvent, has_handler: bool) -> Reaction {
    match event {
        ItemEvent::MouseEnter => Reaction {
            status: ButtonStatus::Hovering,
            effect: Some(Effect::SetCursor(Cursor::Pointer)),
        },
        ItemEvent::MouseLeave => Reaction {
            status: ButtonStatus::Idle,
            effect: Some(Effect::SetCursor(Cursor::Default)),
        },
        ItemEvent::Click => Reaction {
            status,
            effect: if has_handler {
                Some(Effect::InvokeOnClick)
            } else {
                None
            },
        },
    }
}

/// The cursor to show when an item in the given status goes away: the
/// default one if the pointer is still over the item, and no change
/// otherwise.
pub open spec fn released(status: ButtonStatus) -> Option<Cursor> {
    match status {
        ButtonStatus::Hovering => Some(Cursor::Default),
        ButtonStatus::Idle => None,
    }
}

/// The cursor that shows once the effect has been carried out.
pub open spec fn cursor_after(cursor: Cursor, effect: Option<Effect>) -> Cursor {
    match effect {
        Some(Effect::SetCursor(icon)) => icon,
        _ => cursor,
    }
}

/// How often the effect calls the click handler.
pub open spec fn handler_calls(effect: Option<Effect>) -> nat {
    match effect {
        Some(Effect::InvokeOnClick) => 1,
        _ => 0,
    }
}

/// Answers an event on an item.
pub fn react(status: ButtonStatus, event: ItemEvent, has_handler: bool) -> (answer: Reaction)
    ensures
        answer == reaction(status, event, has_handler),
{
    match event {
        ItemEvent::MouseEnter => Reaction {
            status: ButtonStatus::Hovering,
            effect: Some(Effect::SetCursor(Cursor::Pointer)),
        },
        ItemEvent::MouseLeave => Reaction {
            status: ButtonStatus::default(),
            effect: Some(Effect::SetCursor(Cursor::Default)),
        },
        ItemEvent::Click => {
            if has_handler {
                Reaction { status, effect: Some(Effect::InvokeOnClick) }
            } else {
                Reaction { status, effect: None }
            }
        },
    }
}

/// What is to be done to the cursor when an item goes away.
pub fn release(status: ButtonStatus) -> (cursor: Option<Cursor>)
    ensures
        cursor == released(status),
{
    if status == ButtonStatus::Hovering {
        Some(Cursor::Default)
    } else {
        None
    }
}

/// Entering an item and leaving it again puts the default cursor back,
/// whatever the cursor and the item's status were before, and leaves the
/// item idle.
pub proof fn entering_then_leaving_restores_cursor(
    status: ButtonStatus,
    cursor: Cursor,
    has_handler: bool,
)
    ensures
        ({
            let entered = reaction(status, ItemEvent::MouseEnter, has_handler);
            let left = reaction(entered.status, ItemEvent::MouseLeave, has_handler);
            &&& left.status == ButtonStatus::Idle
            &&& cursor_after(cursor_after(cursor, entered.effect), left.effect) == Cursor::Default
            &&& released(left.status) is None
        }),
{
}

/// An item that goes away while the pointer is over it puts the default
/// cursor back, by one action; clicks between the entering and the going
/// away make no difference.
pub proof fn going_away_mid_hover_restores_cursor(
    status: ButtonStatus,
    clicks: nat,
    has_handler: bool,
)
    ensures
        released(
            after_clicks(reaction(status, ItemEvent::MouseEnter, has_handler).status, clicks, has_handler),
        ) == Some(Cursor::Default),
    decreases clicks,
{
    if clicks > 0 {
        going_away_mid_hover_restores_cursor(status, (clicks - 1) as nat, has_handler);
    }
}

/// The status of an item after so many clicks.
pub open spec fn after_clicks(status: ButtonStatus, clicks: nat, has_handler: bool) -> ButtonStatus
    decreases clicks,
{
    if clicks == 0 {
        status
    } else {
        reaction(after_clicks(status, (clicks - 1) as nat, has_handler), ItemEvent::Click, has_handler).status
    }
}

/// A click leaves the item's status and the cursor as they are, and calls
/// the handler once if there is one and not at all if there is none.
pub proof fn click_reaches_the_handler_once(status: ButtonStatus, cursor: Cursor, has_handler: bool)
    ensures
        ({
            let clicked = reaction(status, ItemEvent::Click, has_handler);
            &&& clicked.status == status
            &&& cursor_after(cursor, clicked.effect) == cursor
            &&& handler_calls(clicked.effect) == if has_handler { 1nat } else { 0nat }
        }),
{
}

} // verus!
