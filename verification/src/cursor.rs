//! The mouse cursor: which icon stands for which of the engine's system
//! cursors, and the pointer that shows it.

use vstd::prelude::*;

verus! {

/// The cursors that the engine can ask for.
#[derive(Clone, Copy, Debug, PartialEq, Eq, Structural)]
pub enum SystemMouseCursor {
    Click,
    Alias,
    AllScroll,
    Basic,
    Cell,
    ContextMenu,
    Copy,
    Disappearing,
    Forbidden,
    Grab,
    Grabbing,
    Help,
    Move,
    NoDrop,
    NoCursor,
    Precise,
    Progress,
    ResizeColumn,
    ResizeDown,
    ResizeDownLeft,
    ResizeDownRight,
    ResizeLeft,
    ResizeLeftRight,
    ResizeRight,
    ResizeRow,
    ResizeUp,
    ResizeUpDown,
    ResizeUpLeft,
    ResizeUpLeftDownRight,
    ResizeUpRight,
    ResizeUpRightDownLeft,
    Text,
    VerticalText,
    Wait,
    ZoomIn,
    ZoomOut,
}

/// The icons of a cursor theme that the shell uses.
#[derive(Clone, Copy, Debug, PartialEq, Eq, Structural)]
pub enum CursorIcon {
    Default,
    ContextMenu,
    Help,
    Pointer,
    Progress,
    Wait,
    Cell,
    Crosshair,
    Text,
    VerticalText,
    Alias,
    Copy,
    Move,
    NoDrop,
    NotAllowed,
    Grab,
    Grabbing,
    EResize,
    NResize,
    NeResize,
    NwResize,
    SResize,
    SeResize,
    SwResize,
    WResize,
    EwResize,
    NsResize,
    NeswResize,
    NwseResize,
    ColResize,
    RowResize,
    ZoomIn,
    ZoomOut,
}

/// The icon that shows system cursor `kind`; `None` where the cursor is to
/// be hidden. Cursors without an icon of their own get the default arrow.
pub open spec fn icon_of(kind: SystemMouseCursor) -> Option<CursorIcon> {
    match kind {
        SystemMouseCursor::Click => Some(CursorIcon::Pointer),
        SystemMouseCursor::Alias => Some(CursorIcon::Alias),
        SystemMouseCursor::AllScroll => Some(CursorIcon::Default),
        SystemMouseCursor::Basic => Some(CursorIcon::Default),
        SystemMouseCursor::Cell => Some(CursorIcon::Cell),
        SystemMouseCursor::ContextMenu => Some(CursorIcon::ContextMenu),
        SystemMouseCursor::Copy => Some(CursorIcon::Copy),
        SystemMouseCursor::Disappearing => Some(CursorIcon::Default),
        SystemMouseCursor::Forbidden => Some(CursorIcon::NotAllowed),
        SystemMouseCursor::Grab => Some(CursorIcon::Grab),
        SystemMouseCursor::Grabbing => Some(CursorIcon::Grabbing),
        SystemMouseCursor::Help => Some(CursorIcon::Help),
        SystemMouseCursor::Move => Some(CursorIcon::Move),
        SystemMouseCursor::NoDrop => Some(CursorIcon::NoDrop),
        SystemMouseCursor::NoCursor => None,
        SystemMouseCursor::Precise => Some(CursorIcon::Crosshair),
        SystemMouseCursor::Progress => Some(CursorIcon::Progress),
        SystemMouseCursor::ResizeColumn => Some(CursorIcon::ColResize),
        SystemMouseCursor::ResizeDown => Some(CursorIcon::SResize),
        SystemMouseCursor::ResizeDownLeft => Some(CursorIcon::SwResize),
        SystemMouseCursor::ResizeDownRight => Some(CursorIcon::SeResize),
        SystemMouseCursor::ResizeLeft => Some(CursorIcon::WResize),
        SystemMouseCursor::ResizeLeftRight => Some(CursorIcon::EwResize),
        SystemMouseCursor::ResizeRight => Some(CursorIcon::EResize),
        SystemMouseCursor::ResizeRow => Some(CursorIcon::RowResize),
        SystemMouseCursor::ResizeUp => Some(CursorIcon::NResize),
        SystemMouseCursor::ResizeUpDown => Some(CursorIcon::NsResize),
        SystemMouseCursor::ResizeUpLeft => Some(CursorIcon::NwResize),
        SystemMouseCursor::ResizeUpLeftDownRight => Some(CursorIcon::NwseResize),
        SystemMouseCursor::ResizeUpRight => Some(CursorIcon::NeResize),
        SystemMouseCursor::ResizeUpRightDownLeft => Some(CursorIcon::NeswResize),
        SystemMouseCursor::Text => Some(CursorIcon::Text),
        SystemMouseCursor::VerticalText => Some(CursorIcon::VerticalText),
        SystemMouseCursor::Wait => Some(CursorIcon::Wait),
        SystemMouseCursor::ZoomIn => Some(CursorIcon::ZoomIn),
        SystemMouseCursor::ZoomOut => Some(CursorIcon::ZoomOut),
    }
}

/// A system cursor as the pointer shows it.
#[derive(Clone, Copy, Debug, PartialEq, Eq)]
pub struct SctkMouseCursor {
    pub icon: Option<CursorIcon>,
}

impl From<SystemMouseCursor> for SctkMouseCursor {
    fn from(kind: SystemMouseCursor) -> (cursor: SctkMouseCursor) {
        let icon = match kind {
            SystemMouseCursor::Click => Some(CursorIcon::Pointer),
            SystemMouseCursor::Alias => Some(CursorIcon::Alias),
            SystemMouseCursor::AllScroll => Some(CursorIcon::Default),
            SystemMouseCursor::Basic => Some(CursorIcon::Default),
            SystemMouseCursor::Cell => Some(CursorIcon::Cell),
            SystemMouseCursor::ContextMenu => Some(CursorIcon::ContextMenu),
            SystemMouseCursor::Copy => Some(CursorIcon::Copy),
            SystemMouseCursor::Disappearing => Some(CursorIcon::Default),
            SystemMouseCursor::Forbidden => Some(CursorIcon::NotAllowed),
            SystemMouseCursor::Grab => Some(CursorIcon::Grab),
            SystemMouseCursor::Grabbing => Some(CursorIcon::Grabbing),
            SystemMouseCursor::Help => Some(CursorIcon::Help),
            SystemMouseCursor::Move => Some(CursorIcon::Move),
            SystemMouseCursor::NoDrop => Some(CursorIcon::NoDrop),
            SystemMouseCursor::NoCursor => None,
            SystemMouseCursor::Precise => Some(CursorIcon::Crosshair),
            SystemMouseCursor::Progress => Some(CursorIcon::Progress),
            SystemMouseCursor::ResizeColumn => Some(CursorIcon::ColResize),
            SystemMouseCursor::ResizeDown => Some(CursorIcon::SResize),
            SystemMouseCursor::ResizeDownLeft => Some(CursorIcon::SwResize),
            SystemMouseCursor::ResizeDownRight => Some(CursorIcon::SeResize),
            SystemMouseCursor::ResizeLeft => Some(CursorIcon::WResize),
            SystemMouseCursor::ResizeLeftRight => Some(CursorIcon::EwResize),
            SystemMouseCursor::ResizeRight => Some(CursorIcon::EResize),
            SystemMouseCursor::ResizeRow => Some(CursorIcon::RowResize),
            SystemMouseCursor::ResizeUp => Some(CursorIcon::NResize),
            SystemMouseCursor::ResizeUpDown => Some(CursorIcon::NsResize),
            SystemMouseCursor::ResizeUpLeft => Some(CursorIcon::NwResize),
            SystemMouseCursor::ResizeUpLeftDownRight => Some(CursorIcon::NwseResize),
            SystemMouseCursor::ResizeUpRight => Some(CursorIcon::NeResize),
            SystemMouseCursor::ResizeUpRightDownLeft => Some(CursorIcon::NeswResize),
            SystemMouseCursor::Text => Some(CursorIcon::Text),
            SystemMouseCursor::VerticalText => Some(CursorIcon::VerticalText),
            SystemMouseCursor::Wait => Some(CursorIcon::Wait),
            SystemMouseCursor::ZoomIn => Some(CursorIcon::ZoomIn),
            SystemMouseCursor::ZoomOut => Some(CursorIcon::ZoomOut),
        };
        SctkMouseCursor { icon }
    }
}

impl vstd::std_specs::convert::FromSpecImpl<SystemMouseCursor> for SctkMouseCursor {
    open spec fn obeys_from_spec() -> bool {
        true
    }

    open spec fn from_spec(kind: SystemMouseCursor) -> SctkMouseCursor {
        SctkMouseCursor { icon: icon_of(kind) }
    }
}

/// A pointer that shows themed cursors. `seat_id` is the seat that the
/// pointer belongs to, where the pointer tells it.
#[derive(Clone, Copy, Debug, PartialEq, Eq)]
pub struct ThemedPointer {
    pub pointer_id: u32,
    pub seat_id: Option<u32>,
}

impl ThemedPointer {
    /// Whether the pointer is known to belong to seat `seat_id`.
    pub open spec fn belongs_to(self, seat_id: u32) -> bool {
        self.seat_id == Some(seat_id)
    }
}

/// What is to be done to a pointer to show a cursor.
#[derive(Clone, Copy, Debug, PartialEq, Eq)]
pub enum CursorRequest {
    SetCursor { pointer_id: u32, icon: CursorIcon },
    HideCursor { pointer_id: u32 },
}

/// The cursor could not be changed.
#[derive(Clone, Copy, Debug, PartialEq, Eq, Structural)]
pub struct MouseCursorError;

/// The request that shows `kind` on `pointer`.
pub open spec fn cursor_request(pointer: ThemedPointer, kind: SystemMouseCursor) -> CursorRequest {
    match icon_of(kind) {
        Some(icon) => CursorRequest::SetCursor { pointer_id: pointer.pointer_id, icon },
        None => CursorRequest::HideCursor { pointer_id: pointer.pointer_id },
    }
}

/// Answers the engine's requests to change the cursor.
#[derive(Clone, Copy, Debug, PartialEq, Eq)]
pub struct SctkMouseCursorHandler {
    themed_pointer: Option<ThemedPointer>,
}

impl SctkMouseCursorHandler {
    /// The pointer that cursors are shown on, if there is one.
    pub closed spec fn spec_themed_pointer(&self) -> Option<ThemedPointer> {
        self.themed_pointer
    }

    /// A handler without a pointer.
    pub fn new() -> (handler: SctkMouseCursorHandler)
        ensures
            handler.spec_themed_pointer() is None,
    {
        SctkMouseCursorHandler { themed_pointer: None }
    }

    #[verifier::when_used_as_spec(spec_themed_pointer)]
    pub fn themed_pointer(&self) -> (pointer: Option<ThemedPointer>)
        ensures
            pointer == self.spec_themed_pointer(),
    {
        self.themed_pointer
    }

    pub fn set_themed_pointer(&mut self, themed_pointer: Option<ThemedPointer>)
        ensures
            final(self).spec_themed_pointer() == themed_pointer,
    {
        self.themed_pointer = themed_pointer;
    }

    /// Forgets the pointer if it is known to belong to seat `seat_id`.
    pub fn remove_themed_pointer_for_seat(&mut self, seat_id: u32)
        ensures
            final(self).spec_themed_pointer() == (match old(self).spec_themed_pointer() {
                Some(pointer) => if pointer.belongs_to(seat_id) {
                    None
                } else {
                    Some(pointer)
                },
                None => None,
            }),
    {
        let themed_pointer_belongs_to_seat = match self.themed_pointer {
            Some(pointer) => match pointer.seat_id {
                Some(seat) => seat == seat_id,
                None => false,
            },
            None => false,
        };
        if themed_pointer_belongs_to_seat {
            self.themed_pointer = None;
        }
    }

    /// The engine asks for system cursor `kind`. Without a pointer this
    /// fails; otherwise the request that shows the cursor's icon, or hides
    /// the cursor where it has none, is returned for the caller to carry out.
    pub fn activate_system_cursor(&self, kind: SystemMouseCursor) -> (outcome: Result<
        CursorRequest,
        MouseCursorError,
    >)
        ensures
            outcome == (match self.spec_themed_pointer() {
                Some(pointer) => Ok::<CursorRequest, MouseCursorError>(
                    cursor_request(pointer, kind),
                ),
                None => Err::<CursorRequest, MouseCursorError>(MouseCursorError),
            }),
    {
        let themed_pointer = match self.themed_pointer {
            Some(pointer) => pointer,
            None => {
                return Err(MouseCursorError);
            },
        };
        let cursor = SctkMouseCursor::from(kind);
        match cursor.icon {
            Some(icon) => Ok(
                CursorRequest::SetCursor { pointer_id: themed_pointer.pointer_id, icon },
            ),
            None => Ok(CursorRequest::HideCursor { pointer_id: themed_pointer.pointer_id }),
        }
    }
}

} // verus!
