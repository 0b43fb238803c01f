//! The editor's window: its size, name and frame, and what its window
//! procedure does with each message. The window system calls themselves are
//! made by the program around the library.
use vstd::prelude::*;

use crate::application::ApplicationD;

verus! {

/// The Win32 message asking the window to run a command.
pub const WM_COMMAND: u32 = 0x0111;

/// The Win32 message asking the window to paint itself.
pub const WM_PAINT: u32 = 0x000F;

/// The Win32 message asking the window to close.
pub const WM_CLOSE: u32 = 0x0010;

/// The Win32 message telling the window it is being destroyed.
pub const WM_DESTROY: u32 = 0x0002;

/// What the window holds, as plain values.
pub struct WinWindowView {
    pub id: u64,
    pub win_name: Option<Seq<char>>,
    pub physics_width: u64,
    pub physics_height: u64,
    pub border_width: u64,
    pub header_height: u64,
    pub is_active: bool,
}

/// The editor's window: its id, name, physical size and frame size.
pub struct WinWinodwE {
    id: u64,
    win_name: Option<String>,
    physics_width: u64,
    physics_height: u64,
    border_width: u64,
    header_height: u64,
    is_active: bool,
}

impl View for WinWinodwE {
    type V = WinWindowView;

    closed spec fn view(&self) -> WinWindowView {
        WinWindowView {
            id: self.id,
            win_name: match self.win_name {
                Some(n) => Some(n@),
                None => None,
            },
            physics_width: self.physics_width,
            physics_height: self.physics_height,
            border_width: self.border_width,
            header_height: self.header_height,
            is_active: self.is_active,
        }
    }
}

/// The frame of the window once its client area is known: where the work
/// area starts inside the window and the window's outer size.
#[derive(Clone, Copy, PartialEq, Eq, Structural, Debug)]
pub struct WindowFrame {
    pub workarea_offset_x: u64,
    pub workarea_offset_y: u64,
    pub outer_width: i32,
    pub outer_height: i32,
}

/// What the window procedure does with a message.
#[derive(Clone, Copy, PartialEq, Eq, Structural, Debug)]
pub enum WindowMessageAction {
    /// Hand the message to the default window procedure and return its result.
    DefaultProcedure,
    /// Return 0 without painting (painting is the renderer's).
    SkipPaint,
    /// Raise the work area's close flag and return 0.
    RequestClose,
    /// Post the quit message and return 0.
    PostQuit,
}

/// What the window procedure does with message `msg`.
pub fn window_message_action(msg: u32) -> (a: WindowMessageAction)
    ensures
        msg == WM_COMMAND ==> a == WindowMessageAction::DefaultProcedure,
        msg == WM_PAINT ==> a == WindowMessageAction::SkipPaint,
        msg == WM_CLOSE ==> a == WindowMessageAction::RequestClose,
        msg == WM_DESTROY ==> a == WindowMessageAction::PostQuit,
        msg != WM_COMMAND && msg != WM_PAINT && msg != WM_CLOSE && msg != WM_DESTROY ==> a
            == WindowMessageAction::DefaultProcedure,
{
    if msg == WM_COMMAND {
        WindowMessageAction::DefaultProcedure
    } else if msg == WM_PAINT {
        WindowMessageAction::SkipPaint
    } else if msg == WM_CLOSE {
        WindowMessageAction::RequestClose
    } else if msg == WM_DESTROY {
        WindowMessageAction::PostQuit
    } else {
        WindowMessageAction::DefaultProcedure
    }
}

impl WinWinodwE {
    /// An active window of the work area's size (`width` by `height`), with
    /// id 0, no name and no frame yet.
    pub fn from_work_area(width: u64, height: u64) -> (w: Self)
        ensures
            w@ == (WinWindowView {
                id: 0,
                win_name: None,
                physics_width: width,
                physics_height: height,
                border_width: 0,
                header_height: 0,
                is_active: true,
            }),
    {
        WinWinodwE {
            id: 0,
            win_name: None,
            physics_width: width,
            physics_height: height,
            border_width: 0,
            header_height: 0,
            is_active: true,
        }
    }

    /// Sets the window's id.
    pub fn set_id(&mut self, id_in: u64)
        ensures
            final(self)@ == (WinWindowView { id: id_in, ..old(self)@ }),
    {
        self.id = id_in;
    }

    /// The window's id, to change it.
    pub fn id_mut(&mut self) -> (r: &mut u64)
        ensures
            *r == old(self)@.id,
            final(self)@ == (WinWindowView { id: *final(r), ..old(self)@ }),
    {
        &mut self.id
    }

    /// The window as it is.
    pub fn build(self) -> (w: Self)
        ensures
            w@ == self@,
    {
        self
    }

    /// The window with physical width `width`.
    pub fn build_wnd_width(self, width: u64) -> (w: Self)
        ensures
            w@ == (WinWindowView { physics_width: width, ..self@ }),
    {
        let mut w = self;
        w.physics_width = width;
        w
    }

    /// The window with physical height `height`.
    pub fn build_wnd_height(self, height: u64) -> (w: Self)
        ensures
            w@ == (WinWindowView { physics_height: height, ..self@ }),
    {
        let mut w = self;
        w.physics_height = height;
        w
    }

    /// The window named after the application.
    pub fn build_link_app(self, app_refin: &ApplicationD) -> (w: Self)
        ensures
            w@ == (WinWindowView { win_name: Some(app_refin@.app_name), ..self@ }),
    {
        let mut w = self;
        w.win_name = Some(app_refin.get_app_name_clone());
        w
    }

    /// Sets the physical width.
    pub fn set_wnd_width(&mut self, width: u64)
        ensures
            final(self)@ == (WinWindowView { physics_width: width, ..old(self)@ }),
    {
        self.physics_width = width;
    }

    /// Sets the physical height.
    pub fn set_wnd_height(&mut self, height: u64)
        ensures
            final(self)@ == (WinWindowView { physics_height: height, ..old(self)@ }),
    {
        self.physics_height = height;
    }

    /// Names the window after the application.
    pub fn link_app(&mut self, app_refin: &ApplicationD)
        ensures
            final(self)@ == (WinWindowView { win_name: Some(app_refin@.app_name), ..old(self)@ }),
    {
        self.win_name = Some(app_refin.get_app_name_clone());
    }

    /// The window's name, when it has one.
    pub fn win_name(&self) -> (n: Option<String>)
        ensures
            match n {
                Some(s) => self@.win_name == Some(s@),
                None => self@.win_name is None,
            },
    {
        match &self.win_name {
            Some(s) => Some(s.clone()),
            None => None,
        }
    }

    /// Takes the frame from the client area's position inside the window
    /// (`client_left`, `client_top`): the border is as wide as the client area
    /// is from the left edge, and the header is what lies above the client area
    /// besides the border. The work area starts two borders in from the left and
    /// a header and two borders down; the window's outer size is the virtual
    /// size (`virtual_width` by `virtual_height`) plus two borders, and, in
    /// height, the header.
    pub fn update_window_rect(
        &mut self,
        client_left: i32,
        client_top: i32,
        virtual_width: u64,
        virtual_height: u64,
    ) -> (frame: WindowFrame)
        requires
            0 <= client_left <= client_top,
            virtual_width + 2 * client_left <= i32::MAX,
            virtual_height + client_left + client_top <= i32::MAX,
        ensures
            final(self)@ == (WinWindowView {
                border_width: client_left as u64,
                header_height: (client_top - client_left) as u64,
                ..old(self)@
            }),
            frame.workarea_offset_x == 2 * client_left,
            frame.workarea_offset_y == client_top + client_left,
            frame.outer_width == virtual_width + 2 * client_left,
            frame.outer_height == virtual_height + client_left + client_top,
    {
        let left = client_left as u64;
        let top = client_top as u64;
        self.border_width = left;
        self.header_height = top - left;
        let offset_x = self.border_width * 2;
        let offset_y = self.header_height + offset_x;
        let outer_width = (virtual_width + self.border_width * 2) as i32;
        let outer_height = (virtual_height + self.border_width * 2 + self.header_height) as i32;
        WindowFrame {
            workarea_offset_x: offset_x,
            workarea_offset_y: offset_y,
            outer_width,
            outer_height,
        }
    }
}

} // verus!
