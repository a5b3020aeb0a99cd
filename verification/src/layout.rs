//! The application layout: a skeleton (header, sidebar, body, footer)
//! plus the overlays drawn above it. Every slot holds whatever content
//! type the renderer uses; this crate only decides where each goes.

use vstd::prelude::*;
use crate::direction::LayoutDirection;
use crate::toast::{Toast, ToastPosition};
use crate::sheet::{SheetEdge, SheetSize};

verus! {

/// A centred modal dialog.
pub struct Dialog<E> {
    pub content: E,
}

impl<E> Dialog<E> {
    /// A dialog showing `content`.
    pub fn new(content: E) -> (dialog: Self)
        ensures
            dialog.content == content,
    {
        Dialog { content }
    }
}

/// An edge-anchored modal panel.
pub struct Sheet<E> {
    pub content: E,
    pub edge: SheetEdge,
    pub size: SheetSize,
}

impl<E> Sheet<E> {
    /// A sheet showing `content`, anchored to the bottom edge, one third
    /// of the window deep.
    pub fn new(content: E) -> (sheet: Self)
        ensures
            sheet.content == content,
            sheet.edge == SheetEdge::Bottom,
            sheet.size == SheetSize::OneThird,
    {
        Sheet { content, edge: SheetEdge::Bottom, size: SheetSize::OneThird }
    }

    /// The same sheet anchored to `edge`.
    pub fn at(self, edge: SheetEdge) -> (sheet: Self)
        ensures
            sheet == (Sheet { edge, ..self }),
    {
        Sheet { edge, ..self }
    }

    /// The same sheet with another size.
    pub fn size(self, size: SheetSize) -> (sheet: Self)
        ensures
            sheet == (Sheet { size, ..self }),
    {
        Sheet { size, ..self }
    }
}

/// Everything an application hands over to be composed: skeleton slots,
/// overlays, the toast queue and the close messages.
pub struct AppLayout<E, M> {
    pub header: Option<E>,
    pub side_bar: Option<E>,
    pub body: E,
    pub footer: Option<E>,
    pub header_menu: Option<E>,
    pub context_menu: Option<E>,
    pub dialog: Option<Dialog<E>>,
    pub sheet: Option<Sheet<E>>,
    pub toasts: Vec<Toast<M>>,
    pub toast_position: ToastPosition,
    pub direction: LayoutDirection,
    pub on_close_menus: Option<M>,
    pub on_close_modals: Option<M>,
}

impl<E, M> AppLayout<E, M> {
    /// A layout holding only `body`: no chrome, no overlay, no toast,
    /// left to right, toasts anchored at the bottom end.
    pub fn new(body: E) -> (layout: Self)
        ensures
            layout.body == body,
            layout.header is None,
            layout.side_bar is None,
            layout.footer is None,
            layout.header_menu is None,
            layout.context_menu is None,
            layout.dialog is None,
            layout.sheet is None,
            layout.toasts@.len() == 0,
            layout.toast_position == ToastPosition::BottomEnd,
            layout.direction == LayoutDirection::Ltr,
            layout.on_close_menus is None,
            layout.on_close_modals is None,
    {
        AppLayout {
            header: None,
            side_bar: None,
            body,
            footer: None,
            header_menu: None,
            context_menu: None,
            dialog: None,
            sheet: None,
            toasts: Vec::new(),
            toast_position: ToastPosition::BottomEnd,
            direction: LayoutDirection::Ltr,
            on_close_menus: None,
            on_close_modals: None,
        }
    }

    /// Sets the header slot.
    pub fn header(self, header: E) -> (layout: Self)
        ensures
            layout == (AppLayout { header: Some(header), ..self }),
    {
        AppLayout { header: Some(header), ..self }
    }

    /// Sets the sidebar slot.
    pub fn side_bar(self, side_bar: E) -> (layout: Self)
        ensures
            layout == (AppLayout { side_bar: Some(side_bar), ..self }),
    {
        AppLayout { side_bar: Some(side_bar), ..self }
    }

    /// Sets the footer slot.
    pub fn footer(self, footer: E) -> (layout: Self)
        ensures
            layout == (AppLayout { footer: Some(footer), ..self }),
    {
        AppLayout { footer: Some(footer), ..self }
    }

    /// Opens a dropdown under the header.
    pub fn header_menu(self, menu: E) -> (layout: Self)
        ensures
            layout == (AppLayout { header_menu: Some(menu), ..self }),
    {
        AppLayout { header_menu: Some(menu), ..self }
    }

    /// Opens a floating context menu.
    pub fn context_menu(self, menu: E) -> (layout: Self)
        ensures
            layout == (AppLayout { context_menu: Some(menu), ..self }),
    {
        AppLayout { context_menu: Some(menu), ..self }
    }

    /// Opens a dialog.
    pub fn dialog(self, dialog: Dialog<E>) -> (layout: Self)
        ensures
            layout == (AppLayout { dialog: Some(dialog), ..self }),
    {
        AppLayout { dialog: Some(dialog), ..self }
    }

    /// Opens a sheet.
    pub fn sheet(self, sheet: Sheet<E>) -> (layout: Self)
        ensures
            layout == (AppLayout { sheet: Some(sheet), ..self }),
    {
        AppLayout { sheet: Some(sheet), ..self }
    }

    /// Sets the toast queue (oldest first).
    pub fn toasts(self, toasts: Vec<Toast<M>>) -> (layout: Self)
        ensures
            layout == (AppLayout { toasts, ..self }),
    {
        AppLayout { toasts, ..self }
    }

    /// Anchors the toast stack.
    pub fn toast_position(self, toast_position: ToastPosition) -> (layout: Self)
        ensures
            layout == (AppLayout { toast_position, ..self }),
    {
        AppLayout { toast_position, ..self }
    }

    /// Sets the reading direction.
    pub fn direction(self, direction: LayoutDirection) -> (layout: Self)
        ensures
            layout == (AppLayout { direction, ..self }),
    {
        AppLayout { direction, ..self }
    }

    /// The message emitted by a click outside an open menu.
    pub fn on_close_menus(self, message: M) -> (layout: Self)
        ensures
            layout == (AppLayout { on_close_menus: Some(message), ..self }),
    {
        AppLayout { on_close_menus: Some(message), ..self }
    }

    /// The message emitted by a click or scroll on the modal dim.
    pub fn on_close_modals(self, message: M) -> (layout: Self)
        ensures
            layout == (AppLayout { on_close_modals: Some(message), ..self }),
    {
        AppLayout { on_close_modals: Some(message), ..self }
    }
}

} // verus!
