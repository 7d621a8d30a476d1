//! Where the parts of the dialog stand: three rows in a window of fixed
//! size, in logical units from the window's top left corner.

use vstd::prelude::*;

verus! {

/// The space kept free between the window's edge and its contents.
pub const MARGIN: i32 = 12;

/// The least width of a button.
pub const BUTTON_WIDTH: i32 = 75;

/// The least height of a button.
pub const BUTTON_HEIGHT: i32 = 23;

/// A rectangle: its top left corner, its width and its height.
#[derive(Clone, Copy, Debug, PartialEq, Eq, Structural)]
pub struct Rect {
    pub x: i32,
    pub y: i32,
    pub w: i32,
    pub h: i32,
}

impl Rect {
    /// The first column to the right of the rectangle.
    pub open spec fn right(&self) -> int {
        self.x + self.w
    }

    /// The first row below the rectangle.
    pub open spec fn bottom(&self) -> int {
        self.y + self.h
    }

    /// The rectangle lies within a window of the given size, the margin
    /// kept free on every side.
    pub open spec fn fits(&self, width: int, height: int) -> bool {
        &&& self.w > 0
        &&& self.h > 0
        &&& MARGIN <= self.x
        &&& MARGIN <= self.y
        &&& self.right() <= width - MARGIN
        &&& self.bottom() <= height - MARGIN
    }
}

/// The dialog's geometry.
#[derive(Clone, Copy, Debug, PartialEq, Eq, Structural)]
pub struct Layout {
    /// The size of the window.
    pub width: i32,
    pub height: i32,
    /// First row: a label and the field that shows the target directory.
    pub path_label: Rect,
    pub path_field: Rect,
    /// Second row: a label and the field that holds the folder's name.
    pub name_label: Rect,
    pub name_field: Rect,
    /// Third row: the two buttons.
    pub ok_button: Rect,
    pub cancel_button: Rect,
}

/// The geometry of the dialog.
pub open spec fn standard() -> Layout {
    Layout {
        width: 342,
        height: 101,
        path_label: Rect { x: 12, y: 15, w: 88, h: 12 },
        path_field: Rect { x: 130, y: 12, w: 200, h: 21 },
        name_label: Rect { x: 12, y: 42, w: 112, h: 12 },
        name_field: Rect { x: 130, y: 39, w: 200, h: 21 },
        ok_button: Rect { x: 174, y: 66, w: 75, h: 23 },
        cancel_button: Rect { x: 255, y: 66, w: 75, h: 23 },
    }
}

impl Layout {
    /// Every part lies within the window.
    pub open spec fn within_window(&self) -> bool {
        &&& self.path_label.fits(self.width as int, self.height as int)
        &&& self.path_field.fits(self.width as int, self.height as int)
        &&& self.name_label.fits(self.width as int, self.height as int)
        &&& self.name_field.fits(self.width as int, self.height as int)
        &&& self.ok_button.fits(self.width as int, self.height as int)
        &&& self.cancel_button.fits(self.width as int, self.height as int)
    }

    /// The three rows stand one below the other, and in each of the first
    /// two the label stands left of its field.
    pub open spec fn rows_in_order(&self) -> bool {
        &&& self.path_label.right() <= self.path_field.x
        &&& self.name_label.right() <= self.name_field.x
        &&& self.path_label.bottom() <= self.name_label.y
        &&& self.path_field.bottom() <= self.name_field.y
        &&& self.name_label.bottom() <= self.ok_button.y
        &&& self.name_field.bottom() <= self.ok_button.y
    }

    /// The two fields start at the same column and fill the row up to the
    /// right margin.
    pub open spec fn fields_fill_rows(&self) -> bool {
        &&& self.path_field.x == self.name_field.x
        &&& self.path_field.right() == self.width - MARGIN
        &&& self.name_field.right() == self.width - MARGIN
    }

    /// The buttons are of equal size, no smaller than the least size, in one
    /// row, OK left of Cancel, and Cancel ends at the right margin.
    pub open spec fn buttons_right_aligned(&self) -> bool {
        &&& self.ok_button.w >= BUTTON_WIDTH
        &&& self.ok_button.h >= BUTTON_HEIGHT
        &&& self.cancel_button.w == self.ok_button.w
        &&& self.cancel_button.h == self.ok_button.h
        &&& self.ok_button.y == self.cancel_button.y
        &&& self.ok_button.right() <= self.cancel_button.x
        &&& self.cancel_button.right() == self.width - MARGIN
    }

    /// The geometry of the dialog.
    pub fn new() -> (layout: Layout)
        ensures
            layout == standard(),
            layout.within_window(),
            layout.rows_in_order(),
            layout.fields_fill_rows(),
            layout.buttons_right_aligned(),
    {
        let field_x: i32 = 130;
        let field_w: i32 = 200;
        let right: i32 = field_x + field_w;
        let cancel_x: i32 = right - BUTTON_WIDTH;
        let gap: i32 = 6;
        let ok_x: i32 = cancel_x - gap - BUTTON_WIDTH;
        Layout {
            width: right + MARGIN,
            height: 101,
            path_label: Rect { x: MARGIN, y: 15, w: 88, h: 12 },
            path_field: Rect { x: field_x, y: 12, w: field_w, h: 21 },
            name_label: Rect { x: MARGIN, y: 42, w: 112, h: 12 },
            name_field: Rect { x: field_x, y: 39, w: field_w, h: 21 },
            ok_button: Rect { x: ok_x, y: 66, w: BUTTON_WIDTH, h: BUTTON_HEIGHT },
            cancel_button: Rect { x: cancel_x, y: 66, w: BUTTON_WIDTH, h: BUTTON_HEIGHT },
        }
    }
}

} // verus!
