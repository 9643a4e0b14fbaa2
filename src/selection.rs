use vstd::prelude::*;
use crate::aabb2i::Aabb2i;
use crate::vec2i::Vec2i;

verus! {

/// The one-cell box whose `min` is `cell`.
pub open spec fn cell_box(cell: Vec2i) -> Aabb2i {
    Aabb2i::spanned(cell, Vec2i::of(cell.x + 1, cell.y + 1))
}

/// `p` lies between the cells `a` and `b`, both included, on both axes.
pub open spec fn between_cells(p: Vec2i, a: Vec2i, b: Vec2i) -> bool {
    &&& (a.x <= p.x <= b.x || b.x <= p.x <= a.x)
    &&& (a.y <= p.y <= b.y || b.y <= p.y <= a.y)
}

/// A cell has a cell after it on both axes.
pub open spec fn has_next_cell(cell: Vec2i) -> bool {
    cell.x < i32::MAX && cell.y < i32::MAX
}

/// The cells selected in an atlas, and the cell where the current drag began.
#[derive(Copy, Clone, Debug, PartialEq, Eq, Hash, Structural)]
pub struct CellSelection {
    pub selected_cells: Aabb2i,
    pub drag_start_cell: Vec2i,
}

impl CellSelection {
    pub open spec fn wf(self) -> bool {
        has_next_cell(self.drag_start_cell)
    }

    /// Nothing selected, a drag starting at the origin.
    pub fn new() -> (r: CellSelection)
        ensures
            r.wf(),
            r.selected_cells.spec_is_empty(),
            r.drag_start_cell == Vec2i::of(0, 0),
    {
        CellSelection { selected_cells: Aabb2i::new_empty(), drag_start_cell: Vec2i::zero() }
    }

    /// The selection after one frame of input over the atlas.
    ///
    /// With no hovered cell nothing changes. A click on a cell starts a drag there and selects
    /// that cell; while the mouse is dragged, the selection is the bounding box of the cell where
    /// the drag began and the hovered cell.
    pub fn update(&self, hovered_cell: Option<Vec2i>, clicked: bool, dragging: bool) -> (r:
        CellSelection)
        requires
            self.wf(),
            hovered_cell matches Some(c) ==> has_next_cell(c),
        ensures
            r.wf(),
            match hovered_cell {
                None => r == *self,
                Some(c) => {
                    &&& r.drag_start_cell == (if clicked { c } else { self.drag_start_cell })
                    &&& r.selected_cells == (if dragging {
                        cell_box(r.drag_start_cell).spec_union(cell_box(c))
                    } else if clicked {
                        cell_box(c)
                    } else {
                        self.selected_cells
                    })
                    &&& dragging ==> forall|p: Vec2i|
                        #[trigger] r.selected_cells.spec_contains(p) <==> between_cells(
                            p,
                            r.drag_start_cell,
                            c,
                        )
                },
            },
    {
        let hovered_cell = match hovered_cell {
            Some(c) => c,
            None => {
                return *self;
            },
        };
        let hovered_cell_range = Aabb2i::from_min_point(hovered_cell, Vec2i::splat(1));
        let mut next = *self;
        if clicked {
            next.drag_start_cell = hovered_cell;
            next.selected_cells = hovered_cell_range;
        }
        if dragging {
            let start_range = Aabb2i::from_min_point(next.drag_start_cell, Vec2i::splat(1));
            next.selected_cells = start_range.union(&hovered_cell_range);
        }
        next
    }
}

} // verus!
