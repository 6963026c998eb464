# Measure

An area take-off tool for calibrated PDF drawings: outlines are traced over a
page as cubic Bézier curves, holes are punched in them, and each area is
reported in real units. The measuring core is a library verified with Verus;
the window, the PDF rendering, the files and all floating-point geometry sit
around it in `app/`.

## Layout

- `src/` is the verified library.
  - `plane.rs`: kurbo's points, vectors, cubics and paths, declared for Verus,
    and the kurbo calls the library makes.
  - `doc.rs`: anchors, subpaths and measurements, and their models.
  - `geom.rs`: outlines as kurbo paths and segments, reversal, and winding a
    hole against its outline.
  - `tools.rs`: the pen, the editor's hit test, dragging, deleting, toggling
    and removing outlines.
  - `picking.rs`: which outline, of which area, a click lands on.
  - `snapping.rs`: which anchors a placement can be pulled onto.
  - `controls.rs`: the tools, the key bindings, and what the hand holds.
  - `history.rs`: undo and redo.
  - `sheet.rs`: units and the sheets work is filed under.
  - `files.rs`: where a project is kept, and how its paths are written.
- `tests/` runs the library on concrete values.
- `app/` is the desktop application: egui, PDFium, serde, CSV, and the
  geometry that is measured in floating point.
