# draw

A CPU renderer that draws textured, lit triangle meshes into a frame buffer
and shows it in an X11 or Wayland window, with a small immediate-mode user
interface.

The crate is written in Verus: the library under `src/` states what each
function does in its contract, and Verus proves the code against it.

## Library (`src/`)

- `pixel`: pixels in frame-buffer byte order, named colours, channel blending.
- `canvas`: the frame buffer, pixel access with `y` growing upwards, byte
  layout of a frame.
- `line`: midpoint rasterization of segments.
- `raster`: triangle coverage with a tie rule for pixels on edges, and the
  barycentric weights of the covered pixels.
- `texture`: texel lookup in RGB and RGBA images.
- `mesh`: triangulation of OBJ faces, mesh building, transparency split,
  mesh summaries.
- `objfile`: reading OBJ text through the obj crate (with a check for the
  texts its parser cannot slice), and building an object's meshes from its
  groups with every index in range.
- `mtlfile`: reading MTL material libraries through the obj crate, and the
  texture names of an object.
- `decorator`: layout of the window frame (title bar, buttons, side bars) and
  the frame part under the pointer.
- `keys`, `events`: X11 keysyms, the X11 window's event handling, Wayland
  pointer buttons and frame geometry.
- `control`, `export`, `gui_input`: camera navigation from keys and pointer,
  frame export, user-interface input (mouse changes, key table) and cursor
  updates.
- `microbench`: a cycle-counter stopwatch.

## Application (`app/`)

The program around the library: the X11 and Wayland windows, the imgui user
interface, file loading and saving, and the floating-point 3D pipeline
(camera, clipping, projection, shading).
