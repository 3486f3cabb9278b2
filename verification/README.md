# voxel_game

The rules and book-keeping of a voxel game's engine, verified with Verus, and a thin
application around them.

- `src/math`: integer vectors and colors with lane-wise operators, chunk indexing,
  alignment, regions, and chunk distances computed exactly as single-precision floating point
  rounds them.
- `src/inputs.rs`: key and mouse button state across frames.
- `src/game.rs`: the game's flow (loading, pausing, entering and leaving the world), its
  event queue, the events that the escape key and the end of loading queue, and the work each
  update does.
- `src/render`: the decisions of the renderer: a cache of the OpenGL context state, vertex
  array and shader book-keeping, GPU buffer flags and placement rules, vertex input layouts,
  materials, the renderer's default materials and when their pipelines are rebuilt, image
  layout transitions, buffer ownership transfer, the draw lists and everything recorded for each
  draw, draw order, binding and push constant tracking, the vertex buffers a mesh binds and
  when it recreates them, pipeline layouts, draw profiles of shared mesh buffers, queue
  family and swapchain choices, and the release schedule of retired GPU resources.
- `app`: the window, the OpenGL and Vulkan calls, and the floating-point math, which the
  library cannot hold.
