# triangle_scene

Two triangles seen through a perspective camera (focal length 5, image plane
640 x 480 with 0.01-unit pixels). Triangle A has a triangular hole; in part
two of the task both triangles rotate for 180 frames.

- `src/` is the verified library: index buffers of the meshes and their
  properties, the vertex layout, the animation schedule (angles in tenths of
  a degree), the frame-rate counter, and the decisions the render loop takes
  on window and surface events.
- `app/` runs the window (winit) and the GPU (wgpu): it builds the matrices
  with glam, holds the floating-point vertex data and the WGSL program, and
  carries out what the library decides.
- `tests/` exercises the library on concrete values.
