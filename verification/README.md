# hobby

A small Vulkan renderer and glTF toolbox, split in two:

- `src/` is the library, verified with Verus. It holds the renderer's decisions and
  the tools' logic, each function with a contract:
  - `settings`: application info and the Vulkan version encoding (with laws: the
    encoding round-trips, is injective and keeps the order of versions).
  - `renderer`: queue-family search, device suitability and choice, validation layers
    and instance extensions, swapchain image count, transform, present mode and surface
    format, memory-type search, what to do with acquire and present results, frame
    slots, shader sources and SPIR-V decoding, material vertex conversion.
  - `graphics`: queue plan for device creation, queue families from their flags,
    the validation-report log level, the basic pipeline's vertices.
  - `geometry`: vertices, the vertex builder and meshes.
  - `tools`: the frame timers and the glTF tools: the details report of a document
    (scenes, nodes, cameras, meshes, primitives, materials), the scene summary, and the
    assembly of meshes from primitive data.
  - `gpu`: decoding a texture's JPEG bytes into an RGBA image (through the `image`
    crate).
  - `game`: what a batch of window events means for the game loop.
  - `path`, `text`, `search`: file-name parts, number and text formatting, and the
    searches the rest is built on.
- `app/` is ordinary Rust around the library: the window and its events (winit), the
  Vulkan calls (ash, and vulkano for device setup), glTF import (gltf), files, the clock,
  logging, shader compilation (shaderc) and the floating-point model transforms
  (nalgebra). It gathers inputs, hands them to the library as plain values and carries
  out what comes back.
- `tests/` runs the library on concrete values.
