# jandering_engine

A small wgpu/winit rendering engine and the platformer game built on it.

`src/` is the engine's logic as a Verus-verified library: resource handles
and stores, vertex and bind group layouts, texture and pipeline plans, the
grouping of recorded render steps into GPU passes, the event queue and the
engine's answer to each window event, the camera controllers' key state, and
the game's rules (map format, states, editor commands, menu buttons, bloom
pass). Every public function carries a contract that Verus proves; laws that
relate several calls are public proof functions next to the code they speak
of. Two calls leave the library: `image` decodes image files and `bytemuck`
turns integers into bytes, each behind a small trusted wrapper.

`app/` is the program around it: the winit event loop, the conversion of
winit events, the wgpu device, surface and GPU objects behind the library's
handles, and the floating-point parts (camera motion, button animation,
cursor positions).

`tests/` exercises the library on concrete values.
