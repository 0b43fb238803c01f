# dse

The verified core of the dse editor, written in Verus.

- `src/toml_decoder.rs`: reading the blocks (`### BEGIN name` .. `### END name`)
  and the tables (`[[name]]`) of an annotated TOML configuration text.
- `src/text.rs`: lines, substrings and replacement on character sequences.
- `src/model.rs`: models, their node tree and the planning of global
  transform updates.
- `src/application.rs`: the application record.
- `src/shader.rs`: shader texts and shader modules.
- `src/vk_setup.rs`, `src/vk_api.rs`: the decisions taken while setting up
  Vulkan (device, queues, enabled names, validation messages) and the calls
  into `ash` they rest on.
- `src/vk_base.rs`: the Vulkan setup, built step by step; each step takes
  what a driver call produced and records it.
- `src/window.rs`: the editor window's size, frame and message handling.

`app/` is the program around the library: configuration file, TOML parsing,
paths, the Vulkan driver calls and the Win32 window.
