# rearview-mirror

A webcam "rear-view mirror" overlay for Windows. `src/` is the verified
core: the display state machine driven by the global shortcut and the tray
(`display`), the window geometry derived from the taskbar (`geometry`),
dragging the mirror with the pointer (`tracking`), the topmost overlay
style and its refresh loop (`overlay`) and the tray menu commands
(`menu`). `app/` is the Tauri shell that reads the system, performs the
window actions the core asks for, and runs the threads.
