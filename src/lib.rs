//! Navigation core of a terminal story browser: the story list view with its
//! focus and raw command buffer, the ordered key-binding chain that sits on top
//! of it, and the layer stack that drill-down navigation mutates.
pub mod raw_command;
pub mod story;
pub mod styled;
pub mod event;
pub mod story_view;
pub mod layers;
