//! The reactive core of a retained-mode widget toolkit.
//!
//! A tree of widgets, each over its own type of data, is kept in step with
//! the state of an application: an event reaches the tree, widgets change
//! the data, the data is compared, the tree is laid out and painted. Around
//! that protocol stand the means of composing a tree: lenses that show a
//! widget a part of the data, scopes that give a subtree state of its own,
//! content sets that derive children from data, bindings between data and
//! properties of widgets, and tabs.

pub mod app;
pub mod binding;
pub mod chain;
pub mod content;
pub mod context;
pub mod data;
pub mod event;
pub mod geometry;
pub mod keyed;
pub mod label;
pub mod lens;
pub mod lens_wrap;
pub mod list;
pub mod scope;
pub mod screen;
pub mod scroll;
pub mod slots;
pub mod stacking;
pub mod sub_window;
pub mod tab_bar;
pub mod tab_body;
pub mod tab_policy;
pub mod tabs;
pub mod widget;
pub mod window;
pub mod with_info;
