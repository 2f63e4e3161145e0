//! Verified core of the Vauchi GTK shell: the decisions the desktop frontend
//! makes about Core's presentation commands, kept free of widget types.

pub mod navigation_icons;
pub mod text;
pub mod presentation;
pub mod contextual_surface;
pub mod overlays;
pub mod commands;
pub mod exchange;
pub mod targets;
pub mod sidebar;
pub mod images;
pub mod controls;
pub mod theme;
pub mod locale;
pub mod fonts;
pub mod qr;
pub mod chrome;
pub mod components;
pub mod action_handler;
pub mod launch;
pub mod catalog;
