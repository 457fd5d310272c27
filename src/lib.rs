//! A terminal client for a TeamCity server: the action-dispatch runtime, the
//! project-list and build-list screens, and the response cache, with their
//! behaviour stated in contracts and proved.

pub mod action;
pub mod app;
pub mod cache;
pub mod cli;
pub mod components;
pub mod teamcity;
pub mod text;
pub mod time;
