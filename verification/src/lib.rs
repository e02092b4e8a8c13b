//! Verified core of a Discord bot that posts random images from booru APIs.
pub mod text;
pub mod num;
pub mod cli;
pub mod json;
pub mod textmap;
pub mod outside;
pub mod config;
pub mod booru;
pub mod responses;
pub mod i18n;
pub mod post_cache;
pub mod posts;
pub mod images;
pub mod fetch;
pub mod admin;
pub mod admin_cmd;
pub mod records;
pub mod admin_reply;
pub mod panel;
pub mod panel_route;
pub mod json_object;
pub mod panel_form;
pub mod dispatch;
pub mod startup;
pub mod inline;
