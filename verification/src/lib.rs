//! Core runtime of a terminal comic browser: the typed action bus and its
//! FIFO drain cycle, the page state machine that routes input and applies
//! actions, and the planning and progress accounting of the concurrent
//! chapter downloader. Everything here is verified; terminal drawing,
//! network fetches and site scraping live outside, behind plain-value
//! interfaces.

pub mod app;
pub mod comic;
pub mod comic_page;
pub mod config;
pub mod download;
pub mod event_handler;
pub mod helpers;
pub mod loading_screen;
pub mod main_page;
pub mod progress;
pub mod search_page;
pub mod sources;
pub mod text;
