//! A reactive component framework for a terminal dashboard that operates the
//! management API of dataspace connectors, together with the dashboard's components
//! and the data types of the API.
//!
//! The framework: envelopes and mappers (`envelope`), commands for background work
//! (`command`), what one call of a component hands back (`component_return`), the
//! component contract and the adapters that embed a child in its parent
//! (`component`), the actions that reach the root (`action`, `notification`), and the
//! runner that drives a root component tick by tick (`runner`).
//!
//! The components: `table`, `detail`, `resources`, `connectors`, `header`, `footer`,
//! `launch_bar` and the root, `application`.
//!
//! The API: `client`, `api`, `query`, `properties`, `policy`, `requests`, `types`,
//! and `entries`, which turns what the API reports into what the screens show.

pub mod action;
pub mod api;
pub mod application;
pub mod client;
pub mod command;
pub mod component;
pub mod component_return;
pub mod config;
pub mod connector;
pub mod connectors;
pub mod detail;
pub mod entries;
pub mod envelope;
pub mod event;
pub mod footer;
pub mod header;
pub mod info;
pub mod launch_bar;
pub mod nav;
pub mod notification;
pub mod policy;
pub mod properties;
pub mod query;
pub mod record;
pub mod requests;
pub mod resources;
pub mod runner;
pub mod table;
pub mod text;
pub mod text_area;
pub mod types;
